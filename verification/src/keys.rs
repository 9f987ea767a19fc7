//! Key derivation: from a namespace tag and the fields that tell a record
//! apart to the address of its slot and the nonce that goes with it.

use vstd::prelude::*;
use vstd::slice::slice_to_vec;
use vstd::utf8::encode_utf8;
use anchor_lang::prelude::Pubkey;
use crate::identity::Identity;

verus! {

/// The most seeds that an address can be derived from; one more is the nonce.
pub const MAX_SEEDS: usize = 15;

/// The most bytes that one seed can hold.
pub const MAX_SEED_LENGTH: usize = 32;

/// The namespaces of the keyspace, one per family of records.
#[derive(Clone, Copy, Debug, PartialEq, Eq, Structural)]
pub enum Namespace {
    AccessStorage,
    FormationStorage,
    SessionStorage,
    AttendanceStorage,
    Request,
    Formation,
    Session,
    Attendance,
    TokenMint,
    TokenAccount,
}

impl Namespace {
    /// The bytes of the tag of each namespace.
    pub open spec fn tag_bytes(self) -> Seq<u8> {
        match self {
            Namespace::AccessStorage => encode_utf8("access-storage"@),
            Namespace::FormationStorage => encode_utf8("formation-storage"@),
            Namespace::SessionStorage => encode_utf8("session-storage"@),
            Namespace::AttendanceStorage => encode_utf8("attendance-storage"@),
            Namespace::Request => encode_utf8("request"@),
            Namespace::Formation => encode_utf8("formation"@),
            Namespace::Session => encode_utf8("session"@),
            Namespace::Attendance => encode_utf8("attendance"@),
            Namespace::TokenMint => encode_utf8("token-mint"@),
            Namespace::TokenAccount => encode_utf8("token-account"@),
        }
    }

    /// The tag of the namespace: the first seed of every address in it.
    pub fn tag(self) -> (out: Vec<u8>)
        ensures
            out@ == self.tag_bytes(),
    {
        let text = match self {
            Namespace::AccessStorage => "access-storage",
            Namespace::FormationStorage => "formation-storage",
            Namespace::SessionStorage => "session-storage",
            Namespace::AttendanceStorage => "attendance-storage",
            Namespace::Request => "request",
            Namespace::Formation => "formation",
            Namespace::Session => "session",
            Namespace::Attendance => "attendance",
            Namespace::TokenMint => "token-mint",
            Namespace::TokenAccount => "token-account",
        };
        slice_to_vec(text.as_bytes())
    }
}

/// An address together with the nonce that was found for it.
#[derive(Clone, Copy, Debug, PartialEq, Eq)]
pub struct DerivedKey {
    pub address: Identity,
    pub bump: u8,
}

impl View for DerivedKey {
    type V = (Seq<u8>, u8);

    open spec fn view(&self) -> (Seq<u8>, u8) {
        (self.address@, self.bump)
    }
}

/// What a derivation found, as contracts see it: an address and a nonce.
pub type Found = Option<(Seq<u8>, u8)>;

/// A key that may be missing, as contracts see it.
pub open spec fn key_view(key: Option<DerivedKey>) -> Found {
    match key {
        Some(k) => Some(k@),
        None => None,
    }
}

/// The address and nonce that the addressing scheme gives to a list of seeds
/// under a program, or `None` where it gives none.
pub uninterp spec fn derived_address(seeds: Seq<Seq<u8>>, program: Seq<u8>) -> Option<(Seq<u8>, u8)>;

/// The seeds of a derivation, each as its bytes.
pub open spec fn seed_views(seeds: Seq<Vec<u8>>) -> Seq<Seq<u8>> {
    Seq::new(seeds.len(), |i: int| seeds[i]@)
}

/// Whether a list of seeds is within what the addressing scheme accepts.
pub open spec fn seeds_in_bounds(seeds: Seq<Seq<u8>>) -> bool {
    &&& seeds.len() <= MAX_SEEDS
    &&& forall|i: int| 0 <= i < seeds.len() ==> (#[trigger] seeds[i]).len() <= MAX_SEED_LENGTH
}

/// Calls `Pubkey::try_find_program_address` of `anchor_lang`'s prelude.
///
/// Trusted: the result is a function of the seeds and the program alone, and
/// there is none when there are sixteen seeds or more, or a seed of more than
/// 32 bytes.
#[verifier::external_body]
fn try_find_program_address(seeds: &Vec<Vec<u8>>, program: &Identity) -> (found: Option<DerivedKey>)
    ensures
        key_view(found) == derived_address(seed_views(seeds@), program@),
        !seeds_in_bounds(seed_views(seeds@)) ==> found is None,
{
    let parts: Vec<&[u8]> = seeds.iter().map(|seed| seed.as_slice()).collect();
    let program_id = Pubkey::new_from_array(program.bytes);
    match Pubkey::try_find_program_address(&parts, &program_id) {
        Some((address, bump)) => Some(
            DerivedKey { address: Identity { bytes: address.to_bytes() }, bump },
        ),
        None => None,
    }
}

/// Derives the address and nonce of the slot named by `seeds` under `program`.
///
/// The same seeds under the same program always give the same key. Seeds
/// beyond the bounds of the addressing scheme give none.
pub fn derive(seeds: &Vec<Vec<u8>>, program: &Identity) -> (key: Option<DerivedKey>)
    ensures
        key_view(key) == derived_address(seed_views(seeds@), program@),
        !seeds_in_bounds(seed_views(seeds@)) ==> key is None,
{
    try_find_program_address(seeds, program)
}

/// The seeds of the one slot of a namespace.
pub open spec fn singleton_seeds(namespace: Namespace) -> Seq<Seq<u8>> {
    seq![namespace.tag_bytes()]
}

/// The key of the one slot of a namespace under a program.
pub open spec fn singleton_key(namespace: Namespace, program: Seq<u8>) -> Found {
    derived_address(singleton_seeds(namespace), program)
}

/// The seeds of a slot told apart by one field.
pub open spec fn keyed_seeds(namespace: Namespace, part: Seq<u8>) -> Seq<Seq<u8>> {
    seq![namespace.tag_bytes(), part]
}

/// The seeds of a slot told apart by two fields.
pub open spec fn paired_seeds(namespace: Namespace, first: Seq<u8>, second: Seq<u8>) -> Seq<
    Seq<u8>,
> {
    seq![namespace.tag_bytes(), first, second]
}

/// The key of the one slot of a namespace.
pub fn derive_singleton(namespace: Namespace, program: &Identity) -> (key: Option<DerivedKey>)
    ensures
        key_view(key) == singleton_key(namespace, program@),
{
    let mut seeds: Vec<Vec<u8>> = Vec::new();
    seeds.push(namespace.tag());
    assert(seed_views(seeds@) =~= singleton_seeds(namespace));
    derive(&seeds, program)
}

/// The key of a slot told apart by one field.
pub fn derive_keyed(namespace: Namespace, part: Vec<u8>, program: &Identity) -> (key: Option<
    DerivedKey,
>)
    ensures
        key_view(key) == derived_address(keyed_seeds(namespace, part@), program@),
        part@.len() > MAX_SEED_LENGTH ==> key is None,
{
    let ghost part_view = part@;
    let mut seeds: Vec<Vec<u8>> = Vec::new();
    seeds.push(namespace.tag());
    seeds.push(part);
    assert(seed_views(seeds@) =~= keyed_seeds(namespace, part_view));
    assert(seed_views(seeds@)[1] == part_view);
    derive(&seeds, program)
}

/// The key of a slot told apart by two fields.
pub fn derive_paired(
    namespace: Namespace,
    first: Vec<u8>,
    second: Vec<u8>,
    program: &Identity,
) -> (key: Option<DerivedKey>)
    ensures
        key_view(key) == derived_address(paired_seeds(namespace, first@, second@), program@),
        first@.len() > MAX_SEED_LENGTH || second@.len() > MAX_SEED_LENGTH ==> key is None,
{
    let ghost first_view = first@;
    let ghost second_view = second@;
    let mut seeds: Vec<Vec<u8>> = Vec::new();
    seeds.push(namespace.tag());
    seeds.push(first);
    seeds.push(second);
    assert(seed_views(seeds@) =~= paired_seeds(namespace, first_view, second_view));
    assert(seed_views(seeds@)[1] == first_view);
    assert(seed_views(seeds@)[2] == second_view);
    derive(&seeds, program)
}

} // verus!
