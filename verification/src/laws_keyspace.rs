//! What holds of the keyspace: every account lives at the address derived
//! from its own fields, so that possession of a credential is a proof.

use vstd::prelude::*;
use vstd::utf8::{encode_utf8, encode_utf8_decode_utf8};
use crate::auth::{credential_seeds, holds_role, role_key};
use crate::gated;
use crate::gated::{next_attendance_key, sequenced_attendance_seeds};
use crate::identity::Identity;
use crate::keys::{derived_address, keyed_seeds, singleton_key, singleton_seeds, Namespace};
use crate::records::{AccountView, RequestStatus, State};
use crate::registry;
use crate::registry::{
    attendance_seeds, formation_seeds, formation_slot_key, next_session_key, request_seeds,
    sequence_seeds, transition_outcome,
};

verus! {

/// The seeds that the fields of an account name.
pub open spec fn anchor_of(account: AccountView) -> Seq<Seq<u8>> {
    match account {
        AccountView::AccessStorage(_) => singleton_seeds(Namespace::AccessStorage),
        AccountView::FormationStorage(_) => singleton_seeds(Namespace::FormationStorage),
        AccountView::SessionStorage(_) => singleton_seeds(Namespace::SessionStorage),
        AccountView::AttendanceStorage(_) => singleton_seeds(Namespace::AttendanceStorage),
        AccountView::TokenMint(_) => singleton_seeds(Namespace::TokenMint),
        AccountView::Request(request) => request_seeds(request.requester@),
        AccountView::Formation(formation) => formation_seeds(formation.id),
        AccountView::Session(session) => keyed_seeds(Namespace::Session, encode_utf8(session.id)),
        AccountView::TimedSession(session) => sequence_seeds(Namespace::Session, session.id),
        AccountView::Attendance(attendance) => attendance_seeds(
            attendance.student@,
            attendance.session_id,
        ),
        AccountView::SequencedAttendance(attendance) => sequenced_attendance_seeds(
            attendance.student@,
            attendance.id,
        ),
        AccountView::RoleToken(token) => credential_seeds(token.owner@, token.role),
    }
}

/// The nonce that an account stores.
pub open spec fn bump_of(account: AccountView) -> u8 {
    match account {
        AccountView::AccessStorage(storage) => storage.bump,
        AccountView::FormationStorage(storage) => storage.bump,
        AccountView::SessionStorage(storage) => storage.bump,
        AccountView::AttendanceStorage(storage) => storage.bump,
        AccountView::TokenMint(storage) => storage.bump,
        AccountView::Request(request) => request.bump,
        AccountView::Formation(formation) => formation.bump,
        AccountView::Session(session) => session.bump,
        AccountView::TimedSession(session) => session.bump,
        AccountView::Attendance(attendance) => attendance.bump,
        AccountView::SequencedAttendance(attendance) => attendance.bump,
        AccountView::RoleToken(token) => token.bump,
    }
}

/// Whether every account lives at the address derived from its own fields
/// under `program`, and stores the nonce that was found with it.
pub open spec fn anchored(state: State, program: Seq<u8>) -> bool {
    forall|address: Seq<u8>| #[trigger]
        state.contains_key(address) ==> derived_address(anchor_of(state[address]), program)
            == Some((address, bump_of(state[address])))
}

/// An empty ledger is anchored.
pub proof fn lemma_empty_is_anchored(program: Seq<u8>)
    ensures
        anchored(Map::<Seq<u8>, AccountView>::empty(), program),
{
}

/// Possession is a proof: in an anchored ledger, where the credential of
/// `owner` for `role` is held, the account at the derived address is a
/// credential with a positive amount that was issued at that very address.
pub proof fn lemma_credential_is_proof(
    state: State,
    program: Seq<u8>,
    owner: Seq<u8>,
    role: Seq<char>,
)
    requires
        anchored(state, program),
        holds_role(state, owner, role, program),
    ensures
        role_key(owner, role, program) matches Some(key)
            && state.contains_key(key.0) && (state[key.0] matches AccountView::RoleToken(token)
            && token.amount > 0 && (role_key(token.owner@, token.role, program) matches Some(own)
            && own.0 == key.0)),
{
    let key = role_key(owner, role, program)->Some_0;
    assert(state.contains_key(key.0));
}

/// Whether no two lists of seeds share an address under `program`.
///
/// This is an assumption, not a fact of the library: the addressing scheme
/// maps unboundedly many lists of seeds to 32 bytes, so nothing here
/// establishes it and no real scheme meets it for all seeds. It stands for
/// what callers of the scheme take for granted when they name every field
/// that tells a record apart, and serves only as the hypothesis of
/// `lemma_credential_names_its_holder`.
pub open spec fn collision_free(program: Seq<u8>) -> bool {
    forall|first: Seq<Seq<u8>>, second: Seq<Seq<u8>>|
        (#[trigger] derived_address(first, program) matches Some(a) && (#[trigger] derived_address(
            second,
            program,
        ) matches Some(b) && a.0 == b.0)) ==> first == second
}

/// A conditional statement: if the addressing scheme were free of
/// collisions, a credential that is held would name its holder. In an
/// anchored ledger, where the credential of `owner` for `role` is held, the
/// account at the derived address is then owned by `owner`, and its role is
/// `role`.
///
/// The hypothesis `collision_free` is assumed, never proved; what holds
/// without it is `lemma_credential_is_proof`.
pub proof fn lemma_credential_names_its_holder(
    state: State,
    program: Seq<u8>,
    owner: Seq<u8>,
    role: Seq<char>,
)
    requires
        anchored(state, program),
        collision_free(program),
        holds_role(state, owner, role, program),
    ensures
        role_key(owner, role, program) matches Some(key) && (
        state[key.0] matches AccountView::RoleToken(token) && token.owner@ == owner && token.role
            == role && token.amount > 0),
{
    lemma_credential_is_proof(state, program, owner, role);
    let key = role_key(owner, role, program)->Some_0;
    let token = state[key.0]->RoleToken_0;
    let held = credential_seeds(token.owner@, token.role);
    let asked = credential_seeds(owner, role);
    assert(held == asked);
    assert(held[1] == asked[1]);
    assert(held[2] == asked[2]);
    encode_utf8_decode_utf8(token.role);
    encode_utf8_decode_utf8(role);
}

/// In an anchored ledger no two accounts answer to the same seeds.
pub proof fn lemma_one_account_per_anchor(
    state: State,
    program: Seq<u8>,
    first: Seq<u8>,
    second: Seq<u8>,
)
    requires
        anchored(state, program),
        state.contains_key(first),
        state.contains_key(second),
        anchor_of(state[first]) == anchor_of(state[second]),
    ensures
        first == second,
{
}

/// Setting up the request counter, with its keys derived under the program,
/// keeps the ledger anchored.
pub proof fn lemma_initialize_access_storage_anchors(
    pre: State,
    program: Seq<u8>,
    admin: Identity,
)
    requires
        anchored(pre, program),
    ensures
        registry::initialize_access_storage_outcome(
            pre,
            admin,
            singleton_key(Namespace::AccessStorage, program),
        ) matches Ok(post) ==> anchored(post, program),
{
}

/// Setting up the formation counter, with its keys derived under the program,
/// keeps the ledger anchored.
pub proof fn lemma_initialize_formation_storage_anchors(
    pre: State,
    program: Seq<u8>,
    admin: Identity,
)
    requires
        anchored(pre, program),
    ensures
        registry::initialize_formation_storage_outcome(
            pre,
            admin,
            singleton_key(Namespace::FormationStorage, program),
        ) matches Ok(post) ==> anchored(post, program),
{
}

/// Setting up the session counter, with its keys derived under the program,
/// keeps the ledger anchored.
pub proof fn lemma_initialize_session_storage_anchors(
    pre: State,
    program: Seq<u8>,
    admin: Identity,
)
    requires
        anchored(pre, program),
    ensures
        registry::initialize_session_storage_outcome(
            pre,
            admin,
            singleton_key(Namespace::SessionStorage, program),
        ) matches Ok(post) ==> anchored(post, program),
{
}

/// Setting up the attendance counter, with its keys derived under the program,
/// keeps the ledger anchored.
pub proof fn lemma_initialize_attendance_storage_anchors(
    pre: State,
    program: Seq<u8>,
    admin: Identity,
)
    requires
        anchored(pre, program),
    ensures
        registry::initialize_attendance_storage_outcome(
            pre,
            admin,
            singleton_key(Namespace::AttendanceStorage, program),
        ) matches Ok(post) ==> anchored(post, program),
{
}

/// Setting up the credentials, with its keys derived under the program,
/// keeps the ledger anchored.
pub proof fn lemma_initialize_token_mint_anchors(
    pre: State,
    program: Seq<u8>,
    admin: Identity,
    mint: Identity,
)
    requires
        anchored(pre, program),
    ensures
        gated::initialize_token_mint_outcome(
            pre,
            admin,
            mint,
            singleton_key(Namespace::TokenMint, program),
        ) matches Ok(post) ==> anchored(post, program),
{
}

/// Issuing a credential, with its keys derived under the program,
/// keeps the ledger anchored.
pub proof fn lemma_mint_role_token_anchors(
    pre: State,
    program: Seq<u8>,
    admin: Identity,
    owner: Identity,
    role: Seq<char>,
    amount: u64,
    now: i64,
)
    requires
        anchored(pre, program),
    ensures
        gated::mint_role_token_outcome(
            pre,
            admin,
            owner,
            role,
            amount,
            now,
            singleton_key(Namespace::TokenMint, program),
            role_key(owner@, role, program),
        ) matches Ok(post) ==> anchored(post, program),
{
}

/// Filing a request, with its keys derived under the program,
/// keeps the ledger anchored.
pub proof fn lemma_create_access_request_anchors(
    pre: State,
    program: Seq<u8>,
    requester: Identity,
    role: Seq<char>,
    message: Seq<char>,
    now: i64,
)
    requires
        anchored(pre, program),
    ensures
        registry::create_access_request_outcome(
            pre,
            requester,
            role,
            message,
            now,
            singleton_key(Namespace::AccessStorage, program),
            derived_address(request_seeds(requester@), program),
        ) matches Ok(post) ==> anchored(post, program),
{
}

/// A transition of a request, with its keys derived under the program,
/// keeps the ledger anchored.
pub proof fn lemma_transition_anchors(
    pre: State,
    program: Seq<u8>,
    address: Seq<u8>,
    target: RequestStatus,
    role: Seq<char>,
    now: i64,
    authorized: bool,
)
    requires
        anchored(pre, program),
    ensures
        transition_outcome(
            pre,
            address,
            target,
            role,
            now,
            authorized,
        ) matches Ok(post) ==> anchored(post, program),
{
}

/// Writing a formation, with its keys derived under the program,
/// keeps the ledger anchored.
pub proof fn lemma_upsert_formation_anchors(
    pre: State,
    program: Seq<u8>,
    admin: Identity,
    id_str: Option<Seq<char>>,
    title: Seq<char>,
    description: Seq<char>,
    start_date: i64,
    end_date: i64,
    is_active: bool,
    now: i64,
    authorized: bool,
)
    requires
        anchored(pre, program),
    ensures
        registry::upsert_formation_outcome(
            pre,
            admin,
            id_str,
            title,
            description,
            start_date,
            end_date,
            is_active,
            now,
            authorized,
            singleton_key(Namespace::FormationStorage, program),
            formation_slot_key(
                pre,
                id_str,
                singleton_key(Namespace::FormationStorage, program),
                program,
            ),
        ) matches Ok(post) ==> anchored(post, program),
{
}

/// Creating a session, with its keys derived under the program,
/// keeps the ledger anchored.
pub proof fn lemma_create_session_anchors(
    pre: State,
    program: Seq<u8>,
    trainer: Identity,
    formation_id: Seq<char>,
    title: Seq<char>,
    description: Seq<char>,
    date: i64,
    duration: u64,
    location: Seq<char>,
    now: i64,
    authorized: bool,
)
    requires
        anchored(pre, program),
    ensures
        registry::create_session_outcome(
            pre,
            trainer,
            formation_id,
            title,
            description,
            date,
            duration,
            location,
            now,
            authorized,
            singleton_key(Namespace::SessionStorage, program),
            next_session_key(pre, singleton_key(Namespace::SessionStorage, program), program),
        ) matches Ok(post) ==> anchored(post, program),
{
}

/// Creating a timed session, with its keys derived under the program,
/// keeps the ledger anchored.
pub proof fn lemma_create_timed_session_anchors(
    pre: State,
    program: Seq<u8>,
    title: Seq<char>,
    description: Seq<char>,
    location: Seq<char>,
    start_time: i64,
    end_time: i64,
    now: i64,
    authorized: bool,
)
    requires
        anchored(pre, program),
    ensures
        gated::create_session_outcome(
            pre,
            title,
            description,
            location,
            start_time,
            end_time,
            now,
            authorized,
            singleton_key(Namespace::SessionStorage, program),
            next_session_key(pre, singleton_key(Namespace::SessionStorage, program), program),
        ) matches Ok(post) ==> anchored(post, program),
{
}

/// Checking in, with its keys derived under the program,
/// keeps the ledger anchored.
pub proof fn lemma_record_attendance_anchors(
    pre: State,
    program: Seq<u8>,
    student: Identity,
    session_id: Seq<char>,
    is_present: bool,
    note: Seq<char>,
    now: i64,
)
    requires
        anchored(pre, program),
    ensures
        registry::record_attendance_outcome(
            pre,
            student,
            session_id,
            is_present,
            note,
            now,
            singleton_key(Namespace::AttendanceStorage, program),
            derived_address(attendance_seeds(student@, session_id), program),
        ) matches Ok(post) ==> anchored(post, program),
{
}

/// Checking in with a credential, with its keys derived under the program,
/// keeps the ledger anchored.
pub proof fn lemma_record_sequenced_attendance_anchors(
    pre: State,
    program: Seq<u8>,
    session_id: u64,
    student: Identity,
    is_present: bool,
    note: Seq<char>,
    now: i64,
    authorized: bool,
)
    requires
        anchored(pre, program),
    ensures
        gated::record_attendance_outcome(
            pre,
            session_id,
            student,
            is_present,
            note,
            now,
            authorized,
            singleton_key(Namespace::AttendanceStorage, program),
            next_attendance_key(
                pre,
                singleton_key(Namespace::AttendanceStorage, program),
                student@,
                program,
            ),
        ) matches Ok(post) ==> anchored(post, program),
{
}

/// Checking out, with its keys derived under the program,
/// keeps the ledger anchored.
pub proof fn lemma_update_attendance_anchors(
    pre: State,
    program: Seq<u8>,
    student: Identity,
    address: Seq<u8>,
    is_present: bool,
    note: Seq<char>,
    now: i64,
)
    requires
        anchored(pre, program),
    ensures
        registry::update_attendance_outcome(
            pre,
            student,
            address,
            is_present,
            note,
            now,
        ) matches Ok(post) ==> anchored(post, program),
{
}

/// Checking out with a credential, with its keys derived under the program,
/// keeps the ledger anchored.
pub proof fn lemma_update_sequenced_attendance_anchors(
    pre: State,
    program: Seq<u8>,
    student: Identity,
    address: Seq<u8>,
    is_present: bool,
    note: Seq<char>,
    now: i64,
    credentialed: bool,
)
    requires
        anchored(pre, program),
    ensures
        gated::update_attendance_outcome(
            pre,
            student,
            address,
            is_present,
            note,
            now,
            credentialed,
        ) matches Ok(post) ==> anchored(post, program),
{
}

} // verus!
