//! The authorization gate: a caller may act where they hold a funded role
//! credential at the address derived for them, or where they own the record.

use vstd::prelude::*;
use vstd::slice::slice_to_vec;
use vstd::utf8::encode_utf8;
use crate::errors::{rejected, AccessRequestError, Verdict};
use crate::identity::Identity;
use crate::keys::{
    derive_paired, derived_address, key_view, paired_seeds, DerivedKey, Found, Namespace,
};
use crate::ledger::Ledger;
use crate::records::{Account, AccountView, State};

verus! {

/// The name of the role that decides on requests and writes formations.
pub open spec fn admin_role() -> Seq<char> {
    "admin"@
}

/// The name of the role that runs sessions.
pub open spec fn trainer_role() -> Seq<char> {
    "trainer"@
}

/// The name of the role that attends sessions.
pub open spec fn student_role() -> Seq<char> {
    "student"@
}

/// The seeds of the credential of `owner` for `role`.
pub open spec fn credential_seeds(owner: Seq<u8>, role: Seq<char>) -> Seq<Seq<u8>> {
    paired_seeds(Namespace::TokenAccount, owner, encode_utf8(role))
}

/// The key of the credential of `owner` for `role` under a program.
pub open spec fn role_key(owner: Seq<u8>, role: Seq<char>, program: Seq<u8>) -> Found {
    derived_address(credential_seeds(owner, role), program)
}

/// Whether a funded credential lives at the key: possession is the proof.
pub open spec fn holds_credential(state: State, key: Found) -> bool {
    match key {
        Some((address, _)) => state.contains_key(address) && match state[address] {
            AccountView::RoleToken(token) => token.amount > 0,
            _ => false,
        },
        None => false,
    }
}

/// Whether `owner` holds `role`: a funded credential lives at the address
/// derived from the two under the program.
pub open spec fn holds_role(
    state: State,
    owner: Seq<u8>,
    role: Seq<char>,
    program: Seq<u8>,
) -> bool {
    holds_credential(state, role_key(owner, role, program))
}

/// Whether `caller` may run sessions: they hold the admin or the trainer
/// role.
pub open spec fn runs_sessions(state: State, caller: Seq<u8>, program: Seq<u8>) -> bool {
    holds_role(state, caller, admin_role(), program) || holds_role(
        state,
        caller,
        trainer_role(),
        program,
    )
}

/// The key of the credential of `owner` for `role`.
pub fn derive_credential(ledger: &Ledger, owner: &Identity, role: &str) -> (key: Option<DerivedKey>)
    ensures
        key_view(key) == role_key(owner@, role@, ledger.program_id()@),
{
    let program = ledger.program();
    derive_paired(
        Namespace::TokenAccount,
        owner.to_bytes(),
        slice_to_vec(role.as_bytes()),
        &program,
    )
}

/// Whether a funded credential lives at the key.
pub fn check_at(ledger: &Ledger, key: Option<DerivedKey>) -> (held: bool)
    ensures
        held == holds_credential(ledger@, key_view(key)),
{
    match key {
        None => false,
        Some(k) => match ledger.get(&k.address) {
            Some(Account::RoleToken(token)) => token.amount > 0,
            _ => false,
        },
    }
}

/// Whether `claimed` holds `role`: a credential lives at the address derived
/// from the two, and its amount is positive.
pub fn check(ledger: &Ledger, claimed: &Identity, role: &str) -> (held: bool)
    ensures
        held == holds_role(ledger@, claimed@, role@, ledger.program_id()@),
{
    let key = derive_credential(ledger, claimed, role);
    check_at(ledger, key)
}

/// Lets the caller pass where they hold `role`, and refuses them otherwise.
pub fn authorize(ledger: &Ledger, caller: &Identity, role: &str) -> (verdict: Verdict)
    ensures
        verdict is Ok <==> holds_role(ledger@, caller@, role@, ledger.program_id()@),
        verdict is Err ==> rejected(verdict, AccessRequestError::Unauthorized),
{
    if check(ledger, caller, role) {
        Ok(())
    } else {
        Err(AccessRequestError::Unauthorized)
    }
}

/// Lets the caller pass where they are the owner, and refuses them otherwise.
pub fn authorize_owner(caller: &Identity, owner: &Identity) -> (verdict: Verdict)
    ensures
        verdict is Ok <==> *caller == *owner,
        verdict is Err ==> rejected(verdict, AccessRequestError::Unauthorized),
{
    if caller.same(owner) {
        Ok(())
    } else {
        Err(AccessRequestError::Unauthorized)
    }
}

} // verus!
