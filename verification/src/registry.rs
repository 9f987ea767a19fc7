//! The registry: access requests, formations, sessions and attendance, each
//! at its derived address, each family numbered by its own counter.

use vstd::prelude::*;
use vstd::utf8::encode_utf8;
use crate::auth::{
    admin_role, check_at, derive_credential, holds_credential, holds_role, runs_sessions,
};
use crate::counter::{
    access_storage_at, attendance_storage_at, formation_storage_at, free_slot, free_slot_at,
    load_access_storage, load_attendance_storage, load_formation_storage, load_session_storage,
    session_storage_at,
};
use crate::errors::{AccessRequestError, Verdict};
use crate::identity::Identity;
use crate::keys::{
    derive_keyed, derive_paired, derive_singleton, derived_address, key_view, keyed_seeds,
    paired_seeds, singleton_key, DerivedKey, Found, Namespace,
};
use crate::laws_keyspace;
use crate::laws_keyspace::anchored;
use crate::ledger::{settles, Ledger};
use crate::records::{
    AccessRequest, AccessRequestStorage, AccessRequestView, Account, AccountView, Attendance,
    AttendanceStorage, AttendanceView, Formation, FormationStorage, FormationView, Outcome,
    RequestStatus, Session, SessionStorage, SessionView, State,
};
use crate::text::{
    decimal_chars, decimal_text, fits, patch_text, patched, text_bytes, within_cap,
    MAX_DESCRIPTION_LENGTH, MAX_LOCATION_LENGTH, MAX_MESSAGE_LENGTH, MAX_ROLE_LENGTH,
    MAX_TITLE_LENGTH,
};

verus! {

/// The accounts of setting up the request counter: the one who signs.
#[derive(Clone, Copy, Debug, PartialEq, Eq)]
pub struct InitializeAccessStorage {
    pub admin: Identity,
}

/// What setting up the request counter does, given the key of its slot: a
/// counter at zero for `admin`, unless the slot is taken.
pub open spec fn initialize_access_storage_outcome(
    pre: State,
    admin: Identity,
    key: Found,
) -> Outcome {
    match free_slot_at(pre, key, AccessRequestError::AlreadyInitialized) {
        Err(e) => Err(e),
        Ok((address, bump)) => Ok(
            pre.insert(
                address,
                AccountView::AccessStorage(AccessRequestStorage { admin, request_count: 0, bump }),
            ),
        ),
    }
}

/// Sets up the request counter in the slot at `key`.
pub fn initialize_access_storage_at(
    ledger: &mut Ledger,
    ctx: &InitializeAccessStorage,
    key: Option<DerivedKey>,
) -> (result: Verdict)
    ensures
        settles(
            initialize_access_storage_outcome(old(ledger)@, ctx.admin, key_view(key)),
            old(ledger)@,
            result,
            final(ledger)@,
        ),
        final(ledger).program_id() == old(ledger).program_id(),
{
    let slot = match free_slot(ledger, key, AccessRequestError::AlreadyInitialized) {
        Ok(slot) => slot,
        Err(e) => {
            return Err(e);
        },
    };
    ledger.put(
        slot.address,
        Account::AccessStorage(AccessRequestStorage::new(ctx.admin, slot.bump)),
    );
    Ok(())
}

/// Sets up the request counter, once: a second call fails with
/// `AlreadyInitialized` and leaves the first counter as it is.
pub fn initialize_access_storage(
    ledger: &mut Ledger,
    ctx: &InitializeAccessStorage,
) -> (result: Verdict)
    ensures
        settles(
            initialize_access_storage_outcome(
                old(ledger)@,
                ctx.admin,
                singleton_key(Namespace::AccessStorage, old(ledger).program_id()@),
            ),
            old(ledger)@,
            result,
            final(ledger)@,
        ),
        final(ledger).program_id() == old(ledger).program_id(),
        anchored(old(ledger)@, old(ledger).program_id()@) ==> anchored(
            final(ledger)@,
            final(ledger).program_id()@,
        ),
{
    proof {
        if anchored(ledger@, ledger.program_id()@) {
            laws_keyspace::lemma_initialize_access_storage_anchors(
                ledger@,
                ledger.program_id()@,
                ctx.admin,
            );
        }
    }
    let program = ledger.program();
    let key = derive_singleton(Namespace::AccessStorage, &program);
    initialize_access_storage_at(ledger, ctx, key)
}

/// The accounts of filing a request: the one who asks.
#[derive(Clone, Copy, Debug, PartialEq, Eq)]
pub struct CreateAccessRequest {
    pub requester: Identity,
}

/// The seeds of the request of a requester: one live request each.
pub open spec fn request_seeds(requester: Seq<u8>) -> Seq<Seq<u8>> {
    keyed_seeds(Namespace::Request, requester)
}

/// What filing a request does, given the keys of the counter and of the
/// request's slot: a pending request numbered by the counter, which goes up
/// by one.
pub open spec fn create_access_request_outcome(
    pre: State,
    requester: Identity,
    role: Seq<char>,
    message: Seq<char>,
    now: i64,
    storage_key: Found,
    request_key: Found,
) -> Outcome {
    if !fits(role, MAX_ROLE_LENGTH) || !fits(message, MAX_MESSAGE_LENGTH) {
        Err(AccessRequestError::FieldTooLong)
    } else {
        match access_storage_at(pre, storage_key) {
            Err(e) => Err(e),
            Ok((storage_address, storage)) => if storage.request_count == u64::MAX {
                Err(AccessRequestError::Overflow)
            } else {
                match free_slot_at(pre, request_key, AccessRequestError::AlreadyExists) {
                    Err(e) => Err(e),
                    Ok((address, bump)) => Ok(
                        pre.insert(
                            storage_address,
                            AccountView::AccessStorage(storage.advanced()),
                        ).insert(
                            address,
                            AccountView::Request(
                                AccessRequestView {
                                    id: storage.request_count,
                                    requester,
                                    role,
                                    message,
                                    status: RequestStatus::Pending,
                                    created_at: now,
                                    updated_at: now,
                                    bump,
                                },
                            ),
                        ),
                    ),
                }
            },
        }
    }
}

/// Files a request in the slot at `request_key`, numbered by the counter at
/// `storage_key`.
pub fn create_access_request_at(
    ledger: &mut Ledger,
    ctx: &CreateAccessRequest,
    role: String,
    message: String,
    now: i64,
    storage_key: Option<DerivedKey>,
    request_key: Option<DerivedKey>,
) -> (result: Verdict)
    ensures
        settles(
            create_access_request_outcome(
                old(ledger)@,
                ctx.requester,
                role@,
                message@,
                now,
                key_view(storage_key),
                key_view(request_key),
            ),
            old(ledger)@,
            result,
            final(ledger)@,
        ),
        final(ledger).program_id() == old(ledger).program_id(),
{
    if !within_cap(&role, MAX_ROLE_LENGTH) || !within_cap(&message, MAX_MESSAGE_LENGTH) {
        return Err(AccessRequestError::FieldTooLong);
    }
    let (storage_address, mut storage) = match load_access_storage(ledger, storage_key) {
        Ok(loaded) => loaded,
        Err(e) => {
            return Err(e);
        },
    };
    let id = match storage.next_id() {
        Ok(id) => id,
        Err(e) => {
            return Err(e);
        },
    };
    let slot = match free_slot(ledger, request_key, AccessRequestError::AlreadyExists) {
        Ok(slot) => slot,
        Err(e) => {
            return Err(e);
        },
    };
    ledger.put(storage_address, Account::AccessStorage(storage));
    ledger.put(
        slot.address,
        Account::Request(
            AccessRequest {
                id,
                requester: ctx.requester,
                role,
                message,
                status: RequestStatus::Pending,
                created_at: now,
                updated_at: now,
                bump: slot.bump,
            },
        ),
    );
    Ok(())
}

/// Files the request of `ctx.requester` for a role: pending, numbered by the
/// request counter, at the address derived from the requester.
///
/// Fails with `FieldTooLong` where the role or the message is over its cap,
/// `NotFound` where the counter was not set up, `Overflow` where it is
/// exhausted, and `AlreadyExists` where the requester has a request already.
pub fn create_access_request(
    ledger: &mut Ledger,
    ctx: &CreateAccessRequest,
    role: String,
    message: String,
    now: i64,
) -> (result: Verdict)
    ensures
        settles(
            create_access_request_outcome(
                old(ledger)@,
                ctx.requester,
                role@,
                message@,
                now,
                singleton_key(Namespace::AccessStorage, old(ledger).program_id()@),
                derived_address(request_seeds(ctx.requester@), old(ledger).program_id()@),
            ),
            old(ledger)@,
            result,
            final(ledger)@,
        ),
        final(ledger).program_id() == old(ledger).program_id(),
        anchored(old(ledger)@, old(ledger).program_id()@) ==> anchored(
            final(ledger)@,
            final(ledger).program_id()@,
        ),
{
    proof {
        if anchored(ledger@, ledger.program_id()@) {
            laws_keyspace::lemma_create_access_request_anchors(
                ledger@,
                ledger.program_id()@,
                ctx.requester,
                role@,
                message@,
                now,
            );
        }
    }
    let program = ledger.program();
    let storage_key = derive_singleton(Namespace::AccessStorage, &program);
    let request_key = derive_keyed(Namespace::Request, ctx.requester.to_bytes(), &program);
    create_access_request_at(ledger, ctx, role, message, now, storage_key, request_key)
}

/// The accounts of deciding on a request: the one who decides, and the
/// address of the request.
#[derive(Clone, Copy, Debug, PartialEq, Eq)]
pub struct ProcessAccessRequest {
    pub admin: Identity,
    pub request: Identity,
}

/// The request at an address, if one lives there.
pub open spec fn request_at(state: State, address: Seq<u8>) -> Option<AccessRequestView> {
    if state.contains_key(address) {
        match state[address] {
            AccountView::Request(request) => Some(request),
            _ => None,
        }
    } else {
        None
    }
}

/// Whether a request may go from one state to another: only a pending one
/// moves, and only to a decision.
pub open spec fn legal_transition(from: RequestStatus, to: RequestStatus) -> bool {
    from == RequestStatus::Pending && to != RequestStatus::Pending
}

/// What a transition of the request at `address` does: the caller must be
/// authorized, the role in the patch within its cap, the request there, and
/// the transition legal; then the state, the patched role and the time of
/// the update are written, and nothing else.
pub open spec fn transition_outcome(
    pre: State,
    address: Seq<u8>,
    target: RequestStatus,
    role: Seq<char>,
    now: i64,
    authorized: bool,
) -> Outcome {
    if !authorized {
        Err(AccessRequestError::Unauthorized)
    } else if !fits(role, MAX_ROLE_LENGTH) {
        Err(AccessRequestError::FieldTooLong)
    } else {
        match request_at(pre, address) {
            None => Err(AccessRequestError::NotFound),
            Some(request) => if !legal_transition(request.status, target) {
                Err(AccessRequestError::InvalidRequestStatus)
            } else {
                Ok(
                    pre.insert(
                        address,
                        AccountView::Request(
                            AccessRequestView {
                                status: target,
                                role: patched(request.role, role),
                                updated_at: now,
                                ..request
                            },
                        ),
                    ),
                )
            },
        }
    }
}

/// Moves the request at `address` to `target`, with the role patched, for a
/// caller whose authorization was decided.
pub fn transition(
    ledger: &mut Ledger,
    address: &Identity,
    target: RequestStatus,
    role: String,
    now: i64,
    authorized: bool,
) -> (result: Verdict)
    ensures
        settles(
            transition_outcome(old(ledger)@, address@, target, role@, now, authorized),
            old(ledger)@,
            result,
            final(ledger)@,
        ),
        final(ledger).program_id() == old(ledger).program_id(),
{
    if !authorized {
        return Err(AccessRequestError::Unauthorized);
    }
    if !within_cap(&role, MAX_ROLE_LENGTH) {
        return Err(AccessRequestError::FieldTooLong);
    }
    let updated = match ledger.get(address) {
        Some(Account::Request(request)) => {
            let pending = match request.status {
                RequestStatus::Pending => true,
                _ => false,
            };
            let decided = match target {
                RequestStatus::Pending => false,
                _ => true,
            };
            if !pending || !decided {
                return Err(AccessRequestError::InvalidRequestStatus);
            }
            AccessRequest {
                id: request.id,
                requester: request.requester,
                role: patch_text(&request.role, role),
                message: request.message.clone(),
                status: target,
                created_at: request.created_at,
                updated_at: now,
                bump: request.bump,
            }
        },
        _ => {
            return Err(AccessRequestError::NotFound);
        },
    };
    ledger.put(*address, Account::Request(updated));
    Ok(())
}

/// Approves the request at `ctx.request` for a caller whose admin credential
/// is looked up at `credential_key`.
pub fn approve_access_request_at(
    ledger: &mut Ledger,
    ctx: &ProcessAccessRequest,
    now: i64,
    credential_key: Option<DerivedKey>,
) -> (result: Verdict)
    ensures
        settles(
            transition_outcome(
                old(ledger)@,
                ctx.request@,
                RequestStatus::Approved,
                Seq::<char>::empty(),
                now,
                holds_credential(old(ledger)@, key_view(credential_key)),
            ),
            old(ledger)@,
            result,
            final(ledger)@,
        ),
        final(ledger).program_id() == old(ledger).program_id(),
{
    let authorized = check_at(ledger, credential_key);
    transition(ledger, &ctx.request, RequestStatus::Approved, String::new(), now, authorized)
}

/// Approves the request at `ctx.request`: from pending to approved, with the
/// time of the update; the requester and every other field stay.
///
/// Fails with `Unauthorized` unless `ctx.admin` holds the admin role, whatever
/// the state of the request; with `NotFound` where no request lives at the
/// address; with `InvalidRequestStatus` where the request is not pending.
pub fn approve_access_request(
    ledger: &mut Ledger,
    ctx: &ProcessAccessRequest,
    now: i64,
) -> (result: Verdict)
    ensures
        settles(
            transition_outcome(
                old(ledger)@,
                ctx.request@,
                RequestStatus::Approved,
                Seq::<char>::empty(),
                now,
                holds_role(old(ledger)@, ctx.admin@, admin_role(), old(ledger).program_id()@),
            ),
            old(ledger)@,
            result,
            final(ledger)@,
        ),
        final(ledger).program_id() == old(ledger).program_id(),
        anchored(old(ledger)@, old(ledger).program_id()@) ==> anchored(
            final(ledger)@,
            final(ledger).program_id()@,
        ),
{
    proof {
        if anchored(ledger@, ledger.program_id()@) {
            laws_keyspace::lemma_transition_anchors(
                ledger@,
                ledger.program_id()@,
                ctx.request@,
                RequestStatus::Approved,
                Seq::<char>::empty(),
                now,
                holds_role(ledger@, ctx.admin@, admin_role(), ledger.program_id()@),
            );
        }
    }
    let key = derive_credential(ledger, &ctx.admin, "admin");
    approve_access_request_at(ledger, ctx, now, key)
}

/// Rejects the request at `ctx.request` for a caller whose admin credential
/// is looked up at `credential_key`.
pub fn reject_access_request_at(
    ledger: &mut Ledger,
    ctx: &ProcessAccessRequest,
    now: i64,
    credential_key: Option<DerivedKey>,
) -> (result: Verdict)
    ensures
        settles(
            transition_outcome(
                old(ledger)@,
                ctx.request@,
                RequestStatus::Rejected,
                Seq::<char>::empty(),
                now,
                holds_credential(old(ledger)@, key_view(credential_key)),
            ),
            old(ledger)@,
            result,
            final(ledger)@,
        ),
        final(ledger).program_id() == old(ledger).program_id(),
{
    let authorized = check_at(ledger, credential_key);
    transition(ledger, &ctx.request, RequestStatus::Rejected, String::new(), now, authorized)
}

/// Rejects the request at `ctx.request`: from pending to rejected, with the
/// time of the update; the requester and every other field stay.
///
/// Fails as `approve_access_request` does.
pub fn reject_access_request(
    ledger: &mut Ledger,
    ctx: &ProcessAccessRequest,
    now: i64,
) -> (result: Verdict)
    ensures
        settles(
            transition_outcome(
                old(ledger)@,
                ctx.request@,
                RequestStatus::Rejected,
                Seq::<char>::empty(),
                now,
                holds_role(old(ledger)@, ctx.admin@, admin_role(), old(ledger).program_id()@),
            ),
            old(ledger)@,
            result,
            final(ledger)@,
        ),
        final(ledger).program_id() == old(ledger).program_id(),
        anchored(old(ledger)@, old(ledger).program_id()@) ==> anchored(
            final(ledger)@,
            final(ledger).program_id()@,
        ),
{
    proof {
        if anchored(ledger@, ledger.program_id()@) {
            laws_keyspace::lemma_transition_anchors(
                ledger@,
                ledger.program_id()@,
                ctx.request@,
                RequestStatus::Rejected,
                Seq::<char>::empty(),
                now,
                holds_role(ledger@, ctx.admin@, admin_role(), ledger.program_id()@),
            );
        }
    }
    let key = derive_credential(ledger, &ctx.admin, "admin");
    reject_access_request_at(ledger, ctx, now, key)
}

/// The accounts of setting up the formation counter: the one who signs.
#[derive(Clone, Copy, Debug, PartialEq, Eq)]
pub struct InitializeFormationStorage {
    pub admin: Identity,
}

/// What setting up the formation counter does, given the key of its slot: a
/// counter at zero for `admin`, unless the slot is taken.
pub open spec fn initialize_formation_storage_outcome(
    pre: State,
    admin: Identity,
    key: Found,
) -> Outcome {
    match free_slot_at(pre, key, AccessRequestError::AlreadyInitialized) {
        Err(e) => Err(e),
        Ok((address, bump)) => Ok(
            pre.insert(
                address,
                AccountView::FormationStorage(FormationStorage { admin, formation_count: 0, bump }),
            ),
        ),
    }
}

/// Sets up the formation counter in the slot at `key`.
pub fn initialize_formation_storage_at(
    ledger: &mut Ledger,
    ctx: &InitializeFormationStorage,
    key: Option<DerivedKey>,
) -> (result: Verdict)
    ensures
        settles(
            initialize_formation_storage_outcome(old(ledger)@, ctx.admin, key_view(key)),
            old(ledger)@,
            result,
            final(ledger)@,
        ),
        final(ledger).program_id() == old(ledger).program_id(),
{
    let slot = match free_slot(ledger, key, AccessRequestError::AlreadyInitialized) {
        Ok(slot) => slot,
        Err(e) => {
            return Err(e);
        },
    };
    ledger.put(
        slot.address,
        Account::FormationStorage(FormationStorage::new(ctx.admin, slot.bump)),
    );
    Ok(())
}

/// Sets up the formation counter, once: a second call fails with
/// `AlreadyInitialized` and leaves the first counter as it is.
pub fn initialize_formation_storage(
    ledger: &mut Ledger,
    ctx: &InitializeFormationStorage,
) -> (result: Verdict)
    ensures
        settles(
            initialize_formation_storage_outcome(
                old(ledger)@,
                ctx.admin,
                singleton_key(Namespace::FormationStorage, old(ledger).program_id()@),
            ),
            old(ledger)@,
            result,
            final(ledger)@,
        ),
        final(ledger).program_id() == old(ledger).program_id(),
        anchored(old(ledger)@, old(ledger).program_id()@) ==> anchored(
            final(ledger)@,
            final(ledger).program_id()@,
        ),
{
    proof {
        if anchored(ledger@, ledger.program_id()@) {
            laws_keyspace::lemma_initialize_formation_storage_anchors(
                ledger@,
                ledger.program_id()@,
                ctx.admin,
            );
        }
    }
    let program = ledger.program();
    let key = derive_singleton(Namespace::FormationStorage, &program);
    initialize_formation_storage_at(ledger, ctx, key)
}

/// The accounts of writing a formation: the one who writes.
#[derive(Clone, Copy, Debug, PartialEq, Eq)]
pub struct UpsertFormation {
    pub admin: Identity,
}

/// The seeds of a formation: the tag and its identifier.
pub open spec fn formation_seeds(id: Seq<char>) -> Seq<Seq<u8>> {
    keyed_seeds(Namespace::Formation, encode_utf8(id))
}

/// The key of the slot that the next formation of the counter at
/// `storage_key` goes to, under `program`: the one of the identifier that the
/// counter issues next.
pub open spec fn next_formation_key(pre: State, storage_key: Found, program: Seq<u8>) -> Found {
    match formation_storage_at(pre, storage_key) {
        Ok((_, storage)) => derived_address(
            formation_seeds(decimal_chars(storage.formation_count as nat)),
            program,
        ),
        Err(_) => None,
    }
}

/// The key of the slot that a formation is written to: with an identifier
/// the slot of that identifier, without one the slot of the next formation.
pub open spec fn formation_slot_key(
    pre: State,
    id_str: Option<Seq<char>>,
    storage_key: Found,
    program: Seq<u8>,
) -> Found {
    match id_str {
        Some(id) => derived_address(formation_seeds(id), program),
        None => next_formation_key(pre, storage_key, program),
    }
}

/// The formation at an address, if one lives there.
pub open spec fn formation_at(state: State, address: Seq<u8>) -> Option<FormationView> {
    if state.contains_key(address) {
        match state[address] {
            AccountView::Formation(formation) => Some(formation),
            _ => None,
        }
    } else {
        None
    }
}

/// What writing a new formation does: it takes the next identifier of the
/// counter, which goes up by one, and fills the slot, which must be free.
pub open spec fn create_formation_outcome(
    pre: State,
    admin: Identity,
    title: Seq<char>,
    description: Seq<char>,
    start_date: i64,
    end_date: i64,
    is_active: bool,
    now: i64,
    storage_key: Found,
    formation_key: Found,
) -> Outcome {
    match formation_storage_at(pre, storage_key) {
        Err(e) => Err(e),
        Ok((storage_address, storage)) => if storage.formation_count == u64::MAX {
            Err(AccessRequestError::Overflow)
        } else {
            match free_slot_at(pre, formation_key, AccessRequestError::AlreadyExists) {
                Err(e) => Err(e),
                Ok((address, bump)) => Ok(
                    pre.insert(
                        storage_address,
                        AccountView::FormationStorage(storage.advanced()),
                    ).insert(
                        address,
                        AccountView::Formation(
                            FormationView {
                                id: decimal_chars(storage.formation_count as nat),
                                title,
                                description,
                                creator: admin,
                                start_date,
                                end_date,
                                is_active,
                                created_at: now,
                                updated_at: now,
                                bump,
                            },
                        ),
                    ),
                ),
            }
        },
    }
}

/// What updating a formation does: the descriptive fields are patched, the
/// dates, the flag, the writer and the time of the update are written; the
/// identifier and the time of creation stay.
pub open spec fn update_formation_outcome(
    pre: State,
    admin: Identity,
    title: Seq<char>,
    description: Seq<char>,
    start_date: i64,
    end_date: i64,
    is_active: bool,
    now: i64,
    formation_key: Found,
) -> Outcome {
    match formation_key {
        None => Err(AccessRequestError::InvalidSeeds),
        Some((address, _)) => match formation_at(pre, address) {
            None => Err(AccessRequestError::NotFound),
            Some(formation) => Ok(
                pre.insert(
                    address,
                    AccountView::Formation(
                        FormationView {
                            title: patched(formation.title, title),
                            description: patched(formation.description, description),
                            creator: admin,
                            start_date,
                            end_date,
                            is_active,
                            updated_at: now,
                            ..formation
                        },
                    ),
                ),
            ),
        },
    }
}

/// What writing a formation does, given whether the caller is authorized and
/// the keys of the counter and of the formation's slot: without an
/// identifier a new formation is written, with one the formation that it
/// names is updated.
pub open spec fn upsert_formation_outcome(
    pre: State,
    admin: Identity,
    id_str: Option<Seq<char>>,
    title: Seq<char>,
    description: Seq<char>,
    start_date: i64,
    end_date: i64,
    is_active: bool,
    now: i64,
    authorized: bool,
    storage_key: Found,
    formation_key: Found,
) -> Outcome {
    if !authorized {
        Err(AccessRequestError::Unauthorized)
    } else if !fits(title, MAX_TITLE_LENGTH) || !fits(description, MAX_DESCRIPTION_LENGTH) {
        Err(AccessRequestError::FieldTooLong)
    } else if id_str is None {
        create_formation_outcome(
            pre,
            admin,
            title,
            description,
            start_date,
            end_date,
            is_active,
            now,
            storage_key,
            formation_key,
        )
    } else {
        update_formation_outcome(
            pre,
            admin,
            title,
            description,
            start_date,
            end_date,
            is_active,
            now,
            formation_key,
        )
    }
}

/// An identifier that may be missing, as contracts see it.
pub open spec fn id_view(id_str: Option<String>) -> Option<Seq<char>> {
    match id_str {
        Some(id) => Some(id@),
        None => None,
    }
}

/// Writes a formation in the slot at `formation_key`, for a caller whose
/// admin credential is looked up at `credential_key`; a new formation is
/// numbered by the counter at `storage_key`.
pub fn upsert_formation_at(
    ledger: &mut Ledger,
    ctx: &UpsertFormation,
    id_str: Option<String>,
    title: String,
    description: String,
    start_date: i64,
    end_date: i64,
    is_active: bool,
    now: i64,
    credential_key: Option<DerivedKey>,
    storage_key: Option<DerivedKey>,
    formation_key: Option<DerivedKey>,
) -> (result: Verdict)
    ensures
        settles(
            upsert_formation_outcome(
                old(ledger)@,
                ctx.admin,
                id_view(id_str),
                title@,
                description@,
                start_date,
                end_date,
                is_active,
                now,
                holds_credential(old(ledger)@, key_view(credential_key)),
                key_view(storage_key),
                key_view(formation_key),
            ),
            old(ledger)@,
            result,
            final(ledger)@,
        ),
        final(ledger).program_id() == old(ledger).program_id(),
{
    if !check_at(ledger, credential_key) {
        return Err(AccessRequestError::Unauthorized);
    }
    if !within_cap(&title, MAX_TITLE_LENGTH) || !within_cap(&description, MAX_DESCRIPTION_LENGTH) {
        return Err(AccessRequestError::FieldTooLong);
    }
    if id_str.is_none() {
        let (storage_address, mut storage) = match load_formation_storage(ledger, storage_key) {
            Ok(loaded) => loaded,
            Err(e) => {
                return Err(e);
            },
        };
        let id = match storage.next_id() {
            Ok(id) => id,
            Err(e) => {
                return Err(e);
            },
        };
        let slot = match free_slot(ledger, formation_key, AccessRequestError::AlreadyExists) {
            Ok(slot) => slot,
            Err(e) => {
                return Err(e);
            },
        };
        ledger.put(storage_address, Account::FormationStorage(storage));
        ledger.put(
            slot.address,
            Account::Formation(
                Formation {
                    id: decimal_text(id),
                    title,
                    description,
                    creator: ctx.admin,
                    start_date,
                    end_date,
                    is_active,
                    created_at: now,
                    updated_at: now,
                    bump: slot.bump,
                },
            ),
        );
        Ok(())
    } else {
        let slot = match formation_key {
            Some(slot) => slot,
            None => {
                return Err(AccessRequestError::InvalidSeeds);
            },
        };
        let updated = match ledger.get(&slot.address) {
            Some(Account::Formation(formation)) => Formation {
                id: formation.id.clone(),
                title: patch_text(&formation.title, title),
                description: patch_text(&formation.description, description),
                creator: ctx.admin,
                start_date,
                end_date,
                is_active,
                created_at: formation.created_at,
                updated_at: now,
                bump: formation.bump,
            },
            _ => {
                return Err(AccessRequestError::NotFound);
            },
        };
        ledger.put(slot.address, Account::Formation(updated));
        Ok(())
    }
}

/// The key of the slot that the next formation goes to, if the counter at
/// `storage_key` is there.
pub fn derive_next_formation(ledger: &Ledger, storage_key: Option<DerivedKey>) -> (key: Option<
    DerivedKey,
>)
    ensures
        key_view(key) == next_formation_key(ledger@, key_view(storage_key), ledger.program_id()@),
{
    let program = ledger.program();
    match load_formation_storage(ledger, storage_key) {
        Ok((_, storage)) => derive_keyed(
            Namespace::Formation,
            text_bytes(&decimal_text(storage.formation_count)),
            &program,
        ),
        Err(_) => None,
    }
}

/// The key of the slot that a formation is written to: with an identifier
/// the slot of that identifier, without one the slot of the next formation.
pub fn derive_formation(
    ledger: &Ledger,
    id_str: &Option<String>,
    storage_key: Option<DerivedKey>,
) -> (key: Option<DerivedKey>)
    ensures
        key_view(key) == formation_slot_key(
            ledger@,
            id_view(*id_str),
            key_view(storage_key),
            ledger.program_id()@,
        ),
{
    let program = ledger.program();
    match id_str {
        Some(id) => derive_keyed(Namespace::Formation, text_bytes(id), &program),
        None => derive_next_formation(ledger, storage_key),
    }
}

/// Writes a formation. Without an identifier a new one is written: it takes
/// the next identifier of the formation counter and lives at the address
/// derived from that identifier, beside the formations written before it.
/// With an identifier the formation that it names is updated: an empty
/// title or description keeps what was there.
///
/// Fails with `Unauthorized` unless `ctx.admin` holds the admin role, with
/// `FieldTooLong` where the title or the description is over its cap; a new
/// formation fails with `NotFound` where the counter was not set up, with
/// `Overflow` where it is exhausted and with `AlreadyExists` where the slot
/// of its identifier is taken, an update with `NotFound` where no formation
/// lives under the identifier.
pub fn upsert_formation(
    ledger: &mut Ledger,
    ctx: &UpsertFormation,
    id_str: Option<String>,
    title: String,
    description: String,
    start_date: i64,
    end_date: i64,
    is_active: bool,
    now: i64,
) -> (result: Verdict)
    ensures
        settles(
            upsert_formation_outcome(
                old(ledger)@,
                ctx.admin,
                id_view(id_str),
                title@,
                description@,
                start_date,
                end_date,
                is_active,
                now,
                holds_role(old(ledger)@, ctx.admin@, admin_role(), old(ledger).program_id()@),
                singleton_key(Namespace::FormationStorage, old(ledger).program_id()@),
                formation_slot_key(
                    old(ledger)@,
                    id_view(id_str),
                    singleton_key(Namespace::FormationStorage, old(ledger).program_id()@),
                    old(ledger).program_id()@,
                ),
            ),
            old(ledger)@,
            result,
            final(ledger)@,
        ),
        final(ledger).program_id() == old(ledger).program_id(),
        anchored(old(ledger)@, old(ledger).program_id()@) ==> anchored(
            final(ledger)@,
            final(ledger).program_id()@,
        ),
{
    proof {
        if anchored(ledger@, ledger.program_id()@) {
            laws_keyspace::lemma_upsert_formation_anchors(
                ledger@,
                ledger.program_id()@,
                ctx.admin,
                id_view(id_str),
                title@,
                description@,
                start_date,
                end_date,
                is_active,
                now,
                holds_role(ledger@, ctx.admin@, admin_role(), ledger.program_id()@),
            );
        }
    }
    let program = ledger.program();
    let credential_key = derive_credential(ledger, &ctx.admin, "admin");
    let storage_key = derive_singleton(Namespace::FormationStorage, &program);
    let formation_key = derive_formation(ledger, &id_str, storage_key);
    upsert_formation_at(
        ledger,
        ctx,
        id_str,
        title,
        description,
        start_date,
        end_date,
        is_active,
        now,
        credential_key,
        storage_key,
        formation_key,
    )
}

/// The accounts of setting up the session counter: the one who signs.
#[derive(Clone, Copy, Debug, PartialEq, Eq)]
pub struct InitializeSessionStorage {
    pub admin: Identity,
}

/// What setting up the session counter does, given the key of its slot: a
/// counter at zero for `admin`, unless the slot is taken.
pub open spec fn initialize_session_storage_outcome(
    pre: State,
    admin: Identity,
    key: Found,
) -> Outcome {
    match free_slot_at(pre, key, AccessRequestError::AlreadyInitialized) {
        Err(e) => Err(e),
        Ok((address, bump)) => Ok(
            pre.insert(
                address,
                AccountView::SessionStorage(SessionStorage { admin, session_count: 0, bump }),
            ),
        ),
    }
}

/// Sets up the session counter in the slot at `key`.
pub fn initialize_session_storage_at(
    ledger: &mut Ledger,
    ctx: &InitializeSessionStorage,
    key: Option<DerivedKey>,
) -> (result: Verdict)
    ensures
        settles(
            initialize_session_storage_outcome(old(ledger)@, ctx.admin, key_view(key)),
            old(ledger)@,
            result,
            final(ledger)@,
        ),
        final(ledger).program_id() == old(ledger).program_id(),
{
    let slot = match free_slot(ledger, key, AccessRequestError::AlreadyInitialized) {
        Ok(slot) => slot,
        Err(e) => {
            return Err(e);
        },
    };
    ledger.put(
        slot.address,
        Account::SessionStorage(SessionStorage::new(ctx.admin, slot.bump)),
    );
    Ok(())
}

/// Sets up the session counter, once: a second call fails with
/// `AlreadyInitialized` and leaves the first counter as it is.
pub fn initialize_session_storage(
    ledger: &mut Ledger,
    ctx: &InitializeSessionStorage,
) -> (result: Verdict)
    ensures
        settles(
            initialize_session_storage_outcome(
                old(ledger)@,
                ctx.admin,
                singleton_key(Namespace::SessionStorage, old(ledger).program_id()@),
            ),
            old(ledger)@,
            result,
            final(ledger)@,
        ),
        final(ledger).program_id() == old(ledger).program_id(),
        anchored(old(ledger)@, old(ledger).program_id()@) ==> anchored(
            final(ledger)@,
            final(ledger).program_id()@,
        ),
{
    proof {
        if anchored(ledger@, ledger.program_id()@) {
            laws_keyspace::lemma_initialize_session_storage_anchors(
                ledger@,
                ledger.program_id()@,
                ctx.admin,
            );
        }
    }
    let program = ledger.program();
    let key = derive_singleton(Namespace::SessionStorage, &program);
    initialize_session_storage_at(ledger, ctx, key)
}

/// The accounts of creating a session: the one who runs it.
#[derive(Clone, Copy, Debug, PartialEq, Eq)]
pub struct CreateSession {
    pub trainer: Identity,
}

/// The seeds of a slot told apart by a sequence number: the tag and the
/// number in decimal.
pub open spec fn sequence_seeds(namespace: Namespace, number: u64) -> Seq<Seq<u8>> {
    keyed_seeds(namespace, encode_utf8(decimal_chars(number as nat)))
}

/// The key of the slot that the next session of the counter at
/// `storage_key` goes to, under `program`.
pub open spec fn next_session_key(pre: State, storage_key: Found, program: Seq<u8>) -> Found {
    match session_storage_at(pre, storage_key) {
        Ok((_, storage)) => derived_address(
            sequence_seeds(Namespace::Session, storage.session_count),
            program,
        ),
        Err(_) => None,
    }
}

/// What creating a session does, given whether the caller is authorized and
/// the keys of the counter and of the session's slot: an active session
/// numbered by the counter, which goes up by one.
pub open spec fn create_session_outcome(
    pre: State,
    trainer: Identity,
    formation_id: Seq<char>,
    title: Seq<char>,
    description: Seq<char>,
    date: i64,
    duration: u64,
    location: Seq<char>,
    now: i64,
    authorized: bool,
    storage_key: Found,
    session_key: Found,
) -> Outcome {
    if !authorized {
        Err(AccessRequestError::Unauthorized)
    } else if !fits(title, MAX_TITLE_LENGTH) || !fits(description, MAX_DESCRIPTION_LENGTH) || !fits(
        location,
        MAX_LOCATION_LENGTH,
    ) {
        Err(AccessRequestError::FieldTooLong)
    } else {
        match session_storage_at(pre, storage_key) {
            Err(e) => Err(e),
            Ok((storage_address, storage)) => if storage.session_count == u64::MAX {
                Err(AccessRequestError::Overflow)
            } else {
                match free_slot_at(pre, session_key, AccessRequestError::AlreadyExists) {
                    Err(e) => Err(e),
                    Ok((address, bump)) => Ok(
                        pre.insert(
                            storage_address,
                            AccountView::SessionStorage(storage.advanced()),
                        ).insert(
                            address,
                            AccountView::Session(
                                SessionView {
                                    id: decimal_chars(storage.session_count as nat),
                                    formation_id,
                                    title,
                                    description,
                                    trainer,
                                    date,
                                    duration,
                                    location,
                                    is_active: true,
                                    created_at: now,
                                    updated_at: now,
                                    bump,
                                },
                            ),
                        ),
                    ),
                }
            },
        }
    }
}

/// Creates a session in the slot at `session_key`, numbered by the counter
/// at `storage_key`, for a caller whose admin and trainer credentials are
/// looked up at `admin_key` and `trainer_key`.
pub fn create_session_at(
    ledger: &mut Ledger,
    ctx: &CreateSession,
    formation_id: String,
    title: String,
    description: String,
    date: i64,
    duration: u64,
    location: String,
    now: i64,
    admin_key: Option<DerivedKey>,
    trainer_key: Option<DerivedKey>,
    storage_key: Option<DerivedKey>,
    session_key: Option<DerivedKey>,
) -> (result: Verdict)
    ensures
        settles(
            create_session_outcome(
                old(ledger)@,
                ctx.trainer,
                formation_id@,
                title@,
                description@,
                date,
                duration,
                location@,
                now,
                holds_credential(old(ledger)@, key_view(admin_key)) || holds_credential(
                    old(ledger)@,
                    key_view(trainer_key),
                ),
                key_view(storage_key),
                key_view(session_key),
            ),
            old(ledger)@,
            result,
            final(ledger)@,
        ),
        final(ledger).program_id() == old(ledger).program_id(),
{
    if !check_at(ledger, admin_key) && !check_at(ledger, trainer_key) {
        return Err(AccessRequestError::Unauthorized);
    }
    if !within_cap(&title, MAX_TITLE_LENGTH) || !within_cap(&description, MAX_DESCRIPTION_LENGTH)
        || !within_cap(&location, MAX_LOCATION_LENGTH) {
        return Err(AccessRequestError::FieldTooLong);
    }
    let (storage_address, mut storage) = match load_session_storage(ledger, storage_key) {
        Ok(loaded) => loaded,
        Err(e) => {
            return Err(e);
        },
    };
    let id = match storage.next_id() {
        Ok(id) => id,
        Err(e) => {
            return Err(e);
        },
    };
    let slot = match free_slot(ledger, session_key, AccessRequestError::AlreadyExists) {
        Ok(slot) => slot,
        Err(e) => {
            return Err(e);
        },
    };
    ledger.put(storage_address, Account::SessionStorage(storage));
    ledger.put(
        slot.address,
        Account::Session(
            Session {
                id: decimal_text(id),
                formation_id,
                title,
                description,
                trainer: ctx.trainer,
                date,
                duration,
                location,
                is_active: true,
                created_at: now,
                updated_at: now,
                bump: slot.bump,
            },
        ),
    );
    Ok(())
}

/// The key of the slot that the next session goes to, if the counter at
/// `storage_key` is there.
pub fn derive_next_session(ledger: &Ledger, storage_key: Option<DerivedKey>) -> (key: Option<
    DerivedKey,
>)
    ensures
        key_view(key) == next_session_key(ledger@, key_view(storage_key), ledger.program_id()@),
{
    let program = ledger.program();
    match load_session_storage(ledger, storage_key) {
        Ok((_, storage)) => derive_keyed(
            Namespace::Session,
            text_bytes(&decimal_text(storage.session_count)),
            &program,
        ),
        Err(_) => None,
    }
}

/// Creates a session: active, numbered by the session counter, at the
/// address derived from that number; its fields are fixed from then on.
///
/// Fails with `Unauthorized` unless `ctx.trainer` holds the admin or the
/// trainer role, with `FieldTooLong` where the title, the description or the
/// location is over its cap, with `NotFound` where the counter was not set
/// up, with `Overflow` where it is exhausted, and with `AlreadyExists` where
/// the slot of the number is taken.
pub fn create_session(
    ledger: &mut Ledger,
    ctx: &CreateSession,
    formation_id: String,
    title: String,
    description: String,
    date: i64,
    duration: u64,
    location: String,
    now: i64,
) -> (result: Verdict)
    ensures
        settles(
            create_session_outcome(
                old(ledger)@,
                ctx.trainer,
                formation_id@,
                title@,
                description@,
                date,
                duration,
                location@,
                now,
                runs_sessions(old(ledger)@, ctx.trainer@, old(ledger).program_id()@),
                singleton_key(Namespace::SessionStorage, old(ledger).program_id()@),
                next_session_key(
                    old(ledger)@,
                    singleton_key(Namespace::SessionStorage, old(ledger).program_id()@),
                    old(ledger).program_id()@,
                ),
            ),
            old(ledger)@,
            result,
            final(ledger)@,
        ),
        final(ledger).program_id() == old(ledger).program_id(),
        anchored(old(ledger)@, old(ledger).program_id()@) ==> anchored(
            final(ledger)@,
            final(ledger).program_id()@,
        ),
{
    proof {
        if anchored(ledger@, ledger.program_id()@) {
            laws_keyspace::lemma_create_session_anchors(
                ledger@,
                ledger.program_id()@,
                ctx.trainer,
                formation_id@,
                title@,
                description@,
                date,
                duration,
                location@,
                now,
                runs_sessions(ledger@, ctx.trainer@, ledger.program_id()@),
            );
        }
    }
    let program = ledger.program();
    let admin_key = derive_credential(ledger, &ctx.trainer, "admin");
    let trainer_key = derive_credential(ledger, &ctx.trainer, "trainer");
    let storage_key = derive_singleton(Namespace::SessionStorage, &program);
    let session_key = derive_next_session(ledger, storage_key);
    create_session_at(
        ledger,
        ctx,
        formation_id,
        title,
        description,
        date,
        duration,
        location,
        now,
        admin_key,
        trainer_key,
        storage_key,
        session_key,
    )
}

/// The accounts of setting up the attendance counter: the one who signs.
#[derive(Clone, Copy, Debug, PartialEq, Eq)]
pub struct InitializeAttendanceStorage {
    pub admin: Identity,
}

/// What setting up the attendance counter does, given the key of its slot: a
/// counter at zero for `admin`, unless the slot is taken.
pub open spec fn initialize_attendance_storage_outcome(
    pre: State,
    admin: Identity,
    key: Found,
) -> Outcome {
    match free_slot_at(pre, key, AccessRequestError::AlreadyInitialized) {
        Err(e) => Err(e),
        Ok((address, bump)) => Ok(
            pre.insert(
                address,
                AccountView::AttendanceStorage(
                    AttendanceStorage { admin, attendance_count: 0, bump },
                ),
            ),
        ),
    }
}

/// Sets up the attendance counter in the slot at `key`.
pub fn initialize_attendance_storage_at(
    ledger: &mut Ledger,
    ctx: &InitializeAttendanceStorage,
    key: Option<DerivedKey>,
) -> (result: Verdict)
    ensures
        settles(
            initialize_attendance_storage_outcome(old(ledger)@, ctx.admin, key_view(key)),
            old(ledger)@,
            result,
            final(ledger)@,
        ),
        final(ledger).program_id() == old(ledger).program_id(),
{
    let slot = match free_slot(ledger, key, AccessRequestError::AlreadyInitialized) {
        Ok(slot) => slot,
        Err(e) => {
            return Err(e);
        },
    };
    ledger.put(
        slot.address,
        Account::AttendanceStorage(AttendanceStorage::new(ctx.admin, slot.bump)),
    );
    Ok(())
}

/// Sets up the attendance counter, once: a second call fails with
/// `AlreadyInitialized` and leaves the first counter as it is.
pub fn initialize_attendance_storage(
    ledger: &mut Ledger,
    ctx: &InitializeAttendanceStorage,
) -> (result: Verdict)
    ensures
        settles(
            initialize_attendance_storage_outcome(
                old(ledger)@,
                ctx.admin,
                singleton_key(Namespace::AttendanceStorage, old(ledger).program_id()@),
            ),
            old(ledger)@,
            result,
            final(ledger)@,
        ),
        final(ledger).program_id() == old(ledger).program_id(),
        anchored(old(ledger)@, old(ledger).program_id()@) ==> anchored(
            final(ledger)@,
            final(ledger).program_id()@,
        ),
{
    proof {
        if anchored(ledger@, ledger.program_id()@) {
            laws_keyspace::lemma_initialize_attendance_storage_anchors(
                ledger@,
                ledger.program_id()@,
                ctx.admin,
            );
        }
    }
    let program = ledger.program();
    let key = derive_singleton(Namespace::AttendanceStorage, &program);
    initialize_attendance_storage_at(ledger, ctx, key)
}

/// The accounts of checking in: the student.
#[derive(Clone, Copy, Debug, PartialEq, Eq)]
pub struct RecordAttendance {
    pub student: Identity,
}

/// The seeds of the attendance of a student at a session.
pub open spec fn attendance_seeds(student: Seq<u8>, session_id: Seq<char>) -> Seq<Seq<u8>> {
    paired_seeds(Namespace::Attendance, student, encode_utf8(session_id))
}

/// What checking in does, given the keys of the counter and of the
/// attendance's slot: an attendance numbered by the counter, which goes up by
/// one, checked in at `now` and not yet checked out.
pub open spec fn record_attendance_outcome(
    pre: State,
    student: Identity,
    session_id: Seq<char>,
    is_present: bool,
    note: Seq<char>,
    now: i64,
    storage_key: Found,
    attendance_key: Found,
) -> Outcome {
    if !fits(note, MAX_MESSAGE_LENGTH) {
        Err(AccessRequestError::FieldTooLong)
    } else {
        match attendance_storage_at(pre, storage_key) {
            Err(e) => Err(e),
            Ok((storage_address, storage)) => if storage.attendance_count == u64::MAX {
                Err(AccessRequestError::Overflow)
            } else {
                match free_slot_at(pre, attendance_key, AccessRequestError::AlreadyExists) {
                    Err(e) => Err(e),
                    Ok((address, bump)) => Ok(
                        pre.insert(
                            storage_address,
                            AccountView::AttendanceStorage(storage.advanced()),
                        ).insert(
                            address,
                            AccountView::Attendance(
                                AttendanceView {
                                    id: decimal_chars(storage.attendance_count as nat),
                                    session_id,
                                    student,
                                    is_present,
                                    check_in_time: now,
                                    check_out_time: None,
                                    note,
                                    created_at: now,
                                    updated_at: now,
                                    bump,
                                },
                            ),
                        ),
                    ),
                }
            },
        }
    }
}

/// Checks a student in, in the slot at `attendance_key`, numbered by the
/// counter at `storage_key`.
pub fn record_attendance_at(
    ledger: &mut Ledger,
    ctx: &RecordAttendance,
    session_id: String,
    is_present: bool,
    note: String,
    now: i64,
    storage_key: Option<DerivedKey>,
    attendance_key: Option<DerivedKey>,
) -> (result: Verdict)
    ensures
        settles(
            record_attendance_outcome(
                old(ledger)@,
                ctx.student,
                session_id@,
                is_present,
                note@,
                now,
                key_view(storage_key),
                key_view(attendance_key),
            ),
            old(ledger)@,
            result,
            final(ledger)@,
        ),
        final(ledger).program_id() == old(ledger).program_id(),
{
    if !within_cap(&note, MAX_MESSAGE_LENGTH) {
        return Err(AccessRequestError::FieldTooLong);
    }
    let (storage_address, mut storage) = match load_attendance_storage(ledger, storage_key) {
        Ok(loaded) => loaded,
        Err(e) => {
            return Err(e);
        },
    };
    let id = match storage.next_id() {
        Ok(id) => id,
        Err(e) => {
            return Err(e);
        },
    };
    let slot = match free_slot(ledger, attendance_key, AccessRequestError::AlreadyExists) {
        Ok(slot) => slot,
        Err(e) => {
            return Err(e);
        },
    };
    ledger.put(storage_address, Account::AttendanceStorage(storage));
    ledger.put(
        slot.address,
        Account::Attendance(
            Attendance {
                id: decimal_text(id),
                session_id,
                student: ctx.student,
                is_present,
                check_in_time: now,
                check_out_time: None,
                note,
                created_at: now,
                updated_at: now,
                bump: slot.bump,
            },
        ),
    );
    Ok(())
}

/// Checks `ctx.student` in to a session: an attendance numbered by the
/// attendance counter, at the address derived from the student and the
/// session, checked in at `now` and not yet checked out.
///
/// Fails with `FieldTooLong` where the note is over its cap, with `NotFound`
/// where the counter was not set up, with `Overflow` where it is exhausted,
/// with `InvalidSeeds` where the session's identifier is too long for a seed,
/// and with `AlreadyExists` where the student has checked in to the session
/// already.
pub fn record_attendance(
    ledger: &mut Ledger,
    ctx: &RecordAttendance,
    session_id: String,
    is_present: bool,
    note: String,
    now: i64,
) -> (result: Verdict)
    ensures
        settles(
            record_attendance_outcome(
                old(ledger)@,
                ctx.student,
                session_id@,
                is_present,
                note@,
                now,
                singleton_key(Namespace::AttendanceStorage, old(ledger).program_id()@),
                derived_address(
                    attendance_seeds(ctx.student@, session_id@),
                    old(ledger).program_id()@,
                ),
            ),
            old(ledger)@,
            result,
            final(ledger)@,
        ),
        final(ledger).program_id() == old(ledger).program_id(),
        anchored(old(ledger)@, old(ledger).program_id()@) ==> anchored(
            final(ledger)@,
            final(ledger).program_id()@,
        ),
{
    proof {
        if anchored(ledger@, ledger.program_id()@) {
            laws_keyspace::lemma_record_attendance_anchors(
                ledger@,
                ledger.program_id()@,
                ctx.student,
                session_id@,
                is_present,
                note@,
                now,
            );
        }
    }
    let program = ledger.program();
    let storage_key = derive_singleton(Namespace::AttendanceStorage, &program);
    let attendance_key = derive_paired(
        Namespace::Attendance,
        ctx.student.to_bytes(),
        text_bytes(&session_id),
        &program,
    );
    record_attendance_at(
        ledger,
        ctx,
        session_id,
        is_present,
        note,
        now,
        storage_key,
        attendance_key,
    )
}

/// The accounts of checking out: the student, and the address of the
/// attendance.
#[derive(Clone, Copy, Debug, PartialEq, Eq)]
pub struct UpdateAttendance {
    pub student: Identity,
    pub attendance: Identity,
}

/// The attendance at an address, if one lives there.
pub open spec fn attendance_at(state: State, address: Seq<u8>) -> Option<AttendanceView> {
    if state.contains_key(address) {
        match state[address] {
            AccountView::Attendance(attendance) => Some(attendance),
            _ => None,
        }
    } else {
        None
    }
}

/// What checking out does: the attendance must be there, the caller its
/// student, and the note within its cap; then the presence flag, the time of
/// the check-out, the patched note and the time of the update are written,
/// and nothing else.
pub open spec fn update_attendance_outcome(
    pre: State,
    student: Identity,
    address: Seq<u8>,
    is_present: bool,
    note: Seq<char>,
    now: i64,
) -> Outcome {
    match attendance_at(pre, address) {
        None => Err(AccessRequestError::NotFound),
        Some(attendance) => if attendance.student != student {
            Err(AccessRequestError::Unauthorized)
        } else if !fits(note, MAX_MESSAGE_LENGTH) {
            Err(AccessRequestError::FieldTooLong)
        } else {
            Ok(
                pre.insert(
                    address,
                    AccountView::Attendance(
                        AttendanceView {
                            is_present,
                            check_out_time: Some(now),
                            note: patched(attendance.note, note),
                            updated_at: now,
                            ..attendance
                        },
                    ),
                ),
            )
        },
    }
}

/// Checks the student of the attendance at `ctx.attendance` out: the
/// presence flag and the time of the check-out are written, and the note
/// unless it is empty; the time of the check-in stays. A second check-out
/// writes over the first.
///
/// Fails with `NotFound` where no attendance lives at the address, with
/// `Unauthorized` unless `ctx.student` is its student, and with
/// `FieldTooLong` where the note is over its cap.
pub fn update_attendance(
    ledger: &mut Ledger,
    ctx: &UpdateAttendance,
    is_present: bool,
    note: String,
    now: i64,
) -> (result: Verdict)
    ensures
        settles(
            update_attendance_outcome(
                old(ledger)@,
                ctx.student,
                ctx.attendance@,
                is_present,
                note@,
                now,
            ),
            old(ledger)@,
            result,
            final(ledger)@,
        ),
        final(ledger).program_id() == old(ledger).program_id(),
        anchored(old(ledger)@, old(ledger).program_id()@) ==> anchored(
            final(ledger)@,
            final(ledger).program_id()@,
        ),
{
    proof {
        if anchored(ledger@, ledger.program_id()@) {
            laws_keyspace::lemma_update_attendance_anchors(
                ledger@,
                ledger.program_id()@,
                ctx.student,
                ctx.attendance@,
                is_present,
                note@,
                now,
            );
        }
    }
    let updated = match ledger.get(&ctx.attendance) {
        Some(Account::Attendance(attendance)) => {
            if !attendance.student.same(&ctx.student) {
                return Err(AccessRequestError::Unauthorized);
            }
            if !within_cap(&note, MAX_MESSAGE_LENGTH) {
                return Err(AccessRequestError::FieldTooLong);
            }
            Attendance {
                id: attendance.id.clone(),
                session_id: attendance.session_id.clone(),
                student: attendance.student,
                is_present,
                check_in_time: attendance.check_in_time,
                check_out_time: Some(now),
                note: patch_text(&attendance.note, note),
                created_at: attendance.created_at,
                updated_at: now,
                bump: attendance.bump,
            }
        },
        _ => {
            return Err(AccessRequestError::NotFound);
        },
    };
    ledger.put(ctx.attendance, Account::Attendance(updated));
    Ok(())
}

} // verus!
