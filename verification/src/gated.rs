//! The token gate: role credentials, and the operations that ask for one.

use vstd::prelude::*;
use vstd::utf8::encode_utf8;
use crate::auth::{
    admin_role, check_at, derive_credential, holds_credential, holds_role, role_key,
    runs_sessions, student_role,
};
use crate::counter::{
    attendance_storage_at, free_slot, free_slot_at, load_attendance_storage,
    load_session_storage, load_token_mint, session_storage_at, token_mint_at,
};
use crate::errors::{AccessRequestError, Verdict};
use crate::identity::Identity;
use crate::keys::{
    derive_paired, derive_singleton, derived_address, key_view, paired_seeds, singleton_key,
    DerivedKey, Found, Namespace,
};
use crate::laws_keyspace;
use crate::laws_keyspace::anchored;
use crate::ledger::{settles, Ledger};
use crate::records::{
    Account, AccountView, Outcome, RequestStatus, RoleTokenAccount, RoleTokenAccountView,
    SequencedAttendance, SequencedAttendanceView, State, TimedSession, TimedSessionView,
    TokenMintStorage,
};
use crate::registry::{derive_next_session, next_session_key, transition, transition_outcome};
use crate::text::{
    decimal_chars, decimal_text, fits, patch_text, patched, text_bytes, within_cap,
    MAX_DESCRIPTION_LENGTH, MAX_LOCATION_LENGTH, MAX_NOTE_LENGTH, MAX_ROLE_LENGTH,
    MAX_TITLE_LENGTH,
};

verus! {

/// The accounts of setting up the credentials: the one who will issue them,
/// and the mint that they belong to.
#[derive(Clone, Copy, Debug, PartialEq, Eq)]
pub struct InitializeTokenMint {
    pub admin: Identity,
    pub mint: Identity,
}

/// What setting up the credentials does, given the key of the slot: the mint
/// and the issuer are recorded, unless the slot is taken.
pub open spec fn initialize_token_mint_outcome(
    pre: State,
    admin: Identity,
    mint: Identity,
    key: Found,
) -> Outcome {
    match free_slot_at(pre, key, AccessRequestError::AlreadyInitialized) {
        Err(e) => Err(e),
        Ok((address, bump)) => Ok(
            pre.insert(address, AccountView::TokenMint(TokenMintStorage { mint, admin, bump })),
        ),
    }
}

/// Sets up the credentials in the slot at `key`.
pub fn initialize_token_mint_at(
    ledger: &mut Ledger,
    ctx: &InitializeTokenMint,
    key: Option<DerivedKey>,
) -> (result: Verdict)
    ensures
        settles(
            initialize_token_mint_outcome(old(ledger)@, ctx.admin, ctx.mint, key_view(key)),
            old(ledger)@,
            result,
            final(ledger)@,
        ),
        final(ledger).program_id() == old(ledger).program_id(),
{
    let slot = match free_slot(ledger, key, AccessRequestError::AlreadyInitialized) {
        Ok(slot) => slot,
        Err(e) => {
            return Err(e);
        },
    };
    ledger.put(
        slot.address,
        Account::TokenMint(TokenMintStorage { mint: ctx.mint, admin: ctx.admin, bump: slot.bump }),
    );
    Ok(())
}

/// Sets up the credentials, once: `ctx.admin` becomes the one who may issue
/// them. A second call fails with `AlreadyInitialized` and changes nothing.
pub fn initialize_token_mint(ledger: &mut Ledger, ctx: &InitializeTokenMint) -> (result: Verdict)
    ensures
        settles(
            initialize_token_mint_outcome(
                old(ledger)@,
                ctx.admin,
                ctx.mint,
                singleton_key(Namespace::TokenMint, old(ledger).program_id()@),
            ),
            old(ledger)@,
            result,
            final(ledger)@,
        ),
        final(ledger).program_id() == old(ledger).program_id(),
        anchored(old(ledger)@, old(ledger).program_id()@) ==> anchored(
            final(ledger)@,
            final(ledger).program_id()@,
        ),
{
    proof {
        if anchored(ledger@, ledger.program_id()@) {
            laws_keyspace::lemma_initialize_token_mint_anchors(
                ledger@,
                ledger.program_id()@,
                ctx.admin,
                ctx.mint,
            );
        }
    }
    let program = ledger.program();
    let key = derive_singleton(Namespace::TokenMint, &program);
    initialize_token_mint_at(ledger, ctx, key)
}

/// The accounts of issuing a credential: the one who issues, and the one who
/// will own it.
#[derive(Clone, Copy, Debug, PartialEq, Eq)]
pub struct MintRoleToken {
    pub admin: Identity,
    pub owner: Identity,
}

/// What issuing a credential does, given the keys of the root and of the
/// credential's slot: only the recorded issuer may, the role must be within
/// its cap and the slot free; then the credential is written.
pub open spec fn mint_role_token_outcome(
    pre: State,
    admin: Identity,
    owner: Identity,
    role: Seq<char>,
    amount: u64,
    now: i64,
    mint_key: Found,
    token_key: Found,
) -> Outcome {
    match token_mint_at(pre, mint_key) {
        Err(e) => Err(e),
        Ok((_, storage)) => if storage.admin != admin {
            Err(AccessRequestError::Unauthorized)
        } else if !fits(role, MAX_ROLE_LENGTH) {
            Err(AccessRequestError::FieldTooLong)
        } else {
            match free_slot_at(pre, token_key, AccessRequestError::AlreadyExists) {
                Err(e) => Err(e),
                Ok((address, bump)) => Ok(
                    pre.insert(
                        address,
                        AccountView::RoleToken(
                            RoleTokenAccountView {
                                owner,
                                role,
                                amount,
                                created_at: now,
                                updated_at: now,
                                bump,
                            },
                        ),
                    ),
                ),
            }
        },
    }
}

/// Issues a credential in the slot at `token_key`, under the root at
/// `mint_key`.
pub fn mint_role_token_at(
    ledger: &mut Ledger,
    ctx: &MintRoleToken,
    role: String,
    amount: u64,
    now: i64,
    mint_key: Option<DerivedKey>,
    token_key: Option<DerivedKey>,
) -> (result: Verdict)
    ensures
        settles(
            mint_role_token_outcome(
                old(ledger)@,
                ctx.admin,
                ctx.owner,
                role@,
                amount,
                now,
                key_view(mint_key),
                key_view(token_key),
            ),
            old(ledger)@,
            result,
            final(ledger)@,
        ),
        final(ledger).program_id() == old(ledger).program_id(),
{
    let (_, storage) = match load_token_mint(ledger, mint_key) {
        Ok(loaded) => loaded,
        Err(e) => {
            return Err(e);
        },
    };
    if !storage.admin.same(&ctx.admin) {
        return Err(AccessRequestError::Unauthorized);
    }
    if !within_cap(&role, MAX_ROLE_LENGTH) {
        return Err(AccessRequestError::FieldTooLong);
    }
    let slot = match free_slot(ledger, token_key, AccessRequestError::AlreadyExists) {
        Ok(slot) => slot,
        Err(e) => {
            return Err(e);
        },
    };
    ledger.put(
        slot.address,
        Account::RoleToken(
            RoleTokenAccount {
                owner: ctx.owner,
                role,
                amount,
                created_at: now,
                updated_at: now,
                bump: slot.bump,
            },
        ),
    );
    Ok(())
}

/// Issues to `ctx.owner` the credential of a role, at the address derived
/// from the owner and the role.
///
/// Fails with `NotFound` where the credentials were not set up, with
/// `Unauthorized` unless `ctx.admin` is the recorded issuer, with
/// `FieldTooLong` where the role is over its cap, and with `AlreadyExists`
/// where the owner holds a credential of the role already.
pub fn mint_role_token(
    ledger: &mut Ledger,
    ctx: &MintRoleToken,
    role: String,
    amount: u64,
    now: i64,
) -> (result: Verdict)
    ensures
        settles(
            mint_role_token_outcome(
                old(ledger)@,
                ctx.admin,
                ctx.owner,
                role@,
                amount,
                now,
                singleton_key(Namespace::TokenMint, old(ledger).program_id()@),
                role_key(ctx.owner@, role@, old(ledger).program_id()@),
            ),
            old(ledger)@,
            result,
            final(ledger)@,
        ),
        final(ledger).program_id() == old(ledger).program_id(),
        anchored(old(ledger)@, old(ledger).program_id()@) ==> anchored(
            final(ledger)@,
            final(ledger).program_id()@,
        ),
{
    proof {
        if anchored(ledger@, ledger.program_id()@) {
            laws_keyspace::lemma_mint_role_token_anchors(
                ledger@,
                ledger.program_id()@,
                ctx.admin,
                ctx.owner,
                role@,
                amount,
                now,
            );
        }
    }
    let program = ledger.program();
    let mint_key = derive_singleton(Namespace::TokenMint, &program);
    let token_key = derive_credential(ledger, &ctx.owner, role.as_str());
    mint_role_token_at(ledger, ctx, role, amount, now, mint_key, token_key)
}

/// The accounts of approving a request with a role: the one who decides, and
/// the address of the request.
#[derive(Clone, Copy, Debug, PartialEq, Eq)]
pub struct ApproveAccessRequest {
    pub admin: Identity,
    pub request: Identity,
}

/// Approves the request at `ctx.request` with a role, for a caller whose
/// admin credential is looked up at `credential_key`.
pub fn approve_access_request_at(
    ledger: &mut Ledger,
    ctx: &ApproveAccessRequest,
    role: String,
    now: i64,
    credential_key: Option<DerivedKey>,
) -> (result: Verdict)
    ensures
        settles(
            transition_outcome(
                old(ledger)@,
                ctx.request@,
                RequestStatus::Approved,
                role@,
                now,
                holds_credential(old(ledger)@, key_view(credential_key)),
            ),
            old(ledger)@,
            result,
            final(ledger)@,
        ),
        final(ledger).program_id() == old(ledger).program_id(),
{
    let authorized = check_at(ledger, credential_key);
    transition(ledger, &ctx.request, RequestStatus::Approved, role, now, authorized)
}

/// Approves the request at `ctx.request` and grants `role` in place of the
/// role that was asked for; an empty role keeps the one asked for.
///
/// Fails with `Unauthorized` unless `ctx.admin` holds the admin role, whatever
/// the state of the request; with `FieldTooLong` where the role is over its
/// cap; with `NotFound` where no request lives at the address; with
/// `InvalidRequestStatus` where the request is not pending.
pub fn approve_access_request(
    ledger: &mut Ledger,
    ctx: &ApproveAccessRequest,
    role: String,
    now: i64,
) -> (result: Verdict)
    ensures
        settles(
            transition_outcome(
                old(ledger)@,
                ctx.request@,
                RequestStatus::Approved,
                role@,
                now,
                holds_role(old(ledger)@, ctx.admin@, admin_role(), old(ledger).program_id()@),
            ),
            old(ledger)@,
            result,
            final(ledger)@,
        ),
        final(ledger).program_id() == old(ledger).program_id(),
        anchored(old(ledger)@, old(ledger).program_id()@) ==> anchored(
            final(ledger)@,
            final(ledger).program_id()@,
        ),
{
    proof {
        if anchored(ledger@, ledger.program_id()@) {
            laws_keyspace::lemma_transition_anchors(
                ledger@,
                ledger.program_id()@,
                ctx.request@,
                RequestStatus::Approved,
                role@,
                now,
                holds_role(ledger@, ctx.admin@, admin_role(), ledger.program_id()@),
            );
        }
    }
    let key = derive_credential(ledger, &ctx.admin, "admin");
    approve_access_request_at(ledger, ctx, role, now, key)
}

/// The accounts of creating a timed session: the one who creates it.
#[derive(Clone, Copy, Debug, PartialEq, Eq)]
pub struct CreateSession {
    pub admin: Identity,
}

/// What creating a timed session does, given whether the caller is
/// authorized and the keys of the counter and of the session's slot: a
/// session numbered by the counter, which goes up by one.
pub open spec fn create_session_outcome(
    pre: State,
    title: Seq<char>,
    description: Seq<char>,
    location: Seq<char>,
    start_time: i64,
    end_time: i64,
    now: i64,
    authorized: bool,
    storage_key: Found,
    session_key: Found,
) -> Outcome {
    if !authorized {
        Err(AccessRequestError::Unauthorized)
    } else if !fits(title, MAX_TITLE_LENGTH) || !fits(description, MAX_DESCRIPTION_LENGTH) || !fits(
        location,
        MAX_LOCATION_LENGTH,
    ) {
        Err(AccessRequestError::FieldTooLong)
    } else {
        match session_storage_at(pre, storage_key) {
            Err(e) => Err(e),
            Ok((storage_address, storage)) => if storage.session_count == u64::MAX {
                Err(AccessRequestError::Overflow)
            } else {
                match free_slot_at(pre, session_key, AccessRequestError::AlreadyExists) {
                    Err(e) => Err(e),
                    Ok((address, bump)) => Ok(
                        pre.insert(
                            storage_address,
                            AccountView::SessionStorage(storage.advanced()),
                        ).insert(
                            address,
                            AccountView::TimedSession(
                                TimedSessionView {
                                    id: storage.session_count,
                                    title,
                                    description,
                                    location,
                                    start_time,
                                    end_time,
                                    created_at: now,
                                    updated_at: now,
                                    bump,
                                },
                            ),
                        ),
                    ),
                }
            },
        }
    }
}

/// Creates a timed session in the slot at `session_key`, numbered by the
/// counter at `storage_key`, for a caller whose admin and trainer credentials
/// are looked up at `admin_key` and `trainer_key`.
pub fn create_session_at(
    ledger: &mut Ledger,
    ctx: &CreateSession,
    title: String,
    description: String,
    location: String,
    start_time: i64,
    end_time: i64,
    now: i64,
    admin_key: Option<DerivedKey>,
    trainer_key: Option<DerivedKey>,
    storage_key: Option<DerivedKey>,
    session_key: Option<DerivedKey>,
) -> (result: Verdict)
    ensures
        settles(
            create_session_outcome(
                old(ledger)@,
                title@,
                description@,
                location@,
                start_time,
                end_time,
                now,
                holds_credential(old(ledger)@, key_view(admin_key)) || holds_credential(
                    old(ledger)@,
                    key_view(trainer_key),
                ),
                key_view(storage_key),
                key_view(session_key),
            ),
            old(ledger)@,
            result,
            final(ledger)@,
        ),
        final(ledger).program_id() == old(ledger).program_id(),
{
    if !check_at(ledger, admin_key) && !check_at(ledger, trainer_key) {
        return Err(AccessRequestError::Unauthorized);
    }
    if !within_cap(&title, MAX_TITLE_LENGTH) || !within_cap(&description, MAX_DESCRIPTION_LENGTH)
        || !within_cap(&location, MAX_LOCATION_LENGTH) {
        return Err(AccessRequestError::FieldTooLong);
    }
    let (storage_address, mut storage) = match load_session_storage(ledger, storage_key) {
        Ok(loaded) => loaded,
        Err(e) => {
            return Err(e);
        },
    };
    let id = match storage.next_id() {
        Ok(id) => id,
        Err(e) => {
            return Err(e);
        },
    };
    let slot = match free_slot(ledger, session_key, AccessRequestError::AlreadyExists) {
        Ok(slot) => slot,
        Err(e) => {
            return Err(e);
        },
    };
    ledger.put(storage_address, Account::SessionStorage(storage));
    ledger.put(
        slot.address,
        Account::TimedSession(
            TimedSession {
                id,
                title,
                description,
                location,
                start_time,
                end_time,
                created_at: now,
                updated_at: now,
                bump: slot.bump,
            },
        ),
    );
    Ok(())
}

/// Creates a timed session: numbered by the session counter, at the address
/// derived from that number.
///
/// Fails with `Unauthorized` unless `ctx.admin` holds the admin or the
/// trainer role, with `FieldTooLong` where the title, the description or the
/// location is over its cap, with `NotFound` where the counter was not set
/// up, with `Overflow` where it is exhausted, and with `AlreadyExists` where
/// the slot of the number is taken.
pub fn create_session(
    ledger: &mut Ledger,
    ctx: &CreateSession,
    title: String,
    description: String,
    location: String,
    start_time: i64,
    end_time: i64,
    now: i64,
) -> (result: Verdict)
    ensures
        settles(
            create_session_outcome(
                old(ledger)@,
                title@,
                description@,
                location@,
                start_time,
                end_time,
                now,
                runs_sessions(old(ledger)@, ctx.admin@, old(ledger).program_id()@),
                singleton_key(Namespace::SessionStorage, old(ledger).program_id()@),
                next_session_key(
                    old(ledger)@,
                    singleton_key(Namespace::SessionStorage, old(ledger).program_id()@),
                    old(ledger).program_id()@,
                ),
            ),
            old(ledger)@,
            result,
            final(ledger)@,
        ),
        final(ledger).program_id() == old(ledger).program_id(),
        anchored(old(ledger)@, old(ledger).program_id()@) ==> anchored(
            final(ledger)@,
            final(ledger).program_id()@,
        ),
{
    proof {
        if anchored(ledger@, ledger.program_id()@) {
            laws_keyspace::lemma_create_timed_session_anchors(
                ledger@,
                ledger.program_id()@,
                title@,
                description@,
                location@,
                start_time,
                end_time,
                now,
                runs_sessions(ledger@, ctx.admin@, ledger.program_id()@),
            );
        }
    }
    let program = ledger.program();
    let admin_key = derive_credential(ledger, &ctx.admin, "admin");
    let trainer_key = derive_credential(ledger, &ctx.admin, "trainer");
    let storage_key = derive_singleton(Namespace::SessionStorage, &program);
    let session_key = derive_next_session(ledger, storage_key);
    create_session_at(
        ledger,
        ctx,
        title,
        description,
        location,
        start_time,
        end_time,
        now,
        admin_key,
        trainer_key,
        storage_key,
        session_key,
    )
}

/// The accounts of checking in with a credential: the one who signs.
#[derive(Clone, Copy, Debug, PartialEq, Eq)]
pub struct RecordAttendance {
    pub student: Identity,
}

/// The seeds of the attendance of a student under a sequence number.
pub open spec fn sequenced_attendance_seeds(student: Seq<u8>, number: u64) -> Seq<Seq<u8>> {
    paired_seeds(Namespace::Attendance, student, encode_utf8(decimal_chars(number as nat)))
}

/// The key of the slot that the next attendance of `student` goes to, by the
/// counter at `storage_key`, under `program`.
pub open spec fn next_attendance_key(
    pre: State,
    storage_key: Found,
    student: Seq<u8>,
    program: Seq<u8>,
) -> Found {
    match attendance_storage_at(pre, storage_key) {
        Ok((_, storage)) => derived_address(
            sequenced_attendance_seeds(student, storage.attendance_count),
            program,
        ),
        Err(_) => None,
    }
}

/// What checking in with a credential does, given whether the caller is
/// authorized and the keys of the counter and of the attendance's slot: an
/// attendance numbered by the counter, which goes up by one, checked in at
/// `now` and not yet checked out.
pub open spec fn record_attendance_outcome(
    pre: State,
    session_id: u64,
    student: Identity,
    is_present: bool,
    note: Seq<char>,
    now: i64,
    authorized: bool,
    storage_key: Found,
    attendance_key: Found,
) -> Outcome {
    if !authorized {
        Err(AccessRequestError::Unauthorized)
    } else if !fits(note, MAX_NOTE_LENGTH) {
        Err(AccessRequestError::FieldTooLong)
    } else {
        match attendance_storage_at(pre, storage_key) {
            Err(e) => Err(e),
            Ok((storage_address, storage)) => if storage.attendance_count == u64::MAX {
                Err(AccessRequestError::Overflow)
            } else {
                match free_slot_at(pre, attendance_key, AccessRequestError::AlreadyExists) {
                    Err(e) => Err(e),
                    Ok((address, bump)) => Ok(
                        pre.insert(
                            storage_address,
                            AccountView::AttendanceStorage(storage.advanced()),
                        ).insert(
                            address,
                            AccountView::SequencedAttendance(
                                SequencedAttendanceView {
                                    id: storage.attendance_count,
                                    session_id,
                                    student,
                                    is_present,
                                    check_in_time: now,
                                    check_out_time: None,
                                    note,
                                    created_at: now,
                                    updated_at: now,
                                    bump,
                                },
                            ),
                        ),
                    ),
                }
            },
        }
    }
}

/// Checks `student` in, in the slot at `attendance_key`, numbered by the
/// counter at `storage_key`; the student must be the one who signs, and their
/// student credential is looked up at `credential_key`.
pub fn record_attendance_at(
    ledger: &mut Ledger,
    ctx: &RecordAttendance,
    session_id: u64,
    student: Identity,
    is_present: bool,
    note: String,
    now: i64,
    credential_key: Option<DerivedKey>,
    storage_key: Option<DerivedKey>,
    attendance_key: Option<DerivedKey>,
) -> (result: Verdict)
    ensures
        settles(
            record_attendance_outcome(
                old(ledger)@,
                session_id,
                student,
                is_present,
                note@,
                now,
                ctx.student == student && holds_credential(
                    old(ledger)@,
                    key_view(credential_key),
                ),
                key_view(storage_key),
                key_view(attendance_key),
            ),
            old(ledger)@,
            result,
            final(ledger)@,
        ),
        final(ledger).program_id() == old(ledger).program_id(),
{
    if !ctx.student.same(&student) || !check_at(ledger, credential_key) {
        return Err(AccessRequestError::Unauthorized);
    }
    if !within_cap(&note, MAX_NOTE_LENGTH) {
        return Err(AccessRequestError::FieldTooLong);
    }
    let (storage_address, mut storage) = match load_attendance_storage(ledger, storage_key) {
        Ok(loaded) => loaded,
        Err(e) => {
            return Err(e);
        },
    };
    let id = match storage.next_id() {
        Ok(id) => id,
        Err(e) => {
            return Err(e);
        },
    };
    let slot = match free_slot(ledger, attendance_key, AccessRequestError::AlreadyExists) {
        Ok(slot) => slot,
        Err(e) => {
            return Err(e);
        },
    };
    ledger.put(storage_address, Account::AttendanceStorage(storage));
    ledger.put(
        slot.address,
        Account::SequencedAttendance(
            SequencedAttendance {
                id,
                session_id,
                student,
                is_present,
                check_in_time: now,
                check_out_time: None,
                note,
                created_at: now,
                updated_at: now,
                bump: slot.bump,
            },
        ),
    );
    Ok(())
}

/// The key of the slot that the next attendance of `student` goes to, if the
/// counter at `storage_key` is there.
pub fn derive_next_attendance(
    ledger: &Ledger,
    storage_key: Option<DerivedKey>,
    student: &Identity,
) -> (key: Option<DerivedKey>)
    ensures
        key_view(key) == next_attendance_key(
            ledger@,
            key_view(storage_key),
            student@,
            ledger.program_id()@,
        ),
{
    let program = ledger.program();
    match load_attendance_storage(ledger, storage_key) {
        Ok((_, storage)) => derive_paired(
            Namespace::Attendance,
            student.to_bytes(),
            text_bytes(&decimal_text(storage.attendance_count)),
            &program,
        ),
        Err(_) => None,
    }
}

/// Checks `student` in to a session: an attendance numbered by the
/// attendance counter, at the address derived from the student and that
/// number, checked in at `now` and not yet checked out.
///
/// Fails with `Unauthorized` unless `student` is the one who signs and holds
/// the student role, with `FieldTooLong` where the note is over its cap, with
/// `NotFound` where the counter was not set up, with `Overflow` where it is
/// exhausted, and with `AlreadyExists` where the slot is taken.
pub fn record_attendance(
    ledger: &mut Ledger,
    ctx: &RecordAttendance,
    session_id: u64,
    student: Identity,
    is_present: bool,
    note: String,
    now: i64,
) -> (result: Verdict)
    ensures
        settles(
            record_attendance_outcome(
                old(ledger)@,
                session_id,
                student,
                is_present,
                note@,
                now,
                ctx.student == student && holds_role(
                    old(ledger)@,
                    student@,
                    student_role(),
                    old(ledger).program_id()@,
                ),
                singleton_key(Namespace::AttendanceStorage, old(ledger).program_id()@),
                next_attendance_key(
                    old(ledger)@,
                    singleton_key(Namespace::AttendanceStorage, old(ledger).program_id()@),
                    student@,
                    old(ledger).program_id()@,
                ),
            ),
            old(ledger)@,
            result,
            final(ledger)@,
        ),
        final(ledger).program_id() == old(ledger).program_id(),
        anchored(old(ledger)@, old(ledger).program_id()@) ==> anchored(
            final(ledger)@,
            final(ledger).program_id()@,
        ),
{
    proof {
        if anchored(ledger@, ledger.program_id()@) {
            laws_keyspace::lemma_record_sequenced_attendance_anchors(
                ledger@,
                ledger.program_id()@,
                session_id,
                student,
                is_present,
                note@,
                now,
                ctx.student == student && holds_role(
                    ledger@,
                    student@,
                    student_role(),
                    ledger.program_id()@,
                ),
            );
        }
    }
    let program = ledger.program();
    let credential_key = derive_credential(ledger, &student, "student");
    let storage_key = derive_singleton(Namespace::AttendanceStorage, &program);
    let attendance_key = derive_next_attendance(ledger, storage_key, &student);
    record_attendance_at(
        ledger,
        ctx,
        session_id,
        student,
        is_present,
        note,
        now,
        credential_key,
        storage_key,
        attendance_key,
    )
}

/// The accounts of checking out with a credential: the student, and the
/// address of the attendance.
#[derive(Clone, Copy, Debug, PartialEq, Eq)]
pub struct UpdateAttendance {
    pub student: Identity,
    pub attendance: Identity,
}

/// The sequenced attendance at an address, if one lives there.
pub open spec fn sequenced_attendance_at(state: State, address: Seq<u8>) -> Option<
    SequencedAttendanceView,
> {
    if state.contains_key(address) {
        match state[address] {
            AccountView::SequencedAttendance(attendance) => Some(attendance),
            _ => None,
        }
    } else {
        None
    }
}

/// What checking out with a credential does: the attendance must be there,
/// the caller its student and the holder of a credential, and the note
/// within its cap; then the presence flag, the time of the check-out, the
/// patched note and the time of the update are written, and nothing else.
pub open spec fn update_attendance_outcome(
    pre: State,
    student: Identity,
    address: Seq<u8>,
    is_present: bool,
    note: Seq<char>,
    now: i64,
    credentialed: bool,
) -> Outcome {
    match sequenced_attendance_at(pre, address) {
        None => Err(AccessRequestError::NotFound),
        Some(attendance) => if attendance.student != student || !credentialed {
            Err(AccessRequestError::Unauthorized)
        } else if !fits(note, MAX_NOTE_LENGTH) {
            Err(AccessRequestError::FieldTooLong)
        } else {
            Ok(
                pre.insert(
                    address,
                    AccountView::SequencedAttendance(
                        SequencedAttendanceView {
                            is_present,
                            check_out_time: Some(now),
                            note: patched(attendance.note, note),
                            updated_at: now,
                            ..attendance
                        },
                    ),
                ),
            )
        },
    }
}

/// Checks the student of the attendance at `ctx.attendance` out, for a
/// caller whose student credential is looked up at `credential_key`.
pub fn update_attendance_at(
    ledger: &mut Ledger,
    ctx: &UpdateAttendance,
    is_present: bool,
    note: String,
    now: i64,
    credential_key: Option<DerivedKey>,
) -> (result: Verdict)
    ensures
        settles(
            update_attendance_outcome(
                old(ledger)@,
                ctx.student,
                ctx.attendance@,
                is_present,
                note@,
                now,
                holds_credential(old(ledger)@, key_view(credential_key)),
            ),
            old(ledger)@,
            result,
            final(ledger)@,
        ),
        final(ledger).program_id() == old(ledger).program_id(),
{
    let credentialed = check_at(ledger, credential_key);
    let updated = match ledger.get(&ctx.attendance) {
        Some(Account::SequencedAttendance(attendance)) => {
            if !attendance.student.same(&ctx.student) || !credentialed {
                return Err(AccessRequestError::Unauthorized);
            }
            if !within_cap(&note, MAX_NOTE_LENGTH) {
                return Err(AccessRequestError::FieldTooLong);
            }
            SequencedAttendance {
                id: attendance.id,
                session_id: attendance.session_id,
                student: attendance.student,
                is_present,
                check_in_time: attendance.check_in_time,
                check_out_time: Some(now),
                note: patch_text(&attendance.note, note),
                created_at: attendance.created_at,
                updated_at: now,
                bump: attendance.bump,
            }
        },
        _ => {
            return Err(AccessRequestError::NotFound);
        },
    };
    ledger.put(ctx.attendance, Account::SequencedAttendance(updated));
    Ok(())
}

/// Checks the student of the attendance at `ctx.attendance` out: the
/// presence flag and the time of the check-out are written, and the note
/// unless it is empty; the time of the check-in stays.
///
/// Fails with `NotFound` where no such attendance lives at the address, with
/// `Unauthorized` unless `ctx.student` is its student and holds the student
/// role, and with `FieldTooLong` where the note is over its cap.
pub fn update_attendance(
    ledger: &mut Ledger,
    ctx: &UpdateAttendance,
    is_present: bool,
    note: String,
    now: i64,
) -> (result: Verdict)
    ensures
        settles(
            update_attendance_outcome(
                old(ledger)@,
                ctx.student,
                ctx.attendance@,
                is_present,
                note@,
                now,
                holds_role(old(ledger)@, ctx.student@, student_role(), old(ledger).program_id()@),
            ),
            old(ledger)@,
            result,
            final(ledger)@,
        ),
        final(ledger).program_id() == old(ledger).program_id(),
        anchored(old(ledger)@, old(ledger).program_id()@) ==> anchored(
            final(ledger)@,
            final(ledger).program_id()@,
        ),
{
    proof {
        if anchored(ledger@, ledger.program_id()@) {
            laws_keyspace::lemma_update_sequenced_attendance_anchors(
                ledger@,
                ledger.program_id()@,
                ctx.student,
                ctx.attendance@,
                is_present,
                note@,
                now,
                holds_role(ledger@, ctx.student@, student_role(), ledger.program_id()@),
            );
        }
    }
    let key = derive_credential(ledger, &ctx.student, "student");
    update_attendance_at(ledger, ctx, is_present, note, now, key)
}

} // verus!
