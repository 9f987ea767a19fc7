//! What holds of the workflow of a request and of the order of the checks.

use vstd::prelude::*;
use crate::errors::AccessRequestError;
use crate::gated;
use crate::identity::Identity;
use crate::keys::Found;
use crate::records::{refused, RequestStatus, State};
use crate::registry;
use crate::registry::{attendance_at, legal_transition, request_at, transition_outcome};
use crate::text::{fits, MAX_MESSAGE_LENGTH, MAX_NOTE_LENGTH, MAX_ROLE_LENGTH};

verus! {

/// A request that was filed is pending.
pub proof fn lemma_new_request_is_pending(
    pre: State,
    requester: Identity,
    role: Seq<char>,
    message: Seq<char>,
    now: i64,
    storage_key: Found,
    request_key: Found,
)
    requires
        registry::create_access_request_outcome(
            pre,
            requester,
            role,
            message,
            now,
            storage_key,
            request_key,
        ) is Ok,
    ensures
        request_key is Some,
        request_at(pre, request_key->Some_0.0) is None,
        request_at(
            registry::create_access_request_outcome(
                pre,
                requester,
                role,
                message,
                now,
                storage_key,
                request_key,
            )->Ok_0,
            request_key->Some_0.0,
        ) matches Some(request) && request.status == RequestStatus::Pending && request.requester
            == requester,
{
}

/// A transition succeeds exactly when the caller is authorized, the role in
/// the patch is within its cap, a request lives at the address, and the
/// request is pending and the target a decision: all of them must hold, in
/// whatever order they are looked at.
pub proof fn lemma_transition_needs_all(
    pre: State,
    address: Seq<u8>,
    target: RequestStatus,
    role: Seq<char>,
    now: i64,
    authorized: bool,
)
    ensures
        transition_outcome(pre, address, target, role, now, authorized) is Ok <==> (authorized
            && fits(role, MAX_ROLE_LENGTH) && (request_at(pre, address) matches Some(request)
            && legal_transition(request.status, target))),
{
}

/// A decision is reached only from pending: after a transition that
/// succeeded the request was pending before and is decided now, and its
/// requester, its number, its message and the time of its creation are what
/// they were.
pub proof fn lemma_decision_passes_through_pending(
    pre: State,
    address: Seq<u8>,
    target: RequestStatus,
    role: Seq<char>,
    now: i64,
    authorized: bool,
)
    requires
        transition_outcome(pre, address, target, role, now, authorized) is Ok,
    ensures
        request_at(pre, address) matches Some(before) && before.status == RequestStatus::Pending
            && (request_at(
            transition_outcome(pre, address, target, role, now, authorized)->Ok_0,
            address,
        ) matches Some(after) && after.status == target && after.status.is_terminal()
            && after.requester == before.requester && after.id == before.id && after.message
            == before.message && after.created_at == before.created_at && after.updated_at
            == now),
{
}

/// A decided request is final: every further transition of it, by an
/// authorized caller and with a role within its cap, fails with
/// `InvalidRequestStatus`; none succeeds, whoever calls.
pub proof fn lemma_decided_request_is_final(
    pre: State,
    address: Seq<u8>,
    target: RequestStatus,
    role: Seq<char>,
    now: i64,
    authorized: bool,
)
    requires
        request_at(pre, address) matches Some(request) && request.status.is_terminal(),
    ensures
        transition_outcome(pre, address, target, role, now, authorized) is Err,
        authorized && fits(role, MAX_ROLE_LENGTH) ==> refused(transition_outcome(
            pre,
            address,
            target,
            role,
            now,
            authorized,
        ), AccessRequestError::InvalidRequestStatus),
{
}

/// A transition by a caller who is not authorized fails with `Unauthorized`,
/// whatever the state of the request, and whether or not one is there.
pub proof fn lemma_unauthorized_transition(
    pre: State,
    address: Seq<u8>,
    target: RequestStatus,
    role: Seq<char>,
    now: i64,
)
    ensures
        refused(
            transition_outcome(pre, address, target, role, now, false),
            AccessRequestError::Unauthorized,
        ),
{
}

/// A check-out by anyone but the student of the attendance fails with
/// `Unauthorized`, whatever the attendance and the note hold.
pub proof fn lemma_unauthorized_check_out(
    pre: State,
    student: Identity,
    address: Seq<u8>,
    is_present: bool,
    note: Seq<char>,
    now: i64,
)
    requires
        attendance_at(pre, address) matches Some(attendance) && attendance.student != student,
    ensures
        refused(
            registry::update_attendance_outcome(pre, student, address, is_present, note, now),
            AccessRequestError::Unauthorized,
        ),
{
}

/// A check-out succeeds exactly when an attendance lives at the address, the
/// caller is its student and the note is within its cap; the time of the
/// check-in stays, and the time of the check-out is the time of the call.
pub proof fn lemma_check_out_needs_all(
    pre: State,
    student: Identity,
    address: Seq<u8>,
    is_present: bool,
    note: Seq<char>,
    now: i64,
)
    ensures
        registry::update_attendance_outcome(pre, student, address, is_present, note, now) is Ok
            <==> (attendance_at(pre, address) matches Some(attendance) && attendance.student
            == student && fits(note, MAX_MESSAGE_LENGTH)),
        registry::update_attendance_outcome(pre, student, address, is_present, note, now)
            matches Ok(post) ==> (attendance_at(post, address) matches Some(after)
            && after.check_in_time
            == attendance_at(pre, address)->Some_0.check_in_time && after.check_out_time == Some(
            now,
        ) && after.is_present == is_present && after.student == student),
{
}

/// A check-out with a credential by anyone but the student of the
/// attendance, or by a student without a credential, fails with
/// `Unauthorized`, whatever the attendance and the note hold.
pub proof fn lemma_unauthorized_sequenced_check_out(
    pre: State,
    student: Identity,
    address: Seq<u8>,
    is_present: bool,
    note: Seq<char>,
    now: i64,
    credentialed: bool,
)
    requires
        gated::sequenced_attendance_at(pre, address) matches Some(attendance) && (
        attendance.student != student || !credentialed),
    ensures
        refused(gated::update_attendance_outcome(
            pre,
            student,
            address,
            is_present,
            note,
            now,
            credentialed,
        ), AccessRequestError::Unauthorized),
{
}

/// A check-out with a credential succeeds exactly when an attendance lives
/// at the address, the caller is its student and holds a credential, and the
/// note is within its cap.
pub proof fn lemma_sequenced_check_out_needs_all(
    pre: State,
    student: Identity,
    address: Seq<u8>,
    is_present: bool,
    note: Seq<char>,
    now: i64,
    credentialed: bool,
)
    ensures
        gated::update_attendance_outcome(
            pre,
            student,
            address,
            is_present,
            note,
            now,
            credentialed,
        ) is Ok <==> (gated::sequenced_attendance_at(pre, address) matches Some(attendance)
            && attendance.student == student && credentialed && fits(note, MAX_NOTE_LENGTH)),
{
}

/// Whether every request of `post` was in `pre` as it is, and none left.
pub open spec fn requests_untouched(pre: State, post: State) -> bool {
    forall|address: Seq<u8>| #[trigger] request_at(post, address) == request_at(pre, address)
}

/// Setting up the request counter touches no request.
pub proof fn lemma_initialize_access_storage_keeps_requests(
    pre: State,
    admin: Identity,
    key: Found,
)
    ensures
        registry::initialize_access_storage_outcome(
            pre,
            admin,
            key,
        ) matches Ok(post) ==> requests_untouched(pre, post),
{
}

/// Setting up the formation counter touches no request.
pub proof fn lemma_initialize_formation_storage_keeps_requests(
    pre: State,
    admin: Identity,
    key: Found,
)
    ensures
        registry::initialize_formation_storage_outcome(
            pre,
            admin,
            key,
        ) matches Ok(post) ==> requests_untouched(pre, post),
{
}

/// Setting up the session counter touches no request.
pub proof fn lemma_initialize_session_storage_keeps_requests(
    pre: State,
    admin: Identity,
    key: Found,
)
    ensures
        registry::initialize_session_storage_outcome(
            pre,
            admin,
            key,
        ) matches Ok(post) ==> requests_untouched(pre, post),
{
}

/// Setting up the attendance counter touches no request.
pub proof fn lemma_initialize_attendance_storage_keeps_requests(
    pre: State,
    admin: Identity,
    key: Found,
)
    ensures
        registry::initialize_attendance_storage_outcome(
            pre,
            admin,
            key,
        ) matches Ok(post) ==> requests_untouched(pre, post),
{
}

/// Setting up the credentials touches no request.
pub proof fn lemma_initialize_token_mint_keeps_requests(
    pre: State,
    admin: Identity,
    mint: Identity,
    key: Found,
)
    ensures
        gated::initialize_token_mint_outcome(
            pre,
            admin,
            mint,
            key,
        ) matches Ok(post) ==> requests_untouched(pre, post),
{
}

/// Issuing a credential touches no request.
pub proof fn lemma_mint_role_token_keeps_requests(
    pre: State,
    admin: Identity,
    owner: Identity,
    role: Seq<char>,
    amount: u64,
    now: i64,
    mint_key: Found,
    token_key: Found,
)
    ensures
        gated::mint_role_token_outcome(
            pre,
            admin,
            owner,
            role,
            amount,
            now,
            mint_key,
            token_key,
        ) matches Ok(post) ==> requests_untouched(pre, post),
{
}

/// Writing a formation touches no request.
pub proof fn lemma_upsert_formation_keeps_requests(
    pre: State,
    admin: Identity,
    id_str: Option<Seq<char>>,
    title: Seq<char>,
    description: Seq<char>,
    start_date: i64,
    end_date: i64,
    is_active: bool,
    now: i64,
    authorized: bool,
    storage_key: Found,
    formation_key: Found,
)
    ensures
        registry::upsert_formation_outcome(
            pre,
            admin,
            id_str,
            title,
            description,
            start_date,
            end_date,
            is_active,
            now,
            authorized,
            storage_key,
            formation_key,
        ) matches Ok(post) ==> requests_untouched(pre, post),
{
}

/// Creating a session touches no request.
pub proof fn lemma_create_session_keeps_requests(
    pre: State,
    trainer: Identity,
    formation_id: Seq<char>,
    title: Seq<char>,
    description: Seq<char>,
    date: i64,
    duration: u64,
    location: Seq<char>,
    now: i64,
    authorized: bool,
    storage_key: Found,
    session_key: Found,
)
    ensures
        registry::create_session_outcome(
            pre,
            trainer,
            formation_id,
            title,
            description,
            date,
            duration,
            location,
            now,
            authorized,
            storage_key,
            session_key,
        ) matches Ok(post) ==> requests_untouched(pre, post),
{
}

/// Creating a timed session touches no request.
pub proof fn lemma_create_timed_session_keeps_requests(
    pre: State,
    title: Seq<char>,
    description: Seq<char>,
    location: Seq<char>,
    start_time: i64,
    end_time: i64,
    now: i64,
    authorized: bool,
    storage_key: Found,
    session_key: Found,
)
    ensures
        gated::create_session_outcome(
            pre,
            title,
            description,
            location,
            start_time,
            end_time,
            now,
            authorized,
            storage_key,
            session_key,
        ) matches Ok(post) ==> requests_untouched(pre, post),
{
}

/// Checking in touches no request.
pub proof fn lemma_record_attendance_keeps_requests(
    pre: State,
    student: Identity,
    session_id: Seq<char>,
    is_present: bool,
    note: Seq<char>,
    now: i64,
    storage_key: Found,
    attendance_key: Found,
)
    ensures
        registry::record_attendance_outcome(
            pre,
            student,
            session_id,
            is_present,
            note,
            now,
            storage_key,
            attendance_key,
        ) matches Ok(post) ==> requests_untouched(pre, post),
{
}

/// Checking in with a credential touches no request.
pub proof fn lemma_record_sequenced_attendance_keeps_requests(
    pre: State,
    session_id: u64,
    student: Identity,
    is_present: bool,
    note: Seq<char>,
    now: i64,
    authorized: bool,
    storage_key: Found,
    attendance_key: Found,
)
    ensures
        gated::record_attendance_outcome(
            pre,
            session_id,
            student,
            is_present,
            note,
            now,
            authorized,
            storage_key,
            attendance_key,
        ) matches Ok(post) ==> requests_untouched(pre, post),
{
}

/// Checking out touches no request.
pub proof fn lemma_update_attendance_keeps_requests(
    pre: State,
    student: Identity,
    address: Seq<u8>,
    is_present: bool,
    note: Seq<char>,
    now: i64,
)
    ensures
        registry::update_attendance_outcome(
            pre,
            student,
            address,
            is_present,
            note,
            now,
        ) matches Ok(post) ==> requests_untouched(pre, post),
{
}

/// Checking out with a credential touches no request.
pub proof fn lemma_update_sequenced_attendance_keeps_requests(
    pre: State,
    student: Identity,
    address: Seq<u8>,
    is_present: bool,
    note: Seq<char>,
    now: i64,
    credentialed: bool,
)
    ensures
        gated::update_attendance_outcome(
            pre,
            student,
            address,
            is_present,
            note,
            now,
            credentialed,
        ) matches Ok(post) ==> requests_untouched(pre, post),
{
}

} // verus!
