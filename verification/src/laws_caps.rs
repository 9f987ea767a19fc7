//! What holds of the caps on text fields: a write within every cap is not
//! refused for its length, and a write over any cap leaves nothing behind.

use vstd::prelude::*;
use crate::counter::{
    access_storage_at, attendance_storage_at, formation_storage_at, free_slot_at,
    session_storage_at, token_mint_at,
};
use crate::errors::AccessRequestError;
use crate::gated;
use crate::identity::Identity;
use crate::keys::Found;
use crate::records::{refused, RequestStatus, State};
use crate::registry;
use crate::registry::{attendance_at, legal_transition, request_at, transition_outcome};
use crate::text::{
    fits, MAX_DESCRIPTION_LENGTH, MAX_LOCATION_LENGTH, MAX_MESSAGE_LENGTH, MAX_NOTE_LENGTH,
    MAX_ROLE_LENGTH, MAX_TITLE_LENGTH,
};

verus! {

/// The caps of a request: with the role or the message over its cap the
/// filing fails with `FieldTooLong`; with both within, up to the very cap, it
/// succeeds wherever the counter is there, not exhausted, and the slot free.
pub proof fn lemma_request_caps(
    pre: State,
    requester: Identity,
    role: Seq<char>,
    message: Seq<char>,
    now: i64,
    storage_key: Found,
    request_key: Found,
)
    ensures
        !fits(role, MAX_ROLE_LENGTH) || !fits(message, MAX_MESSAGE_LENGTH)
            ==> refused(registry::create_access_request_outcome(
            pre,
            requester,
            role,
            message,
            now,
            storage_key,
            request_key,
        ), AccessRequestError::FieldTooLong),
        fits(role, MAX_ROLE_LENGTH) && fits(message, MAX_MESSAGE_LENGTH) && (access_storage_at(
            pre,
            storage_key,
        ) matches Ok(found) && found.1.request_count < u64::MAX) && free_slot_at(
            pre,
            request_key,
            AccessRequestError::AlreadyExists,
        ) is Ok ==> registry::create_access_request_outcome(
            pre,
            requester,
            role,
            message,
            now,
            storage_key,
            request_key,
        ) is Ok,
{
}

/// The cap of the role in a decision: over it the transition of an
/// authorized caller fails with `FieldTooLong`; within it, up to the very
/// cap, the transition of a pending request to a decision succeeds.
pub proof fn lemma_transition_caps(
    pre: State,
    address: Seq<u8>,
    target: RequestStatus,
    role: Seq<char>,
    now: i64,
)
    ensures
        !fits(role, MAX_ROLE_LENGTH) ==> refused(
            transition_outcome(pre, address, target, role, now, true),
            AccessRequestError::FieldTooLong,
        ),
        fits(role, MAX_ROLE_LENGTH) && (request_at(pre, address) matches Some(request)
            && legal_transition(request.status, target)) ==> transition_outcome(
            pre,
            address,
            target,
            role,
            now,
            true,
        ) is Ok,
{
}

/// The caps of a formation: with the title or the description over its cap
/// the writing of an authorized caller fails with `FieldTooLong`; with both
/// within, up to the very cap, a new formation is written wherever the
/// counter is there, not exhausted, and the slot free.
pub proof fn lemma_formation_caps(
    pre: State,
    admin: Identity,
    id_str: Option<Seq<char>>,
    title: Seq<char>,
    description: Seq<char>,
    start_date: i64,
    end_date: i64,
    is_active: bool,
    now: i64,
    storage_key: Found,
    formation_key: Found,
)
    ensures
        !fits(title, MAX_TITLE_LENGTH) || !fits(description, MAX_DESCRIPTION_LENGTH)
            ==> refused(registry::upsert_formation_outcome(
            pre,
            admin,
            id_str,
            title,
            description,
            start_date,
            end_date,
            is_active,
            now,
            true,
            storage_key,
            formation_key,
        ), AccessRequestError::FieldTooLong),
        fits(title, MAX_TITLE_LENGTH) && fits(description, MAX_DESCRIPTION_LENGTH) && id_str is None
            && (formation_storage_at(pre, storage_key) matches Ok(found)
            && found.1.formation_count < u64::MAX) && free_slot_at(
            pre,
            formation_key,
            AccessRequestError::AlreadyExists,
        ) is Ok ==> registry::upsert_formation_outcome(
            pre,
            admin,
            id_str,
            title,
            description,
            start_date,
            end_date,
            is_active,
            now,
            true,
            storage_key,
            formation_key,
        ) is Ok,
{
}

/// The caps of a session: with the title, the description or the location
/// over its cap the creation by an authorized caller fails with
/// `FieldTooLong`; with all within, up to the very cap, it succeeds wherever
/// the counter is there, not exhausted, and the slot free.
pub proof fn lemma_session_caps(
    pre: State,
    trainer: Identity,
    formation_id: Seq<char>,
    title: Seq<char>,
    description: Seq<char>,
    date: i64,
    duration: u64,
    location: Seq<char>,
    now: i64,
    storage_key: Found,
    session_key: Found,
)
    ensures
        !fits(title, MAX_TITLE_LENGTH) || !fits(description, MAX_DESCRIPTION_LENGTH) || !fits(
            location,
            MAX_LOCATION_LENGTH,
        ) ==> refused(registry::create_session_outcome(
            pre,
            trainer,
            formation_id,
            title,
            description,
            date,
            duration,
            location,
            now,
            true,
            storage_key,
            session_key,
        ), AccessRequestError::FieldTooLong),
        fits(title, MAX_TITLE_LENGTH) && fits(description, MAX_DESCRIPTION_LENGTH) && fits(
            location,
            MAX_LOCATION_LENGTH,
        ) && (session_storage_at(pre, storage_key) matches Ok(found) && found.1.session_count
            < u64::MAX) && free_slot_at(pre, session_key, AccessRequestError::AlreadyExists) is Ok
            ==> registry::create_session_outcome(
            pre,
            trainer,
            formation_id,
            title,
            description,
            date,
            duration,
            location,
            now,
            true,
            storage_key,
            session_key,
        ) is Ok,
{
}

/// The caps of a timed session, as those of a session.
pub proof fn lemma_timed_session_caps(
    pre: State,
    title: Seq<char>,
    description: Seq<char>,
    location: Seq<char>,
    start_time: i64,
    end_time: i64,
    now: i64,
    storage_key: Found,
    session_key: Found,
)
    ensures
        !fits(title, MAX_TITLE_LENGTH) || !fits(description, MAX_DESCRIPTION_LENGTH) || !fits(
            location,
            MAX_LOCATION_LENGTH,
        ) ==> refused(gated::create_session_outcome(
            pre,
            title,
            description,
            location,
            start_time,
            end_time,
            now,
            true,
            storage_key,
            session_key,
        ), AccessRequestError::FieldTooLong),
        fits(title, MAX_TITLE_LENGTH) && fits(description, MAX_DESCRIPTION_LENGTH) && fits(
            location,
            MAX_LOCATION_LENGTH,
        ) && (session_storage_at(pre, storage_key) matches Ok(found) && found.1.session_count
            < u64::MAX) && free_slot_at(pre, session_key, AccessRequestError::AlreadyExists) is Ok
            ==> gated::create_session_outcome(
            pre,
            title,
            description,
            location,
            start_time,
            end_time,
            now,
            true,
            storage_key,
            session_key,
        ) is Ok,
{
}

/// The cap of the note of a check-in: over it the check-in fails with
/// `FieldTooLong`; within it, up to the very cap, it succeeds wherever the
/// counter is there, not exhausted, and the slot free.
pub proof fn lemma_attendance_caps(
    pre: State,
    student: Identity,
    session_id: Seq<char>,
    is_present: bool,
    note: Seq<char>,
    now: i64,
    storage_key: Found,
    attendance_key: Found,
)
    ensures
        !fits(note, MAX_MESSAGE_LENGTH) ==> refused(registry::record_attendance_outcome(
            pre,
            student,
            session_id,
            is_present,
            note,
            now,
            storage_key,
            attendance_key,
        ), AccessRequestError::FieldTooLong),
        fits(note, MAX_MESSAGE_LENGTH) && (attendance_storage_at(pre, storage_key) matches Ok(found)
            && found.1.attendance_count < u64::MAX) && free_slot_at(
            pre,
            attendance_key,
            AccessRequestError::AlreadyExists,
        ) is Ok ==> registry::record_attendance_outcome(
            pre,
            student,
            session_id,
            is_present,
            note,
            now,
            storage_key,
            attendance_key,
        ) is Ok,
{
}

/// The cap of the note of a check-in with a credential: over it the
/// check-in of an authorized caller fails with `FieldTooLong`; within it, up
/// to the very cap, it succeeds wherever the counter is there, not
/// exhausted, and the slot free.
pub proof fn lemma_sequenced_attendance_caps(
    pre: State,
    session_id: u64,
    student: Identity,
    is_present: bool,
    note: Seq<char>,
    now: i64,
    storage_key: Found,
    attendance_key: Found,
)
    ensures
        !fits(note, MAX_NOTE_LENGTH) ==> refused(gated::record_attendance_outcome(
            pre,
            session_id,
            student,
            is_present,
            note,
            now,
            true,
            storage_key,
            attendance_key,
        ), AccessRequestError::FieldTooLong),
        fits(note, MAX_NOTE_LENGTH) && (attendance_storage_at(pre, storage_key) matches Ok(found)
            && found.1.attendance_count < u64::MAX) && free_slot_at(
            pre,
            attendance_key,
            AccessRequestError::AlreadyExists,
        ) is Ok ==> gated::record_attendance_outcome(
            pre,
            session_id,
            student,
            is_present,
            note,
            now,
            true,
            storage_key,
            attendance_key,
        ) is Ok,
{
}

/// The cap of the note of a check-out: over it the check-out of the student
/// fails with `FieldTooLong`; within it, up to the very cap, it succeeds.
pub proof fn lemma_check_out_caps(
    pre: State,
    student: Identity,
    address: Seq<u8>,
    is_present: bool,
    note: Seq<char>,
    now: i64,
)
    requires
        attendance_at(pre, address) matches Some(attendance) && attendance.student == student,
    ensures
        !fits(note, MAX_MESSAGE_LENGTH) ==> refused(registry::update_attendance_outcome(
            pre,
            student,
            address,
            is_present,
            note,
            now,
        ), AccessRequestError::FieldTooLong),
        fits(note, MAX_MESSAGE_LENGTH) ==> registry::update_attendance_outcome(
            pre,
            student,
            address,
            is_present,
            note,
            now,
        ) is Ok,
{
}

/// The cap of the role of a credential: over it the issuing by the recorded
/// issuer fails with `FieldTooLong`; within it, up to the very cap, it
/// succeeds wherever the slot is free.
pub proof fn lemma_credential_caps(
    pre: State,
    admin: Identity,
    owner: Identity,
    role: Seq<char>,
    amount: u64,
    now: i64,
    mint_key: Found,
    token_key: Found,
)
    requires
        token_mint_at(pre, mint_key) matches Ok(found) && found.1.admin == admin,
    ensures
        !fits(role, MAX_ROLE_LENGTH) ==> refused(gated::mint_role_token_outcome(
            pre,
            admin,
            owner,
            role,
            amount,
            now,
            mint_key,
            token_key,
        ), AccessRequestError::FieldTooLong),
        fits(role, MAX_ROLE_LENGTH) && free_slot_at(
            pre,
            token_key,
            AccessRequestError::AlreadyExists,
        ) is Ok ==> gated::mint_role_token_outcome(
            pre,
            admin,
            owner,
            role,
            amount,
            now,
            mint_key,
            token_key,
        ) is Ok,
{
}

} // verus!
