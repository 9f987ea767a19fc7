//! What holds of the operations taken together.

use vstd::prelude::*;
use crate::counter::{formation_storage_at, free_slot_at, issue_outcome};
use crate::errors::AccessRequestError;
use crate::gated;
use crate::identity::Identity;
use crate::keys::{singleton_key, Found, Namespace};
use crate::records::{refused, AccountView, State};
use crate::registry;
use crate::registry::formation_slot_key;
use crate::text::{decimal_chars, fits, MAX_DESCRIPTION_LENGTH, MAX_TITLE_LENGTH};

verus! {

/// The count of the counter at an address; zero where no counter lives there.
pub open spec fn count_at(state: State, counter: Seq<u8>) -> int {
    if state.contains_key(counter) {
        match state[counter] {
            AccountView::AccessStorage(storage) => storage.request_count as int,
            AccountView::FormationStorage(storage) => storage.formation_count as int,
            AccountView::SessionStorage(storage) => storage.session_count as int,
            AccountView::AttendanceStorage(storage) => storage.attendance_count as int,
            _ => 0,
        }
    } else {
        0
    }
}

/// A creation in the family of the counter at `counter`: a record was
/// written at the free address `record`, the count went up by one, and no
/// other account changed or left.
pub open spec fn created(pre: State, post: State, counter: Seq<u8>, record: Seq<u8>) -> bool {
    &&& pre.contains_key(counter)
    &&& !pre.contains_key(record)
    &&& post.contains_key(record)
    &&& count_at(post, counter) == count_at(pre, counter) + 1
    &&& forall|address: Seq<u8>| #[trigger]
        pre.contains_key(address) ==> post.contains_key(address)
    &&& forall|address: Seq<u8>|
        pre.contains_key(address) && address != counter ==> #[trigger] post[address]
            == pre[address]
}

/// A request that was filed is a creation in the family of the requests.
pub proof fn lemma_create_access_request_creates(
    pre: State,
    requester: Identity,
    role: Seq<char>,
    message: Seq<char>,
    now: i64,
    storage_key: Found,
    request_key: Found,
)
    requires
        registry::create_access_request_outcome(
            pre,
            requester,
            role,
            message,
            now,
            storage_key,
            request_key,
        ) is Ok,
    ensures
        storage_key is Some,
        request_key is Some,
        created(
            pre,
            registry::create_access_request_outcome(
                pre,
                requester,
                role,
                message,
                now,
                storage_key,
                request_key,
            )->Ok_0,
            storage_key->Some_0.0,
            request_key->Some_0.0,
        ),
{
}

/// A session that was created is a creation in the family of the sessions.
pub proof fn lemma_create_session_creates(
    pre: State,
    trainer: Identity,
    formation_id: Seq<char>,
    title: Seq<char>,
    description: Seq<char>,
    date: i64,
    duration: u64,
    location: Seq<char>,
    now: i64,
    authorized: bool,
    storage_key: Found,
    session_key: Found,
)
    requires
        registry::create_session_outcome(
            pre,
            trainer,
            formation_id,
            title,
            description,
            date,
            duration,
            location,
            now,
            authorized,
            storage_key,
            session_key,
        ) is Ok,
    ensures
        storage_key is Some,
        session_key is Some,
        created(
            pre,
            registry::create_session_outcome(
                pre,
                trainer,
                formation_id,
                title,
                description,
                date,
                duration,
                location,
                now,
                authorized,
                storage_key,
                session_key,
            )->Ok_0,
            storage_key->Some_0.0,
            session_key->Some_0.0,
        ),
{
}

/// A timed session that was created is a creation in the family of the
/// sessions.
pub proof fn lemma_create_timed_session_creates(
    pre: State,
    title: Seq<char>,
    description: Seq<char>,
    location: Seq<char>,
    start_time: i64,
    end_time: i64,
    now: i64,
    authorized: bool,
    storage_key: Found,
    session_key: Found,
)
    requires
        gated::create_session_outcome(
            pre,
            title,
            description,
            location,
            start_time,
            end_time,
            now,
            authorized,
            storage_key,
            session_key,
        ) is Ok,
    ensures
        storage_key is Some,
        session_key is Some,
        created(
            pre,
            gated::create_session_outcome(
                pre,
                title,
                description,
                location,
                start_time,
                end_time,
                now,
                authorized,
                storage_key,
                session_key,
            )->Ok_0,
            storage_key->Some_0.0,
            session_key->Some_0.0,
        ),
{
}

/// A check-in that was recorded is a creation in the family of the
/// attendance entries.
pub proof fn lemma_record_attendance_creates(
    pre: State,
    student: Identity,
    session_id: Seq<char>,
    is_present: bool,
    note: Seq<char>,
    now: i64,
    storage_key: Found,
    attendance_key: Found,
)
    requires
        registry::record_attendance_outcome(
            pre,
            student,
            session_id,
            is_present,
            note,
            now,
            storage_key,
            attendance_key,
        ) is Ok,
    ensures
        storage_key is Some,
        attendance_key is Some,
        created(
            pre,
            registry::record_attendance_outcome(
                pre,
                student,
                session_id,
                is_present,
                note,
                now,
                storage_key,
                attendance_key,
            )->Ok_0,
            storage_key->Some_0.0,
            attendance_key->Some_0.0,
        ),
{
}

/// A check-in with a credential that was recorded is a creation in the
/// family of the attendance entries.
pub proof fn lemma_record_sequenced_attendance_creates(
    pre: State,
    session_id: u64,
    student: Identity,
    is_present: bool,
    note: Seq<char>,
    now: i64,
    authorized: bool,
    storage_key: Found,
    attendance_key: Found,
)
    requires
        gated::record_attendance_outcome(
            pre,
            session_id,
            student,
            is_present,
            note,
            now,
            authorized,
            storage_key,
            attendance_key,
        ) is Ok,
    ensures
        storage_key is Some,
        attendance_key is Some,
        created(
            pre,
            gated::record_attendance_outcome(
                pre,
                session_id,
                student,
                is_present,
                note,
                now,
                authorized,
                storage_key,
                attendance_key,
            )->Ok_0,
            storage_key->Some_0.0,
            attendance_key->Some_0.0,
        ),
{
}

/// Whether `states` is a run of creations in the family of the counter at
/// `counter`, the i-th of them at the address `records[i]`.
pub open spec fn creation_run(states: Seq<State>, records: Seq<Seq<u8>>, counter: Seq<u8>) -> bool {
    &&& states.len() == records.len() + 1
    &&& forall|i: int|
        0 <= i < records.len() ==> created(
            #[trigger] states[i],
            states[i + 1],
            counter,
            records[i],
        )
}

/// In a run of creations every record of the run is still there at the end.
proof fn lemma_run_keeps_records(
    states: Seq<State>,
    records: Seq<Seq<u8>>,
    counter: Seq<u8>,
    i: int,
    k: int,
)
    requires
        creation_run(states, records, counter),
        0 <= i < k <= records.len(),
    ensures
        states[k].contains_key(records[i]),
    decreases k - i,
{
    if k == i + 1 {
        assert(created(states[i], states[i + 1], counter, records[i]));
    } else {
        lemma_run_keeps_records(states, records, counter, i, k - 1);
        assert(created(states[k - 1], states[k - 1 + 1], counter, records[k - 1]));
    }
}

/// In a run of creations the count at step `k` is the first count plus `k`.
proof fn lemma_run_counts(states: Seq<State>, records: Seq<Seq<u8>>, counter: Seq<u8>, k: int)
    requires
        creation_run(states, records, counter),
        0 <= k <= records.len(),
    ensures
        count_at(states[k], counter) == count_at(states[0], counter) + k,
    decreases k,
{
    if k > 0 {
        lemma_run_counts(states, records, counter, k - 1);
        assert(created(states[k - 1], states[k - 1 + 1], counter, records[k - 1]));
    }
}

/// Collision-freedom: in any run of creations in one family, no two
/// creations resolve to the same address, and the count after the run is the
/// count before it plus the number of creations.
pub proof fn lemma_creations_never_collide(
    states: Seq<State>,
    records: Seq<Seq<u8>>,
    counter: Seq<u8>,
)
    requires
        creation_run(states, records, counter),
    ensures
        count_at(states[records.len() as int], counter) == count_at(states[0], counter)
            + records.len(),
        forall|i: int, j: int| 0 <= i < j < records.len() ==> records[i] != records[j],
{
    lemma_run_counts(states, records, counter, records.len() as int);
    assert forall|i: int, j: int| 0 <= i < j < records.len() implies records[i]
        != records[j] by {
        lemma_run_keeps_records(states, records, counter, i, j);
        assert(created(states[j], states[j + 1], counter, records[j]));
    }
}

/// No identifier is issued twice: an identifier issued from a count that a
/// counter reached after an earlier issue is greater than the earlier one.
pub proof fn lemma_identifiers_never_repeat(earlier: u64, later: u64)
    requires
        issue_outcome(earlier) matches Ok(issued) && issued.1 <= later,
        issue_outcome(later) is Ok,
    ensures
        issue_outcome(earlier)->Ok_0.0 == earlier,
        issue_outcome(later)->Ok_0.0 == later,
        issue_outcome(earlier)->Ok_0.0 < issue_outcome(later)->Ok_0.0,
{
}

/// Of two creations that race for one address the second fails: after a
/// creation at `record`, the slot at `record` is taken, whatever nonce the
/// second comer brings.
pub proof fn lemma_second_commit_fails(
    pre: State,
    post: State,
    counter: Seq<u8>,
    record: Seq<u8>,
    bump: u8,
)
    requires
        created(pre, post, counter, record),
    ensures
        free_slot_at(post, Some((record, bump)), AccessRequestError::AlreadyExists) == Err::<
            (Seq<u8>, u8),
            AccessRequestError,
        >(AccessRequestError::AlreadyExists),
{
}

/// Two sessions cannot be created from one reading of the counter: where a
/// creation succeeded, a second one with the key of the same slot fails, and
/// with `AlreadyExists` where nothing else is in its way.
pub proof fn lemma_stale_session_is_refused(
    pre: State,
    trainer: Identity,
    formation_id: Seq<char>,
    title: Seq<char>,
    description: Seq<char>,
    date: i64,
    duration: u64,
    location: Seq<char>,
    now: i64,
    storage_key: Found,
    session_key: Found,
)
    requires
        registry::create_session_outcome(
            pre,
            trainer,
            formation_id,
            title,
            description,
            date,
            duration,
            location,
            now,
            true,
            storage_key,
            session_key,
        ) is Ok,
    ensures
        ({
            let post = registry::create_session_outcome(
                pre,
                trainer,
                formation_id,
                title,
                description,
                date,
                duration,
                location,
                now,
                true,
                storage_key,
                session_key,
            )->Ok_0;
            let again = registry::create_session_outcome(
                post,
                trainer,
                formation_id,
                title,
                description,
                date,
                duration,
                location,
                now,
                true,
                storage_key,
                session_key,
            );
            again is Err && (count_at(post, storage_key->Some_0.0) < u64::MAX ==> refused(
                again,
                AccessRequestError::AlreadyExists,
            ))
        }),
{
}

/// A formation that was written without an identifier is a creation in the
/// family of the formations.
pub proof fn lemma_upsert_formation_creates(
    pre: State,
    admin: Identity,
    title: Seq<char>,
    description: Seq<char>,
    start_date: i64,
    end_date: i64,
    is_active: bool,
    now: i64,
    authorized: bool,
    storage_key: Found,
    formation_key: Found,
)
    requires
        registry::upsert_formation_outcome(
            pre,
            admin,
            None,
            title,
            description,
            start_date,
            end_date,
            is_active,
            now,
            authorized,
            storage_key,
            formation_key,
        ) is Ok,
    ensures
        storage_key is Some,
        formation_key is Some,
        created(
            pre,
            registry::upsert_formation_outcome(
                pre,
                admin,
                None,
                title,
                description,
                start_date,
                end_date,
                is_active,
                now,
                authorized,
                storage_key,
                formation_key,
            )->Ok_0,
            storage_key->Some_0.0,
            formation_key->Some_0.0,
        ),
{
}

/// A new formation is written as it was given: for an authorized caller,
/// with the title and the description within their caps, the counter there
/// and not exhausted, and the slot of the formation derived and free, the
/// writing succeeds; the formation takes the count in decimal as its
/// identifier, the caller as its creator, the time of the call as the time
/// of its creation and of its update, and the other fields as given; the
/// count goes up by one.
pub proof fn lemma_new_formation_is_written(
    pre: State,
    admin: Identity,
    title: Seq<char>,
    description: Seq<char>,
    start_date: i64,
    end_date: i64,
    is_active: bool,
    now: i64,
    storage_key: Found,
    formation_key: Found,
)
    requires
        fits(title, MAX_TITLE_LENGTH),
        fits(description, MAX_DESCRIPTION_LENGTH),
        formation_storage_at(pre, storage_key) matches Ok(found) && found.1.formation_count
            < u64::MAX,
        free_slot_at(pre, formation_key, AccessRequestError::AlreadyExists) is Ok,
    ensures
        registry::upsert_formation_outcome(
            pre,
            admin,
            None,
            title,
            description,
            start_date,
            end_date,
            is_active,
            now,
            true,
            storage_key,
            formation_key,
        ) matches Ok(post) && count_at(post, storage_key->Some_0.0) == count_at(
            pre,
            storage_key->Some_0.0,
        ) + 1 && (registry::formation_at(post, formation_key->Some_0.0) matches Some(formation)
            && formation.id == decimal_chars(count_at(pre, storage_key->Some_0.0) as nat)
            && formation.title == title && formation.description == description
            && formation.creator == admin && formation.start_date == start_date
            && formation.end_date == end_date && formation.is_active == is_active
            && formation.created_at == now && formation.updated_at == now),
{
}

/// A new formation does not touch the ones before it: where two formations
/// were written one after the other, they live at different addresses, the
/// first is stored as it was, the second has the identifier that follows,
/// and the count went up by two.
pub proof fn lemma_new_formation_keeps_the_others(
    pre: State,
    admin: Identity,
    title: Seq<char>,
    description: Seq<char>,
    start_date: i64,
    end_date: i64,
    is_active: bool,
    now: i64,
    storage_key: Found,
    first_key: Found,
    second_key: Found,
)
    requires
        registry::create_formation_outcome(
            pre,
            admin,
            title,
            description,
            start_date,
            end_date,
            is_active,
            now,
            storage_key,
            first_key,
        ) matches Ok(mid) && registry::create_formation_outcome(
            mid,
            admin,
            title,
            description,
            start_date,
            end_date,
            is_active,
            now,
            storage_key,
            second_key,
        ) is Ok,
    ensures
        ({
            let mid = registry::create_formation_outcome(
                pre,
                admin,
                title,
                description,
                start_date,
                end_date,
                is_active,
                now,
                storage_key,
                first_key,
            )->Ok_0;
            let post = registry::create_formation_outcome(
                mid,
                admin,
                title,
                description,
                start_date,
                end_date,
                is_active,
                now,
                storage_key,
                second_key,
            )->Ok_0;
            let counter = storage_key->Some_0.0;
            &&& first_key->Some_0.0 != second_key->Some_0.0
            &&& post[first_key->Some_0.0] == mid[first_key->Some_0.0]
            &&& registry::formation_at(mid, first_key->Some_0.0) matches Some(first) && first.id
                == decimal_chars(count_at(pre, counter) as nat)
            &&& registry::formation_at(post, second_key->Some_0.0) matches Some(second)
                && second.id == decimal_chars((count_at(pre, counter) + 1) as nat)
            &&& count_at(post, counter) == count_at(pre, counter) + 2
        }),
{
}

/// A formation that was written can be updated under its identifier: after
/// a new formation was written with its keys derived under the program, the
/// update that names the identifier it was given finds it, and succeeds for
/// an authorized caller with fields within their caps.
pub proof fn lemma_new_formation_is_reachable(
    pre: State,
    program: Seq<u8>,
    admin: Identity,
    title: Seq<char>,
    description: Seq<char>,
    start_date: i64,
    end_date: i64,
    is_active: bool,
    now: i64,
)
    requires
        fits(title, MAX_TITLE_LENGTH),
        fits(description, MAX_DESCRIPTION_LENGTH),
        registry::upsert_formation_outcome(
            pre,
            admin,
            None,
            title,
            description,
            start_date,
            end_date,
            is_active,
            now,
            true,
            singleton_key(Namespace::FormationStorage, program),
            formation_slot_key(
                pre,
                None,
                singleton_key(Namespace::FormationStorage, program),
                program,
            ),
        ) is Ok,
    ensures
        ({
            let storage = singleton_key(Namespace::FormationStorage, program);
            let post = registry::upsert_formation_outcome(
                pre,
                admin,
                None,
                title,
                description,
                start_date,
                end_date,
                is_active,
                now,
                true,
                storage,
                formation_slot_key(pre, None, storage, program),
            )->Ok_0;
            let id = decimal_chars(count_at(pre, storage->Some_0.0) as nat);
            registry::upsert_formation_outcome(
                post,
                admin,
                Some(id),
                title,
                description,
                start_date,
                end_date,
                is_active,
                now,
                true,
                storage,
                formation_slot_key(post, Some(id), storage, program),
            ) is Ok
        }),
{
}

} // verus!
