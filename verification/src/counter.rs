//! Counters: one per family of records, the only source of its identifiers.

use vstd::prelude::*;
use crate::errors::AccessRequestError;
use crate::identity::Identity;
use crate::keys::{key_view, DerivedKey, Found};
use crate::ledger::Ledger;
use crate::records::{
    AccessRequestStorage, Account, AccountView, AttendanceStorage, FormationStorage,
    SessionStorage, State, TokenMintStorage,
};

verus! {

/// What issuing an identifier does to a count: the identifier is the count,
/// and the count goes up by one, unless it is exhausted.
pub open spec fn issue_outcome(count: u64) -> Result<(u64, u64), AccessRequestError> {
    if count < u64::MAX {
        Ok((count, (count + 1) as u64))
    } else {
        Err(AccessRequestError::Overflow)
    }
}

/// Issues the next identifier of a count, and gives the count that follows.
pub fn issue(count: u64) -> (issued: Result<(u64, u64), AccessRequestError>)
    ensures
        issued == issue_outcome(count),
{
    match count.checked_add(1) {
        Some(next) => Ok((count, next)),
        None => Err(AccessRequestError::Overflow),
    }
}

impl AccessRequestStorage {
    /// A counter at zero, for `admin`.
    pub fn new(admin: Identity, bump: u8) -> (storage: AccessRequestStorage)
        ensures
            storage == (AccessRequestStorage { admin, request_count: 0, bump }),
    {
        AccessRequestStorage { admin, request_count: 0, bump }
    }

    /// The counter after one more identifier was issued.
    pub open spec fn advanced(self) -> AccessRequestStorage {
        AccessRequestStorage { request_count: (self.request_count + 1) as u64, ..self }
    }

    /// Issues the next identifier: the count, which then goes up by one.
    /// An exhausted counter gives `Overflow` and stays as it is.
    pub fn next_id(&mut self) -> (id: Result<u64, AccessRequestError>)
        ensures
            match id {
                Ok(issued) => {
                    &&& old(self).request_count < u64::MAX
                    &&& issued == old(self).request_count
                    &&& *final(self) == old(self).advanced()
                },
                Err(e) => {
                    &&& old(self).request_count == u64::MAX
                    &&& e == AccessRequestError::Overflow
                    &&& *final(self) == *old(self)
                },
            },
    {
        match issue(self.request_count) {
            Ok((id, next)) => {
                self.request_count = next;
                Ok(id)
            },
            Err(e) => Err(e),
        }
    }
}

/// The request counter at a key: `InvalidSeeds` without a key, `NotFound` where
/// no such counter lives at its address.
pub open spec fn access_storage_at(state: State, key: Found) -> Result<
    (Seq<u8>, AccessRequestStorage),
    AccessRequestError,
> {
    match key {
        None => Err(AccessRequestError::InvalidSeeds),
        Some((address, _)) => if state.contains_key(address) {
            match state[address] {
                AccountView::AccessStorage(storage) => Ok((address, storage)),
                _ => Err(AccessRequestError::NotFound),
            }
        } else {
            Err(AccessRequestError::NotFound)
        },
    }
}

/// Loads the request counter at a key.
pub fn load_access_storage(ledger: &Ledger, key: Option<DerivedKey>) -> (found: Result<
    (Identity, AccessRequestStorage),
    AccessRequestError,
>)
    ensures
        match found {
            Ok((address, storage)) => {
                &&& access_storage_at(ledger@, key_view(key)) matches Ok(at)
                &&& at == (address@, storage)
            },
            Err(e) => {
                &&& access_storage_at(ledger@, key_view(key)) matches Err(reason)
                &&& reason == e
            },
        },
{
    match key {
        None => Err(AccessRequestError::InvalidSeeds),
        Some(k) => match ledger.get(&k.address) {
            Some(Account::AccessStorage(storage)) => Ok((k.address, *storage)),
            _ => Err(AccessRequestError::NotFound),
        },
    }
}

impl FormationStorage {
    /// A counter at zero, for `admin`.
    pub fn new(admin: Identity, bump: u8) -> (storage: FormationStorage)
        ensures
            storage == (FormationStorage { admin, formation_count: 0, bump }),
    {
        FormationStorage { admin, formation_count: 0, bump }
    }

    /// The counter after one more identifier was issued.
    pub open spec fn advanced(self) -> FormationStorage {
        FormationStorage { formation_count: (self.formation_count + 1) as u64, ..self }
    }

    /// Issues the next identifier: the count, which then goes up by one.
    /// An exhausted counter gives `Overflow` and stays as it is.
    pub fn next_id(&mut self) -> (id: Result<u64, AccessRequestError>)
        ensures
            match id {
                Ok(issued) => {
                    &&& old(self).formation_count < u64::MAX
                    &&& issued == old(self).formation_count
                    &&& *final(self) == old(self).advanced()
                },
                Err(e) => {
                    &&& old(self).formation_count == u64::MAX
                    &&& e == AccessRequestError::Overflow
                    &&& *final(self) == *old(self)
                },
            },
    {
        match issue(self.formation_count) {
            Ok((id, next)) => {
                self.formation_count = next;
                Ok(id)
            },
            Err(e) => Err(e),
        }
    }
}

/// The formation counter at a key: `InvalidSeeds` without a key, `NotFound` where
/// no such counter lives at its address.
pub open spec fn formation_storage_at(state: State, key: Found) -> Result<
    (Seq<u8>, FormationStorage),
    AccessRequestError,
> {
    match key {
        None => Err(AccessRequestError::InvalidSeeds),
        Some((address, _)) => if state.contains_key(address) {
            match state[address] {
                AccountView::FormationStorage(storage) => Ok((address, storage)),
                _ => Err(AccessRequestError::NotFound),
            }
        } else {
            Err(AccessRequestError::NotFound)
        },
    }
}

/// Loads the formation counter at a key.
pub fn load_formation_storage(ledger: &Ledger, key: Option<DerivedKey>) -> (found: Result<
    (Identity, FormationStorage),
    AccessRequestError,
>)
    ensures
        match found {
            Ok((address, storage)) => {
                &&& formation_storage_at(ledger@, key_view(key)) matches Ok(at)
                &&& at == (address@, storage)
            },
            Err(e) => {
                &&& formation_storage_at(ledger@, key_view(key)) matches Err(reason)
                &&& reason == e
            },
        },
{
    match key {
        None => Err(AccessRequestError::InvalidSeeds),
        Some(k) => match ledger.get(&k.address) {
            Some(Account::FormationStorage(storage)) => Ok((k.address, *storage)),
            _ => Err(AccessRequestError::NotFound),
        },
    }
}

impl SessionStorage {
    /// A counter at zero, for `admin`.
    pub fn new(admin: Identity, bump: u8) -> (storage: SessionStorage)
        ensures
            storage == (SessionStorage { admin, session_count: 0, bump }),
    {
        SessionStorage { admin, session_count: 0, bump }
    }

    /// The counter after one more identifier was issued.
    pub open spec fn advanced(self) -> SessionStorage {
        SessionStorage { session_count: (self.session_count + 1) as u64, ..self }
    }

    /// Issues the next identifier: the count, which then goes up by one.
    /// An exhausted counter gives `Overflow` and stays as it is.
    pub fn next_id(&mut self) -> (id: Result<u64, AccessRequestError>)
        ensures
            match id {
                Ok(issued) => {
                    &&& old(self).session_count < u64::MAX
                    &&& issued == old(self).session_count
                    &&& *final(self) == old(self).advanced()
                },
                Err(e) => {
                    &&& old(self).session_count == u64::MAX
                    &&& e == AccessRequestError::Overflow
                    &&& *final(self) == *old(self)
                },
            },
    {
        match issue(self.session_count) {
            Ok((id, next)) => {
                self.session_count = next;
                Ok(id)
            },
            Err(e) => Err(e),
        }
    }
}

/// The session counter at a key: `InvalidSeeds` without a key, `NotFound` where
/// no such counter lives at its address.
pub open spec fn session_storage_at(state: State, key: Found) -> Result<
    (Seq<u8>, SessionStorage),
    AccessRequestError,
> {
    match key {
        None => Err(AccessRequestError::InvalidSeeds),
        Some((address, _)) => if state.contains_key(address) {
            match state[address] {
                AccountView::SessionStorage(storage) => Ok((address, storage)),
                _ => Err(AccessRequestError::NotFound),
            }
        } else {
            Err(AccessRequestError::NotFound)
        },
    }
}

/// Loads the session counter at a key.
pub fn load_session_storage(ledger: &Ledger, key: Option<DerivedKey>) -> (found: Result<
    (Identity, SessionStorage),
    AccessRequestError,
>)
    ensures
        match found {
            Ok((address, storage)) => {
                &&& session_storage_at(ledger@, key_view(key)) matches Ok(at)
                &&& at == (address@, storage)
            },
            Err(e) => {
                &&& session_storage_at(ledger@, key_view(key)) matches Err(reason)
                &&& reason == e
            },
        },
{
    match key {
        None => Err(AccessRequestError::InvalidSeeds),
        Some(k) => match ledger.get(&k.address) {
            Some(Account::SessionStorage(storage)) => Ok((k.address, *storage)),
            _ => Err(AccessRequestError::NotFound),
        },
    }
}

impl AttendanceStorage {
    /// A counter at zero, for `admin`.
    pub fn new(admin: Identity, bump: u8) -> (storage: AttendanceStorage)
        ensures
            storage == (AttendanceStorage { admin, attendance_count: 0, bump }),
    {
        AttendanceStorage { admin, attendance_count: 0, bump }
    }

    /// The counter after one more identifier was issued.
    pub open spec fn advanced(self) -> AttendanceStorage {
        AttendanceStorage { attendance_count: (self.attendance_count + 1) as u64, ..self }
    }

    /// Issues the next identifier: the count, which then goes up by one.
    /// An exhausted counter gives `Overflow` and stays as it is.
    pub fn next_id(&mut self) -> (id: Result<u64, AccessRequestError>)
        ensures
            match id {
                Ok(issued) => {
                    &&& old(self).attendance_count < u64::MAX
                    &&& issued == old(self).attendance_count
                    &&& *final(self) == old(self).advanced()
                },
                Err(e) => {
                    &&& old(self).attendance_count == u64::MAX
                    &&& e == AccessRequestError::Overflow
                    &&& *final(self) == *old(self)
                },
            },
    {
        match issue(self.attendance_count) {
            Ok((id, next)) => {
                self.attendance_count = next;
                Ok(id)
            },
            Err(e) => Err(e),
        }
    }
}

/// The attendance counter at a key: `InvalidSeeds` without a key, `NotFound` where
/// no such counter lives at its address.
pub open spec fn attendance_storage_at(state: State, key: Found) -> Result<
    (Seq<u8>, AttendanceStorage),
    AccessRequestError,
> {
    match key {
        None => Err(AccessRequestError::InvalidSeeds),
        Some((address, _)) => if state.contains_key(address) {
            match state[address] {
                AccountView::AttendanceStorage(storage) => Ok((address, storage)),
                _ => Err(AccessRequestError::NotFound),
            }
        } else {
            Err(AccessRequestError::NotFound)
        },
    }
}

/// Loads the attendance counter at a key.
pub fn load_attendance_storage(ledger: &Ledger, key: Option<DerivedKey>) -> (found: Result<
    (Identity, AttendanceStorage),
    AccessRequestError,
>)
    ensures
        match found {
            Ok((address, storage)) => {
                &&& attendance_storage_at(ledger@, key_view(key)) matches Ok(at)
                &&& at == (address@, storage)
            },
            Err(e) => {
                &&& attendance_storage_at(ledger@, key_view(key)) matches Err(reason)
                &&& reason == e
            },
        },
{
    match key {
        None => Err(AccessRequestError::InvalidSeeds),
        Some(k) => match ledger.get(&k.address) {
            Some(Account::AttendanceStorage(storage)) => Ok((k.address, *storage)),
            _ => Err(AccessRequestError::NotFound),
        },
    }
}

/// The root of the credentials at a key: `InvalidSeeds` without a key,
/// `NotFound` where none lives at its address.
pub open spec fn token_mint_at(state: State, key: Found) -> Result<
    (Seq<u8>, TokenMintStorage),
    AccessRequestError,
> {
    match key {
        None => Err(AccessRequestError::InvalidSeeds),
        Some((address, _)) => if state.contains_key(address) {
            match state[address] {
                AccountView::TokenMint(storage) => Ok((address, storage)),
                _ => Err(AccessRequestError::NotFound),
            }
        } else {
            Err(AccessRequestError::NotFound)
        },
    }
}

/// Loads the root of the credentials at a key.
pub fn load_token_mint(ledger: &Ledger, key: Option<DerivedKey>) -> (found: Result<
    (Identity, TokenMintStorage),
    AccessRequestError,
>)
    ensures
        match found {
            Ok((address, storage)) => {
                &&& token_mint_at(ledger@, key_view(key)) matches Ok(at)
                &&& at == (address@, storage)
            },
            Err(e) => {
                &&& token_mint_at(ledger@, key_view(key)) matches Err(reason)
                &&& reason == e
            },
        },
{
    match key {
        None => Err(AccessRequestError::InvalidSeeds),
        Some(k) => match ledger.get(&k.address) {
            Some(Account::TokenMint(storage)) => Ok((k.address, *storage)),
            _ => Err(AccessRequestError::NotFound),
        },
    }
}

/// The free slot at a key: `InvalidSeeds` without a key, `taken` where an
/// account already lives at its address.
pub open spec fn free_slot_at(state: State, key: Found, taken: AccessRequestError) -> Result<
    (Seq<u8>, u8),
    AccessRequestError,
> {
    match key {
        None => Err(AccessRequestError::InvalidSeeds),
        Some((address, bump)) => if state.contains_key(address) {
            Err(taken)
        } else {
            Ok((address, bump))
        },
    }
}

/// Claims the free slot at a key.
pub fn free_slot(
    ledger: &Ledger,
    key: Option<DerivedKey>,
    taken: AccessRequestError,
) -> (slot: Result<
    DerivedKey,
    AccessRequestError,
>)
    ensures
        match slot {
            Ok(k) => {
                &&& free_slot_at(ledger@, key_view(key), taken) matches Ok(at)
                &&& at == k@
            },
            Err(e) => {
                &&& free_slot_at(ledger@, key_view(key), taken) matches Err(reason)
                &&& reason == e
            },
        },
{
    match key {
        None => Err(AccessRequestError::InvalidSeeds),
        Some(k) => if ledger.contains(&k.address) {
            Err(taken)
        } else {
            Ok(k)
        },
    }
}

} // verus!
