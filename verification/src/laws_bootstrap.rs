//! What holds of setting a family up twice.

use vstd::prelude::*;
use crate::errors::AccessRequestError;
use crate::gated;
use crate::identity::Identity;
use crate::keys::Found;
use crate::records::{refused, State};
use crate::registry;

verus! {

/// Setting up the request counter a second time fails with
/// `AlreadyInitialized`, whoever asks; as a failure it changes nothing.
pub proof fn lemma_initialize_access_storage_once(
    pre: State,
    first: Identity,
    second: Identity,
    key: Found,
)
    ensures
        registry::initialize_access_storage_outcome(pre, first, key) matches Ok(post)
            ==> refused(
            registry::initialize_access_storage_outcome(post, second, key),
            AccessRequestError::AlreadyInitialized,
        ),
{
}

/// Setting up the formation counter a second time fails with
/// `AlreadyInitialized`, whoever asks; as a failure it changes nothing.
pub proof fn lemma_initialize_formation_storage_once(
    pre: State,
    first: Identity,
    second: Identity,
    key: Found,
)
    ensures
        registry::initialize_formation_storage_outcome(pre, first, key) matches Ok(post)
            ==> refused(
            registry::initialize_formation_storage_outcome(post, second, key),
            AccessRequestError::AlreadyInitialized,
        ),
{
}

/// Setting up the session counter a second time fails with
/// `AlreadyInitialized`, whoever asks; as a failure it changes nothing.
pub proof fn lemma_initialize_session_storage_once(
    pre: State,
    first: Identity,
    second: Identity,
    key: Found,
)
    ensures
        registry::initialize_session_storage_outcome(pre, first, key) matches Ok(post)
            ==> refused(
            registry::initialize_session_storage_outcome(post, second, key),
            AccessRequestError::AlreadyInitialized,
        ),
{
}

/// Setting up the attendance counter a second time fails with
/// `AlreadyInitialized`, whoever asks; as a failure it changes nothing.
pub proof fn lemma_initialize_attendance_storage_once(
    pre: State,
    first: Identity,
    second: Identity,
    key: Found,
)
    ensures
        registry::initialize_attendance_storage_outcome(pre, first, key) matches Ok(post)
            ==> refused(
            registry::initialize_attendance_storage_outcome(post, second, key),
            AccessRequestError::AlreadyInitialized,
        ),
{
}

/// Setting up the credentials a second time fails with `AlreadyInitialized`,
/// whoever asks and for whatever mint; as a failure it changes nothing.
pub proof fn lemma_initialize_token_mint_once(
    pre: State,
    first: Identity,
    first_mint: Identity,
    second: Identity,
    second_mint: Identity,
    key: Found,
)
    ensures
        gated::initialize_token_mint_outcome(pre, first, first_mint, key) matches Ok(post)
            ==> refused(
            gated::initialize_token_mint_outcome(post, second, second_mint, key),
            AccessRequestError::AlreadyInitialized,
        ),
{
}

} // verus!
