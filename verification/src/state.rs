//! The registry of AbstractState handles that are live on this server.
//!
//! CoolProp keeps its own registry of AbstractState handles; the server
//! additionally tracks the handles it created so that a request against a
//! released or never-created handle is answered 404 instead of relying on
//! CoolProp's internal error text.

use std::collections::HashSet;
use vstd::prelude::*;
use crate::error::{unknown_handle_message, ApiError, CoolPropError};

verus! {

broadcast use vstd::std_specs::hash::group_hash_axioms;

/// The handles created on this server and not yet released.
pub struct AppState {
    live: HashSet<i64>,
}

impl View for AppState {
    type V = Set<i64>;

    closed spec fn view(&self) -> Set<i64> {
        self.live@
    }
}

impl AppState {
    /// An empty registry.
    pub fn new() -> (s: Self)
        ensures
            s@ == Set::<i64>::empty(),
    {
        AppState { live: HashSet::new() }
    }

    /// Registers a freshly created handle.
    pub fn insert_handle(&mut self, handle: i64)
        ensures
            final(self)@ == old(self)@.insert(handle),
    {
        self.live.insert(handle);
    }

    /// Forgets a handle (after `AbstractState_free`).
    pub fn remove_handle(&mut self, handle: i64)
        ensures
            final(self)@ == old(self)@.remove(handle),
    {
        self.live.remove(&handle);
    }

    /// Succeeds exactly when the handle is live on this server; otherwise the
    /// request is answered as an unknown handle.
    pub fn require_handle(&self, handle: i64) -> (r: Result<(), ApiError>)
        ensures
            r is Ok <==> self@.contains(handle),
            r matches Err(e) ==> e == ApiError::UnknownHandle(handle),
    {
        if self.live.contains(&handle) {
            Ok(())
        } else {
            Err(ApiError::UnknownHandle(handle))
        }
    }

    /// Settles a create request once `AbstractState_factory` has answered:
    /// a new handle is registered and handed back; a failure registers
    /// nothing and is answered with CoolProp's message.
    pub fn record_created(&mut self, outcome: Result<i64, CoolPropError>) -> (r: Result<i64, ApiError>)
        ensures
            outcome matches Ok(h) ==> r == Ok::<i64, ApiError>(h) && final(self)@ == old(self)@.insert(h),
            outcome matches Err(e) ==> (r matches Err(ApiError::CoolProp(m)) && m@ == e.0@)
                && final(self)@ == old(self)@,
    {
        match outcome {
            Ok(h) => {
                self.live.insert(h);
                Ok(h)
            },
            Err(e) => Err(ApiError::CoolProp(e.0)),
        }
    }

    /// Settles a release request for a live handle once `AbstractState_free`
    /// has answered: on success the handle is forgotten, so that later
    /// requests against it are answered 404; a failure leaves it live and is
    /// answered with CoolProp's message.
    pub fn record_freed(&mut self, handle: i64, outcome: Result<(), CoolPropError>) -> (r: Result<(), ApiError>)
        ensures
            outcome is Ok ==> r is Ok && final(self)@ == old(self)@.remove(handle),
            outcome matches Err(e) ==> (r matches Err(ApiError::CoolProp(m)) && m@ == e.0@)
                && final(self)@ == old(self)@,
    {
        match outcome {
            Ok(()) => {
                self.live.remove(&handle);
                Ok(())
            },
            Err(e) => Err(ApiError::CoolProp(e.0)),
        }
    }
}

impl Default for AppState {
    /// An empty registry.
    fn default() -> (s: Self)
        ensures
            s@ == Set::<i64>::empty(),
    {
        AppState::new()
    }
}

/// A handle is known right after it is registered, and unknown right after
/// it is released, so that a request against it is then answered 404 with
/// the unknown-handle message; registering or releasing one handle leaves
/// every other handle as it was.
pub proof fn law_registry(live: Set<i64>, handle: i64, other: i64)
    ensures
        live.insert(handle).contains(handle),
        !live.remove(handle).contains(handle),
        ApiError::UnknownHandle(handle).status() == 404,
        ApiError::UnknownHandle(handle).message() == unknown_handle_message(handle),
        other != handle ==> (live.insert(handle).contains(other) <==> live.contains(other)),
        other != handle ==> (live.remove(handle).contains(other) <==> live.contains(other)),
{
}

} // verus!
