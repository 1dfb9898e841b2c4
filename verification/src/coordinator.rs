//! Coordination of immediate activations on one resource: at most one is in
//! flight, and a request that meets one waits until it has cleared.
//!
//! Nothing here blocks. A wait is a decision that the caller asks for after
//! every change of the store and once more when its time is up; the caller
//! sleeps in between, on whatever wakes it when the store changes.

use vstd::prelude::*;
use vstd::string::*;
use crate::activation::{
    merge_activation, merged_activation, null_activation, request_view, Activation,
    ActivationError, ActivationMode, ActivationRequest, ActivationRequestView, ActivationView,
};
use crate::resource::{Resource, ResourceView};
use crate::store::{modified_resource, ResourceStore};
use crate::tai::Tai;
use crate::types::ResourceType;

verus! {

/// What a waiter does next.
#[derive(Debug, Clone, Copy, PartialEq, Eq, Structural)]
pub enum WaitStep {
    /// The wait is over; the value says whether what was waited for holds.
    Done(bool),
    /// Sleep until the store changes, for at most so many milliseconds, then ask again.
    Wait(u64),
}

/// What a waiter does next, given whether what it waits for holds, whether the
/// store is shutting down, how long it has waited and how long it may wait.
pub open spec fn wait_decision(
    satisfied: bool,
    shutdown: bool,
    elapsed_ms: u64,
    timeout_ms: u64,
) -> WaitStep {
    if satisfied {
        WaitStep::Done(true)
    } else if shutdown || elapsed_ms >= timeout_ms {
        WaitStep::Done(false)
    } else {
        WaitStep::Wait((timeout_ms - elapsed_ms) as u64)
    }
}

/// A satisfied wait ends at once with `true`, whatever the timeout. An
/// unsatisfied one ends with `false` once its time is up, and before that it
/// never sleeps beyond the moment at which its time is up.
pub proof fn lemma_wait_bounded(satisfied: bool, shutdown: bool, elapsed_ms: u64, timeout_ms: u64)
    ensures
        satisfied ==> wait_decision(satisfied, shutdown, elapsed_ms, timeout_ms) == WaitStep::Done(
            true,
        ),
        !satisfied && elapsed_ms >= timeout_ms ==> wait_decision(
            satisfied,
            shutdown,
            elapsed_ms,
            timeout_ms,
        ) == WaitStep::Done(false),
        !satisfied && timeout_ms == 0 ==> wait_decision(satisfied, shutdown, elapsed_ms, timeout_ms)
            == WaitStep::Done(false),
        wait_decision(satisfied, shutdown, elapsed_ms, timeout_ms) matches WaitStep::Wait(rest)
            ==> elapsed_ms + rest == timeout_ms,
{
}

/// Decides the next step of a wait.
pub fn wait_for(satisfied: bool, shutdown: bool, elapsed_ms: u64, timeout_ms: u64) -> (r: WaitStep)
    ensures
        r == wait_decision(satisfied, shutdown, elapsed_ms, timeout_ms),
{
    if satisfied {
        WaitStep::Done(true)
    } else if shutdown || elapsed_ms >= timeout_ms {
        WaitStep::Done(false)
    } else {
        WaitStep::Wait(timeout_ms - elapsed_ms)
    }
}

/// A number of seconds in milliseconds, as far as 64 bits hold it.
pub open spec fn millis(seconds: u64) -> u64 {
    if seconds * 1000 <= u64::MAX {
        (seconds * 1000) as u64
    } else {
        u64::MAX
    }
}

fn to_millis(seconds: u64) -> (r: u64)
    ensures
        r == millis(seconds),
{
    match seconds.checked_mul(1000) {
        Some(ms) => ms,
        None => u64::MAX,
    }
}

/// No immediate activation is in flight on the resource: the store is shutting
/// down, or holds no such resource, or the staged mode is not immediate.
pub open spec fn not_pending(store: ResourceStore, id: Seq<char>, type_: ResourceType) -> bool {
    store.shutdown() || !store.has(id, type_) || store.resources()[id].staged.mode != Some(
        ActivationMode::ActivateImmediate,
    )
}

/// The staged activation is no longer `initial`: the store is shutting down,
/// or holds no such resource, or the staged activation differs.
pub open spec fn modified_since(
    store: ResourceStore,
    id: Seq<char>,
    type_: ResourceType,
    initial: ActivationView,
) -> bool {
    store.shutdown() || !store.has(id, type_) || store.resources()[id].staged != initial
}

/// Whether no immediate activation is in flight on the resource.
pub fn immediate_activation_not_pending(store: &ResourceStore, id: &str, type_: ResourceType) -> (r:
    bool)
    ensures
        r == not_pending(*store, id@, type_),
{
    if store.is_shutting_down() {
        return true;
    }
    match store.find(id, type_) {
        None => true,
        Some(resource) => match resource.staged.mode {
            Some(ActivationMode::ActivateImmediate) => false,
            _ => true,
        },
    }
}

/// Whether the staged activation of the resource is no longer `initial`.
pub fn activation_modified(
    store: &ResourceStore,
    id: &str,
    type_: ResourceType,
    initial: &Activation,
) -> (r: bool)
    ensures
        r == modified_since(*store, id@, type_, initial@),
{
    if store.is_shutting_down() {
        return true;
    }
    match store.find(id, type_) {
        None => true,
        Some(resource) => !resource.staged.same_as(initial),
    }
}

/// The next step of a request that waits until no immediate activation is in
/// flight on the resource, after `elapsed_ms` of waiting. `Done(false)` says
/// that the time is up: the request is then to be refused.
pub fn wait_immediate_activation_not_pending(
    store: &ResourceStore,
    id: &str,
    type_: ResourceType,
    elapsed_ms: u64,
) -> (r: WaitStep)
    ensures
        r == wait_decision(
            not_pending(*store, id@, type_),
            store.shutdown(),
            elapsed_ms,
            millis(store.max_wait()),
        ),
{
    wait_for(
        immediate_activation_not_pending(store, id, type_),
        store.is_shutting_down(),
        elapsed_ms,
        to_millis(store.immediate_activation_max()),
    )
}

/// The next step of a request that waits until the staged activation of the
/// resource is no longer `initial_activation`, after `elapsed_ms` of waiting.
pub fn wait_activation_modified(
    store: &ResourceStore,
    id: &str,
    type_: ResourceType,
    initial_activation: &Activation,
    elapsed_ms: u64,
) -> (r: WaitStep)
    ensures
        r == wait_decision(
            modified_since(*store, id@, type_, initial_activation@),
            store.shutdown(),
            elapsed_ms,
            millis(store.max_wait()),
        ),
{
    wait_for(
        activation_modified(store, id, type_, initial_activation),
        store.is_shutting_down(),
        elapsed_ms,
        to_millis(store.immediate_activation_max()),
    )
}

/// A resource with another staged activation.
pub open spec fn with_staged(resource: ResourceView, staged: ActivationView) -> ResourceView {
    ResourceView {
        id: resource.id,
        type_: resource.type_,
        version: resource.version,
        downgrade_version: resource.downgrade_version,
        updated: resource.updated,
        data: resource.data,
        staged,
    }
}

/// What comes of a request to stage an activation: the activation that is
/// staged, or why nothing is staged.
pub open spec fn staging_result(
    store: ResourceStore,
    id: Seq<char>,
    type_: ResourceType,
    request: Option<ActivationRequestView>,
    request_time: Tai,
) -> Result<ActivationView, ActivationError> {
    if store.shutdown() {
        Err(ActivationError::StoreShuttingDown)
    } else if !store.has(id, type_) {
        Err(ActivationError::ResourceNotFound)
    } else if store.resources()[id].staged.mode == Some(ActivationMode::ActivateImmediate) {
        Err(ActivationError::ActivationTimeout)
    } else {
        merged_activation(request, request_time)
    }
}

/// Merges the activation of a request, received at `request_time`, into the
/// staged activation of the resource, and gives the activation to answer with.
///
/// This is the one step that takes a resource from "not pending" to an
/// immediate activation in flight. While one is in flight every further
/// request is refused here and the store stays as it was.
pub fn stage_activation(
    store: &mut ResourceStore,
    id: &str,
    type_: ResourceType,
    request_activation: Option<&ActivationRequest>,
    request_time: &Tai,
    now: &Tai,
) -> (r: Result<Activation, ActivationError>)
    ensures
        final(store).shutdown() == old(store).shutdown(),
        final(store).max_wait() == old(store).max_wait(),
        match staging_result(*old(store), id@, type_, request_view(request_activation), *request_time) {
            Ok(staged) => r is Ok && r->Ok_0@ == staged && final(store).resources() == old(
                store,
            ).resources().insert(
                id@,
                modified_resource(
                    old(store).resources()[id@],
                    with_staged(old(store).resources()[id@], staged),
                    *now,
                ),
            ),
            Err(e) => r == Err::<Activation, ActivationError>(e) && final(store).resources() == old(
                store,
            ).resources(),
        },
{
    if store.is_shutting_down() {
        return Err(ActivationError::StoreShuttingDown);
    }
    let mut staged = match store.find(id, type_) {
        None => {
            return Err(ActivationError::ResourceNotFound);
        },
        Some(resource) => resource.staged.clone(),
    };
    if let Some(ActivationMode::ActivateImmediate) = staged.mode {
        return Err(ActivationError::ActivationTimeout);
    }
    match merge_activation(&mut staged, request_activation, request_time) {
        Err(e) => {
            return Err(e);
        },
        Ok(()) => {},
    }
    let response = staged.clone();
    let mutator = |resource: Resource| -> (out: Resource)
        ensures
            out@ == with_staged(resource@, staged@),
        {
            let mut resource = resource;
            resource.staged = staged;
            resource
        };
    let found = store.modify(id, type_, now, mutator);
    assert(found);
    Ok(response)
}

/// Why an immediate activation cannot be completed, if anything stands in its
/// way. `modified` says whether the wait for a change of the staged activation
/// saw one in time.
pub open spec fn completion_error(
    store: ResourceStore,
    id: Seq<char>,
    type_: ResourceType,
    response: ActivationView,
    modified: bool,
) -> Option<ActivationError> {
    if store.shutdown() {
        Some(ActivationError::StoreShuttingDown)
    } else if !modified {
        Some(ActivationError::ActivationTimeout)
    } else if !store.has(id, type_) {
        Some(ActivationError::ActivationConflict)
    } else if store.resources()[id].staged.requested_time != response.requested_time {
        Some(ActivationError::ActivationConflict)
    } else {
        None
    }
}

/// The answer to a completed immediate activation: the mode as it was asked
/// for, no requested time, and the time at which the activation took place.
pub open spec fn completed_response(response: ActivationView, staged: ActivationView) -> ActivationView {
    ActivationView {
        mode: response.mode,
        requested_time: None,
        activation_time: staged.activation_time,
    }
}

/// Completes an immediate activation after the wait for it has ended;
/// `modified` is what that wait gave.
///
/// A shutdown, a wait that ran out, a resource that has gone, and a token in
/// the store that is not the one in `response_activation` each end it with an
/// error, and then neither the store nor the response is touched. Otherwise the
/// activation time moves from the staged activation into the response, the
/// staged activation returns to null, and the token of the resource moves on.
pub fn handle_immediate_activation_pending(
    store: &mut ResourceStore,
    id: &str,
    type_: ResourceType,
    response_activation: &mut Activation,
    modified: bool,
    now: &Tai,
) -> (r: Result<(), ActivationError>)
    ensures
        final(store).shutdown() == old(store).shutdown(),
        final(store).max_wait() == old(store).max_wait(),
        match completion_error(*old(store), id@, type_, old(response_activation)@, modified) {
            Some(e) => r == Err::<(), ActivationError>(e) && final(store).resources() == old(
                store,
            ).resources() && *final(response_activation) == *old(response_activation),
            None => r is Ok && final(response_activation)@ == completed_response(
                old(response_activation)@,
                old(store).resources()[id@].staged,
            ) && final(store).resources() == old(store).resources().insert(
                id@,
                modified_resource(
                    old(store).resources()[id@],
                    with_staged(old(store).resources()[id@], null_activation()),
                    *now,
                ),
            ),
        },
{
    if store.is_shutting_down() {
        return Err(ActivationError::StoreShuttingDown);
    }
    if !modified {
        return Err(ActivationError::ActivationTimeout);
    }
    let activation_time = match store.find(id, type_) {
        None => {
            return Err(ActivationError::ActivationConflict);
        },
        Some(resource) => {
            let same_token = match (&resource.staged.requested_time, &response_activation.requested_time) {
                (Some(a), Some(b)) => crate::text::str_eq(a.as_str(), b.as_str()),
                (None, None) => true,
                _ => false,
            };
            if !same_token {
                return Err(ActivationError::ActivationConflict);
            }
            resource.staged.activation_time
        },
    };
    let mutator = |resource: Resource| -> (out: Resource)
        ensures
            out@ == with_staged(resource@, null_activation()),
        {
            let mut resource = resource;
            resource.staged.mode = None;
            resource.staged.requested_time = None;
            resource.staged.activation_time = None;
            resource
        };
    let found = store.modify(id, type_, now, mutator);
    assert(found);
    response_activation.requested_time = None;
    response_activation.activation_time = activation_time;
    Ok(())
}

/// While an immediate activation is in flight on a resource, a request that
/// waits for it is never told to go on, and a request to stage another
/// activation on that resource is refused, so that the store stays as it is.
pub proof fn lemma_in_flight_excludes(
    store: ResourceStore,
    id: Seq<char>,
    type_: ResourceType,
    request: Option<ActivationRequestView>,
    request_time: Tai,
    elapsed_ms: u64,
)
    requires
        !store.shutdown(),
        store.has(id, type_),
        store.resources()[id].staged.mode == Some(ActivationMode::ActivateImmediate),
    ensures
        !not_pending(store, id, type_),
        wait_decision(
            not_pending(store, id, type_),
            store.shutdown(),
            elapsed_ms,
            millis(store.max_wait()),
        ) != WaitStep::Done(true),
        staging_result(store, id, type_, request, request_time) == Err::<
            ActivationView,
            ActivationError,
        >(ActivationError::ActivationTimeout),
{
}

/// After an immediate activation has been completed, the response carries the
/// activation time that the resource held, and the resource shows a null
/// mode, a null requested time and a null activation time to whoever reads it next.
pub proof fn lemma_completion_hands_over(
    before: ResourceView,
    response: ActivationView,
    now: Tai,
)
    ensures
        completed_response(response, before.staged).activation_time
            == before.staged.activation_time,
        completed_response(response, before.staged).requested_time is None,
        modified_resource(before, with_staged(before, null_activation()), now).staged
            == null_activation(),
        modified_resource(before, with_staged(before, null_activation()), now).data == before.data,
{
}

} // verus!
