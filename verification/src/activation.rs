//! The activation of a staged endpoint: what a request asks for, when it is to
//! take effect, and how it changes the staged activation.

use vstd::prelude::*;
use vstd::string::*;
use crate::tai::{fits_tai, make_version, parse_tai, parsed_tai, tai_text, Tai};
use crate::text::str_eq;

verus! {

/// What an activation request asks of a staged endpoint.
#[derive(Debug, Clone, Copy, PartialEq, Eq, Structural)]
pub enum ActivationState {
    ImmediateActivationPending,
    ScheduledActivationPending,
    ActivationNotPending,
    StagingOnly,
}

/// When staged parameters are to become active.
#[derive(Debug, Clone, Copy, PartialEq, Eq, Structural)]
pub enum ActivationMode {
    ActivateImmediate,
    ActivateScheduledAbsolute,
    ActivateScheduledRelative,
}

/// Why an activation failed.
#[derive(Debug, Clone, Copy, PartialEq, Eq, Structural)]
pub enum ActivationError {
    /// The mode is none of the three known modes.
    InvalidActivationMode,
    /// The mode has no requested time to resolve.
    UnsupportedModeForTimeResolution,
    /// The requested time is missing, is no time, or lies beyond what a time can hold.
    InvalidRequestedTime,
    /// A wait for an immediate activation ran out of time.
    ActivationTimeout,
    /// An immediate activation in flight was changed by someone else.
    ActivationConflict,
    /// The store is shutting down.
    StoreShuttingDown,
    /// The store holds no resource with the id and the type of the request.
    ResourceNotFound,
}

/// The activation part of a request, as it arrived: the mode and the requested
/// time are still text.
#[derive(Debug, Clone, PartialEq, Eq)]
pub struct ActivationRequest {
    pub mode: Option<String>,
    pub requested_time: Option<String>,
}

/// The activation of a staged endpoint. For an immediate activation in flight
/// `requested_time` holds a token made from the time of receipt.
#[derive(Debug, PartialEq, Eq)]
pub struct Activation {
    pub mode: Option<ActivationMode>,
    pub requested_time: Option<String>,
    pub activation_time: Option<Tai>,
}

/// The characters of an optional string.
pub open spec fn text_of(s: Option<String>) -> Option<Seq<char>> {
    match s {
        Some(s) => Some(s@),
        None => None,
    }
}

/// The activation part of a request, its texts as sequences of characters.
pub struct ActivationRequestView {
    pub mode: Option<Seq<char>>,
    pub requested_time: Option<Seq<char>>,
}

/// The activation of a staged endpoint, its text as a sequence of characters.
pub struct ActivationView {
    pub mode: Option<ActivationMode>,
    pub requested_time: Option<Seq<char>>,
    pub activation_time: Option<Tai>,
}

impl View for ActivationRequest {
    type V = ActivationRequestView;

    open spec fn view(&self) -> ActivationRequestView {
        ActivationRequestView {
            mode: text_of(self.mode),
            requested_time: text_of(self.requested_time),
        }
    }
}

impl View for Activation {
    type V = ActivationView;

    open spec fn view(&self) -> ActivationView {
        ActivationView {
            mode: self.mode,
            requested_time: text_of(self.requested_time),
            activation_time: self.activation_time,
        }
    }
}

impl Clone for Activation {
    fn clone(&self) -> (r: Activation)
        ensures
            r@ == self@,
    {
        Activation {
            mode: self.mode,
            requested_time: match &self.requested_time {
                Some(text) => Some(text.clone()),
                None => None,
            },
            activation_time: self.activation_time,
        }
    }
}

impl Activation {
    /// Whether two activations hold the same mode and the same times.
    pub fn same_as(&self, other: &Activation) -> (r: bool)
        ensures
            r == (self@ == other@),
    {
        let same_mode = match (self.mode, other.mode) {
            (Some(a), Some(b)) => a == b,
            (None, None) => true,
            _ => false,
        };
        let same_requested = match (&self.requested_time, &other.requested_time) {
            (Some(a), Some(b)) => str_eq(a.as_str(), b.as_str()),
            (None, None) => true,
            _ => false,
        };
        let same_time = match (self.activation_time, other.activation_time) {
            (Some(a), Some(b)) => a == b,
            (None, None) => true,
            _ => false,
        };
        same_mode && same_requested && same_time
    }
}

/// The view of an optional request.
pub open spec fn request_view(request: Option<&ActivationRequest>) -> Option<
    ActivationRequestView,
> {
    match request {
        Some(r) => Some(r@),
        None => None,
    }
}

/// The activation in which nothing is pending: all three fields are null.
pub open spec fn null_activation() -> ActivationView {
    ActivationView { mode: None, requested_time: None, activation_time: None }
}

/// The mode that a text names.
pub open spec fn mode_of_text(s: Seq<char>) -> Option<ActivationMode> {
    if s == "activate_immediate"@ {
        Some(ActivationMode::ActivateImmediate)
    } else if s == "activate_scheduled_absolute"@ {
        Some(ActivationMode::ActivateScheduledAbsolute)
    } else if s == "activate_scheduled_relative"@ {
        Some(ActivationMode::ActivateScheduledRelative)
    } else {
        None
    }
}

/// What a request asks for: staging only where it has no activation, nothing
/// pending where the mode is null, otherwise what the mode says.
pub open spec fn activation_state(request: Option<ActivationRequestView>) -> Result<
    ActivationState,
    ActivationError,
> {
    match request {
        None => Ok(ActivationState::StagingOnly),
        Some(r) => match r.mode {
            None => Ok(ActivationState::ActivationNotPending),
            Some(m) => match mode_of_text(m) {
                Some(ActivationMode::ActivateImmediate) => Ok(
                    ActivationState::ImmediateActivationPending,
                ),
                Some(_) => Ok(ActivationState::ScheduledActivationPending),
                None => Err(ActivationError::InvalidActivationMode),
            },
        },
    }
}

/// The instant `duration` after `receipt`.
pub open spec fn time_after(receipt: Tai, duration: Tai) -> Tai {
    let total = receipt.total_nanos() + duration.total_nanos();
    Tai { seconds: (total / 1_000_000_000) as u64, nanoseconds: (total % 1_000_000_000) as u32 }
}

/// The instant at which a scheduled request is to take effect: the requested
/// time itself for an absolute request, that long after receipt for a relative one.
pub open spec fn absolute_requested_time(request: ActivationRequestView, receipt: Tai) -> Result<
    Tai,
    ActivationError,
> {
    match request.mode {
        None => Err(ActivationError::UnsupportedModeForTimeResolution),
        Some(m) => match mode_of_text(m) {
            None => Err(ActivationError::InvalidActivationMode),
            Some(ActivationMode::ActivateImmediate) => Err(
                ActivationError::UnsupportedModeForTimeResolution,
            ),
            Some(mode) => match request.requested_time {
                None => Err(ActivationError::InvalidRequestedTime),
                Some(text) => match parsed_tai(text) {
                    None => Err(ActivationError::InvalidRequestedTime),
                    Some(t) => if mode == ActivationMode::ActivateScheduledAbsolute {
                        Ok(t)
                    } else if fits_tai(receipt.total_nanos() + t.total_nanos()) {
                        Ok(time_after(receipt, t))
                    } else {
                        Err(ActivationError::InvalidRequestedTime)
                    },
                },
            },
        },
    }
}

/// The staged activation after a request received at `receipt` has been merged
/// into it. It does not depend on what was staged before.
pub open spec fn merged_activation(request: Option<ActivationRequestView>, receipt: Tai) -> Result<
    ActivationView,
    ActivationError,
> {
    match activation_state(request) {
        Err(e) => Err(e),
        Ok(ActivationState::StagingOnly) => Ok(null_activation()),
        Ok(ActivationState::ActivationNotPending) => Ok(null_activation()),
        Ok(ActivationState::ImmediateActivationPending) => Ok(
            ActivationView {
                mode: Some(ActivationMode::ActivateImmediate),
                requested_time: Some(tai_text(receipt)),
                activation_time: None,
            },
        ),
        Ok(ActivationState::ScheduledActivationPending) => match absolute_requested_time(
            request->0,
            receipt,
        ) {
            Err(e) => Err(e),
            Ok(t) => Ok(
                ActivationView {
                    mode: mode_of_text(request->0.mode->0),
                    requested_time: request->0.requested_time,
                    activation_time: Some(t),
                },
            ),
        },
    }
}

/// Reads the name of a mode.
pub fn parse_mode(text: &str) -> (r: Option<ActivationMode>)
    ensures
        r == mode_of_text(text@),
{
    if str_eq(text, "activate_immediate") {
        Some(ActivationMode::ActivateImmediate)
    } else if str_eq(text, "activate_scheduled_absolute") {
        Some(ActivationMode::ActivateScheduledAbsolute)
    } else if str_eq(text, "activate_scheduled_relative") {
        Some(ActivationMode::ActivateScheduledRelative)
    } else {
        None
    }
}

/// Constructs the activation in which nothing is pending.
pub fn make_activation() -> (r: Activation)
    ensures
        r@ == null_activation(),
{
    Activation { mode: None, requested_time: None, activation_time: None }
}

/// Discovers which kind of activation a request asks for, or whether it asks
/// for staging only.
pub fn get_activation_state(activation: Option<&ActivationRequest>) -> (r: Result<
    ActivationState,
    ActivationError,
>)
    ensures
        r == activation_state(request_view(activation)),
{
    let request = match activation {
        None => {
            return Ok(ActivationState::StagingOnly);
        },
        Some(request) => request,
    };
    let mode = match &request.mode {
        None => {
            return Ok(ActivationState::ActivationNotPending);
        },
        Some(mode) => mode,
    };
    match parse_mode(mode.as_str()) {
        Some(ActivationMode::ActivateImmediate) => Ok(ActivationState::ImmediateActivationPending),
        Some(_) => Ok(ActivationState::ScheduledActivationPending),
        None => Err(ActivationError::InvalidActivationMode),
    }
}

/// Calculates the absolute time from the requested time of a scheduled activation.
pub fn get_absolute_requested_time(activation: &ActivationRequest, request_time: &Tai) -> (r:
    Result<Tai, ActivationError>)
    ensures
        r == absolute_requested_time(activation@, *request_time),
        r is Ok ==> r->Ok_0.wf(),
{
    let mode = match &activation.mode {
        None => {
            return Err(ActivationError::UnsupportedModeForTimeResolution);
        },
        Some(text) => match parse_mode(text.as_str()) {
            None => {
                return Err(ActivationError::InvalidActivationMode);
            },
            Some(mode) => mode,
        },
    };
    if mode == ActivationMode::ActivateImmediate {
        return Err(ActivationError::UnsupportedModeForTimeResolution);
    }
    let requested = match &activation.requested_time {
        None => {
            return Err(ActivationError::InvalidRequestedTime);
        },
        Some(text) => match parse_tai(text.as_str()) {
            None => {
                return Err(ActivationError::InvalidRequestedTime);
            },
            Some(t) => t,
        },
    };
    if mode == ActivationMode::ActivateScheduledAbsolute {
        Ok(requested)
    } else {
        match request_time.checked_add(&requested) {
            Some(t) => {
                proof {
                    lemma_time_after(*request_time, requested, t);
                }
                Ok(t)
            },
            None => Err(ActivationError::InvalidRequestedTime),
        }
    }
}

/// A well-formed time is determined by its count of nanoseconds.
proof fn lemma_time_after(receipt: Tai, duration: Tai, t: Tai)
    requires
        t.wf(),
        t.total_nanos() == receipt.total_nanos() + duration.total_nanos(),
    ensures
        t == time_after(receipt, duration),
{
    let total = receipt.total_nanos() + duration.total_nanos();
    assert(total == t.seconds * 1_000_000_000 + t.nanoseconds);
    assert(total / 1_000_000_000 == t.seconds as nat && total % 1_000_000_000
        == t.nanoseconds as nat) by (nonlinear_arith)
        requires
            total == t.seconds * 1_000_000_000 + t.nanoseconds,
            t.nanoseconds < 1_000_000_000,
    ;
}

/// Sets the fields of the staged activation from the request, received at
/// `request_time`. Where the request is refused the staged activation stays as it was.
pub fn merge_activation(
    activation: &mut Activation,
    request_activation: Option<&ActivationRequest>,
    request_time: &Tai,
) -> (r: Result<(), ActivationError>)
    ensures
        match merged_activation(request_view(request_activation), *request_time) {
            Ok(merged) => r is Ok && final(activation)@ == merged,
            Err(e) => r == Err::<(), ActivationError>(e) && *final(activation) == *old(activation),
        },
{
    match get_activation_state(request_activation) {
        Err(e) => Err(e),
        Ok(ActivationState::StagingOnly) => {
            activation.mode = None;
            activation.requested_time = None;
            activation.activation_time = None;
            Ok(())
        },
        Ok(ActivationState::ActivationNotPending) => {
            activation.mode = None;
            activation.requested_time = None;
            activation.activation_time = None;
            Ok(())
        },
        Ok(ActivationState::ImmediateActivationPending) => {
            activation.mode = Some(ActivationMode::ActivateImmediate);
            activation.requested_time = Some(make_version(*request_time));
            activation.activation_time = None;
            Ok(())
        },
        Ok(ActivationState::ScheduledActivationPending) => {
            let request = request_activation.unwrap();
            match get_absolute_requested_time(request, request_time) {
                Err(e) => Err(e),
                Ok(absolute) => {
                    let mode = match &request.mode {
                        Some(text) => parse_mode(text.as_str()),
                        None => None,
                    };
                    let requested_time = match &request.requested_time {
                        Some(text) => Some(text.clone()),
                        None => None,
                    };
                    activation.mode = mode;
                    activation.requested_time = requested_time;
                    activation.activation_time = Some(absolute);
                    Ok(())
                },
            }
        },
    }
}

/// A request without an activation leaves mode, requested time and activation
/// time null, whatever was staged before.
pub proof fn lemma_merge_staging_only(receipt: Tai)
    ensures
        merged_activation(None, receipt) == Ok::<ActivationView, ActivationError>(
            null_activation(),
        ),
{
}

/// Setting the mode back to null clears the requested time and the activation
/// time as well.
pub proof fn lemma_merge_not_pending(request: ActivationRequestView, receipt: Tai)
    requires
        request.mode is None,
    ensures
        merged_activation(Some(request), receipt) == Ok::<ActivationView, ActivationError>(
            null_activation(),
        ),
{
}

/// An absolute scheduled request for the time `t` gets `t` as its activation time.
pub proof fn lemma_merge_scheduled_absolute(request: ActivationRequestView, receipt: Tai, t: Tai)
    requires
        request.mode == Some("activate_scheduled_absolute"@),
        request.requested_time is Some,
        parsed_tai(request.requested_time->0) == Some(t),
    ensures
        merged_activation(Some(request), receipt) is Ok,
        merged_activation(Some(request), receipt)->Ok_0 == (ActivationView {
            mode: Some(ActivationMode::ActivateScheduledAbsolute),
            requested_time: request.requested_time,
            activation_time: Some(t),
        }),
{
    reveal_mode_names();
}

/// A relative scheduled request for the duration `d`, received at `receipt`,
/// gets the time `d` after `receipt` as its activation time, as long as a time
/// can hold it.
pub proof fn lemma_merge_scheduled_relative(request: ActivationRequestView, receipt: Tai, d: Tai)
    requires
        request.mode == Some("activate_scheduled_relative"@),
        request.requested_time is Some,
        parsed_tai(request.requested_time->0) == Some(d),
        fits_tai(receipt.total_nanos() + d.total_nanos()),
    ensures
        merged_activation(Some(request), receipt) is Ok,
        merged_activation(Some(request), receipt)->Ok_0.mode == Some(
            ActivationMode::ActivateScheduledRelative,
        ),
        merged_activation(Some(request), receipt)->Ok_0.requested_time == request.requested_time,
        merged_activation(Some(request), receipt)->Ok_0.activation_time is Some,
        merged_activation(Some(request), receipt)->Ok_0.activation_time->0.wf(),
        merged_activation(Some(request), receipt)->Ok_0.activation_time->0.total_nanos()
            == receipt.total_nanos() + d.total_nanos(),
{
    reveal_mode_names();
    let total = receipt.total_nanos() + d.total_nanos();
    let t = time_after(receipt, d);
    assert(total / 1_000_000_000 <= u64::MAX && (total / 1_000_000_000) * 1_000_000_000 + total
        % 1_000_000_000 == total && total % 1_000_000_000 < 1_000_000_000) by (nonlinear_arith)
        requires
            0 <= total < (u64::MAX + 1) * 1_000_000_000,
    ;
}

/// Right after the merge of an immediate request the mode is immediate, the
/// requested time holds the token of the time of receipt, and the activation
/// time is still null.
pub proof fn lemma_merge_immediate(request: ActivationRequestView, receipt: Tai)
    requires
        request.mode == Some("activate_immediate"@),
    ensures
        merged_activation(Some(request), receipt) == Ok::<ActivationView, ActivationError>(
            ActivationView {
                mode: Some(ActivationMode::ActivateImmediate),
                requested_time: Some(tai_text(receipt)),
                activation_time: None,
            },
        ),
        merged_activation(Some(request), receipt)->Ok_0.requested_time is Some,
{
}

/// The three mode names differ in length.
proof fn reveal_mode_names()
    ensures
        "activate_immediate"@.len() == 18,
        "activate_scheduled_absolute"@.len() == 27,
        "activate_scheduled_relative"@.len() == 27,
        "activate_scheduled_absolute"@[19] == 'a',
        "activate_scheduled_relative"@[19] == 'r',
{
    reveal_strlit("activate_immediate");
    reveal_strlit("activate_scheduled_absolute");
    reveal_strlit("activate_scheduled_relative");
}

} // verus!
