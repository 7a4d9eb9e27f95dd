//! The orchestrator for one weather-fetch cycle.
//!
//! The controller owns the fetch state machine, the result channel and the current
//! weather payload. It is driven once per frame by a single-threaded,
//! cooperative render loop, so none of its methods block: `initiate` turns
//! a pending request into a dispatch command for the embedding application
//! to run in the background, `deliver` is called by that background work
//! when it finishes, and `poll` hands the outcome back into UI-owned state
//! exactly once.
//!
//! The payload type is opaque to the controller: it is replaced wholesale
//! on each successful fetch and never partially mutated.

use vstd::prelude::*;

use crate::channel::ResultChannel;
use crate::error::AppError;
use crate::fetch_state::{next_state, FetchEvent, FetchState};
use crate::input::{is_valid_coordinate_text, normalize, validate_lat_lon_input};

verus! {

/// A fetch the embedding application must now run in the background: the
/// validated, normalized coordinate text to fetch weather for.
pub struct FetchCommand {
    /// Normalized latitude text.
    pub latitude: String,
    /// Normalized longitude text.
    pub longitude: String,
}

/// What one per-frame poll of a result channel found.
#[derive(Clone, Debug, PartialEq)]
pub enum PollResult {
    /// No new result since the last poll.
    Idle,
    /// A fetch succeeded and its payload was applied.
    Updated,
    /// A fetch failed; carries the error to log. Prior data is untouched.
    Failed(AppError),
}

/// Orchestrates the fetch state machine, the result channel and the weather payload
/// for one resource type.
pub struct FetchController<D> {
    /// Single-slot channel the background fetch reports through.
    pub channel: ResultChannel<Result<D, AppError>>,
    /// State machine preventing duplicate in-flight fetches.
    pub state: FetchState,
    /// The current weather payload, replaced wholesale on success.
    pub data: D,
    /// Whether the invalid-coordinates modal should be open.
    pub location_error_modal_open: bool,
}

impl<D> FetchController<D> {
    /// A fresh controller: state machine completed, channel empty, no error modal,
    /// holding the given initial payload until the first fetch completes.
    pub fn new(initial: D) -> (r: Self)
        ensures
            r.state == FetchState::Completed,
            r.data == initial,
            r.channel.slot is None,
            !r.location_error_modal_open,
    {
        FetchController {
            channel: ResultChannel::new(),
            state: FetchState::Completed,
            data: initial,
            location_error_modal_open: false,
        }
    }

    /// The user asked for a fetch. Honoured only while the machine is
    /// `Completed`; a click while a fetch is pending or in flight changes
    /// nothing, which is what prevents duplicate requests.
    pub fn request(&mut self)
        ensures
            final(self).state == next_state(old(self).state, FetchEvent::Request),
            final(self).channel == old(self).channel,
            final(self).data == old(self).data,
            final(self).location_error_modal_open == old(self).location_error_modal_open,
    {
        if self.state == FetchState::Completed {
            self.state = FetchState::Requested;
        }
    }

    /// One per-frame tick of the dispatch step.
    ///
    /// Does nothing unless a fetch is pending (`Requested`). When one is,
    /// the coordinate text is validated: on success the machine moves to
    /// `InProgress` and the normalized coordinates come back as a command
    /// the caller must dispatch in the background; on failure nothing is
    /// dispatched, the error modal is flagged open and the machine returns to
    /// `Completed` so the user can correct the input and retry.
    pub fn initiate(&mut self, lat: &str, lon: &str) -> (cmd: Option<FetchCommand>)
        ensures
            final(self).channel == old(self).channel,
            final(self).data == old(self).data,
            cmd is Some <==> old(self).state == FetchState::Requested
                && is_valid_coordinate_text(lat@) && is_valid_coordinate_text(lon@),
            cmd matches Some(c) ==> c.latitude@ == normalize(lat@) && c.longitude@ == normalize(
                lon@,
            ),
            final(self).state == next_state(
                old(self).state,
                if is_valid_coordinate_text(lat@) && is_valid_coordinate_text(lon@) {
                    FetchEvent::DispatchTick
                } else {
                    FetchEvent::RejectTick
                },
            ),
            final(self).location_error_modal_open == (old(self).location_error_modal_open || (
            old(self).state == FetchState::Requested && !(is_valid_coordinate_text(lat@)
                && is_valid_coordinate_text(lon@)))),
    {
        if self.state == FetchState::Requested {
            self.state = FetchState::InProgress;
            match validate_lat_lon_input(lat, lon) {
                Ok((la, lo)) => Some(FetchCommand { latitude: la, longitude: lo }),
                Err(_) => {
                    self.location_error_modal_open = true;
                    self.state = FetchState::Completed;
                    None
                },
            }
        } else {
            None
        }
    }

    /// The background fetch finished: its outcome (success or failure) is
    /// written into the result channel, overwriting any unread
    /// predecessor. Called from the background execution context's
    /// completion; everything else waits for the next `poll`.
    pub fn deliver(&mut self, outcome: Result<D, AppError>)
        ensures
            final(self).channel.slot == Some(outcome),
            final(self).state == old(self).state,
            final(self).data == old(self).data,
            final(self).location_error_modal_open == old(self).location_error_modal_open,
    {
        self.channel.send(outcome);
    }

    /// One per-frame tick of the result step.
    ///
    /// Consumes the most recent outcome, if any. On success the payload is
    /// replaced wholesale by the fetched data; on failure the prior
    /// payload is left untouched and the error comes back for logging.
    /// Either way the machine returns to `Completed`, so the fetch can be
    /// retried. With no new outcome, nothing changes.
    pub fn poll(&mut self) -> (r: PollResult)
        ensures
            old(self).channel.slot is None ==> r == PollResult::Idle && *final(self) == *old(
                self,
            ),
            old(self).channel.slot matches Some(out) ==> {
                &&& final(self).channel.slot is None
                &&& final(self).state == next_state(old(self).state, FetchEvent::Resolve)
                &&& final(self).state == FetchState::Completed
                &&& final(self).location_error_modal_open == old(self).location_error_modal_open
                &&& (out matches Ok(d) ==> final(self).data == d && r == PollResult::Updated)
                &&& (out matches Err(e) ==> final(self).data == old(self).data && r
                    == PollResult::Failed(e))
            },
    {
        match self.channel.take() {
            None => PollResult::Idle,
            Some(Ok(d)) => {
                self.data = d;
                self.state = FetchState::Completed;
                PollResult::Updated
            },
            Some(Err(e)) => {
                self.state = FetchState::Completed;
                PollResult::Failed(e)
            },
        }
    }

    /// The user closed the invalid-coordinates modal.
    pub fn dismiss_location_error(&mut self)
        ensures
            !final(self).location_error_modal_open,
            final(self).state == old(self).state,
            final(self).channel == old(self).channel,
            final(self).data == old(self).data,
    {
        self.location_error_modal_open = false;
    }
}

} // verus!
