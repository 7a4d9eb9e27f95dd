//! IP-geolocation lookup: the payload shape and its controller.
//!
//! The lookup resolves a best-effort location for the caller's current
//! network vantage point. Its controller is a structural twin of the
//! weather-fetch controller, with two differences: it needs no input
//! validation (the lookup takes no arguments), and on success it feeds the
//! resolved coordinates back into the UI-owned coordinate text fields
//! rather than into the weather data model. It keeps its own state machine, so
//! re-clicking while a lookup is outstanding dispatches nothing.

use vstd::prelude::*;

use crate::channel::ResultChannel;
use crate::controller::PollResult;
use crate::error::AppError;
use crate::fetch_state::{next_state, FetchEvent, FetchState};

verus! {

/// The resolved location fields of a geolocation response.
#[derive(Clone, Debug, Default)]
pub struct Location {
    pub continent_code: String,
    pub continent_name: String,
    pub country_code2: String,
    pub country_code3: String,
    pub country_name: String,
    pub country_name_official: String,
    pub country_capital: String,
    pub state_prov: String,
    pub state_code: String,
    pub district: String,
    pub city: String,
    pub zipcode: String,
    /// Resolved latitude, as text ready for the latitude input field.
    pub latitude: String,
    /// Resolved longitude, as text ready for the longitude input field.
    pub longitude: String,
    pub is_eu: bool,
    pub country_flag: String,
    pub geoname_id: String,
    pub country_emoji: String,
}

/// Country-level metadata of a geolocation response.
#[derive(Clone, Debug, Default)]
pub struct CountryMetadata {
    pub calling_code: String,
    pub tld: String,
    pub languages: Vec<String>,
}

/// Currency details of a geolocation response.
#[derive(Clone, Debug, Default)]
pub struct Currency {
    pub code: String,
    pub name: String,
    pub symbol: String,
}

/// A whole geolocation response. The controller consumes only the two
/// coordinate strings; the rest is carried through untouched.
#[derive(Clone, Debug, Default)]
pub struct GeoResponse {
    pub ip: String,
    pub location: Location,
    pub country_metadata: CountryMetadata,
    pub currency: Currency,
}

/// Orchestrates the geolocation lookup: its own state machine and its own result
/// channel, independent of the weather fetch.
pub struct GeolocateController {
    /// Single-slot channel the background lookup reports through.
    pub channel: ResultChannel<Result<GeoResponse, AppError>>,
    /// State machine preventing duplicate in-flight lookups.
    pub state: FetchState,
}

impl GeolocateController {
    /// A fresh controller: state machine completed, channel empty.
    pub fn new() -> (r: Self)
        ensures
            r.state == FetchState::Completed,
            r.channel.slot is None,
    {
        GeolocateController { channel: ResultChannel::new(), state: FetchState::Completed }
    }

    /// The user clicked the geolocate button. Honoured only while the machine
    /// is `Completed`; otherwise nothing changes.
    pub fn request(&mut self)
        ensures
            final(self).state == next_state(old(self).state, FetchEvent::Request),
            final(self).channel == old(self).channel,
    {
        if self.state == FetchState::Completed {
            self.state = FetchState::Requested;
        }
    }

    /// One per-frame tick of the dispatch step. Returns whether the caller
    /// must now run the lookup in the background: true exactly when a
    /// lookup was pending, in which case the machine moves to `InProgress`.
    pub fn initiate(&mut self) -> (dispatch: bool)
        ensures
            dispatch <==> old(self).state == FetchState::Requested,
            final(self).state == next_state(old(self).state, FetchEvent::DispatchTick),
            final(self).channel == old(self).channel,
    {
        if self.state == FetchState::Requested {
            self.state = FetchState::InProgress;
            true
        } else {
            false
        }
    }

    /// The background lookup finished: its outcome is written into the
    /// result channel, overwriting any unread predecessor.
    pub fn deliver(&mut self, outcome: Result<GeoResponse, AppError>)
        ensures
            final(self).channel.slot == Some(outcome),
            final(self).state == old(self).state,
    {
        self.channel.send(outcome);
    }

    /// One per-frame tick of the result step.
    ///
    /// Consumes the most recent outcome, if any. On success the two
    /// UI-owned coordinate text fields are overwritten with the resolved
    /// latitude and longitude; on failure they are left untouched and the
    /// error comes back for logging. Either way the machine returns to
    /// `Completed`. With no new outcome, nothing changes.
    pub fn poll(&mut self, latitude_str: &mut String, longitude_str: &mut String) -> (r:
        PollResult)
        ensures
            old(self).channel.slot is None ==> {
                &&& r == PollResult::Idle
                &&& *final(self) == *old(self)
                &&& *final(latitude_str) == *old(latitude_str)
                &&& *final(longitude_str) == *old(longitude_str)
            },
            old(self).channel.slot matches Some(out) ==> {
                &&& final(self).channel.slot is None
                &&& final(self).state == next_state(old(self).state, FetchEvent::Resolve)
                &&& final(self).state == FetchState::Completed
                &&& (out matches Ok(g) ==> {
                    &&& *final(latitude_str) == g.location.latitude
                    &&& *final(longitude_str) == g.location.longitude
                    &&& r == PollResult::Updated
                })
                &&& (out matches Err(e) ==> {
                    &&& *final(latitude_str) == *old(latitude_str)
                    &&& *final(longitude_str) == *old(longitude_str)
                    &&& r == PollResult::Failed(e)
                })
            },
    {
        match self.channel.take() {
            None => PollResult::Idle,
            Some(Ok(g)) => {
                *latitude_str = g.location.latitude;
                *longitude_str = g.location.longitude;
                self.state = FetchState::Completed;
                PollResult::Updated
            },
            Some(Err(e)) => {
                self.state = FetchState::Completed;
                PollResult::Failed(e)
            },
        }
    }
}

} // verus!
