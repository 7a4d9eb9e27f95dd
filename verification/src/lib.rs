//! Fetch/state synchronization for a weather dashboard.
//!
//! The crate provides the pieces that keep a cooperative, single-threaded
//! render loop responsive while network work completes in the background:
//! a three-state fetch machine ([`FetchState`]), a single-slot last-write-wins
//! result channel, coordinate-text validation, and the controllers that tie
//! them together for the weather fetch and the IP-geolocation lookup. The
//! HTTP calls themselves, widget rendering and log formatting are left to
//! the embedding application; the controllers hand it plain commands and
//! accept plain results.

mod channel;
mod controller;
mod error;
mod fetch_state;
mod geolocate;
mod input;
mod logs;
mod weather;
mod widgets;

pub use channel::ResultChannel;
pub use controller::{FetchCommand, FetchController, PollResult};
pub use error::AppError;
pub use fetch_state::{FetchEvent, FetchState};
pub use geolocate::{CountryMetadata, Currency, GeoResponse, GeolocateController, Location};
pub use input::{validate_input, validate_lat_lon_input};
pub use logs::{LogEvent, Logs, LogsView};
pub use weather::{Alert, SourceIdx};
pub use widgets::{set_open, OpenWidgets, SunMoon, SunTimes, WidgetKind};
