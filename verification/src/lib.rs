//! Payloads and request framing for reporting personal weather station data
//! to the windy.com station service.
//!
//! The crate models the two payloads the service accepts (station
//! registrations and observations), renders them as the exact JSON text the
//! service expects, says where each request goes, and decides from what
//! came back whether a submission was accepted. Sending the request is left
//! to the caller.

pub mod client;
pub mod observation;
pub mod quantity;
pub mod station;
pub mod text;
pub mod timestamp;

pub use client::{conclude, Request, SubmitError, WindyStation};
pub use observation::Observation;
pub use quantity::Quantity;
pub use station::{Station, StationVisibility};
pub use timestamp::Timestamp;
