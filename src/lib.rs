//! Client library for a weather data web API.
//!
//! The library turns typed request parameters into the query URL of a
//! current-conditions request or of a historical ("time machine") request,
//! and holds the wire-format tables of the API's enumerated values together
//! with the parts of the response model that carry no measurements.
//! Sending a request and decoding a response body are left to the caller.

mod coordinate;
mod model;
mod query;
mod request;
mod tags;
mod text;

pub use coordinate::{Coordinate, FRACTION_DIGITS, FRACTION_SCALE};
pub use model::{Alert, Flags};
pub use query::{
    exclude_text, forecast_path_text, forecast_url, query_pairs, time_machine_path_text,
    time_machine_url, EXCLUDE, EXTEND, FORECAST_URL, LANG, MAX_API_KEY_CHARS, MAX_EXCLUSIONS,
    UNITS,
};
pub use request::{
    ForecastRequest, ForecastRequestBuilder, TimeMachineRequest, TimeMachineRequestBuilder,
};
pub use tags::{ExcludeBlock, ExtendBy, Icon, Lang, PrecipType, Severity, Units, UnrecognizedTag};
