//! Client-side logic for the N2YO satellite-tracking web service: the request
//! address of each endpoint, and the reading of each reply into a typed record.
//!
//! The crate performs no network traffic of its own. A caller asks a
//! [`Client`] for the address of a request, fetches it by whatever transport
//! it has, and hands the outcome back to be read.

pub mod category;
pub mod client;
pub mod decode;
pub mod json;
pub mod laws;
pub mod record;
pub mod reply;
pub mod text;

pub use category::SatelliteCategory;
pub use client::{Client, DEFAULT_BASE_URL};
pub use decode::Record;
pub use json::Json;
pub use record::{
    AboveInfo, AboveResponse, Decimal, Info, PositionsResponse, RadioPassesResponse,
    SatelliteInfo, SatellitePosition, SatelliteRadioPass, SatelliteVisualPass, TleResponse,
    VisualPassesResponse,
};
pub use reply::{Error, ParseFault, Reply, TransportFault, STATUS_OK};
