//! The records that replies are read into.

use vstd::prelude::*;

verus! {

/// A decimal quantity, kept as the text of a numeral for it.
///
/// The library neither rounds nor computes with such a quantity: it hands on
/// the numeral that the parser gave for the number in the reply.
#[derive(Debug)]
pub struct Decimal {
    pub text: String,
}

/// The envelope that most replies carry: which satellite, and how many
/// transactions the key has made in the last hour.
#[derive(Debug)]
pub struct Info {
    pub satid: u32,
    pub satname: String,
    pub transactionscount: u32,
}

/// Where a satellite is at one instant, over the ground and in the observer's
/// sky.
#[derive(Debug)]
pub struct SatellitePosition {
    pub satlatitude: Decimal,
    pub satlongitude: Decimal,
    pub sataltitude: Decimal,
    pub azimuth: Decimal,
    pub elevation: Decimal,
    pub ra: Decimal,
    pub dec: Decimal,
    pub timestamp: u32,
}

/// One optically visible pass: its start, its highest point and its end.
#[derive(Debug)]
pub struct SatelliteVisualPass {
    pub start_az: Decimal,
    pub start_az_compass: String,
    pub start_el: Decimal,
    pub start_utc: u32,
    pub max_az: Decimal,
    pub max_az_compass: String,
    pub max_el: Decimal,
    pub max_utc: u32,
    pub end_az: Decimal,
    pub end_az_compass: String,
    pub end_el: Decimal,
    pub end_utc: u32,
    pub mag: Decimal,
    pub duration: u32,
}

/// One pass usable for radio contact: its start, its highest point and its
/// end.
#[derive(Debug)]
pub struct SatelliteRadioPass {
    pub start_az: Decimal,
    pub start_az_compass: String,
    pub start_utc: u32,
    pub max_az: Decimal,
    pub max_az_compass: String,
    pub max_el: Decimal,
    pub max_utc: u32,
    pub end_az: Decimal,
    pub end_az_compass: String,
    pub end_utc: u32,
}

/// The envelope of an "above" reply: the category as the service words it.
#[derive(Debug)]
pub struct AboveInfo {
    pub category: String,
    pub transactionscount: u32,
}

/// One satellite overhead: identity, launch and present position.
#[derive(Debug)]
pub struct SatelliteInfo {
    pub satid: u32,
    pub satname: String,
    pub int_designator: String,
    pub launch_date: String,
    pub satlat: Decimal,
    pub satlng: Decimal,
    pub satalt: Decimal,
}

/// A satellite's current two-line element set.
#[derive(Debug)]
pub struct TleResponse {
    pub info: Info,
    pub tle: String,
}

/// Predicted positions of a satellite, one for each second asked for.
#[derive(Debug)]
pub struct PositionsResponse {
    pub info: Info,
    pub positions: Vec<SatellitePosition>,
}

/// Predicted visible passes of a satellite.
#[derive(Debug)]
pub struct VisualPassesResponse {
    pub info: Info,
    pub passes: Vec<SatelliteVisualPass>,
}

/// Predicted radio passes of a satellite.
#[derive(Debug)]
pub struct RadioPassesResponse {
    pub info: Info,
    pub passes: Vec<SatelliteRadioPass>,
}

/// The satellites of one category that are above an observer.
#[derive(Debug)]
pub struct AboveResponse {
    pub info: AboveInfo,
    pub above: Vec<SatelliteInfo>,
}

impl View for PositionsResponse {
    type V = (Info, Seq<SatellitePosition>);

    open spec fn view(&self) -> Self::V {
        (self.info, self.positions@)
    }
}

impl View for VisualPassesResponse {
    type V = (Info, Seq<SatelliteVisualPass>);

    open spec fn view(&self) -> Self::V {
        (self.info, self.passes@)
    }
}

impl View for RadioPassesResponse {
    type V = (Info, Seq<SatelliteRadioPass>);

    open spec fn view(&self) -> Self::V {
        (self.info, self.passes@)
    }
}

impl View for AboveResponse {
    type V = (AboveInfo, Seq<SatelliteInfo>);

    open spec fn view(&self) -> Self::V {
        (self.info, self.above@)
    }
}

} // verus!
