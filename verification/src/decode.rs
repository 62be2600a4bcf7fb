//! Reading records out of JSON documents.
//!
//! A record is read from an object. Each of its fields is a member that must
//! be there under its exact name and hold a value of the field's kind; other
//! members are passed over. Where a value holds no record, the reading names
//! the first field, in the order of the record's declaration, that is
//! missing or holds a value of another kind.

use vstd::prelude::*;
use crate::json::Json;
use crate::record::{
    AboveInfo, AboveResponse, Decimal, Info, PositionsResponse, RadioPassesResponse,
    SatelliteInfo, SatellitePosition, SatelliteRadioPass, SatelliteVisualPass, TleResponse,
    VisualPassesResponse,
};

verus! {

/// The member `name` of `j` as a `u32`.
pub open spec fn field_u32(j: Json, name: Seq<char>) -> Option<u32> {
    match j.member(name) {
        Some(value) => value.as_u32(),
        None => None,
    }
}

/// The member `name` of `j` as a decimal quantity: any number will do.
pub open spec fn field_decimal(j: Json, name: Seq<char>) -> Option<Decimal> {
    match j.member(name) {
        Some(value) => match value.as_numeral() {
            Some(text) => Some(Decimal { text }),
            None => None,
        },
        None => None,
    }
}

/// The member `name` of `j` as a string.
pub open spec fn field_text(j: Json, name: Seq<char>) -> Option<String> {
    match j.member(name) {
        Some(value) => value.as_text(),
        None => None,
    }
}

/// The member `name` of `j` as the elements of an array.
pub open spec fn field_items(j: Json, name: Seq<char>) -> Option<Seq<Json>> {
    match j.member(name) {
        Some(value) => value.as_items(),
        None => None,
    }
}

/// Reads the member `name` of `j` as a `u32`.
pub fn read_u32(j: &Json, name: &str) -> (r: Option<u32>)
    ensures
        r == field_u32(*j, name@),
{
    match j.get(name) {
        Some(Json::Number { unsigned: Some(n), .. }) => {
            if *n <= 0xFFFF_FFFF {
                Some(*n as u32)
            } else {
                None
            }
        },
        _ => None,
    }
}

/// Reads the member `name` of `j` as a decimal quantity.
pub fn read_decimal(j: &Json, name: &str) -> (r: Option<Decimal>)
    ensures
        r == field_decimal(*j, name@),
{
    match j.get(name) {
        Some(Json::Number { numeral, .. }) => Some(Decimal { text: numeral.clone() }),
        _ => None,
    }
}

/// Reads the member `name` of `j` as a string.
pub fn read_text(j: &Json, name: &str) -> (r: Option<String>)
    ensures
        r == field_text(*j, name@),
{
    match j.get(name) {
        Some(Json::Text(text)) => Some(text.clone()),
        _ => None,
    }
}

/// Reads the member `name` of `j` as an array.
pub fn read_items<'a>(j: &'a Json, name: &str) -> (r: Option<&'a Vec<Json>>)
    ensures
        match r {
            Some(items) => field_items(*j, name@) == Some(items@),
            None => field_items(*j, name@) is None,
        },
{
    match j.get(name) {
        Some(Json::Array(items)) => Some(items),
        _ => None,
    }
}

/// A record that is read from one JSON value.
pub trait Record: Sized {
    /// The record that `j` holds, or the name of the first field that `j`
    /// fails to give.
    spec fn of(j: Json) -> Result<Self, &'static str>;

    /// Reads the record out of `j`.
    fn from_json(j: &Json) -> (r: Result<Self, &'static str>)
        ensures
            r == Self::of(*j),
    ;
}

/// Turns a field that was not read into the error that names it.
fn need<T>(field: Option<T>, name: &'static str) -> (r: Result<T, &'static str>)
    ensures
        r == match field {
            Some(value) => Ok::<T, &'static str>(value),
            None => Err(name),
        },
{
    match field {
        Some(value) => Ok(value),
        None => Err(name),
    }
}

/// Where some element of a list holds no record: the place of the first one.
pub open spec fn first_unreadable<T: Record>(items: Seq<Json>) -> int {
    choose|i: int|
        0 <= i < items.len() && (#[trigger] T::of(items[i])) is Err && forall|k: int|
            0 <= k < i ==> (#[trigger] T::of(items[k])) is Ok
}

/// The records that a list of values holds: every element must hold one.
/// Where one does not, the first such element says what it lacks.
pub open spec fn list_of<T: Record>(items: Seq<Json>) -> Result<Seq<T>, &'static str> {
    if forall|i: int| 0 <= i < items.len() ==> (#[trigger] T::of(items[i])) is Ok {
        Ok(Seq::new(items.len(), |i: int| T::of(items[i])->Ok_0))
    } else {
        Err(T::of(items[first_unreadable::<T>(items)])->Err_0)
    }
}

/// Reads a list of records, keeping the order of the elements.
pub fn read_list<T: Record>(items: &Vec<Json>) -> (r: Result<Vec<T>, &'static str>)
    ensures
        match r {
            Ok(list) => list_of::<T>(items@) matches Ok(records) && records == list@,
            Err(name) => list_of::<T>(items@) matches Err(n) && n == name,
        },
{
    let mut list: Vec<T> = Vec::new();
    let mut i: usize = 0;
    while i < items.len()
        invariant
            i <= items.len(),
            list@.len() == i,
            forall|k: int|
                0 <= k < i ==> T::of(items@[k]) == Ok::<T, &'static str>(#[trigger] list@[k]),
        decreases items.len() - i,
    {
        match T::from_json(&items[i]) {
            Ok(record) => {
                list.push(record);
            },
            Err(name) => {
                proof {
                    let first = first_unreadable::<T>(items@);
                    assert(T::of(items@[i as int]) is Err);
                    assert forall|k: int| 0 <= k < i implies (#[trigger] T::of(
                        items@[k],
                    )) is Ok by {
                        assert(T::of(items@[k]) == Ok::<T, &'static str>(list@[k]));
                    }
                    assert(first == i);
                }
                return Err(name);
            },
        }
        i += 1;
    }
    assert forall|k: int| 0 <= k < items@.len() implies (#[trigger] T::of(items@[k])) is Ok by {
        assert(T::of(items@[k]) == Ok::<T, &'static str>(list@[k]));
    }
    assert(list@ =~= Seq::new(items@.len(), |k: int| T::of(items@[k])->Ok_0));
    Ok(list)
}

impl Record for Info {
    open spec fn of(j: Json) -> Result<Info, &'static str> {
        if field_u32(j, "satid"@) is None {
            Err("satid")
        } else if field_text(j, "satname"@) is None {
            Err("satname")
        } else if field_u32(j, "transactionscount"@) is None {
            Err("transactionscount")
        } else {
            Ok(
                Info {
                    satid: field_u32(j, "satid"@).unwrap(),
                    satname: field_text(j, "satname"@).unwrap(),
                    transactionscount: field_u32(j, "transactionscount"@).unwrap(),
                },
            )
        }
    }

    fn from_json(j: &Json) -> (r: Result<Info, &'static str>) {
        let satid = need(read_u32(j, "satid"), "satid")?;
        let satname = need(read_text(j, "satname"), "satname")?;
        let transactionscount = need(read_u32(j, "transactionscount"), "transactionscount")?;
        Ok(Info { satid, satname, transactionscount })
    }
}

impl Record for SatellitePosition {
    open spec fn of(j: Json) -> Result<SatellitePosition, &'static str> {
        if field_decimal(j, "satlatitude"@) is None {
            Err("satlatitude")
        } else if field_decimal(j, "satlongitude"@) is None {
            Err("satlongitude")
        } else if field_decimal(j, "sataltitude"@) is None {
            Err("sataltitude")
        } else if field_decimal(j, "azimuth"@) is None {
            Err("azimuth")
        } else if field_decimal(j, "elevation"@) is None {
            Err("elevation")
        } else if field_decimal(j, "ra"@) is None {
            Err("ra")
        } else if field_decimal(j, "dec"@) is None {
            Err("dec")
        } else if field_u32(j, "timestamp"@) is None {
            Err("timestamp")
        } else {
            Ok(
                SatellitePosition {
                    satlatitude: field_decimal(j, "satlatitude"@).unwrap(),
                    satlongitude: field_decimal(j, "satlongitude"@).unwrap(),
                    sataltitude: field_decimal(j, "sataltitude"@).unwrap(),
                    azimuth: field_decimal(j, "azimuth"@).unwrap(),
                    elevation: field_decimal(j, "elevation"@).unwrap(),
                    ra: field_decimal(j, "ra"@).unwrap(),
                    dec: field_decimal(j, "dec"@).unwrap(),
                    timestamp: field_u32(j, "timestamp"@).unwrap(),
                },
            )
        }
    }

    fn from_json(j: &Json) -> (r: Result<SatellitePosition, &'static str>) {
        let satlatitude = need(read_decimal(j, "satlatitude"), "satlatitude")?;
        let satlongitude = need(read_decimal(j, "satlongitude"), "satlongitude")?;
        let sataltitude = need(read_decimal(j, "sataltitude"), "sataltitude")?;
        let azimuth = need(read_decimal(j, "azimuth"), "azimuth")?;
        let elevation = need(read_decimal(j, "elevation"), "elevation")?;
        let ra = need(read_decimal(j, "ra"), "ra")?;
        let dec = need(read_decimal(j, "dec"), "dec")?;
        let timestamp = need(read_u32(j, "timestamp"), "timestamp")?;
        Ok(
            SatellitePosition {
                satlatitude,
                satlongitude,
                sataltitude,
                azimuth,
                elevation,
                ra,
                dec,
                timestamp,
            },
        )
    }
}

impl Record for SatelliteVisualPass {
    open spec fn of(j: Json) -> Result<SatelliteVisualPass, &'static str> {
        if field_decimal(j, "startAz"@) is None {
            Err("startAz")
        } else if field_text(j, "startAzCompass"@) is None {
            Err("startAzCompass")
        } else if field_decimal(j, "startEl"@) is None {
            Err("startEl")
        } else if field_u32(j, "startUTC"@) is None {
            Err("startUTC")
        } else if field_decimal(j, "maxAz"@) is None {
            Err("maxAz")
        } else if field_text(j, "maxAzCompass"@) is None {
            Err("maxAzCompass")
        } else if field_decimal(j, "maxEl"@) is None {
            Err("maxEl")
        } else if field_u32(j, "maxUTC"@) is None {
            Err("maxUTC")
        } else if field_decimal(j, "endAz"@) is None {
            Err("endAz")
        } else if field_text(j, "endAzCompass"@) is None {
            Err("endAzCompass")
        } else if field_decimal(j, "endEl"@) is None {
            Err("endEl")
        } else if field_u32(j, "endUTC"@) is None {
            Err("endUTC")
        } else if field_decimal(j, "mag"@) is None {
            Err("mag")
        } else if field_u32(j, "duration"@) is None {
            Err("duration")
        } else {
            Ok(
                SatelliteVisualPass {
                    start_az: field_decimal(j, "startAz"@).unwrap(),
                    start_az_compass: field_text(j, "startAzCompass"@).unwrap(),
                    start_el: field_decimal(j, "startEl"@).unwrap(),
                    start_utc: field_u32(j, "startUTC"@).unwrap(),
                    max_az: field_decimal(j, "maxAz"@).unwrap(),
                    max_az_compass: field_text(j, "maxAzCompass"@).unwrap(),
                    max_el: field_decimal(j, "maxEl"@).unwrap(),
                    max_utc: field_u32(j, "maxUTC"@).unwrap(),
                    end_az: field_decimal(j, "endAz"@).unwrap(),
                    end_az_compass: field_text(j, "endAzCompass"@).unwrap(),
                    end_el: field_decimal(j, "endEl"@).unwrap(),
                    end_utc: field_u32(j, "endUTC"@).unwrap(),
                    mag: field_decimal(j, "mag"@).unwrap(),
                    duration: field_u32(j, "duration"@).unwrap(),
                },
            )
        }
    }

    fn from_json(j: &Json) -> (r: Result<SatelliteVisualPass, &'static str>) {
        let start_az = need(read_decimal(j, "startAz"), "startAz")?;
        let start_az_compass = need(read_text(j, "startAzCompass"), "startAzCompass")?;
        let start_el = need(read_decimal(j, "startEl"), "startEl")?;
        let start_utc = need(read_u32(j, "startUTC"), "startUTC")?;
        let max_az = need(read_decimal(j, "maxAz"), "maxAz")?;
        let max_az_compass = need(read_text(j, "maxAzCompass"), "maxAzCompass")?;
        let max_el = need(read_decimal(j, "maxEl"), "maxEl")?;
        let max_utc = need(read_u32(j, "maxUTC"), "maxUTC")?;
        let end_az = need(read_decimal(j, "endAz"), "endAz")?;
        let end_az_compass = need(read_text(j, "endAzCompass"), "endAzCompass")?;
        let end_el = need(read_decimal(j, "endEl"), "endEl")?;
        let end_utc = need(read_u32(j, "endUTC"), "endUTC")?;
        let mag = need(read_decimal(j, "mag"), "mag")?;
        let duration = need(read_u32(j, "duration"), "duration")?;
        Ok(
            SatelliteVisualPass {
                start_az,
                start_az_compass,
                start_el,
                start_utc,
                max_az,
                max_az_compass,
                max_el,
                max_utc,
                end_az,
                end_az_compass,
                end_el,
                end_utc,
                mag,
                duration,
            },
        )
    }
}

impl Record for SatelliteRadioPass {
    open spec fn of(j: Json) -> Result<SatelliteRadioPass, &'static str> {
        if field_decimal(j, "startAz"@) is None {
            Err("startAz")
        } else if field_text(j, "startAzCompass"@) is None {
            Err("startAzCompass")
        } else if field_u32(j, "startUTC"@) is None {
            Err("startUTC")
        } else if field_decimal(j, "maxAz"@) is None {
            Err("maxAz")
        } else if field_text(j, "maxAzCompass"@) is None {
            Err("maxAzCompass")
        } else if field_decimal(j, "maxEl"@) is None {
            Err("maxEl")
        } else if field_u32(j, "maxUTC"@) is None {
            Err("maxUTC")
        } else if field_decimal(j, "endAz"@) is None {
            Err("endAz")
        } else if field_text(j, "endAzCompass"@) is None {
            Err("endAzCompass")
        } else if field_u32(j, "endUTC"@) is None {
            Err("endUTC")
        } else {
            Ok(
                SatelliteRadioPass {
                    start_az: field_decimal(j, "startAz"@).unwrap(),
                    start_az_compass: field_text(j, "startAzCompass"@).unwrap(),
                    start_utc: field_u32(j, "startUTC"@).unwrap(),
                    max_az: field_decimal(j, "maxAz"@).unwrap(),
                    max_az_compass: field_text(j, "maxAzCompass"@).unwrap(),
                    max_el: field_decimal(j, "maxEl"@).unwrap(),
                    max_utc: field_u32(j, "maxUTC"@).unwrap(),
                    end_az: field_decimal(j, "endAz"@).unwrap(),
                    end_az_compass: field_text(j, "endAzCompass"@).unwrap(),
                    end_utc: field_u32(j, "endUTC"@).unwrap(),
                },
            )
        }
    }

    fn from_json(j: &Json) -> (r: Result<SatelliteRadioPass, &'static str>) {
        let start_az = need(read_decimal(j, "startAz"), "startAz")?;
        let start_az_compass = need(read_text(j, "startAzCompass"), "startAzCompass")?;
        let start_utc = need(read_u32(j, "startUTC"), "startUTC")?;
        let max_az = need(read_decimal(j, "maxAz"), "maxAz")?;
        let max_az_compass = need(read_text(j, "maxAzCompass"), "maxAzCompass")?;
        let max_el = need(read_decimal(j, "maxEl"), "maxEl")?;
        let max_utc = need(read_u32(j, "maxUTC"), "maxUTC")?;
        let end_az = need(read_decimal(j, "endAz"), "endAz")?;
        let end_az_compass = need(read_text(j, "endAzCompass"), "endAzCompass")?;
        let end_utc = need(read_u32(j, "endUTC"), "endUTC")?;
        Ok(
            SatelliteRadioPass {
                start_az,
                start_az_compass,
                start_utc,
                max_az,
                max_az_compass,
                max_el,
                max_utc,
                end_az,
                end_az_compass,
                end_utc,
            },
        )
    }
}

impl Record for AboveInfo {
    open spec fn of(j: Json) -> Result<AboveInfo, &'static str> {
        if field_text(j, "category"@) is None {
            Err("category")
        } else if field_u32(j, "transactionscount"@) is None {
            Err("transactionscount")
        } else {
            Ok(
                AboveInfo {
                    category: field_text(j, "category"@).unwrap(),
                    transactionscount: field_u32(j, "transactionscount"@).unwrap(),
                },
            )
        }
    }

    fn from_json(j: &Json) -> (r: Result<AboveInfo, &'static str>) {
        let category = need(read_text(j, "category"), "category")?;
        let transactionscount = need(read_u32(j, "transactionscount"), "transactionscount")?;
        Ok(AboveInfo { category, transactionscount })
    }
}

impl Record for SatelliteInfo {
    open spec fn of(j: Json) -> Result<SatelliteInfo, &'static str> {
        if field_u32(j, "satid"@) is None {
            Err("satid")
        } else if field_text(j, "satname"@) is None {
            Err("satname")
        } else if field_text(j, "intDesignator"@) is None {
            Err("intDesignator")
        } else if field_text(j, "launchDate"@) is None {
            Err("launchDate")
        } else if field_decimal(j, "satlat"@) is None {
            Err("satlat")
        } else if field_decimal(j, "satlng"@) is None {
            Err("satlng")
        } else if field_decimal(j, "satalt"@) is None {
            Err("satalt")
        } else {
            Ok(
                SatelliteInfo {
                    satid: field_u32(j, "satid"@).unwrap(),
                    satname: field_text(j, "satname"@).unwrap(),
                    int_designator: field_text(j, "intDesignator"@).unwrap(),
                    launch_date: field_text(j, "launchDate"@).unwrap(),
                    satlat: field_decimal(j, "satlat"@).unwrap(),
                    satlng: field_decimal(j, "satlng"@).unwrap(),
                    satalt: field_decimal(j, "satalt"@).unwrap(),
                },
            )
        }
    }

    fn from_json(j: &Json) -> (r: Result<SatelliteInfo, &'static str>) {
        let satid = need(read_u32(j, "satid"), "satid")?;
        let satname = need(read_text(j, "satname"), "satname")?;
        let int_designator = need(read_text(j, "intDesignator"), "intDesignator")?;
        let launch_date = need(read_text(j, "launchDate"), "launchDate")?;
        let satlat = need(read_decimal(j, "satlat"), "satlat")?;
        let satlng = need(read_decimal(j, "satlng"), "satlng")?;
        let satalt = need(read_decimal(j, "satalt"), "satalt")?;
        Ok(SatelliteInfo { satid, satname, int_designator, launch_date, satlat, satlng, satalt })
    }
}

impl Record for TleResponse {
    open spec fn of(j: Json) -> Result<TleResponse, &'static str> {
        match j.member("info"@) {
            None => Err("info"),
            Some(envelope) => match Info::of(envelope) {
                Err(name) => Err(name),
                Ok(info) => match field_text(j, "tle"@) {
                    None => Err("tle"),
                    Some(tle) => Ok(TleResponse { info, tle }),
                },
            },
        }
    }

    fn from_json(j: &Json) -> (r: Result<TleResponse, &'static str>) {
        let info = Info::from_json(need(j.get("info"), "info")?)?;
        let tle = need(read_text(j, "tle"), "tle")?;
        Ok(TleResponse { info, tle })
    }
}

/// An envelope under `"info"` and a list of records under `list_name`.
pub open spec fn enveloped<H: Record, T: Record>(j: Json, list_name: &'static str) -> Result<
    (H, Seq<T>),
    &'static str,
> {
    match j.member("info"@) {
        None => Err("info"),
        Some(envelope) => match H::of(envelope) {
            Err(name) => Err(name),
            Ok(info) => match field_items(j, list_name@) {
                None => Err(list_name),
                Some(items) => match list_of::<T>(items) {
                    Err(name) => Err(name),
                    Ok(list) => Ok((info, list)),
                },
            },
        },
    }
}

/// Reads an envelope and a list of records.
pub fn read_enveloped<H: Record, T: Record>(j: &Json, list_name: &'static str) -> (r: Result<
    (H, Vec<T>),
    &'static str,
>)
    ensures
        match r {
            Ok((info, list)) => enveloped::<H, T>(*j, list_name) matches Ok(record) && record == (
                info,
                list@,
            ),
            Err(name) => enveloped::<H, T>(*j, list_name) matches Err(n) && n == name,
        },
{
    let info = H::from_json(need(j.get("info"), "info")?)?;
    let list = read_list::<T>(need(read_items(j, list_name), list_name)?)?;
    Ok((info, list))
}

impl PositionsResponse {
    /// The reply that `j` holds, the envelope and the list under
    /// `"positions"`, or the name of the first field that `j` fails to give.
    pub open spec fn of(j: Json) -> Result<(Info, Seq<SatellitePosition>), &'static str> {
        enveloped::<Info, SatellitePosition>(j, "positions")
    }

    /// Reads the reply out of `j`.
    pub fn from_json(j: &Json) -> (r: Result<PositionsResponse, &'static str>)
        ensures
            match r {
                Ok(reply) => Self::of(*j) matches Ok(record) && record == reply@,
                Err(name) => Self::of(*j) matches Err(n) && n == name,
            },
    {
        let (info, positions) = read_enveloped::<Info, SatellitePosition>(j, "positions")?;
        Ok(PositionsResponse { info, positions })
    }
}

impl VisualPassesResponse {
    /// The reply that `j` holds, the envelope and the list under
    /// `"passes"`, or the name of the first field that `j` fails to give.
    pub open spec fn of(j: Json) -> Result<(Info, Seq<SatelliteVisualPass>), &'static str> {
        enveloped::<Info, SatelliteVisualPass>(j, "passes")
    }

    /// Reads the reply out of `j`.
    pub fn from_json(j: &Json) -> (r: Result<VisualPassesResponse, &'static str>)
        ensures
            match r {
                Ok(reply) => Self::of(*j) matches Ok(record) && record == reply@,
                Err(name) => Self::of(*j) matches Err(n) && n == name,
            },
    {
        let (info, passes) = read_enveloped::<Info, SatelliteVisualPass>(j, "passes")?;
        Ok(VisualPassesResponse { info, passes })
    }
}

impl RadioPassesResponse {
    /// The reply that `j` holds, the envelope and the list under
    /// `"passes"`, or the name of the first field that `j` fails to give.
    pub open spec fn of(j: Json) -> Result<(Info, Seq<SatelliteRadioPass>), &'static str> {
        enveloped::<Info, SatelliteRadioPass>(j, "passes")
    }

    /// Reads the reply out of `j`.
    pub fn from_json(j: &Json) -> (r: Result<RadioPassesResponse, &'static str>)
        ensures
            match r {
                Ok(reply) => Self::of(*j) matches Ok(record) && record == reply@,
                Err(name) => Self::of(*j) matches Err(n) && n == name,
            },
    {
        let (info, passes) = read_enveloped::<Info, SatelliteRadioPass>(j, "passes")?;
        Ok(RadioPassesResponse { info, passes })
    }
}

impl AboveResponse {
    /// The reply that `j` holds, the envelope and the list under
    /// `"above"`, or the name of the first field that `j` fails to give.
    pub open spec fn of(j: Json) -> Result<(AboveInfo, Seq<SatelliteInfo>), &'static str> {
        enveloped::<AboveInfo, SatelliteInfo>(j, "above")
    }

    /// Reads the reply out of `j`.
    pub fn from_json(j: &Json) -> (r: Result<AboveResponse, &'static str>)
        ensures
            match r {
                Ok(reply) => Self::of(*j) matches Ok(record) && record == reply@,
                Err(name) => Self::of(*j) matches Err(n) && n == name,
            },
    {
        let (info, above) = read_enveloped::<AboveInfo, SatelliteInfo>(j, "above")?;
        Ok(AboveResponse { info, above })
    }
}

} // verus!
