//! What comes back from the service, and what a caller is told about it.

use vstd::prelude::*;
use crate::decode::Record;
use crate::json::{document, Json};
use crate::record::{
    AboveInfo, AboveResponse, Info, PositionsResponse, RadioPassesResponse, SatelliteInfo,
    SatellitePosition, SatelliteRadioPass, SatelliteVisualPass, TleResponse,
    VisualPassesResponse,
};

verus! {

/// The status that the service answers a served request with.
pub const STATUS_OK: u16 = 200;

/// A reply as it was received: the status code and the raw body.
#[derive(Debug)]
pub struct Reply {
    pub status: u16,
    pub body: Vec<u8>,
}

/// The transport's account of why no reply was received.
#[derive(Debug)]
pub struct TransportFault {
    pub message: String,
}

/// Why a body could not be read.
#[derive(Debug)]
pub enum ParseFault {
    /// The body is not a JSON document; the parser says why.
    Malformed(String),
    /// The document lacks the named field of the record, or holds a value of
    /// another kind in its place.
    Mismatch(&'static str),
}

/// Why a request gave no record.
#[derive(Debug)]
pub enum Error {
    /// No reply was received.
    Request(TransportFault),
    /// A reply was received with a status other than [`STATUS_OK`]; it is
    /// handed on unread.
    Response(Reply),
    /// A reply with status [`STATUS_OK`] was received, and its body could
    /// not be read.
    Parse(ParseFault),
}

impl Error {
    /// A sentence for a person to read; the same for every error.
    pub fn message(&self) -> (r: String)
        ensures
            r@ == "An error occurred when making the request to N2yo."@,
    {
        String::from_str("An error occurred when making the request to N2yo.")
    }
}

/// The document of an exchange, or the error that the exchange ends in
/// before any record is read.
pub open spec fn accepted(outcome: Result<Reply, TransportFault>) -> Result<Json, Error> {
    match outcome {
        Err(fault) => Err(Error::Request(fault)),
        Ok(reply) => if reply.status != STATUS_OK {
            Err(Error::Response(reply))
        } else {
            match document(reply.body@) {
                Ok(j) => Ok(j),
                Err(e) => Err(Error::Parse(ParseFault::Malformed(e))),
            }
        },
    }
}

/// Checks the outcome of an exchange and parses the body of a served one.
pub fn accept(outcome: Result<Reply, TransportFault>) -> (r: Result<Json, Error>)
    ensures
        r == accepted(outcome),
{
    match outcome {
        Err(fault) => Err(Error::Request(fault)),
        Ok(reply) => {
            if reply.status != STATUS_OK {
                return Err(Error::Response(reply));
            }
            match Json::parse(reply.body.as_slice()) {
                Ok(j) => Ok(j),
                Err(e) => Err(Error::Parse(ParseFault::Malformed(e))),
            }
        },
    }
}

impl TleResponse {
    /// What reading an exchange as a two-line element set gives.
    pub open spec fn outcome_of(outcome: Result<Reply, TransportFault>) -> Result<
        TleResponse,
        Error,
    > {
        match accepted(outcome) {
            Err(e) => Err(e),
            Ok(j) => match <TleResponse as Record>::of(j) {
                Ok(record) => Ok(record),
                Err(name) => Err(Error::Parse(ParseFault::Mismatch(name))),
            },
        }
    }

    /// Reads the outcome of a request for a two-line element set.
    pub fn read(outcome: Result<Reply, TransportFault>) -> (r: Result<TleResponse, Error>)
        ensures
            r == Self::outcome_of(outcome),
    {
        let j = accept(outcome)?;
        match <TleResponse as Record>::from_json(&j) {
            Ok(reply) => Ok(reply),
            Err(name) => Err(Error::Parse(ParseFault::Mismatch(name))),
        }
    }
}

impl PositionsResponse {
    /// What reading an exchange as a list of positions gives, the list seen as
    /// a sequence.
    pub open spec fn outcome_of(outcome: Result<Reply, TransportFault>) -> Result<
        (Info, Seq<SatellitePosition>),
        Error,
    > {
        match accepted(outcome) {
            Err(e) => Err(e),
            Ok(j) => match Self::of(j) {
                Ok(record) => Ok(record),
                Err(name) => Err(Error::Parse(ParseFault::Mismatch(name))),
            },
        }
    }

    /// Reads the outcome of a request for positions.
    pub fn read(outcome: Result<Reply, TransportFault>) -> (r: Result<PositionsResponse, Error>)
        ensures
            match r {
                Ok(reply) => Self::outcome_of(outcome) matches Ok(record) && record == reply@,
                Err(e) => Self::outcome_of(outcome) matches Err(fault) && fault == e,
            },
    {
        let j = accept(outcome)?;
        match Self::from_json(&j) {
            Ok(reply) => Ok(reply),
            Err(name) => Err(Error::Parse(ParseFault::Mismatch(name))),
        }
    }
}

impl VisualPassesResponse {
    /// What reading an exchange as a list of visible passes gives, the list seen as
    /// a sequence.
    pub open spec fn outcome_of(outcome: Result<Reply, TransportFault>) -> Result<
        (Info, Seq<SatelliteVisualPass>),
        Error,
    > {
        match accepted(outcome) {
            Err(e) => Err(e),
            Ok(j) => match Self::of(j) {
                Ok(record) => Ok(record),
                Err(name) => Err(Error::Parse(ParseFault::Mismatch(name))),
            },
        }
    }

    /// Reads the outcome of a request for visible passes.
    pub fn read(outcome: Result<Reply, TransportFault>) -> (r: Result<VisualPassesResponse, Error>)
        ensures
            match r {
                Ok(reply) => Self::outcome_of(outcome) matches Ok(record) && record == reply@,
                Err(e) => Self::outcome_of(outcome) matches Err(fault) && fault == e,
            },
    {
        let j = accept(outcome)?;
        match Self::from_json(&j) {
            Ok(reply) => Ok(reply),
            Err(name) => Err(Error::Parse(ParseFault::Mismatch(name))),
        }
    }
}

impl RadioPassesResponse {
    /// What reading an exchange as a list of radio passes gives, the list seen as
    /// a sequence.
    pub open spec fn outcome_of(outcome: Result<Reply, TransportFault>) -> Result<
        (Info, Seq<SatelliteRadioPass>),
        Error,
    > {
        match accepted(outcome) {
            Err(e) => Err(e),
            Ok(j) => match Self::of(j) {
                Ok(record) => Ok(record),
                Err(name) => Err(Error::Parse(ParseFault::Mismatch(name))),
            },
        }
    }

    /// Reads the outcome of a request for radio passes.
    pub fn read(outcome: Result<Reply, TransportFault>) -> (r: Result<RadioPassesResponse, Error>)
        ensures
            match r {
                Ok(reply) => Self::outcome_of(outcome) matches Ok(record) && record == reply@,
                Err(e) => Self::outcome_of(outcome) matches Err(fault) && fault == e,
            },
    {
        let j = accept(outcome)?;
        match Self::from_json(&j) {
            Ok(reply) => Ok(reply),
            Err(name) => Err(Error::Parse(ParseFault::Mismatch(name))),
        }
    }
}

impl AboveResponse {
    /// What reading an exchange as a list of satellites overhead gives, the list seen as
    /// a sequence.
    pub open spec fn outcome_of(outcome: Result<Reply, TransportFault>) -> Result<
        (AboveInfo, Seq<SatelliteInfo>),
        Error,
    > {
        match accepted(outcome) {
            Err(e) => Err(e),
            Ok(j) => match Self::of(j) {
                Ok(record) => Ok(record),
                Err(name) => Err(Error::Parse(ParseFault::Mismatch(name))),
            },
        }
    }

    /// Reads the outcome of a request for satellites overhead.
    pub fn read(outcome: Result<Reply, TransportFault>) -> (r: Result<AboveResponse, Error>)
        ensures
            match r {
                Ok(reply) => Self::outcome_of(outcome) matches Ok(record) && record == reply@,
                Err(e) => Self::outcome_of(outcome) matches Err(fault) && fault == e,
            },
    {
        let j = accept(outcome)?;
        match Self::from_json(&j) {
            Ok(reply) => Ok(reply),
            Err(name) => Err(Error::Parse(ParseFault::Mismatch(name))),
        }
    }
}

} // verus!
