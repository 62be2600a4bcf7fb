//! What holds of every exchange and of every document.

use vstd::prelude::*;
use crate::decode::{field_items, first_unreadable, list_of, Record};
use crate::json::{document, Json};
use crate::record::{
    AboveInfo, AboveResponse, Info, PositionsResponse, RadioPassesResponse, SatelliteInfo,
    SatellitePosition, SatelliteRadioPass, SatelliteVisualPass, TleResponse,
    VisualPassesResponse,
};
use crate::reply::{accepted, Error, ParseFault, Reply, TransportFault, STATUS_OK};

verus! {

/// The outcome is a request error that carries `fault`.
pub open spec fn is_request_error<V>(outcome: Result<V, Error>, fault: TransportFault) -> bool {
    outcome matches Err(Error::Request(f)) && f == fault
}

/// The outcome is a response error that carries `reply`.
pub open spec fn is_response_error<V>(outcome: Result<V, Error>, reply: Reply) -> bool {
    outcome matches Err(Error::Response(r)) && r == reply
}

/// The outcome is a parse error.
pub open spec fn is_parse_error<V>(outcome: Result<V, Error>) -> bool {
    outcome matches Err(Error::Parse(_))
}

/// The outcome is the parse error of a body that is no JSON document, and
/// carries `message`.
pub open spec fn is_malformed<V>(outcome: Result<V, Error>, message: String) -> bool {
    outcome matches Err(Error::Parse(ParseFault::Malformed(m))) && m == message
}

/// The outcome is the parse error of a document that does not hold the
/// record.
pub open spec fn is_mismatch<V>(outcome: Result<V, Error>) -> bool {
    outcome matches Err(Error::Parse(ParseFault::Mismatch(_)))
}

/// The outcome is the parse error of a document that does not hold the
/// record for want of the field `name`.
pub open spec fn is_mismatch_at<V>(outcome: Result<V, Error>, name: &'static str) -> bool {
    outcome matches Err(Error::Parse(ParseFault::Mismatch(n))) && n == name
}

/// An exchange that the transport gave up ends in a request error that
/// carries the transport's account, whichever record was asked for.
pub proof fn failed_exchange_is_request_error(fault: TransportFault)
    ensures
        is_request_error(accepted(Err(fault)), fault),
        is_request_error(TleResponse::outcome_of(Err(fault)), fault),
        is_request_error(PositionsResponse::outcome_of(Err(fault)), fault),
        is_request_error(VisualPassesResponse::outcome_of(Err(fault)), fault),
        is_request_error(RadioPassesResponse::outcome_of(Err(fault)), fault),
        is_request_error(AboveResponse::outcome_of(Err(fault)), fault),
{
}

/// A reply with a status other than 200 ends in a response error that
/// carries the reply, whatever its body holds and whichever record was asked
/// for: never in a parse error.
pub proof fn unserved_reply_is_response_error(reply: Reply)
    requires
        reply.status != STATUS_OK,
    ensures
        is_response_error(accepted(Ok(reply)), reply),
        is_response_error(TleResponse::outcome_of(Ok(reply)), reply),
        is_response_error(PositionsResponse::outcome_of(Ok(reply)), reply),
        is_response_error(VisualPassesResponse::outcome_of(Ok(reply)), reply),
        is_response_error(RadioPassesResponse::outcome_of(Ok(reply)), reply),
        is_response_error(AboveResponse::outcome_of(Ok(reply)), reply),
{
}

/// A reply with status 200 ends in the record that its document holds, or in
/// a parse error: never in a request or a response error.
pub proof fn served_reply_is_record_or_parse_error(reply: Reply)
    requires
        reply.status == STATUS_OK,
    ensures
        TleResponse::outcome_of(Ok(reply)) is Ok
            || is_parse_error(TleResponse::outcome_of(Ok(reply))),
        PositionsResponse::outcome_of(Ok(reply)) is Ok
            || is_parse_error(PositionsResponse::outcome_of(Ok(reply))),
        VisualPassesResponse::outcome_of(Ok(reply)) is Ok
            || is_parse_error(VisualPassesResponse::outcome_of(Ok(reply))),
        RadioPassesResponse::outcome_of(Ok(reply)) is Ok
            || is_parse_error(RadioPassesResponse::outcome_of(Ok(reply))),
        AboveResponse::outcome_of(Ok(reply)) is Ok
            || is_parse_error(AboveResponse::outcome_of(Ok(reply))),
{
}

/// A reply with status 200 whose body is no JSON document ends in a parse
/// error that carries the parser's account, whichever record was asked for.
pub proof fn malformed_body_is_parse_error(reply: Reply, message: String)
    requires
        reply.status == STATUS_OK,
        document(reply.body@) == Err::<Json, String>(message),
    ensures
        is_malformed(TleResponse::outcome_of(Ok(reply)), message),
        is_malformed(PositionsResponse::outcome_of(Ok(reply)), message),
        is_malformed(VisualPassesResponse::outcome_of(Ok(reply)), message),
        is_malformed(RadioPassesResponse::outcome_of(Ok(reply)), message),
        is_malformed(AboveResponse::outcome_of(Ok(reply)), message),
{
}

/// A reply with status 200 whose document has no member `"info"` ends in a
/// parse error that names the envelope, whichever record was asked for.
pub proof fn missing_envelope_is_parse_error(reply: Reply, j: Json)
    requires
        reply.status == STATUS_OK,
        document(reply.body@) == Ok::<Json, String>(j),
        j.member("info"@) is None,
    ensures
        is_mismatch_at(TleResponse::outcome_of(Ok(reply)), "info"),
        is_mismatch_at(PositionsResponse::outcome_of(Ok(reply)), "info"),
        is_mismatch_at(VisualPassesResponse::outcome_of(Ok(reply)), "info"),
        is_mismatch_at(RadioPassesResponse::outcome_of(Ok(reply)), "info"),
        is_mismatch_at(AboveResponse::outcome_of(Ok(reply)), "info"),
{
}

/// A reply with status 200 whose document lacks the member that holds what
/// was asked for ends in a parse error.
pub proof fn missing_payload_is_parse_error(reply: Reply, j: Json)
    requires
        reply.status == STATUS_OK,
        document(reply.body@) == Ok::<Json, String>(j),
    ensures
        j.member("tle"@) is None ==> is_mismatch(TleResponse::outcome_of(Ok(reply))),
        j.member("positions"@) is None ==> is_mismatch(PositionsResponse::outcome_of(Ok(reply))),
        j.member("passes"@) is None ==> is_mismatch(VisualPassesResponse::outcome_of(Ok(reply))),
        j.member("passes"@) is None ==> is_mismatch(RadioPassesResponse::outcome_of(Ok(reply))),
        j.member("above"@) is None ==> is_mismatch(AboveResponse::outcome_of(Ok(reply))),
{
}

/// A reply with status 200 whose envelope holds no record ends in a parse
/// error: so does one whose envelope lacks any of its fields.
pub proof fn unreadable_envelope_is_parse_error(reply: Reply, j: Json, envelope: Json)
    requires
        reply.status == STATUS_OK,
        document(reply.body@) == Ok::<Json, String>(j),
        j.member("info"@) == Some(envelope),
    ensures
        Info::of(envelope) is Err ==> is_mismatch(TleResponse::outcome_of(Ok(reply))),
        Info::of(envelope) is Err ==> is_mismatch(PositionsResponse::outcome_of(Ok(reply))),
        Info::of(envelope) is Err ==> is_mismatch(VisualPassesResponse::outcome_of(Ok(reply))),
        Info::of(envelope) is Err ==> is_mismatch(RadioPassesResponse::outcome_of(Ok(reply))),
        AboveInfo::of(envelope) is Err ==> is_mismatch(AboveResponse::outcome_of(Ok(reply))),
{
}

/// A reply with status 200 whose list has an element that holds no record
/// ends in a parse error: no part of the list is handed on.
pub proof fn unreadable_element_is_parse_error(reply: Reply, j: Json, i: int)
    requires
        reply.status == STATUS_OK,
        document(reply.body@) == Ok::<Json, String>(j),
    ensures
        ({
            &&& field_items(j, "positions"@) matches Some(items)
            &&& 0 <= i < items.len()
            &&& SatellitePosition::of(items[i]) is Err
        }) ==> is_mismatch(PositionsResponse::outcome_of(Ok(reply))),
        ({
            &&& field_items(j, "passes"@) matches Some(items)
            &&& 0 <= i < items.len()
            &&& SatelliteVisualPass::of(items[i]) is Err
        }) ==> is_mismatch(VisualPassesResponse::outcome_of(Ok(reply))),
        ({
            &&& field_items(j, "passes"@) matches Some(items)
            &&& 0 <= i < items.len()
            &&& SatelliteRadioPass::of(items[i]) is Err
        }) ==> is_mismatch(RadioPassesResponse::outcome_of(Ok(reply))),
        ({
            &&& field_items(j, "above"@) matches Some(items)
            &&& 0 <= i < items.len()
            &&& SatelliteInfo::of(items[i]) is Err
        }) ==> is_mismatch(AboveResponse::outcome_of(Ok(reply))),
{
}

/// A reply that is read as a list of records has status 200 and holds as
/// many records as its list has elements, each read from the element at its
/// place.
pub proof fn read_list_keeps_length_and_order(reply: Reply)
    ensures
        PositionsResponse::outcome_of(Ok(reply)) matches Ok((_, list)) ==> {
            &&& reply.status == STATUS_OK
            &&& document(reply.body@) matches Ok(j)
            &&& field_items(j, "positions"@) matches Some(items)
            &&& list.len() == items.len()
            &&& forall|i: int|
                0 <= i < items.len() ==> SatellitePosition::of(items[i]) == Ok::<_, &'static str>(#[trigger] list[i])
        },
        VisualPassesResponse::outcome_of(Ok(reply)) matches Ok((_, list)) ==> {
            &&& reply.status == STATUS_OK
            &&& document(reply.body@) matches Ok(j)
            &&& field_items(j, "passes"@) matches Some(items)
            &&& list.len() == items.len()
            &&& forall|i: int|
                0 <= i < items.len() ==> SatelliteVisualPass::of(items[i]) == Ok::<_, &'static str>(
                    #[trigger] list[i],
                )
        },
        RadioPassesResponse::outcome_of(Ok(reply)) matches Ok((_, list)) ==> {
            &&& reply.status == STATUS_OK
            &&& document(reply.body@) matches Ok(j)
            &&& field_items(j, "passes"@) matches Some(items)
            &&& list.len() == items.len()
            &&& forall|i: int|
                0 <= i < items.len() ==> SatelliteRadioPass::of(items[i]) == Ok::<_, &'static str>(
                    #[trigger] list[i],
                )
        },
        AboveResponse::outcome_of(Ok(reply)) matches Ok((_, list)) ==> {
            &&& reply.status == STATUS_OK
            &&& document(reply.body@) matches Ok(j)
            &&& field_items(j, "above"@) matches Some(items)
            &&& list.len() == items.len()
            &&& forall|i: int|
                0 <= i < items.len() ==> SatelliteInfo::of(items[i]) == Ok::<_, &'static str>(#[trigger] list[i])
        },
{
}

/// Only an object holds a record: any other value has no members.
pub proof fn only_objects_hold_records(j: Json)
    requires
        !(j is Object),
    ensures
        Info::of(j) is Err,
        SatellitePosition::of(j) is Err,
        SatelliteVisualPass::of(j) is Err,
        SatelliteRadioPass::of(j) is Err,
        AboveInfo::of(j) is Err,
        SatelliteInfo::of(j) is Err,
        <TleResponse as Record>::of(j) is Err,
        PositionsResponse::of(j) is Err,
        VisualPassesResponse::of(j) is Err,
        RadioPassesResponse::of(j) is Err,
        AboveResponse::of(j) is Err,
{
}

/// No field of `Info` may be left out.
pub proof fn info_needs_every_field(j: Json)
    requires
        j.member("satid"@) is None
            || j.member("satname"@) is None
            || j.member("transactionscount"@) is None,
    ensures
        Info::of(j) is Err,
{
}

/// No field of `SatellitePosition` may be left out.
pub proof fn position_needs_every_field(j: Json)
    requires
        j.member("satlatitude"@) is None
            || j.member("satlongitude"@) is None
            || j.member("sataltitude"@) is None
            || j.member("azimuth"@) is None
            || j.member("elevation"@) is None
            || j.member("ra"@) is None
            || j.member("dec"@) is None
            || j.member("timestamp"@) is None,
    ensures
        SatellitePosition::of(j) is Err,
{
}

/// No field of `SatelliteVisualPass` may be left out.
pub proof fn visual_pass_needs_every_field(j: Json)
    requires
        j.member("startAz"@) is None
            || j.member("startAzCompass"@) is None
            || j.member("startEl"@) is None
            || j.member("startUTC"@) is None
            || j.member("maxAz"@) is None
            || j.member("maxAzCompass"@) is None
            || j.member("maxEl"@) is None
            || j.member("maxUTC"@) is None
            || j.member("endAz"@) is None
            || j.member("endAzCompass"@) is None
            || j.member("endEl"@) is None
            || j.member("endUTC"@) is None
            || j.member("mag"@) is None
            || j.member("duration"@) is None,
    ensures
        SatelliteVisualPass::of(j) is Err,
{
}

/// No field of `SatelliteRadioPass` may be left out.
pub proof fn radio_pass_needs_every_field(j: Json)
    requires
        j.member("startAz"@) is None
            || j.member("startAzCompass"@) is None
            || j.member("startUTC"@) is None
            || j.member("maxAz"@) is None
            || j.member("maxAzCompass"@) is None
            || j.member("maxEl"@) is None
            || j.member("maxUTC"@) is None
            || j.member("endAz"@) is None
            || j.member("endAzCompass"@) is None
            || j.member("endUTC"@) is None,
    ensures
        SatelliteRadioPass::of(j) is Err,
{
}

/// No field of `AboveInfo` may be left out.
pub proof fn above_info_needs_every_field(j: Json)
    requires
        j.member("category"@) is None
            || j.member("transactionscount"@) is None,
    ensures
        AboveInfo::of(j) is Err,
{
}

/// No field of `SatelliteInfo` may be left out.
pub proof fn satellite_info_needs_every_field(j: Json)
    requires
        j.member("satid"@) is None
            || j.member("satname"@) is None
            || j.member("intDesignator"@) is None
            || j.member("launchDate"@) is None
            || j.member("satlat"@) is None
            || j.member("satlng"@) is None
            || j.member("satalt"@) is None,
    ensures
        SatelliteInfo::of(j) is Err,
{
}

/// A list holds records only where each of its elements does, and then it
/// holds as many, in the order of the elements.
pub proof fn list_keeps_length_and_order<T: Record>(items: Seq<Json>)
    ensures
        list_of::<T>(items) is Ok <==> forall|i: int|
            0 <= i < items.len() ==> (#[trigger] T::of(items[i])) is Ok,
        list_of::<T>(items) matches Ok(list) ==> list.len() == items.len() && forall|i: int|
            0 <= i < items.len() ==> T::of(items[i]) == Ok::<T, &'static str>(#[trigger] list[i]),
{
}

/// Where an element of a list holds no record and every element before it
/// holds one, the list fails with what that element lacks.
pub proof fn list_fails_at_first_unreadable<T: Record>(items: Seq<Json>, i: int)
    requires
        0 <= i < items.len(),
        T::of(items[i]) is Err,
        forall|k: int| 0 <= k < i ==> (#[trigger] T::of(items[k])) is Ok,
    ensures
        list_of::<T>(items) matches Err(name) && T::of(items[i]) == Err::<T, &'static str>(name),
{
    let first = first_unreadable::<T>(items);
    assert(first == i);
}

} // verus!
