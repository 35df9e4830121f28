//! Turning a pushed payload into a reading, and applying it to the store.
//!
//! A payload carries eight text members. They are checked in a fixed order
//! and the first one that is absent or does not parse rejects the payload;
//! a rejected payload leaves the store untouched.
use vstd::prelude::*;
use vstd::utf8::encode_utf8;
use crate::decimal::{decimal_i32, parse_i32};
use crate::reading::{Reading, ReadingView};
use crate::store::{ReadingStore, replaced};

verus! {

#[verifier::external_type_specification]
#[verifier::external_body]
pub struct ExJsonValue(serde_json::Value);

/// The eight members of a payload, in the order in which they are checked.
#[derive(Clone, Copy, Debug, PartialEq, Eq, Structural)]
pub enum Field {
    DeviceId,
    DeviceLocation,
    Temperature,
    Humidity,
    HeatIndex,
    FlowRate,
    Distance,
    WaterLevel,
}

pub open spec fn field_key(f: Field) -> Seq<char> {
    match f {
        Field::DeviceId => "fds_dev_id"@,
        Field::DeviceLocation => "fds_dev_loc"@,
        Field::Temperature => "t"@,
        Field::Humidity => "h"@,
        Field::HeatIndex => "hic"@,
        Field::FlowRate => "l_hour"@,
        Field::Distance => "d_cm"@,
        Field::WaterLevel => "w_level"@,
    }
}

impl Field {
    /// The member name under which the field arrives.
    pub fn key(&self) -> (r: &'static str)
        ensures
            r@ == field_key(*self),
    {
        proof {
            reveal_strlit("fds_dev_id");
            reveal_strlit("fds_dev_loc");
            reveal_strlit("t");
            reveal_strlit("h");
            reveal_strlit("hic");
            reveal_strlit("l_hour");
            reveal_strlit("d_cm");
            reveal_strlit("w_level");
        }
        match self {
            Field::DeviceId => "fds_dev_id",
            Field::DeviceLocation => "fds_dev_loc",
            Field::Temperature => "t",
            Field::Humidity => "h",
            Field::HeatIndex => "hic",
            Field::FlowRate => "l_hour",
            Field::Distance => "d_cm",
            Field::WaterLevel => "w_level",
        }
    }
}

/// Why a payload was rejected.
#[derive(Clone, Copy, Debug, PartialEq, Eq, Structural)]
pub enum IngestError {
    /// The member is absent or is not a JSON string.
    MissingField(Field),
    /// The member's text is not a number of the field's kind.
    Malformed(Field),
}

/// The text of each member of a payload, `None` where it is absent or not a
/// string.
pub struct PayloadTexts {
    pub device_id: Option<String>,
    pub device_location: Option<String>,
    pub temperature: Option<String>,
    pub humidity: Option<String>,
    pub heat_index: Option<String>,
    pub flow_rate: Option<String>,
    pub distance: Option<String>,
    pub water_level: Option<String>,
}

/// The binary64 bits of each decimal member's text as a floating-point
/// parser read it, `None` where the text is absent or is not a decimal
/// number.
pub struct DecimalValues {
    pub temperature: Option<u64>,
    pub humidity: Option<u64>,
    pub heat_index: Option<u64>,
    pub flow_rate: Option<u64>,
    pub distance: Option<u64>,
}

/// The text of member `key` of a JSON payload: `Some` where the payload is
/// an object whose member `key` is a JSON string, else `None`.
pub uninterp spec fn json_member_text(payload: serde_json::Value, key: Seq<char>) -> Option<
    Seq<char>,
>;

pub open spec fn text_view(text: Option<String>) -> Option<Seq<char>> {
    match text {
        Some(s) => Some(s@),
        None => None,
    }
}

/// Relies on serde_json's `Value::get` with a `str` key and `Value::as_str`:
/// the text of member `key` where the payload is an object whose member
/// `key` is a JSON string, else `None`; a function of the payload and key.
#[verifier::external_body]
fn member_text(payload: &serde_json::Value, key: &str) -> (r: Option<String>)
    ensures
        text_view(r) == json_member_text(*payload, key@),
{
    payload.get(key).and_then(serde_json::Value::as_str).map(str::to_owned)
}

impl PayloadTexts {
    /// Collects the eight members of a JSON payload by their keys.
    pub fn from_json(payload: &serde_json::Value) -> (r: PayloadTexts)
        ensures
            text_view(r.device_id) == json_member_text(*payload, field_key(Field::DeviceId)),
            text_view(r.device_location) == json_member_text(
                *payload,
                field_key(Field::DeviceLocation),
            ),
            text_view(r.temperature) == json_member_text(*payload, field_key(Field::Temperature)),
            text_view(r.humidity) == json_member_text(*payload, field_key(Field::Humidity)),
            text_view(r.heat_index) == json_member_text(*payload, field_key(Field::HeatIndex)),
            text_view(r.flow_rate) == json_member_text(*payload, field_key(Field::FlowRate)),
            text_view(r.distance) == json_member_text(*payload, field_key(Field::Distance)),
            text_view(r.water_level) == json_member_text(*payload, field_key(Field::WaterLevel)),
    {
        PayloadTexts {
            device_id: member_text(payload, Field::DeviceId.key()),
            device_location: member_text(payload, Field::DeviceLocation.key()),
            temperature: member_text(payload, Field::Temperature.key()),
            humidity: member_text(payload, Field::Humidity.key()),
            heat_index: member_text(payload, Field::HeatIndex.key()),
            flow_rate: member_text(payload, Field::FlowRate.key()),
            distance: member_text(payload, Field::Distance.key()),
            water_level: member_text(payload, Field::WaterLevel.key()),
        }
    }
}

pub open spec fn text_error(text: Option<String>, f: Field) -> Option<IngestError> {
    if text is None {
        Some(IngestError::MissingField(f))
    } else {
        None
    }
}

pub open spec fn decimal_error(text: Option<String>, value: Option<u64>, f: Field) -> Option<
    IngestError,
> {
    if text is None {
        Some(IngestError::MissingField(f))
    } else if value is None {
        Some(IngestError::Malformed(f))
    } else {
        None
    }
}

pub open spec fn integer_error(text: Option<String>, f: Field) -> Option<IngestError> {
    if text is None {
        Some(IngestError::MissingField(f))
    } else if decimal_i32(encode_utf8(text->0@)) is None {
        Some(IngestError::Malformed(f))
    } else {
        None
    }
}

pub open spec fn or_else(a: Option<IngestError>, b: Option<IngestError>) -> Option<IngestError> {
    if a is Some {
        a
    } else {
        b
    }
}

/// The error of the first member, in field order, that is absent or does
/// not parse; `None` when all eight are present and parse.
pub open spec fn first_error(t: PayloadTexts, d: DecimalValues) -> Option<IngestError> {
    or_else(
        text_error(t.device_id, Field::DeviceId),
        or_else(
            text_error(t.device_location, Field::DeviceLocation),
            or_else(
                decimal_error(t.temperature, d.temperature, Field::Temperature),
                or_else(
                    decimal_error(t.humidity, d.humidity, Field::Humidity),
                    or_else(
                        decimal_error(t.heat_index, d.heat_index, Field::HeatIndex),
                        or_else(
                            decimal_error(t.flow_rate, d.flow_rate, Field::FlowRate),
                            or_else(
                                decimal_error(t.distance, d.distance, Field::Distance),
                                integer_error(t.water_level, Field::WaterLevel),
                            ),
                        ),
                    ),
                ),
            ),
        ),
    )
}

/// The reading that a payload with no error describes.
pub open spec fn reading_of(t: PayloadTexts, d: DecimalValues) -> ReadingView {
    ReadingView {
        device_id: t.device_id->0@,
        device_location: t.device_location->0@,
        temperature: d.temperature->0,
        humidity: d.humidity->0,
        heat_index: d.heat_index->0,
        flow_rate: d.flow_rate->0,
        distance: d.distance->0,
        water_level: decimal_i32(encode_utf8(t.water_level->0@))->0,
    }
}

fn take_text(text: &Option<String>, f: Field) -> (r: Result<String, IngestError>)
    ensures
        match r {
            Ok(s) => text_error(*text, f) is None && s@ == text->0@,
            Err(e) => text_error(*text, f) == Some(e),
        },
{
    match text {
        Some(s) => Ok(s.clone()),
        None => Err(IngestError::MissingField(f)),
    }
}

fn take_decimal(text: &Option<String>, value: Option<u64>, f: Field) -> (r: Result<
    u64,
    IngestError,
>)
    ensures
        match r {
            Ok(v) => decimal_error(*text, value, f) is None && v == value->0,
            Err(e) => decimal_error(*text, value, f) == Some(e),
        },
{
    match (text, value) {
        (None, _) => Err(IngestError::MissingField(f)),
        (Some(_), None) => Err(IngestError::Malformed(f)),
        (Some(_), Some(v)) => Ok(v),
    }
}

/// Builds the reading that a payload describes, or the error of its first
/// absent or unparsable member.
pub fn parse_reading(texts: &PayloadTexts, decimals: &DecimalValues) -> (r: Result<
    Reading,
    IngestError,
>)
    ensures
        match r {
            Ok(reading) => first_error(*texts, *decimals) is None && reading@ == reading_of(
                *texts,
                *decimals,
            ),
            Err(e) => first_error(*texts, *decimals) == Some(e),
        },
{
    let device_id = match take_text(&texts.device_id, Field::DeviceId) {
        Ok(s) => s,
        Err(e) => return Err(e),
    };
    let device_location = match take_text(&texts.device_location, Field::DeviceLocation) {
        Ok(s) => s,
        Err(e) => return Err(e),
    };
    let temperature = match take_decimal(&texts.temperature, decimals.temperature, Field::Temperature) {
        Ok(v) => v,
        Err(e) => return Err(e),
    };
    let humidity = match take_decimal(&texts.humidity, decimals.humidity, Field::Humidity) {
        Ok(v) => v,
        Err(e) => return Err(e),
    };
    let heat_index = match take_decimal(&texts.heat_index, decimals.heat_index, Field::HeatIndex) {
        Ok(v) => v,
        Err(e) => return Err(e),
    };
    let flow_rate = match take_decimal(&texts.flow_rate, decimals.flow_rate, Field::FlowRate) {
        Ok(v) => v,
        Err(e) => return Err(e),
    };
    let distance = match take_decimal(&texts.distance, decimals.distance, Field::Distance) {
        Ok(v) => v,
        Err(e) => return Err(e),
    };
    let water_level = match &texts.water_level {
        None => return Err(IngestError::MissingField(Field::WaterLevel)),
        Some(s) => match parse_i32(s.as_str()) {
            None => return Err(IngestError::Malformed(Field::WaterLevel)),
            Some(v) => v,
        },
    };
    Ok(
        Reading {
            device_id,
            device_location,
            temperature,
            humidity,
            heat_index,
            flow_rate,
            distance,
            water_level,
        },
    )
}

/// Applies a payload: on success the store holds the reading it describes;
/// on rejection the store is left as it was.
pub fn ingest(store: &mut ReadingStore, texts: &PayloadTexts, decimals: &DecimalValues) -> (r:
    Result<(), IngestError>)
    ensures
        match r {
            Ok(()) => first_error(*texts, *decimals) is None && final(store)@ == replaced(
                old(store)@,
                reading_of(*texts, *decimals),
            ),
            Err(e) => first_error(*texts, *decimals) == Some(e) && final(store)@ == old(store)@,
        },
{
    match parse_reading(texts, decimals) {
        Ok(reading) => {
            store.replace(reading);
            Ok(())
        },
        Err(e) => Err(e),
    }
}

/// The HTTP status that answers an ingestion: 201 Created when the reading
/// was stored, 400 Bad Request when the payload was rejected.
pub fn ingest_status(outcome: &Result<(), IngestError>) -> (code: u16)
    ensures
        outcome is Ok ==> code == 201,
        outcome is Err ==> code == 400,
{
    match outcome {
        Ok(()) => 201,
        Err(_) => 400,
    }
}

} // verus!
