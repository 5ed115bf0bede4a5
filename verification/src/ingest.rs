//! Ingestion decoding: one raw broker payload to one alert record.
//!
//! A payload must be UTF-8 text holding a JSON object with the six
//! required string fields; the image field is base64-encoded bytes. A
//! payload that falls short is rejected with a diagnostic naming the
//! first fault, and never stops ingestion of later payloads.

use vstd::prelude::*;

verus! {

use crate::alert::{AlertView, BvrChirpMessage};
use crate::codec::{b64_bytes, b64_decode, json_doc_ok, json_doc_valid, json_get_str,
    json_str_field, utf8_chars, utf8_to_string};

/// One of the six required fields of an inbound payload.
#[derive(Clone, Copy, PartialEq, Eq, Structural, Debug)]
pub enum Field {
    Target,
    Camera,
    Detections,
    DbId,
    Time,
    Image,
}

/// Why an inbound payload was rejected.
#[derive(Clone, Copy, PartialEq, Eq, Structural, Debug)]
pub enum ParseError {
    /// The payload bytes are not valid UTF-8.
    InvalidUtf8,
    /// The payload text is not valid JSON.
    InvalidJson,
    /// A required field is absent or not a string; the first such field
    /// in `target, camera, detections, db_id, time, image` order.
    MissingField { field: Field },
    /// The image field is not valid base64.
    InvalidImage,
}

/// The key under which a required field stands in the payload.
pub open spec fn field_key(f: Field) -> Seq<char> {
    match f {
        Field::Target => "target"@,
        Field::Camera => "camera"@,
        Field::Detections => "detections"@,
        Field::DbId => "db_id"@,
        Field::Time => "time"@,
        Field::Image => "image"@,
    }
}

/// The key under which a required field stands in the payload.
pub fn field_name(f: &Field) -> (s: &'static str)
    ensures
        s@ == field_key(*f),
{
    match f {
        Field::Target => "target",
        Field::Camera => "camera",
        Field::Detections => "detections",
        Field::DbId => "db_id",
        Field::Time => "time",
        Field::Image => "image",
    }
}

/// The alert record an inbound payload decodes to, or the first fault
/// found in it: invalid UTF-8, then invalid JSON, then the first missing
/// required field in order, then an undecodable image.
pub open spec fn spec_decode(payload: Seq<u8>) -> Result<AlertView, ParseError> {
    match utf8_chars(payload) {
        Option::None => Result::Err(ParseError::InvalidUtf8),
        Option::Some(doc) => {
            if !json_doc_ok(doc) {
                Result::Err(ParseError::InvalidJson)
            } else {
                match json_str_field(doc, "target"@) {
                    Option::None => Result::Err(ParseError::MissingField { field: Field::Target }),
                    Option::Some(target) => match json_str_field(doc, "camera"@) {
                        Option::None => Result::Err(
                            ParseError::MissingField { field: Field::Camera },
                        ),
                        Option::Some(camera) => match json_str_field(doc, "detections"@) {
                            Option::None => Result::Err(
                                ParseError::MissingField { field: Field::Detections },
                            ),
                            Option::Some(detections) => match json_str_field(doc, "db_id"@) {
                                Option::None => Result::Err(
                                    ParseError::MissingField { field: Field::DbId },
                                ),
                                Option::Some(db_id) => match json_str_field(doc, "time"@) {
                                    Option::None => Result::Err(
                                        ParseError::MissingField { field: Field::Time },
                                    ),
                                    Option::Some(time) => match json_str_field(doc, "image"@) {
                                        Option::None => Result::Err(
                                            ParseError::MissingField { field: Field::Image },
                                        ),
                                        Option::Some(image_text) => match b64_bytes(image_text) {
                                            Option::None => Result::Err(ParseError::InvalidImage),
                                            Option::Some(image) => Result::Ok(
                                                AlertView {
                                                    target: target,
                                                    camera_name: camera,
                                                    detections: detections,
                                                    db_id: db_id,
                                                    time: time,
                                                    image: image,
                                                },
                                            ),
                                        },
                                    },
                                },
                            },
                        },
                    },
                }
            }
        },
    }
}

/// A payload whose JSON document lacks any one of the six required
/// string fields produces no alert record: decoding rejects it with an
/// error naming a missing field. Decoding is a pure total function, so
/// the rejected payload leaves nothing behind and later payloads decode
/// as they would have anyway.
pub proof fn lemma_missing_field_rejects(payload: Seq<u8>, doc: Seq<char>, f: Field)
    requires
        utf8_chars(payload) == Option::Some(doc),
        json_doc_ok(doc),
        json_str_field(doc, field_key(f)) is None,
    ensures
        spec_decode(payload) is Err,
        spec_decode(payload) matches Err(e) ==> e is MissingField,
{
    if json_str_field(doc, "target"@) is None {
    } else if json_str_field(doc, "camera"@) is None {
    } else if json_str_field(doc, "detections"@) is None {
    } else if json_str_field(doc, "db_id"@) is None {
    } else if json_str_field(doc, "time"@) is None {
    } else if json_str_field(doc, "image"@) is None {
    } else {
        // every required field would then be present, against the premise
        match f {
            Field::Target => assert(json_str_field(doc, field_key(f)) is Some),
            Field::Camera => assert(json_str_field(doc, field_key(f)) is Some),
            Field::Detections => assert(json_str_field(doc, field_key(f)) is Some),
            Field::DbId => assert(json_str_field(doc, field_key(f)) is Some),
            Field::Time => assert(json_str_field(doc, field_key(f)) is Some),
            Field::Image => assert(json_str_field(doc, field_key(f)) is Some),
        }
    }
}

/// Decodes one raw broker payload into an alert record, or reports the
/// first fault. Total: a bad payload yields an error, never a panic, so
/// one malformed message cannot stop ingestion.
pub fn decode_payload(payload: &[u8]) -> (r: Result<BvrChirpMessage, ParseError>)
    ensures
        (r matches Ok(m) ==> spec_decode(payload@) == Result::<AlertView, ParseError>::Ok(m@)),
        (r matches Err(e) ==> spec_decode(payload@) == Result::<AlertView, ParseError>::Err(e)),
{
    let text = match utf8_to_string(payload) {
        Option::Some(t) => t,
        Option::None => {
            return Result::Err(ParseError::InvalidUtf8);
        },
    };
    if !json_doc_valid(text.as_str()) {
        return Result::Err(ParseError::InvalidJson);
    }
    let target = match json_get_str(text.as_str(), "target") {
        Option::Some(v) => v,
        Option::None => {
            return Result::Err(ParseError::MissingField { field: Field::Target });
        },
    };
    let camera = match json_get_str(text.as_str(), "camera") {
        Option::Some(v) => v,
        Option::None => {
            return Result::Err(ParseError::MissingField { field: Field::Camera });
        },
    };
    let detections = match json_get_str(text.as_str(), "detections") {
        Option::Some(v) => v,
        Option::None => {
            return Result::Err(ParseError::MissingField { field: Field::Detections });
        },
    };
    let db_id = match json_get_str(text.as_str(), "db_id") {
        Option::Some(v) => v,
        Option::None => {
            return Result::Err(ParseError::MissingField { field: Field::DbId });
        },
    };
    let time = match json_get_str(text.as_str(), "time") {
        Option::Some(v) => v,
        Option::None => {
            return Result::Err(ParseError::MissingField { field: Field::Time });
        },
    };
    let image_text = match json_get_str(text.as_str(), "image") {
        Option::Some(v) => v,
        Option::None => {
            return Result::Err(ParseError::MissingField { field: Field::Image });
        },
    };
    let image = match b64_decode(image_text.as_str()) {
        Option::Some(v) => v,
        Option::None => {
            return Result::Err(ParseError::InvalidImage);
        },
    };
    Result::Ok(BvrChirpMessage::new(target, camera, detections, db_id, time, image))
}

} // verus!
