//! Tests of payload decoding and of the fan-out dispatcher.

use bvr_chirp::dispatch::Dispatcher;
use bvr_chirp::ingest::{decode_payload, field_name, Field, ParseError};
use bvr_chirp::BvrChirpMessage;

fn encode_b64(bytes: &[u8]) -> String {
    base64::Engine::encode(&base64::engine::general_purpose::STANDARD, bytes)
}

fn valid_payload() -> Vec<u8> {
    let image = encode_b64(&[0xFF, 0xD8, 0x01, 0x02]);
    format!(
        "{{\"target\": \"123\", \"camera\": \"front_door\", \"detections\": \"person\", \
         \"db_id\": \"42\", \"time\": \"2024-01-01 10:00:00\", \"image\": \"{}\"}}",
        image
    )
    .into_bytes()
}

fn sample_alert() -> BvrChirpMessage {
    BvrChirpMessage::new(
        "123".to_string(),
        "front_door".to_string(),
        "person".to_string(),
        "42".to_string(),
        "2024-01-01 10:00:00".to_string(),
        vec![0xFF, 0xD8],
    )
}

#[test]
fn decode_valid_payload() {
    let msg = decode_payload(&valid_payload()).expect("payload should decode");
    assert_eq!(msg.target, "123");
    assert_eq!(msg.camera_name, "front_door");
    assert_eq!(msg.detections, "person");
    assert_eq!(msg.db_id, "42");
    assert_eq!(msg.time, "2024-01-01 10:00:00");
    assert_eq!(msg.image, vec![0xFF, 0xD8, 0x01, 0x02]);
}

#[test]
fn decode_ignores_extra_fields() {
    let image = encode_b64(b"x");
    let payload = format!(
        "{{\"target\": \"t\", \"camera\": \"c\", \"detections\": \"d\", \"db_id\": \"i\", \
         \"time\": \"n\", \"image\": \"{}\", \"extra\": 7}}",
        image
    );
    let msg = decode_payload(payload.as_bytes()).expect("extra fields are ignored");
    assert_eq!(msg.camera_name, "c");
}

#[test]
fn decode_missing_db_id_rejects_then_continues() {
    let image = encode_b64(b"x");
    let payload = format!(
        "{{\"target\": \"t\", \"camera\": \"c\", \"detections\": \"d\", \
         \"time\": \"n\", \"image\": \"{}\"}}",
        image
    );
    let err = decode_payload(payload.as_bytes()).unwrap_err();
    assert_eq!(err, ParseError::MissingField { field: Field::DbId });
    // the decoder is unaffected by the rejected payload: the next one decodes
    let msg = decode_payload(&valid_payload()).expect("later payloads still decode");
    assert_eq!(msg.db_id, "42");
}

#[test]
fn decode_missing_target() {
    let payload = b"{\"camera\": \"c\"}";
    let err = decode_payload(payload).unwrap_err();
    assert_eq!(err, ParseError::MissingField { field: Field::Target });
}

#[test]
fn decode_wrong_typed_field_counts_as_missing() {
    let payload = "{\"target\": \"t\", \"camera\": \"c\", \"detections\": \"d\", \
                   \"db_id\": \"i\", \"time\": \"n\", \"image\": 5}";
    let err = decode_payload(payload.as_bytes()).unwrap_err();
    assert_eq!(err, ParseError::MissingField { field: Field::Image });
}

#[test]
fn decode_invalid_utf8() {
    let err = decode_payload(&[0xFF, 0xFE, 0x80]).unwrap_err();
    assert_eq!(err, ParseError::InvalidUtf8);
}

#[test]
fn decode_invalid_json() {
    let err = decode_payload(b"this is not json").unwrap_err();
    assert_eq!(err, ParseError::InvalidJson);
}

#[test]
fn decode_invalid_image_base64() {
    let payload = "{\"target\": \"t\", \"camera\": \"c\", \"detections\": \"d\", \
                   \"db_id\": \"i\", \"time\": \"n\", \"image\": \"!!not base64!!\"}";
    let err = decode_payload(payload.as_bytes()).unwrap_err();
    assert_eq!(err, ParseError::InvalidImage);
}

#[test]
fn decode_empty_image_is_allowed() {
    let payload = "{\"target\": \"t\", \"camera\": \"c\", \"detections\": \"d\", \
                   \"db_id\": \"i\", \"time\": \"n\", \"image\": \"\"}";
    let msg = decode_payload(payload.as_bytes()).expect("an empty image is allowed");
    assert!(msg.image.is_empty());
}

#[test]
fn decode_empty_payload_is_invalid_json() {
    let err = decode_payload(b"").unwrap_err();
    assert_eq!(err, ParseError::InvalidJson);
}

#[test]
fn field_names_match_keys() {
    assert_eq!(field_name(&Field::Target), "target");
    assert_eq!(field_name(&Field::Camera), "camera");
    assert_eq!(field_name(&Field::Detections), "detections");
    assert_eq!(field_name(&Field::DbId), "db_id");
    assert_eq!(field_name(&Field::Time), "time");
    assert_eq!(field_name(&Field::Image), "image");
}

#[test]
fn broadcast_delivers_one_copy_to_every_enabled_destination() {
    let mut dispatcher = Dispatcher::new();
    let (tx1, rx1) = crossbeam_channel::unbounded::<BvrChirpMessage>();
    let (tx2, rx2) = crossbeam_channel::unbounded::<BvrChirpMessage>();
    assert!(dispatcher.register("one".to_string(), true, tx1));
    assert!(dispatcher.register("two".to_string(), true, tx2));
    assert_eq!(dispatcher.len(), 2);

    let delivered = dispatcher.broadcast(&sample_alert());
    assert_eq!(delivered, vec![true, true]);

    for rx in [rx1, rx2] {
        let got = rx.try_recv().expect("each destination gets one copy");
        assert_eq!(got.camera_name, "front_door");
        assert_eq!(got.image, vec![0xFF, 0xD8]);
        assert!(rx.try_recv().is_err(), "exactly one copy, not more");
    }
}

#[test]
fn disabled_destination_is_never_registered() {
    let mut dispatcher = Dispatcher::new();
    let (tx, rx) = crossbeam_channel::unbounded::<BvrChirpMessage>();
    assert!(!dispatcher.register("off".to_string(), false, tx));
    assert_eq!(dispatcher.len(), 0);

    let delivered = dispatcher.broadcast(&sample_alert());
    assert!(delivered.is_empty());
    assert!(rx.try_recv().is_err(), "a disabled destination receives nothing");
}

#[test]
fn dead_receiver_does_not_stop_the_broadcast() {
    let mut dispatcher = Dispatcher::new();
    let (tx1, rx1) = crossbeam_channel::unbounded::<BvrChirpMessage>();
    let (tx2, rx2) = crossbeam_channel::unbounded::<BvrChirpMessage>();
    let (tx3, rx3) = crossbeam_channel::unbounded::<BvrChirpMessage>();
    dispatcher.register("one".to_string(), true, tx1);
    dispatcher.register("two".to_string(), true, tx2);
    dispatcher.register("three".to_string(), true, tx3);
    drop(rx2);

    let delivered = dispatcher.broadcast(&sample_alert());
    assert_eq!(delivered, vec![true, false, true]);
    assert_eq!(rx1.try_recv().unwrap().detections, "person");
    assert_eq!(rx3.try_recv().unwrap().detections, "person");
}

#[test]
fn queues_preserve_broadcast_order() {
    let mut dispatcher = Dispatcher::new();
    let (tx, rx) = crossbeam_channel::unbounded::<BvrChirpMessage>();
    dispatcher.register("one".to_string(), true, tx);

    let mut first = sample_alert();
    first.db_id = "1".to_string();
    let mut second = sample_alert();
    second.db_id = "2".to_string();
    dispatcher.broadcast(&first);
    dispatcher.broadcast(&second);

    assert_eq!(rx.try_recv().unwrap().db_id, "1");
    assert_eq!(rx.try_recv().unwrap().db_id, "2");
}
