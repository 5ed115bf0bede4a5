//! The canonical alert record: one decoded inbound detection event.

use vstd::prelude::*;

verus! {

/// Mathematical value of a [`BvrChirpMessage`]: every text field as a
/// character sequence and the image as a byte sequence.
pub ghost struct AlertView {
    pub target: Seq<char>,
    pub camera_name: Seq<char>,
    pub detections: Seq<char>,
    pub db_id: Seq<char>,
    pub time: Seq<char>,
    pub image: Seq<u8>,
}

/// One normalized inbound event. Constructed once per decoded broker
/// message and never mutated afterwards; each destination worker gets its
/// own clone.
#[derive(Clone, Debug)]
pub struct BvrChirpMessage {
    /// Destination-interpreted routing id (numeric channel id, room id, ...).
    pub target: String,
    /// Label of the camera that produced the event.
    pub camera_name: String,
    /// Summary of what was detected.
    pub detections: String,
    /// Id used to build a deep link back to the originating system.
    pub db_id: String,
    /// Timestamp, already formatted by the producer.
    pub time: String,
    /// Raw image bytes; may be empty.
    pub image: Vec<u8>,
}

impl View for BvrChirpMessage {
    type V = AlertView;

    open spec fn view(&self) -> AlertView {
        AlertView {
            target: self.target@,
            camera_name: self.camera_name@,
            detections: self.detections@,
            db_id: self.db_id@,
            time: self.time@,
            image: self.image@,
        }
    }
}

impl BvrChirpMessage {
    /// Packs the six fields of one alert, unchanged, into a record.
    pub fn new(
        target: String,
        camera_name: String,
        detections: String,
        db_id: String,
        time: String,
        image: Vec<u8>,
    ) -> (m: BvrChirpMessage)
        ensures
            m@ == (AlertView {
                target: target@,
                camera_name: camera_name@,
                detections: detections@,
                db_id: db_id@,
                time: time@,
                image: image@,
            }),
    {
        BvrChirpMessage { target, camera_name, detections, db_id, time, image }
    }
}

} // verus!
