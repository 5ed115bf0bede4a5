//! Tests of the upload-then-post sequencing, the room auto-join
//! backoff, and the configuration defaults.

use bvr_chirp::config::BvrChirpConfig;
use bvr_chirp::matrix::{join_start, join_step, JoinAction, JoinState};
use bvr_chirp::slack::{
    parse_upload_response, process_start, process_step, ProcessState, UploadResponseError,
    UploadStage, SETTLE_DELAY_MILLIS,
};

/// Drives the delivery machine over the given step outcomes, recording
/// which stages were actually run.
fn drive(outcomes: &[bool]) -> (ProcessState, Vec<UploadStage>) {
    let mut state = process_start();
    let mut ran: Vec<UploadStage> = Vec::new();
    for &ok in outcomes {
        if let ProcessState::Working { stage } = state {
            ran.push(stage);
            state = process_step(&state, ok);
        } else {
            break;
        }
    }
    (state, ran)
}

#[test]
fn upload_failure_yields_delivery_error_and_never_posts() {
    // the upload step (second stage) fails
    let (state, ran) = drive(&[true, false, true, true, true]);
    assert_eq!(state, ProcessState::Failed);
    assert!(!ran.contains(&UploadStage::Post), "the send step must never run");
    assert_eq!(ran, vec![UploadStage::GetUrl, UploadStage::Upload]);
}

#[test]
fn failure_at_the_first_step_posts_nothing() {
    let (state, ran) = drive(&[false]);
    assert_eq!(state, ProcessState::Failed);
    assert_eq!(ran, vec![UploadStage::GetUrl]);
}

#[test]
fn all_steps_ok_delivers_in_order() {
    let (state, ran) = drive(&[true, true, true, true, true]);
    assert_eq!(state, ProcessState::Delivered);
    assert_eq!(
        ran,
        vec![
            UploadStage::GetUrl,
            UploadStage::Upload,
            UploadStage::Complete,
            UploadStage::Settle,
            UploadStage::Post,
        ]
    );
}

#[test]
fn settle_delay_is_fixed() {
    assert_eq!(SETTLE_DELAY_MILLIS, 3000);
}

#[test]
fn upload_response_parses_both_fields() {
    let body = "{\"ok\": true, \"upload_url\": \"https://up.example/u1\", \"file_id\": \"F42\"}";
    let r = parse_upload_response(body).expect("both fields present");
    assert_eq!(r.upload_url, "https://up.example/u1");
    assert_eq!(r.file_id, "F42");
}

#[test]
fn upload_response_missing_upload_url() {
    let body = "{\"file_id\": \"F42\"}";
    let err = parse_upload_response(body).unwrap_err();
    assert_eq!(err, UploadResponseError::MissingUploadUrl);
}

#[test]
fn upload_response_missing_file_id() {
    let body = "{\"upload_url\": \"https://up.example/u1\"}";
    let err = parse_upload_response(body).unwrap_err();
    assert_eq!(err, UploadResponseError::MissingFileId);
}

#[test]
fn join_backoff_doubles_until_ceiling_then_abandons_once() {
    let mut state = join_start();
    let mut retries: Vec<u64> = Vec::new();
    let mut abandons: u32 = 0;
    // feed twenty consecutive failures; the machine must settle long before
    for _ in 0..20 {
        let (next, action) = join_step(&state, false);
        match action {
            JoinAction::RetryAfter { delay_secs } => retries.push(delay_secs),
            JoinAction::AbandonRoom => abandons += 1,
            JoinAction::Idle => {}
            JoinAction::Complete => panic!("a failed attempt cannot complete"),
        }
        state = next;
    }
    assert_eq!(retries, vec![2, 4, 8, 16, 32, 64, 128, 256, 512, 1024]);
    assert_eq!(abandons, 1, "the permanent-failure diagnostic is emitted exactly once");
    assert_eq!(state, JoinState::Abandoned);
}

#[test]
fn join_success_completes() {
    let state = join_start();
    let (next, action) = join_step(&state, true);
    assert_eq!(next, JoinState::Joined);
    assert_eq!(action, JoinAction::Complete);
    // and stays joined
    let (again, idle) = join_step(&next, false);
    assert_eq!(again, JoinState::Joined);
    assert_eq!(idle, JoinAction::Idle);
}

#[test]
fn join_success_after_failures_completes() {
    let mut state = join_start();
    let (next, action) = join_step(&state, false);
    assert_eq!(action, JoinAction::RetryAfter { delay_secs: 2 });
    state = next;
    let (next, action) = join_step(&state, false);
    assert_eq!(action, JoinAction::RetryAfter { delay_secs: 4 });
    state = next;
    let (next, action) = join_step(&state, true);
    assert_eq!(next, JoinState::Joined);
    assert_eq!(action, JoinAction::Complete);
}

#[test]
fn config_defaults_disable_every_destination() {
    let cfg = BvrChirpConfig::default();
    assert_eq!(cfg.alert_endpoint, "http://127.0.0.1:81");
    assert!(!cfg.matrix_config.enabled);
    assert!(!cfg.discord_config.enabled);
    assert!(!cfg.slack_config.enabled);
    assert_eq!(cfg.mqtt_config.host, "127.0.0.1");
    assert_eq!(cfg.mqtt_config.port, 1884);
    assert_eq!(cfg.mqtt_config.max_packet_size, 2048000);
    assert_eq!(cfg.mqtt_config.topic, "my_topic/#");
    assert_eq!(cfg.mqtt_config.device_id, "Bvr Chirp");
    assert_eq!(cfg.matrix_config.host, "https://matrix.org");
    assert_eq!(cfg.matrix_config.bot_name, "Bvr Chirp Bot");
}
