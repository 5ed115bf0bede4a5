//! Tests of the template renderer and of the per-destination message
//! builders.

use bvr_chirp::discord;
use bvr_chirp::matrix;
use bvr_chirp::render::{fully_rendered, render, Binding};
use bvr_chirp::slack;
use bvr_chirp::templates::{deep_link, matrix_template, slack_template};
use bvr_chirp::BvrChirpMessage;

fn sample_alert() -> BvrChirpMessage {
    BvrChirpMessage::new(
        "123456789012345678".to_string(),
        "front_door".to_string(),
        "person".to_string(),
        "42".to_string(),
        "2024-01-01 10:00:00".to_string(),
        vec![0xFF, 0xD8, 0x00, 0x10],
    )
}

fn bind(token: &str, value: &str) -> Binding {
    Binding { token: token.to_string(), value: value.to_string() }
}

#[test]
fn deep_link_literal_case() {
    let link = deep_link("http://127.0.0.1:81", "42", "front_door");
    assert_eq!(link, "http://127.0.0.1:81/ui3.htm?rec=42&cam=front_door&m=1");
}

#[test]
fn render_replaces_every_occurrence() {
    let out = render("a <X> b <X> c", &vec![bind("<X>", "y")]);
    assert_eq!(out, "a y b y c");
}

#[test]
fn render_leaves_unresolved_placeholders_verbatim() {
    let out = render("a <X> b <Y>", &vec![bind("<X>", "y")]);
    assert_eq!(out, "a y b <Y>");
}

#[test]
fn render_is_idempotent_over_a_complete_substitution_set() {
    let template = "cam <CAM> saw <WHAT> at <WHEN>; link <CAM>";
    let subs = vec![
        bind("<CAM>", "front_door"),
        bind("<WHAT>", "person"),
        bind("<WHEN>", "10:00"),
    ];
    let once = render(template, &subs);
    assert_eq!(once, "cam front_door saw person at 10:00; link front_door");
    assert!(fully_rendered(&once, &subs), "no placeholder token remains");
    let twice = render(&once, &subs);
    assert_eq!(twice, once, "re-rendering the output is a no-op");
}

#[test]
fn matrix_message_is_fully_rendered_and_idempotent() {
    let alert = sample_alert();
    let out = matrix::build_message("mxc://server/abc123", "http://127.0.0.1:81", &alert);
    for token in ["<IMG_URI>", "<CAMERA_NAME>", "<TIME>", "<DETECTIONS>", "<ENDPOINT_URL>"] {
        assert!(!out.contains(token), "token {} must be substituted", token);
    }
    assert!(out.contains("mxc://server/abc123"));
    assert!(out.contains("Detection on front_door camera"));
    assert!(out.contains("person"));
    assert!(out.contains("2024-01-01 10:00:00"));
    // rendering the output again with the same substitutions changes nothing
    let again = matrix::build_message("mxc://server/abc123", "http://127.0.0.1:81", &alert);
    assert_eq!(again, out);
}

#[test]
fn matrix_template_keeps_its_placeholders() {
    let t = matrix_template();
    for token in ["<IMG_URI>", "<CAMERA_NAME>", "<TIME>", "<DETECTIONS>"] {
        assert!(t.contains(token));
    }
}

#[test]
fn slack_template_keeps_its_placeholders() {
    let t = slack_template();
    for token in ["<IMG_ID>", "<CAMERA_NAME>", "<ENDPOINT_URL>", "<TIME>", "<DETECTIONS>"] {
        assert!(t.contains(token));
    }
}

#[test]
fn slack_message_substitutes_all_tokens() {
    let alert = sample_alert();
    let out = slack::build_message("http://127.0.0.1:81", "F12345", &alert);
    for token in ["<IMG_ID>", "<CAMERA_NAME>", "<ENDPOINT_URL>", "<TIME>", "<DETECTIONS>"] {
        assert!(!out.contains(token), "token {} must be substituted", token);
    }
    assert!(out.contains("F12345"));
    assert!(out.contains("Detection on front_door camera"));
    assert!(out.contains("http://127.0.0.1:81/ui3.htm?rec=42&cam=front_door&m=1"));
    assert!(out.contains("2024-01-01 10:00:00"));
    assert!(out.contains("person"));
}

#[test]
fn discord_end_to_end_literal_case() {
    let alert = sample_alert();
    let msg = discord::prepare_message(&alert, "http://127.0.0.1:81").expect("target is numeric");
    assert_eq!(msg.channel_id, 123456789012345678u64);
    assert_eq!(msg.url, "http://127.0.0.1:81/ui3.htm?rec=42&cam=front_door&m=1");
    assert_eq!(msg.title, "Detection on front_door camera");
    assert_eq!(msg.detections, "person");
    assert_eq!(msg.time, "2024-01-01 10:00:00");
    assert_eq!(msg.attachment_name, "front_door.jpg");
}

#[test]
fn discord_rejects_non_numeric_target() {
    let mut alert = sample_alert();
    alert.target = "not-a-number".to_string();
    let err = discord::prepare_message(&alert, "http://127.0.0.1:81").unwrap_err();
    assert_eq!(err, discord::DiscordError::InvalidChannelId);
}

#[test]
fn parse_u64_accepts_what_std_accepts() {
    assert_eq!(discord::parse_u64("123"), Some(123));
    assert_eq!(discord::parse_u64("+5"), Some(5));
    assert_eq!(discord::parse_u64("0"), Some(0));
    assert_eq!(discord::parse_u64("007"), Some(7));
    assert_eq!(discord::parse_u64("18446744073709551615"), Some(u64::MAX));
}

#[test]
fn parse_u64_rejects_what_std_rejects() {
    assert_eq!(discord::parse_u64(""), None);
    assert_eq!(discord::parse_u64("+"), None);
    assert_eq!(discord::parse_u64("12a"), None);
    assert_eq!(discord::parse_u64("-3"), None);
    assert_eq!(discord::parse_u64(" 12"), None);
    assert_eq!(discord::parse_u64("18446744073709551616"), None);
}
