//! Destination message templates and the alert deep link.
//!
//! The templates are immutable configuration data: each destination's
//! message body with placeholder tokens, filled in by the renderer.

use vstd::prelude::*;

verus! {

use vstd::string::StringExecFns;

/// Deep link back to the originating system for one alert:
/// `{endpoint}/ui3.htm?rec={db_id}&cam={camera_name}&m=1`.
pub open spec fn spec_deep_link(endpoint: Seq<char>, db_id: Seq<char>, camera_name: Seq<char>) -> Seq<char> {
    endpoint + "/ui3.htm?rec="@ + db_id + "&cam="@ + camera_name + "&m=1"@
}

/// Builds the alert deep link.
pub fn deep_link(alert_endpoint: &str, db_id: &str, camera_name: &str) -> (r: String)
    ensures
        r@ == spec_deep_link(alert_endpoint@, db_id@, camera_name@),
{
    let mut r = alert_endpoint.to_owned();
    r.append("/ui3.htm?rec=");
    r.append(db_id);
    r.append("&cam=");
    r.append(camera_name);
    r.append("&m=1");
    proof {
        assert(r@ =~= spec_deep_link(alert_endpoint@, db_id@, camera_name@));
    }
    r
}

/// The Matrix room-message template.
pub open spec fn matrix_template_text() -> Seq<char> {
    r#"{
  "msgtype": "m.room.message",
  "body": "Detection on <CAMERA_NAME> camera\n\nDetections: <DETECTIONS>\nTime <TIME>",
  "formatted_body": "<strong>Detection on <CAMERA_NAME> camera</strong><br><br><strong>Detections</strong><br><DETECTIONS><br><br><strong>Time</strong><br><TIME>",
  "format": "org.matrix.custom.html",
  "url": "<IMG_URI>"
}"#@
}

/// The Matrix room-message template, as text.
pub fn matrix_template() -> (s: String)
    ensures
        s@ == matrix_template_text(),
{
    let t: &str = r#"{
  "msgtype": "m.room.message",
  "body": "Detection on <CAMERA_NAME> camera\n\nDetections: <DETECTIONS>\nTime <TIME>",
  "formatted_body": "<strong>Detection on <CAMERA_NAME> camera</strong><br><br><strong>Detections</strong><br><DETECTIONS><br><br><strong>Time</strong><br><TIME>",
  "format": "org.matrix.custom.html",
  "url": "<IMG_URI>"
}"#;
    t.to_owned()
}

/// The Slack block-kit template.
pub open spec fn slack_template_text() -> Seq<char> {
    r#"
[
	{
		"type": "divider"
	},
	{
		"type": "image",
		"slack_file": {
			"id": "<IMG_ID>"
		},
        "alt_text": "camera image"
	},
	{
		"type": "section",
		"text": {
			"type": "mrkdwn",
			"text": "Detection on <CAMERA_NAME> camera"
		},
		"accessory": {
			"type": "button",
			"text": {
				"type": "plain_text",
				"text": "View Alert",
				"emoji": false
			},
			"value": "click_me_123",
			"url": "<ENDPOINT_URL>",
			"action_id": "button-action"
		}
	},
	{
		"type": "section",
		"fields": [
			{
				"type": "mrkdwn",
				"text": "Time"
			},
			{
				"type": "plain_text",
				"text": "<TIME>",
				"emoji": false
			},
			{
				"type": "mrkdwn",
				"text": "Detections"
			},
			{
				"type": "plain_text",
				"text": "<DETECTIONS>",
				"emoji": false
			}
		]
	}
]"#@
}

/// The Slack block-kit template, as text.
pub fn slack_template() -> (s: String)
    ensures
        s@ == slack_template_text(),
{
    let t: &str = r#"
[
	{
		"type": "divider"
	},
	{
		"type": "image",
		"slack_file": {
			"id": "<IMG_ID>"
		},
        "alt_text": "camera image"
	},
	{
		"type": "section",
		"text": {
			"type": "mrkdwn",
			"text": "Detection on <CAMERA_NAME> camera"
		},
		"accessory": {
			"type": "button",
			"text": {
				"type": "plain_text",
				"text": "View Alert",
				"emoji": false
			},
			"value": "click_me_123",
			"url": "<ENDPOINT_URL>",
			"action_id": "button-action"
		}
	},
	{
		"type": "section",
		"fields": [
			{
				"type": "mrkdwn",
				"text": "Time"
			},
			{
				"type": "plain_text",
				"text": "<TIME>",
				"emoji": false
			},
			{
				"type": "mrkdwn",
				"text": "Detections"
			},
			{
				"type": "plain_text",
				"text": "<DETECTIONS>",
				"emoji": false
			}
		]
	}
]"#;
    t.to_owned()
}

} // verus!
