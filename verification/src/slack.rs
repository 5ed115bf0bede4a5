//! Slack destination logic: the upload-then-post sequence and message
//! building.
//!
//! Slack requires a separate upload before the image can be referenced
//! in a message: request an upload URL, upload the bytes, complete the
//! upload, wait out a fixed settling delay (Slack reports the file ready
//! before it is retrievable), then post. The sequencing decisions are a
//! state machine proved here; the network calls live outside and only
//! report each step's outcome.

use vstd::prelude::*;

verus! {

use crate::alert::{AlertView, BvrChirpMessage};
use crate::codec::{json_str_field, json_get_str};
use crate::render::{binding_views, render, spec_render, Binding, BindingView};
use crate::templates::{deep_link, slack_template, slack_template_text, spec_deep_link};

/// Fixed wait between completing the upload and referencing the file in
/// a message, in milliseconds.
pub const SETTLE_DELAY_MILLIS: u64 = 3000;

/// The steps of one Slack delivery, in the order they must run.
#[derive(Clone, Copy, PartialEq, Eq, Structural, Debug)]
pub enum UploadStage {
    /// Request an upload URL and file id.
    GetUrl,
    /// Upload the image bytes to that URL.
    Upload,
    /// Complete the upload.
    Complete,
    /// Wait out the settling delay.
    Settle,
    /// Post the rendered message.
    Post,
}

/// State of one alert's delivery.
#[derive(Clone, Copy, PartialEq, Eq, Structural, Debug)]
pub enum ProcessState {
    /// The given stage is the next step to run.
    Working { stage: UploadStage },
    /// Every step ran and succeeded.
    Delivered,
    /// A step failed; the remaining steps were abandoned and the alert
    /// is reported as one delivery error.
    Failed,
}

/// The state in which one alert's delivery starts.
pub open spec fn process_initial() -> ProcessState {
    ProcessState::Working { stage: UploadStage::GetUrl }
}

/// One sequencing decision: `ok` reports whether the stage just run
/// succeeded. Any failure abandons the remaining steps for this alert;
/// the terminal states are absorbing.
pub open spec fn spec_process_step(s: ProcessState, ok: bool) -> ProcessState {
    match s {
        ProcessState::Working { stage } => {
            if !ok {
                ProcessState::Failed
            } else {
                match stage {
                    UploadStage::GetUrl => ProcessState::Working { stage: UploadStage::Upload },
                    UploadStage::Upload => ProcessState::Working { stage: UploadStage::Complete },
                    UploadStage::Complete => ProcessState::Working { stage: UploadStage::Settle },
                    UploadStage::Settle => ProcessState::Working { stage: UploadStage::Post },
                    UploadStage::Post => ProcessState::Delivered,
                }
            }
        },
        ProcessState::Delivered => ProcessState::Delivered,
        ProcessState::Failed => ProcessState::Failed,
    }
}

/// Creates the starting state for one alert's delivery.
pub fn process_start() -> (s: ProcessState)
    ensures
        s == process_initial(),
{
    ProcessState::Working { stage: UploadStage::GetUrl }
}

/// Advances one alert's delivery by one resolved step.
pub fn process_step(state: &ProcessState, ok: bool) -> (r: ProcessState)
    ensures
        r == spec_process_step(*state, ok),
{
    match state {
        ProcessState::Working { stage } => {
            if !ok {
                ProcessState::Failed
            } else {
                match stage {
                    UploadStage::GetUrl => ProcessState::Working { stage: UploadStage::Upload },
                    UploadStage::Upload => ProcessState::Working { stage: UploadStage::Complete },
                    UploadStage::Complete => ProcessState::Working { stage: UploadStage::Settle },
                    UploadStage::Settle => ProcessState::Working { stage: UploadStage::Post },
                    UploadStage::Post => ProcessState::Delivered,
                }
            }
        },
        ProcessState::Delivered => ProcessState::Delivered,
        ProcessState::Failed => ProcessState::Failed,
    }
}

/// State after resolving the steps whose outcomes are `oks`, first
/// outcome first.
pub open spec fn spec_process_run(s: ProcessState, oks: Seq<bool>) -> ProcessState
    decreases oks.len(),
{
    if oks.len() == 0 {
        s
    } else {
        spec_process_run(spec_process_step(s, oks[0]), oks.skip(1))
    }
}

/// Whether the run ever resolves the post step — that is, whether the
/// send-message call was actually made.
pub open spec fn spec_run_posts(s: ProcessState, oks: Seq<bool>) -> bool
    decreases oks.len(),
{
    if oks.len() == 0 {
        false
    } else {
        s == (ProcessState::Working { stage: UploadStage::Post }) || spec_run_posts(
            spec_process_step(s, oks[0]),
            oks.skip(1),
        )
    }
}

/// How many steps come before `stage`.
pub open spec fn stage_index(stage: UploadStage) -> int {
    match stage {
        UploadStage::GetUrl => 0,
        UploadStage::Upload => 1,
        UploadStage::Complete => 2,
        UploadStage::Settle => 3,
        UploadStage::Post => 4,
    }
}

/// A failed delivery stays failed and never resolves another step.
pub proof fn lemma_failed_absorbing(oks: Seq<bool>)
    ensures
        spec_process_run(ProcessState::Failed, oks) == ProcessState::Failed,
        !spec_run_posts(ProcessState::Failed, oks),
    decreases oks.len(),
{
    if oks.len() > 0 {
        lemma_failed_absorbing(oks.skip(1));
    }
}

/// If a step fails while the delivery has not yet reached the post
/// stage, the delivery ends failed and the post step is never resolved.
pub proof fn lemma_fail_before_post(stage: UploadStage, oks: Seq<bool>, i: int)
    requires
        0 <= i < oks.len(),
        !oks[i],
        forall|j: int| 0 <= j < i ==> oks[j],
        stage_index(stage) + i <= 3,
    ensures
        spec_process_run(ProcessState::Working { stage }, oks) == ProcessState::Failed,
        !spec_run_posts(ProcessState::Working { stage }, oks),
    decreases i,
{
    let s = ProcessState::Working { stage };
    if i == 0 {
        assert(spec_process_step(s, oks[0]) == ProcessState::Failed);
        lemma_failed_absorbing(oks.skip(1));
    } else {
        let next = spec_process_step(s, oks[0]);
        let stage2 = match stage {
            UploadStage::GetUrl => UploadStage::Upload,
            UploadStage::Upload => UploadStage::Complete,
            UploadStage::Complete => UploadStage::Settle,
            UploadStage::Settle => UploadStage::Post,
            UploadStage::Post => UploadStage::Post,
        };
        assert(next == (ProcessState::Working { stage: stage2 }));
        assert(oks.skip(1)[i - 1] == oks[i]);
        assert(forall|j: int| 0 <= j < i - 1 ==> #[trigger] oks.skip(1)[j] == oks[j + 1]);
        lemma_fail_before_post(stage2, oks.skip(1), i - 1);
    }
}

/// The upload-then-post law: a delivery whose upload sequence fails —
/// at requesting the upload URL, uploading the bytes, completing the
/// upload, or the settling wait — is reported as one delivery error,
/// and the send-message step is never invoked.
pub proof fn lemma_upload_failure_never_posts(oks: Seq<bool>, i: int)
    requires
        0 <= i < oks.len(),
        !oks[i],
        forall|j: int| 0 <= j < i ==> oks[j],
        i <= 3,
    ensures
        spec_process_run(process_initial(), oks) == ProcessState::Failed,
        !spec_run_posts(process_initial(), oks),
{
    lemma_fail_before_post(UploadStage::GetUrl, oks, i);
}

/// When every one of the five steps succeeds, the delivery succeeds and
/// the post step was resolved.
pub proof fn lemma_all_ok_delivers(oks: Seq<bool>)
    requires
        oks.len() == 5,
        forall|j: int| 0 <= j < oks.len() ==> oks[j],
    ensures
        spec_process_run(process_initial(), oks) == ProcessState::Delivered,
        spec_run_posts(process_initial(), oks),
{
    let t1 = oks.skip(1);
    let t2 = t1.skip(1);
    let t3 = t2.skip(1);
    let t4 = t3.skip(1);
    let t5 = t4.skip(1);
    assert(t1[0] == oks[1] && t1[1] == oks[2] && t1[2] == oks[3] && t1[3] == oks[4]);
    assert(t2[0] == oks[2] && t2[1] == oks[3] && t2[2] == oks[4]);
    assert(t3[0] == oks[3] && t3[1] == oks[4]);
    assert(t4[0] == oks[4]);
    assert(t5.len() == 0);
    let s0 = process_initial();
    let s1 = spec_process_step(s0, oks[0]);
    let s2 = spec_process_step(s1, t1[0]);
    let s3 = spec_process_step(s2, t2[0]);
    let s4 = spec_process_step(s3, t3[0]);
    let s5 = spec_process_step(s4, t4[0]);
    assert(s1 == (ProcessState::Working { stage: UploadStage::Upload }));
    assert(s2 == (ProcessState::Working { stage: UploadStage::Complete }));
    assert(s3 == (ProcessState::Working { stage: UploadStage::Settle }));
    assert(s4 == (ProcessState::Working { stage: UploadStage::Post }));
    assert(s5 == ProcessState::Delivered);
    assert(spec_process_run(s0, oks) == spec_process_run(s1, t1));
    assert(spec_process_run(s1, t1) == spec_process_run(s2, t2));
    assert(spec_process_run(s2, t2) == spec_process_run(s3, t3));
    assert(spec_process_run(s3, t3) == spec_process_run(s4, t4));
    assert(spec_process_run(s4, t4) == spec_process_run(s5, t5));
    assert(spec_process_run(s5, t5) == ProcessState::Delivered);
    assert(spec_run_posts(s4, t4));
    assert(spec_run_posts(s3, t3));
    assert(spec_run_posts(s2, t2));
    assert(spec_run_posts(s1, t1));
    assert(spec_run_posts(s0, oks));
}

/// Why the upload-URL response was refused.
#[derive(Clone, Copy, PartialEq, Eq, Structural, Debug)]
pub enum UploadResponseError {
    /// The response has no `upload_url` string field.
    MissingUploadUrl,
    /// The response has no `file_id` string field.
    MissingFileId,
}

/// The two values Slack's upload-URL request hands back.
#[derive(Clone, Debug)]
pub struct UploadUrlResponse {
    /// Where to upload the image bytes.
    pub upload_url: String,
    /// Id under which the uploaded file is referenced.
    pub file_id: String,
}

/// Extracts the upload URL and the file id from the upload-URL
/// response body. Fails exactly when the body lacks one of the two
/// string fields, naming the first one missing.
pub fn parse_upload_response(body: &str) -> (r: Result<UploadUrlResponse, UploadResponseError>)
    ensures
        (r matches Ok(u) ==> {
            &&& Option::Some(u.upload_url@) == json_str_field(body@, "upload_url"@)
            &&& Option::Some(u.file_id@) == json_str_field(body@, "file_id"@)
        }),
        (r == Result::<UploadUrlResponse, UploadResponseError>::Err(
            UploadResponseError::MissingUploadUrl,
        )) <==> json_str_field(body@, "upload_url"@) is None,
        (r == Result::<UploadUrlResponse, UploadResponseError>::Err(
            UploadResponseError::MissingFileId,
        )) <==> (json_str_field(body@, "upload_url"@) is Some && json_str_field(
            body@,
            "file_id"@,
        ) is None),
{
    let upload_url = match json_get_str(body, "upload_url") {
        Option::Some(v) => v,
        Option::None => {
            return Result::Err(UploadResponseError::MissingUploadUrl);
        },
    };
    let file_id = match json_get_str(body, "file_id") {
        Option::Some(v) => v,
        Option::None => {
            return Result::Err(UploadResponseError::MissingFileId);
        },
    };
    Result::Ok(UploadUrlResponse { upload_url, file_id })
}

/// The substitutions for the Slack template, in substitution order.
pub open spec fn slack_bindings(
    alert_endpoint: Seq<char>,
    file_id: Seq<char>,
    alert: AlertView,
) -> Seq<BindingView> {
    seq![
        (BindingView { token: "<IMG_ID>"@, value: file_id }),
        (BindingView { token: "<CAMERA_NAME>"@, value: alert.camera_name }),
        (BindingView {
            token: "<ENDPOINT_URL>"@,
            value: spec_deep_link(alert_endpoint, alert.db_id, alert.camera_name),
        }),
        (BindingView { token: "<TIME>"@, value: alert.time }),
        (BindingView { token: "<DETECTIONS>"@, value: alert.detections }),
    ]
}

/// Builds the Slack message blocks for one alert: the template with the
/// uploaded file's id, the alert's fields and the deep link substituted
/// in.
pub fn build_message(alert_endpoint: &str, file_id: &str, bvr_msg: &BvrChirpMessage) -> (r: String)
    ensures
        r@ == spec_render(
            slack_template_text(),
            slack_bindings(alert_endpoint@, file_id@, bvr_msg@),
        ),
{
    let link = deep_link(alert_endpoint, bvr_msg.db_id.as_str(), bvr_msg.camera_name.as_str());
    let mut subs: Vec<Binding> = Vec::new();
    subs.push(Binding { token: "<IMG_ID>".to_owned(), value: file_id.to_owned() });
    subs.push(Binding { token: "<CAMERA_NAME>".to_owned(), value: bvr_msg.camera_name.clone() });
    subs.push(Binding { token: "<ENDPOINT_URL>".to_owned(), value: link });
    subs.push(Binding { token: "<TIME>".to_owned(), value: bvr_msg.time.clone() });
    subs.push(Binding { token: "<DETECTIONS>".to_owned(), value: bvr_msg.detections.clone() });
    let template = slack_template();
    proof {
        assert(binding_views(subs@) =~= slack_bindings(alert_endpoint@, file_id@, bvr_msg@));
    }
    render(template.as_str(), &subs)
}

} // verus!
