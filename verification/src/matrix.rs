//! Matrix destination logic: message building and room auto-join backoff.
//!
//! The network side (homeserver login, media upload, room send) lives
//! outside the library; everything here is a pure function of its inputs.

use vstd::prelude::*;

verus! {

use crate::alert::{AlertView, BvrChirpMessage};
use crate::render::{binding_views, render, spec_render, Binding, BindingView};
use crate::templates::{deep_link, matrix_template, matrix_template_text, spec_deep_link};

/// First retry delay of the room auto-join backoff, in seconds.
pub const JOIN_RETRY_BASE_SECS: u64 = 2;

/// Ceiling of the room auto-join backoff: when the doubled delay would
/// exceed it, the join is abandoned.
pub const JOIN_RETRY_CEILING_SECS: u64 = 3600;

/// The substitutions for the Matrix template, in substitution order.
pub open spec fn matrix_bindings(
    content_uri: Seq<char>,
    alert_endpoint: Seq<char>,
    alert: AlertView,
) -> Seq<BindingView> {
    seq![
        (BindingView { token: "<IMG_URI>"@, value: content_uri }),
        (BindingView { token: "<CAMERA_NAME>"@, value: alert.camera_name }),
        (BindingView { token: "<TIME>"@, value: alert.time }),
        (BindingView { token: "<DETECTIONS>"@, value: alert.detections }),
        (BindingView {
            token: "<ENDPOINT_URL>"@,
            value: spec_deep_link(alert_endpoint, alert.db_id, alert.camera_name),
        }),
    ]
}

/// Builds the Matrix room message for one alert: the template with the
/// uploaded image's content URI, the alert's fields and the deep link
/// substituted in.
pub fn build_message(content_uri: &str, alert_endpoint: &str, bvr_msg: &BvrChirpMessage) -> (r:
    String)
    ensures
        r@ == spec_render(
            matrix_template_text(),
            matrix_bindings(content_uri@, alert_endpoint@, bvr_msg@),
        ),
{
    let link = deep_link(alert_endpoint, bvr_msg.db_id.as_str(), bvr_msg.camera_name.as_str());
    let mut subs: Vec<Binding> = Vec::new();
    subs.push(Binding { token: "<IMG_URI>".to_owned(), value: content_uri.to_owned() });
    subs.push(Binding { token: "<CAMERA_NAME>".to_owned(), value: bvr_msg.camera_name.clone() });
    subs.push(Binding { token: "<TIME>".to_owned(), value: bvr_msg.time.clone() });
    subs.push(Binding { token: "<DETECTIONS>".to_owned(), value: bvr_msg.detections.clone() });
    subs.push(Binding { token: "<ENDPOINT_URL>".to_owned(), value: link });
    let template = matrix_template();
    proof {
        assert(binding_views(subs@) =~= matrix_bindings(content_uri@, alert_endpoint@, bvr_msg@));
    }
    render(template.as_str(), &subs)
}

/// State of one room's auto-join attempt.
#[derive(Clone, Copy, PartialEq, Eq, Structural, Debug)]
pub enum JoinState {
    /// Still trying; `delay_secs` is the wait before the next retry.
    Trying { delay_secs: u64 },
    /// The join succeeded.
    Joined,
    /// The backoff exceeded its ceiling; the room is given up for good.
    Abandoned,
}

/// What the caller must do after one join attempt was resolved.
#[derive(Clone, Copy, PartialEq, Eq, Structural, Debug)]
pub enum JoinAction {
    /// The join succeeded: stop retrying.
    Complete,
    /// Wait `delay_secs`, then attempt the join again.
    RetryAfter { delay_secs: u64 },
    /// Emit one permanent-failure diagnostic for the room and stop.
    AbandonRoom,
    /// Nothing: the attempt was already resolved for good.
    Idle,
}

/// A join state whose pending delay is within the backoff's range.
pub open spec fn join_state_wf(s: JoinState) -> bool {
    match s {
        JoinState::Trying { delay_secs } => 1 <= delay_secs <= JOIN_RETRY_CEILING_SECS,
        _ => true,
    }
}

/// The state in which a room's auto-join starts.
pub open spec fn join_initial() -> JoinState {
    JoinState::Trying { delay_secs: JOIN_RETRY_BASE_SECS }
}

/// One step of the auto-join backoff: `joined` reports whether the join
/// attempt just made succeeded.
pub open spec fn spec_join_step(s: JoinState, joined: bool) -> (JoinState, JoinAction) {
    match s {
        JoinState::Trying { delay_secs } => {
            if joined {
                (JoinState::Joined, JoinAction::Complete)
            } else if 2 * delay_secs > JOIN_RETRY_CEILING_SECS {
                (JoinState::Abandoned, JoinAction::AbandonRoom)
            } else {
                (
                    JoinState::Trying { delay_secs: (2 * delay_secs) as u64 },
                    JoinAction::RetryAfter { delay_secs },
                )
            }
        },
        JoinState::Joined => (JoinState::Joined, JoinAction::Idle),
        JoinState::Abandoned => (JoinState::Abandoned, JoinAction::Idle),
    }
}

/// Creates the starting state for one room's auto-join.
pub fn join_start() -> (s: JoinState)
    ensures
        s == join_initial(),
        join_state_wf(s),
{
    JoinState::Trying { delay_secs: JOIN_RETRY_BASE_SECS }
}

/// Advances the auto-join backoff by one resolved attempt.
pub fn join_step(state: &JoinState, joined: bool) -> (r: (JoinState, JoinAction))
    requires
        join_state_wf(*state),
    ensures
        r == spec_join_step(*state, joined),
        join_state_wf(r.0),
{
    match state {
        JoinState::Trying { delay_secs } => {
            let d = *delay_secs;
            if joined {
                (JoinState::Joined, JoinAction::Complete)
            } else if d > JOIN_RETRY_CEILING_SECS / 2 {
                (JoinState::Abandoned, JoinAction::AbandonRoom)
            } else {
                (
                    JoinState::Trying { delay_secs: 2 * d },
                    JoinAction::RetryAfter { delay_secs: d },
                )
            }
        },
        JoinState::Joined => (JoinState::Joined, JoinAction::Idle),
        JoinState::Abandoned => (JoinState::Abandoned, JoinAction::Idle),
    }
}

/// State after `fails` consecutive failed join attempts.
pub open spec fn spec_join_run(s: JoinState, fails: nat) -> JoinState
    decreases fails,
{
    if fails == 0 {
        s
    } else {
        spec_join_run(spec_join_step(s, false).0, (fails - 1) as nat)
    }
}

/// The actions prescribed over `fails` consecutive failed join attempts.
pub open spec fn spec_join_actions(s: JoinState, fails: nat) -> Seq<JoinAction>
    decreases fails,
{
    if fails == 0 {
        Seq::empty()
    } else {
        seq![spec_join_step(s, false).1] + spec_join_actions(
            spec_join_step(s, false).0,
            (fails - 1) as nat,
        )
    }
}

/// Two to the power `k`.
pub open spec fn pow2(k: nat) -> nat
    decreases k,
{
    if k == 0 {
        1
    } else {
        2 * pow2((k - 1) as nat)
    }
}

pub proof fn lemma_pow2_pos(k: nat)
    ensures
        pow2(k) >= 1,
    decreases k,
{
    if k > 0 {
        lemma_pow2_pos((k - 1) as nat);
    }
}

/// Backoff schedule: from a pending delay `d`, `k` failed attempts in a
/// row prescribe the retry delays `d, 2d, 4d, ...`, doubling each time,
/// as long as the delay after the last failure is still within the
/// ceiling.
pub proof fn lemma_join_backoff_schedule(d: u64, k: nat)
    requires
        1 <= d,
        d * pow2(k) <= JOIN_RETRY_CEILING_SECS,
    ensures
        spec_join_run(JoinState::Trying { delay_secs: d }, k) == (JoinState::Trying {
            delay_secs: (d * pow2(k)) as u64,
        }),
        spec_join_actions(JoinState::Trying { delay_secs: d }, k) =~= Seq::new(
            k,
            |j: int| JoinAction::RetryAfter { delay_secs: (d * pow2(j as nat)) as u64 },
        ),
    decreases k,
{
    if k == 0 {
        assert(pow2(0) == 1);
        assert(d * pow2(0) == d) by (nonlinear_arith)
            requires
                pow2(0) == 1,
        ;
    } else {
        let ghost p: int = pow2(k) as int;
        let ghost q: int = pow2((k - 1) as nat) as int;
        lemma_pow2_pos((k - 1) as nat);
        assert(p == 2 * q);
        assert(2 * d <= d * p) by (nonlinear_arith)
            requires
                1 <= d,
                2 <= p,
        ;
        assert((2 * d) * q == d * p) by (nonlinear_arith)
            requires
                p == 2 * q,
        ;
        let s0 = JoinState::Trying { delay_secs: d };
        let (s1, a1) = spec_join_step(s0, false);
        assert(s1 == (JoinState::Trying { delay_secs: (2 * d) as u64 }));
        assert(a1 == (JoinAction::RetryAfter { delay_secs: d }));
        lemma_join_backoff_schedule((2 * d) as u64, (k - 1) as nat);
        let lhs = seq![a1] + Seq::new(
            (k - 1) as nat,
            |j: int| JoinAction::RetryAfter {
                delay_secs: ((2 * d) as u64 * pow2(j as nat)) as u64,
            },
        );
        let rhs = Seq::new(
            k,
            |j: int| JoinAction::RetryAfter { delay_secs: (d * pow2(j as nat)) as u64 },
        );
        assert forall|j: int| 0 <= j < k implies #[trigger] lhs[j] == rhs[j] by {
            if j > 0 {
                let pj: int = pow2(j as nat) as int;
                let qj: int = pow2((j - 1) as nat) as int;
                assert(pj == 2 * qj);
                assert((2 * d) * qj == d * pj) by (nonlinear_arith)
                    requires
                        pj == 2 * qj,
                ;
            } else {
                assert(pow2(0) == 1);
                assert(d * pow2(0) == d) by (nonlinear_arith)
                    requires
                        pow2(0) == 1,
                ;
            }
        }
        assert(lhs =~= rhs);
        assert(spec_join_actions(s0, k) =~= lhs);
    }
}

/// Once the doubled delay would pass the ceiling, one further failure
/// abandons the room: exactly one permanent-failure action, and no
/// retries afterwards.
pub proof fn lemma_join_abandons_once(d: u64, k: nat)
    requires
        1 <= d,
        2 * d > JOIN_RETRY_CEILING_SECS,
        k >= 1,
    ensures
        spec_join_run(JoinState::Trying { delay_secs: d }, k) == JoinState::Abandoned,
        spec_join_actions(JoinState::Trying { delay_secs: d }, k) =~= seq![
            JoinAction::AbandonRoom,
        ] + Seq::new((k - 1) as nat, |j: int| JoinAction::Idle),
{
    lemma_join_abandoned_absorbing((k - 1) as nat);
}

/// An abandoned room stays abandoned and prescribes nothing further.
pub proof fn lemma_join_abandoned_absorbing(k: nat)
    ensures
        spec_join_run(JoinState::Abandoned, k) == JoinState::Abandoned,
        spec_join_actions(JoinState::Abandoned, k) =~= Seq::new(k, |j: int| JoinAction::Idle),
    decreases k,
{
    if k > 0 {
        lemma_join_abandoned_absorbing((k - 1) as nat);
        assert(spec_join_actions(JoinState::Abandoned, k) =~= Seq::new(
            k,
            |j: int| JoinAction::Idle,
        ));
    }
}

/// The full backoff law from a fresh start: retry delays
/// `base, 2 x base, 4 x base, ...` while within the ceiling.
pub proof fn lemma_join_backoff_from_start(k: nat)
    requires
        JOIN_RETRY_BASE_SECS * pow2(k) <= JOIN_RETRY_CEILING_SECS,
    ensures
        spec_join_actions(join_initial(), k) =~= Seq::new(
            k,
            |j: int| JoinAction::RetryAfter {
                delay_secs: (JOIN_RETRY_BASE_SECS * pow2(j as nat)) as u64,
            },
        ),
{
    lemma_join_backoff_schedule(JOIN_RETRY_BASE_SECS, k);
}

} // verus!
