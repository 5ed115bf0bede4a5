//! Discord destination logic: channel resolution and message parts.
//!
//! Discord is a direct-post destination: caption, deep link and image
//! attachment go out in one call. Everything up to that call — parsing
//! the alert's target as a numeric channel id and building the texts —
//! is computed and proved here; the network side lives outside.

use vstd::prelude::*;

verus! {

use vstd::string::StrSliceExecFns;
use vstd::string::StringExecFns;

use crate::alert::BvrChirpMessage;
use crate::templates::{deep_link, spec_deep_link};

/// Whether `c` is a decimal digit.
pub open spec fn is_digit(c: char) -> bool {
    48 <= c as int <= 57
}

/// The value of a decimal digit.
pub open spec fn digit_val(c: char) -> int {
    c as int - 48
}

/// Every character of `s` is a decimal digit.
pub open spec fn all_digits(s: Seq<char>) -> bool {
    forall|i: int| 0 <= i < s.len() ==> is_digit(#[trigger] s[i])
}

/// The number the digit string `s` denotes, most significant digit
/// first.
pub open spec fn digits_val(s: Seq<char>) -> int
    decreases s.len(),
{
    if s.len() == 0 {
        0
    } else {
        digits_val(s.drop_last()) * 10 + digit_val(s.last())
    }
}

/// The number `s` parses to as a `u64`: an optional leading `+`, then
/// one or more decimal digits, denoting a value that fits in 64 bits —
/// as `str::parse::<u64>` accepts.
pub open spec fn spec_parse_u64(s: Seq<char>) -> Option<u64> {
    let d = if s.len() >= 1 && s[0] == '+' {
        s.skip(1)
    } else {
        s
    };
    if d.len() >= 1 && all_digits(d) && digits_val(d) <= u64::MAX {
        Option::Some(digits_val(d) as u64)
    } else {
        Option::None
    }
}

pub proof fn lemma_digits_val_nonneg(s: Seq<char>)
    requires
        all_digits(s),
    ensures
        digits_val(s) >= 0,
    decreases s.len(),
{
    if s.len() > 0 {
        assert(all_digits(s.drop_last()));
        lemma_digits_val_nonneg(s.drop_last());
    }
}

/// A digit string denotes at least what any of its prefixes denotes.
pub proof fn lemma_digits_val_monotone(s: Seq<char>, k: int)
    requires
        all_digits(s),
        0 <= k <= s.len(),
    ensures
        digits_val(s) >= digits_val(s.take(k)),
    decreases s.len() - k,
{
    if k < s.len() {
        assert(s.take(k + 1).drop_last() =~= s.take(k));
        assert(s.take(k + 1).last() == s[k]);
        assert(all_digits(s.take(k)));
        lemma_digits_val_nonneg(s.take(k));
        assert(digits_val(s.take(k + 1)) == digits_val(s.take(k)) * 10 + digit_val(s[k]));
        assert(digits_val(s.take(k)) * 10 >= digits_val(s.take(k)));
        lemma_digits_val_monotone(s, k + 1);
    } else {
        assert(s.take(k) =~= s);
    }
}

/// Parses a decimal `u64`, as `str::parse::<u64>` does: an optional
/// leading `+`, then one or more digits, rejecting overflow.
pub fn parse_u64(s: &str) -> (r: Option<u64>)
    ensures
        r == spec_parse_u64(s@),
{
    let n = s.unicode_len();
    let off: usize = if n >= 1 && s.get_char(0) == '+' {
        1
    } else {
        0
    };
    let ghost d = if off == 1 {
        s@.skip(1)
    } else {
        s@
    };
    if n == off {
        assert(d.len() == 0);
        return Option::None;
    }
    let mut acc: u64 = 0;
    let mut i: usize = off;
    while i < n
        invariant
            n == s@.len(),
            off <= 1,
            off <= i <= n,
            off == 1 <==> (s@.len() >= 1 && s@[0] == '+'),
            off == 1 ==> d == s@.skip(1),
            off == 0 ==> d == s@,
            d.len() == n - off,
            forall|k: int| 0 <= k < d.len() ==> d[k] == s@[k + off],
            all_digits(d.take(i - off)),
            acc == digits_val(d.take(i - off)),
        decreases n - i,
    {
        let c = s.get_char(i);
        let cv: u32 = c as u32;
        let ghost j: int = i - off;
        proof {
            assert(d[j] == c);
            assert(d.take(j + 1).drop_last() =~= d.take(j));
            assert(d.take(j + 1).last() == d[j]);
        }
        if cv < 48 || cv > 57 {
            proof {
                assert(!is_digit(d[j]));
                assert(!all_digits(d));
            }
            return Option::None;
        }
        let dv: u64 = (cv - 48) as u64;
        assert(dv as int == digit_val(d[j]));
        let shifted = match acc.checked_mul(10) {
            Option::Some(v) => v,
            Option::None => {
                proof {
                    assert(digits_val(d.take(j + 1)) > u64::MAX);
                    if all_digits(d) {
                        lemma_digits_val_monotone(d, j + 1);
                    }
                }
                return Option::None;
            },
        };
        let acc2 = match shifted.checked_add(dv) {
            Option::Some(v) => v,
            Option::None => {
                proof {
                    assert(digits_val(d.take(j + 1)) > u64::MAX);
                    if all_digits(d) {
                        lemma_digits_val_monotone(d, j + 1);
                    }
                }
                return Option::None;
            },
        };
        proof {
            assert(all_digits(d.take(j + 1)));
        }
        acc = acc2;
        i += 1;
    }
    proof {
        assert(d.take(n - off) =~= d);
    }
    Option::Some(acc)
}

/// Why a Discord delivery was refused before any network call.
#[derive(Clone, Copy, PartialEq, Eq, Structural, Debug)]
pub enum DiscordError {
    /// The alert's target does not parse as a numeric channel id.
    InvalidChannelId,
}

/// Everything the one Discord post needs: the resolved channel and the
/// rendered texts.
#[derive(Clone, Debug)]
pub struct DiscordMessage {
    /// The alert's target, parsed as Discord's numeric channel id.
    pub channel_id: u64,
    /// Embed title.
    pub title: String,
    /// Embed link: the alert deep link.
    pub url: String,
    /// Detections field text.
    pub detections: String,
    /// Time field text.
    pub time: String,
    /// File name of the attached image.
    pub attachment_name: String,
}

/// Embed title for one alert.
pub open spec fn spec_title(camera_name: Seq<char>) -> Seq<char> {
    "Detection on "@ + camera_name + " camera"@
}

/// File name under which the alert image is attached.
pub open spec fn spec_attachment_name(camera_name: Seq<char>) -> Seq<char> {
    camera_name + ".jpg"@
}

/// Resolves the channel and builds every text of the Discord message
/// for one alert. Fails exactly when the alert's target is not a
/// numeric channel id; such a failure is a per-alert error, decided
/// before any network call.
pub fn prepare_message(bvr_msg: &BvrChirpMessage, alert_endpoint: &str) -> (r: Result<
    DiscordMessage,
    DiscordError,
>)
    ensures
        r is Err <==> spec_parse_u64(bvr_msg.target@) is None,
        r matches Err(e) ==> e == DiscordError::InvalidChannelId,
        r matches Ok(dm) ==> {
            &&& Option::Some(dm.channel_id) == spec_parse_u64(bvr_msg.target@)
            &&& dm.title@ == spec_title(bvr_msg.camera_name@)
            &&& dm.url@ == spec_deep_link(alert_endpoint@, bvr_msg.db_id@, bvr_msg.camera_name@)
            &&& dm.detections@ == bvr_msg.detections@
            &&& dm.time@ == bvr_msg.time@
            &&& dm.attachment_name@ == spec_attachment_name(bvr_msg.camera_name@)
        },
{
    let channel_id = match parse_u64(bvr_msg.target.as_str()) {
        Option::Some(id) => id,
        Option::None => {
            return Result::Err(DiscordError::InvalidChannelId);
        },
    };
    let mut title = "Detection on ".to_owned();
    title.append(bvr_msg.camera_name.as_str());
    title.append(" camera");
    let url = deep_link(alert_endpoint, bvr_msg.db_id.as_str(), bvr_msg.camera_name.as_str());
    let mut attachment_name = bvr_msg.camera_name.clone();
    attachment_name.append(".jpg");
    Result::Ok(
        DiscordMessage {
            channel_id,
            title,
            url,
            detections: bvr_msg.detections.clone(),
            time: bvr_msg.time.clone(),
            attachment_name,
        },
    )
}

} // verus!
