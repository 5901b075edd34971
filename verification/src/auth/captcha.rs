//! The slider captcha of the unified authentication: the key and signature of
//! a solution, the timing of the drag that is reported, the reading of the
//! server's verdict and the number of attempts.

use vstd::prelude::*;
use crate::auth::crypto::{EncryptError, decode_base64, encrypt, encrypt_spec, spec_base64_decode};
use crate::auth::random::{choose_one, random_range};
use crate::text::{chars_of, decimal, string_of, u64_decimal};

verus! {

broadcast use vstd::string::group_string_axioms;

/// How many captchas are tried before the login gives up.
pub const MAX_CAPTCHA_ATTEMPTS: usize = 5;

/// Why a slider captcha was not passed.
#[derive(Debug, Clone, PartialEq, Eq)]
pub enum CaptchaError {
    /// The small image has fewer than 16 bytes, so it holds no key.
    ShortImage,
    /// The image with this name is not valid Base64.
    Decode(String),
    /// The server refused the solution with this code and message.
    Rejected { code: i64, message: String },
}

/// The key of a captcha: the last 16 bytes of its small image.
pub open spec fn captcha_key(small_image: Seq<u8>) -> Seq<u8> {
    small_image.skip(small_image.len() - 16)
}

/// The key that the solution of a captcha is encrypted with: the last 16
/// bytes of the small image.
pub fn safe_secure(small_image: &[u8]) -> (r: Result<&[u8], CaptchaError>)
    ensures
        small_image@.len() >= 16 ==> (r matches Ok(k) && k@ == captcha_key(small_image@)),
        small_image@.len() < 16 ==> r == Err::<&[u8], CaptchaError>(CaptchaError::ShortImage),
{
    let n = small_image.len();
    if n < 16 {
        return Err(CaptchaError::ShortImage);
    }
    Ok(&small_image[n - 16..n])
}

/// The bytes of the captcha image `name`, sent as standard Base64 `encoded`.
pub fn decode_image(name: &str, encoded: &str) -> (r: Result<Vec<u8>, CaptchaError>)
    ensures
        match spec_base64_decode(encoded@) {
            Some(b) => r matches Ok(v) && v@ == b,
            None => r matches Err(CaptchaError::Decode(n)) && n@ == name@,
        },
{
    match decode_base64(encoded) {
        Some(v) => Ok(v),
        None => Err(CaptchaError::Decode(name.to_string())),
    }
}

/// The signature sent for the solution `track_json` of the captcha whose
/// small image is `small_image`: the solution encrypted under the image's key.
pub fn captcha_sign(track_json: &str, small_image: &[u8]) -> (r: Result<String, CaptchaError>)
    ensures
        small_image@.len() < 16 ==> r == Err::<String, CaptchaError>(CaptchaError::ShortImage),
        small_image@.len() >= 16 ==> (r matches Ok(s) && encrypt_spec(
            track_json@,
            captcha_key(small_image@),
        ) == Ok::<Seq<char>, EncryptError>(s@)),
{
    let key = safe_secure(small_image)?;
    match encrypt(track_json, key) {
        Ok(s) => Ok(s),
        Err(_) => Err(CaptchaError::ShortImage),
    }
}

/// Reads the server's verdict on a solution: it is passed exactly where the
/// message is `success`.
pub fn check_captcha_result(error_code: i64, error_msg: &str) -> (r: Result<(), CaptchaError>)
    ensures
        error_msg@ == "success"@ ==> r is Ok,
        error_msg@ != "success"@ ==> (r matches Err(CaptchaError::Rejected { code, message })
            && code == error_code && message@ == error_msg@),
{
    let m = chars_of(error_msg);
    let ok: [char; 7] = ['s', 'u', 'c', 'c', 'e', 's', 's'];
    proof {
        reveal_strlit("success");
        assert(ok@ == "success"@);
    }
    if crate::text::chars_eq(m.as_slice(), &ok) {
        Ok(())
    } else {
        Err(CaptchaError::Rejected { code: error_code, message: error_msg.to_string() })
    }
}

/// What to do after an attempt at the captcha.
#[derive(Debug, Clone, Copy, PartialEq, Eq, Structural)]
pub enum CaptchaNext {
    /// The captcha was passed.
    Done,
    /// Try again; this is the number of the next attempt.
    Retry(usize),
    /// All attempts failed.
    GiveUp,
}

/// The step after attempt number `attempt`, which `succeeded` or not.
pub open spec fn captcha_next_spec(attempt: int, succeeded: bool) -> CaptchaNext {
    if succeeded {
        CaptchaNext::Done
    } else if attempt < MAX_CAPTCHA_ATTEMPTS {
        CaptchaNext::Retry((attempt + 1) as usize)
    } else {
        CaptchaNext::GiveUp
    }
}

/// A whole run of attempts from attempt number `attempt` on, where the
/// attempts numbered up to `k` fail and later ones pass, each step taken as
/// [`next_captcha_attempt`] takes it: the number of the last attempt made and
/// whether the captcha was passed.
pub open spec fn captcha_run(attempt: int, k: nat) -> (int, bool)
    decreases MAX_CAPTCHA_ATTEMPTS - attempt,
{
    if attempt < 1 || attempt > MAX_CAPTCHA_ATTEMPTS {
        (attempt, false)
    } else {
        match captcha_next_spec(attempt, attempt > k) {
            CaptchaNext::Done => (attempt, true),
            CaptchaNext::Retry(n) => captcha_run(n as int, k),
            CaptchaNext::GiveUp => (attempt, false),
        }
    }
}

/// Where the first `k` attempts fail and the next would pass, the run from
/// the first attempt makes `min(k + 1, 5)` attempts and passes exactly when
/// `k < 5`; a run that gives up ends on attempt 5, whose error carries the
/// note `attempt 5/5 failed`.
pub proof fn lemma_captcha_run(k: nat)
    ensures
        k < MAX_CAPTCHA_ATTEMPTS ==> captcha_run(1, k) == ((k + 1) as int, true),
        k >= MAX_CAPTCHA_ATTEMPTS ==> captcha_run(1, k) == (MAX_CAPTCHA_ATTEMPTS as int, false),
{
    lemma_captcha_run_from(1, k);
}

proof fn lemma_captcha_run_from(attempt: int, k: nat)
    requires
        1 <= attempt <= MAX_CAPTCHA_ATTEMPTS,
        attempt <= k + 1,
    ensures
        k < MAX_CAPTCHA_ATTEMPTS ==> captcha_run(attempt, k) == ((k + 1) as int, true),
        k >= MAX_CAPTCHA_ATTEMPTS ==> captcha_run(attempt, k) == (MAX_CAPTCHA_ATTEMPTS as int, false),
    decreases MAX_CAPTCHA_ATTEMPTS - attempt,
{
    if attempt <= k && attempt < MAX_CAPTCHA_ATTEMPTS {
        lemma_captcha_run_from(attempt + 1, k);
    }
}

/// The next step after attempt number `attempt` (counted from 1), which
/// `succeeded` or not: at most [`MAX_CAPTCHA_ATTEMPTS`] attempts are made.
pub fn next_captcha_attempt(attempt: usize, succeeded: bool) -> (r: CaptchaNext)
    requires
        1 <= attempt <= MAX_CAPTCHA_ATTEMPTS,
    ensures
        succeeded ==> r == CaptchaNext::Done,
        !succeeded && attempt < MAX_CAPTCHA_ATTEMPTS ==> r == CaptchaNext::Retry(
            (attempt + 1) as usize,
        ),
        !succeeded && attempt == MAX_CAPTCHA_ATTEMPTS ==> r == CaptchaNext::GiveUp,
        r == captcha_next_spec(attempt as int, succeeded),
{
    if succeeded {
        CaptchaNext::Done
    } else if attempt < MAX_CAPTCHA_ATTEMPTS {
        CaptchaNext::Retry(attempt + 1)
    } else {
        CaptchaNext::GiveUp
    }
}

/// The note added to the error of a failed attempt.
pub open spec fn attempt_failed_spec(attempt: nat) -> Seq<char> {
    "NJU auth slider captcha attempt "@ + decimal(attempt) + "/"@ + decimal(
        MAX_CAPTCHA_ATTEMPTS as nat,
    ) + " failed"@
}

/// The note added to the error of failed attempt number `attempt`.
pub fn attempt_failed_message(attempt: usize) -> (r: String)
    ensures
        r@ == attempt_failed_spec(attempt as nat),
{
    let mut s = "NJU auth slider captcha attempt ".to_string();
    let a = u64_decimal(attempt as u64);
    s.append(string_of(a.as_slice()).as_str());
    s.append("/");
    let m = u64_decimal(MAX_CAPTCHA_ATTEMPTS as u64);
    s.append(string_of(m.as_slice()).as_str());
    s.append(" failed");
    s
}

/// The range, both ends included, of the pause after point number `index`
/// (counted from 1) of a drag of `count` points: a slow start, quick moves, a
/// slowing down over the last points and a long rest at the end.
pub open spec fn interval_bounds(index: int, count: int) -> (int, int) {
    if index <= 2 {
        (45, 85)
    } else if index == count {
        (400, 700)
    } else if index >= count - 2 {
        (70, 160)
    } else {
        (28, 38)
    }
}

/// The vertical jitter that a point of the drag may have.
pub open spec fn vertical_offsets() -> Seq<i32> {
    seq![-1i32, 0i32, 0i32, 0i32, 1i32]
}

/// The timing of a drag: for each point, the pause after it in milliseconds
/// and its vertical offset.
pub struct TrackTiming {
    pub intervals: Vec<u64>,
    pub vertical_offsets: Vec<i32>,
}

/// Whether `t` is the timing of a drag as the login page makes one: 19 to 22
/// points, each pause in the range of its point, each offset one of
/// [`vertical_offsets`] and the last one `0`.
pub open spec fn is_track_timing(intervals: Seq<u64>, offsets: Seq<i32>) -> bool {
    let n = intervals.len() as int;
    &&& 19 <= n <= 22
    &&& offsets.len() == n
    &&& forall|i: int|
        0 <= i < n ==> interval_bounds(i + 1, n).0 <= #[trigger] intervals[i] <= interval_bounds(
            i + 1,
            n,
        ).1
    &&& forall|i: int| 0 <= i < n - 1 ==> vertical_offsets().contains(#[trigger] offsets[i])
    &&& offsets[n - 1] == 0
}

/// A random timing for a drag of the captcha slider.
pub fn generate_track_timing() -> (r: TrackTiming)
    ensures
        is_track_timing(r.intervals@, r.vertical_offsets@),
{
    let count = random_range(19, 23);
    let choices: [i32; 5] = [-1, 0, 0, 0, 1];
    assert(choices@ == vertical_offsets());
    let mut intervals: Vec<u64> = Vec::new();
    let mut offsets: Vec<i32> = Vec::new();
    let mut index: u64 = 1;
    while index <= count
        invariant
            19 <= count <= 22,
            1 <= index <= count + 1,
            intervals@.len() == index - 1,
            offsets@.len() == index - 1,
            choices@ == vertical_offsets(),
            forall|i: int|
                0 <= i < index - 1 ==> interval_bounds(i + 1, count as int).0 <= #[trigger] intervals@[i]
                    <= interval_bounds(i + 1, count as int).1,
            forall|i: int| 0 <= i < index - 1 && i < count - 1 ==> vertical_offsets().contains(#[trigger] offsets@[i]),
            index - 1 == count ==> offsets@[count - 1] == 0,
        decreases count + 1 - index,
    {
        let interval = if index <= 2 {
            random_range(45, 86)
        } else if index == count {
            random_range(400, 701)
        } else if index >= count - 2 {
            random_range(70, 161)
        } else {
            random_range(28, 39)
        };
        let offset = if index == count {
            0
        } else {
            choose_one(&choices)
        };
        intervals.push(interval);
        offsets.push(offset);
        index += 1;
    }
    TrackTiming { intervals, vertical_offsets: offsets }
}

/// The sum of `s`.
pub open spec fn seq_sum(s: Seq<u64>) -> int
    decreases s.len(),
{
    if s.len() == 0 {
        0
    } else {
        seq_sum(s.drop_last()) + s.last()
    }
}

/// The sum of a sequence of `u64` is at least each of its prefixes' sums.
proof fn lemma_seq_sum_prefix(s: Seq<u64>, i: int)
    requires
        0 <= i <= s.len(),
    ensures
        seq_sum(s.take(i)) <= seq_sum(s),
    decreases s.len() - i,
{
    if i < s.len() {
        lemma_seq_sum_prefix(s, i + 1);
        assert(s.take(i + 1).drop_last() == s.take(i));
    } else {
        assert(s.take(i) == s);
    }
}

/// How long the drag lasts: the sum of its pauses, which the client waits
/// before it sends the solution.
pub fn total_wait(intervals: &[u64]) -> (r: u64)
    requires
        seq_sum(intervals@) <= u64::MAX,
    ensures
        r == seq_sum(intervals@),
{
    let mut total: u64 = 0;
    let mut i: usize = 0;
    while i < intervals.len()
        invariant
            i <= intervals@.len(),
            total == seq_sum(intervals@.take(i as int)),
            seq_sum(intervals@) <= u64::MAX,
        decreases intervals@.len() - i,
    {
        proof {
            lemma_seq_sum_prefix(intervals@, i + 1);
            assert(intervals@.take(i + 1).drop_last() == intervals@.take(i as int));
        }
        total = total + intervals[i];
        i += 1;
    }
    assert(intervals@.take(intervals@.len() as int) == intervals@);
    total
}

} // verus!
