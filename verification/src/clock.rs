//! Points in time: the clock, the expiry of tokens and the text of a timestamp.
use crate::text;
use vstd::prelude::*;

verus! {

/// The last millisecond, counted from 1970, that a `chrono::DateTime` can hold.
pub const CLOCK_MAX_MS: i64 = 8_210_266_876_799_999;

/// The first millisecond, counted from 1970, that a `chrono::DateTime` can hold.
pub const CLOCK_MIN_MS: i64 = -8_334_601_228_800_000;

/// The last second, counted from 1970, that a `chrono::DateTime` can hold.
pub const CLOCK_MAX_SECS: i64 = 8_210_266_876_799;

/// The life of an access token, in seconds, where the server names none.
pub const DEFAULT_TOKEN_LIFE_SECS: i64 = 3600;

/// Whether the clock can show `ms`, in milliseconds.
pub open spec fn clock_shows_ms(ms: i64) -> bool {
    0 <= ms <= CLOCK_MAX_MS
}

/// Whether the clock can show `secs`, in seconds.
pub open spec fn clock_shows_secs(secs: i64) -> bool {
    0 <= secs <= CLOCK_MAX_SECS
}

/// The text that `chrono` writes for a point in time, `ms` milliseconds from 1970
/// on: RFC 3339 in UTC, with nanoseconds and a closing `Z`. Nothing for a point in
/// time outside the years that it knows.
pub uninterp spec fn rfc3339_text(ms: i64) -> Option<Seq<char>>;

/// `chrono::Utc::now` in milliseconds from 1970 on. It gives no time before 1970
/// and none that `chrono` cannot hold; which one it gives is not said.
#[verifier::external_body]
pub(crate) fn current_time_ms() -> (now_ms: i64)
    ensures
        clock_shows_ms(now_ms),
{
    chrono::Utc::now().timestamp_millis()
}

/// `chrono::Utc::now` in seconds from 1970 on. It gives no time before 1970 and
/// none that `chrono` cannot hold; which one it gives is not said.
#[verifier::external_body]
pub(crate) fn current_time_secs() -> (now_secs: i64)
    ensures
        clock_shows_secs(now_secs),
{
    chrono::Utc::now().timestamp()
}

/// `chrono::DateTime::to_rfc3339_opts` of `DateTime::from_timestamp_millis`, with
/// nanoseconds and `Z`: a function of the milliseconds alone, which gives a text
/// for exactly the points in time that `chrono` can hold.
#[verifier::external_body]
fn format_rfc3339(ms: i64) -> (result: Option<String>)
    ensures
        text::view_opt(result) == rfc3339_text(ms),
        result is Some <==> writable(ms),
{
    chrono::DateTime::<chrono::Utc>::from_timestamp_millis(ms).map(
        |time| time.to_rfc3339_opts(chrono::SecondsFormat::Nanos, true),
    )
}

/// Whether a point in time can be written: whether a `chrono::DateTime` can hold it.
pub open spec fn writable(ms: i64) -> bool {
    CLOCK_MIN_MS <= ms <= CLOCK_MAX_MS
}

/// The time that is written for `obtained_at_ms`: that time itself, or `fallback_ms`
/// where it cannot be written.
pub open spec fn written_time(obtained_at_ms: i64, fallback_ms: i64) -> i64 {
    if writable(obtained_at_ms) {
        obtained_at_ms
    } else {
        fallback_ms
    }
}

/// The text of the time `obtained_at_ms`, or of `fallback_ms` where that time cannot
/// be written.
pub open spec fn time_text(obtained_at_ms: i64, fallback_ms: i64) -> Seq<char> {
    rfc3339_text(written_time(obtained_at_ms, fallback_ms))->0
}

/// Whether `text` is the text of the time `obtained_at_ms`, or of `fallback_ms`
/// where that time cannot be written.
pub open spec fn writes_time(text: Seq<char>, obtained_at_ms: i64, fallback_ms: i64) -> bool {
    rfc3339_text(written_time(obtained_at_ms, fallback_ms)) == Some(text)
}

/// The text of the time `obtained_at_ms`, or of `now_ms` where that time cannot be
/// written.
pub fn last_refresh_text_at(obtained_at_ms: i64, now_ms: i64) -> (result: String)
    requires
        clock_shows_ms(now_ms),
    ensures
        result@ == time_text(obtained_at_ms, now_ms),
        writes_time(result@, obtained_at_ms, now_ms),
        writable(obtained_at_ms) ==> rfc3339_text(obtained_at_ms) == Some(result@),
{
    match format_rfc3339(obtained_at_ms) {
        Some(text) => text,
        None => {
            let now_text = format_rfc3339(now_ms);
            now_text.unwrap()
        },
    }
}

/// The text of the time `obtained_at_ms`, or of the current time where that time
/// cannot be written.
pub fn last_refresh_text(obtained_at_ms: i64) -> (result: String)
    ensures
        exists|now_ms: i64|
            clock_shows_ms(now_ms) && result@ == #[trigger] time_text(obtained_at_ms, now_ms)
                && writes_time(result@, obtained_at_ms, now_ms),
        writable(obtained_at_ms) ==> rfc3339_text(obtained_at_ms) == Some(result@),
{
    last_refresh_text_at(obtained_at_ms, current_time_ms())
}

/// The life of a token, in seconds.
pub open spec fn token_life_secs(expires_in: Option<i64>) -> i64 {
    match expires_in {
        Some(secs) => secs,
        None => DEFAULT_TOKEN_LIFE_SECS,
    }
}

/// When a token of the life `expires_in`, obtained at `now_ms`, expires.
pub open spec fn expires_at(now_ms: i64, expires_in: Option<i64>) -> int {
    now_ms + token_life_secs(expires_in) * 1000
}

/// Whether `value` is a signed 64-bit integer.
pub open spec fn fits_i64(value: int) -> bool {
    i64::MIN <= value <= i64::MAX
}

/// Whether the expiry of a token can be computed in 64 bits.
pub open spec fn expiry_fits(now_ms: i64, expires_in: Option<i64>) -> bool {
    &&& fits_i64(token_life_secs(expires_in) * 1000)
    &&& fits_i64(expires_at(now_ms, expires_in))
}

/// Whether the expiry of a token can be computed in 64 bits at whatever time.
pub open spec fn expiry_always_fits(expires_in: Option<i64>) -> bool {
    forall|now_ms: i64| clock_shows_ms(now_ms) ==> #[trigger] expiry_fits(now_ms, expires_in)
}

/// Whether the expiry of a token of the life `expires_in` can be computed in 64
/// bits at whatever time.
pub fn life_fits(expires_in: Option<i64>) -> (result: bool)
    ensures
        result == expiry_always_fits(expires_in),
{
    let secs: i64 = match expires_in {
        Some(secs) => secs,
        None => DEFAULT_TOKEN_LIFE_SECS,
    };
    let life_ms: i128 = secs as i128 * 1000;
    let result = i64::MIN as i128 <= life_ms && life_ms + CLOCK_MAX_MS as i128 <= i64::MAX as i128;
    proof {
        if !result {
            assert(!expiry_fits(0, expires_in) || !expiry_fits(CLOCK_MAX_MS, expires_in));
        }
    }
    result
}

/// When a token of the life `expires_in`, obtained at `now_ms`, expires.
pub fn compute_expires_at_ms_from(now_ms: i64, expires_in: Option<i64>) -> (result: i64)
    requires
        expiry_fits(now_ms, expires_in),
    ensures
        result == expires_at(now_ms, expires_in),
{
    let secs: i64 = match expires_in {
        Some(secs) => secs,
        None => DEFAULT_TOKEN_LIFE_SECS,
    };
    now_ms + secs * 1000
}

/// When a token of the life `expires_in`, obtained now, expires.
pub fn compute_expires_at_ms(expires_in: Option<i64>) -> (result: i64)
    requires
        expiry_always_fits(expires_in),
    ensures
        exists|now_ms: i64|
            clock_shows_ms(now_ms) && result == #[trigger] expires_at(now_ms, expires_in),
{
    let now_ms: i64 = current_time_ms();
    assert(expiry_fits(now_ms, expires_in));
    compute_expires_at_ms_from(now_ms, expires_in)
}

} // verus!
