//! Moments in words: how long ago something was.

use vstd::prelude::*;

use crate::text::push_u64;

verus! {

/// A moment on a clock without a time zone: seconds from the start of 1970, and nanoseconds on
/// top of them, a thousand million or more within a leap second.
#[derive(Debug, Clone, Copy, PartialEq, Eq, Structural)]
pub struct Moment {
    pub second: i64,
    pub nanos: u32,
}

/// The moment that a text names, as `chrono::NaiveDateTime::parse_from_str` reads it by
/// `%Y-%m-%d %H:%M:%S`; none for a text it does not read.
pub uninterp spec fn moment_of(text: Seq<char>) -> Option<Moment>;

/// Whole seconds from one moment to another, as chrono's `signed_duration_since` and
/// `num_seconds` count them, leap seconds among them; nothing beyond chrono's calendar.
pub uninterp spec fn elapsed_of(then: Moment, now: Moment) -> i64;

/// The day of a second, as chrono's `format` writes it by `%Y-%m-%d`; empty for a second beyond
/// chrono's calendar.
pub uninterp spec fn day_of(second: i64) -> Seq<char>;

/// `chrono::NaiveDateTime::parse_from_str(text, "%Y-%m-%d %H:%M:%S")`: what it reads depends on
/// the text alone.
#[verifier::external_body]
fn parse_moment(text: &str) -> (r: Option<Moment>)
    ensures
        r == moment_of(text@),
{
    let parsed = chrono::NaiveDateTime::parse_from_str(text, "%Y-%m-%d %H:%M:%S");
    parsed.ok().map(|naive| {
        let at = naive.and_utc();
        Moment { second: at.timestamp(), nanos: at.timestamp_subsec_nanos() }
    })
}

/// Far inside chrono's calendar, and not within a leap second.
pub open spec fn ordinary(m: Moment) -> bool {
    -8_000_000_000_000 <= m.second <= 8_000_000_000_000 && m.nanos < 1_000_000_000
}

/// `chrono::NaiveDateTime::signed_duration_since` and `TimeDelta::num_seconds`: what they count
/// depends on the two moments alone. Outside leap seconds, up to a moment that is no earlier, it
/// is the difference without its fraction.
#[verifier::external_body]
fn elapsed(then: Moment, now: Moment) -> (r: i64)
    ensures
        r == elapsed_of(then, now),
        ordinary(then) && ordinary(now) && (then.second < now.second || (then.second == now.second
            && then.nanos <= now.nanos)) ==> r == now.second - then.second - (if now.nanos
            < then.nanos {
            1int
        } else {
            0int
        }),
{
    let naive = |m: Moment| chrono::DateTime::from_timestamp(m.second, m.nanos);
    match (naive(then), naive(now)) {
        (Some(then), Some(now)) => {
            now.naive_utc().signed_duration_since(then.naive_utc()).num_seconds()
        },
        _ => 0,
    }
}

/// `chrono::DateTime::from_timestamp(second, 0)` formatted by `%Y-%m-%d`: the text depends on the
/// second alone.
#[verifier::external_body]
fn day_text(second: i64) -> (r: String)
    ensures
        r@ == day_of(second),
{
    let moment = chrono::DateTime::from_timestamp(second, 0);
    moment.map(|m| m.format("%Y-%m-%d").to_string()).unwrap_or_default()
}

/// `chrono::Local::now()`: the moment on the machine's own clock. Nothing is stated of it.
#[verifier::external_body]
fn local_now() -> (r: Moment)
{
    let at = chrono::Local::now().naive_local().and_utc();
    Moment { second: at.timestamp(), nanos: at.timestamp_subsec_nanos() }
}

/// A digit or a sign: all that a numeric date is written with.
pub open spec fn date_char(c: char) -> bool {
    '0' as u32 <= c as u32 <= '9' as u32 || c == '-' || c == '+'
}

/// A date in numbers.
pub open spec fn numeric_date(t: Seq<char>) -> bool {
    forall|i: int| 0 <= i < t.len() ==> date_char(#[trigger] t[i])
}

/// A moment, in seconds since 1970, that lies in the years 0 to 9999 whatever the time zone: at
/// least a day away from either end of them.
pub open spec fn four_digit_year(mtime: i64) -> bool {
    -62_167_132_800 <= mtime < 253_402_214_400
}

/// A date of four digits, two and two, with hyphens between them.
pub open spec fn calendar_day(t: Seq<char>) -> bool {
    &&& t.len() == 10
    &&& t[4] == '-' && t[7] == '-'
    &&& forall|i: int|
        0 <= i < 10 && i != 4 && i != 7 ==> '0' as u32 <= #[trigger] t[i] as u32 <= '9' as u32
}

/// A date in numbers drives no terminal and names no other directory.
pub proof fn law_a_numeric_date_is_inert(t: Seq<char>)
    requires
        numeric_date(t),
    ensures
        crate::text::inert(t),
        !t.contains('/'),
{
    assert forall|i: int| 0 <= i < t.len() implies !crate::text::control(#[trigger] t[i]) by {
        assert(date_char(t[i]));
    }
}

/// `chrono::Local::now()` formatted as `%Y%m%d-%H%M%S`: the machine's own clock, as a file name.
/// It is written with digits and signs; which moment it is, is left open.
#[verifier::external_body]
pub(crate) fn plan_stamp() -> (r: String)
    ensures
        numeric_date(r@),
{
    chrono::Local::now().format("%Y%m%d-%H%M%S").to_string()
}

/// Seconds between two moments, none where the second is not the later one.
pub open spec fn seconds_between(then: Moment, now: Moment) -> nat {
    if elapsed_of(then, now) > 0 {
        elapsed_of(then, now) as nat
    } else {
        0
    }
}

/// How long ago something was: minutes, hours and days, and the day itself beyond a week.
pub open spec fn age_words(seconds: nat, day: Seq<char>) -> Seq<char> {
    if seconds < 60 {
        "just now"@
    } else if seconds < 3600 {
        crate::text::decimal(seconds / 60) + " min ago"@
    } else if seconds < 86400 {
        crate::text::decimal(seconds / 3600) + " h ago"@
    } else if seconds < 604800 {
        crate::text::decimal(seconds / 86400) + " d ago"@
    } else {
        day
    }
}

/// How long ago something was, `day` being the day it was.
pub fn age(seconds: u64, day: &str) -> (r: String)
    ensures
        r@ == age_words(seconds as nat, day@),
{
    if seconds < 60 {
        return "just now".to_string();
    }
    let mut out = String::new();
    assert(out@ =~= Seq::<char>::empty());
    if seconds < 3600 {
        push_u64(&mut out, seconds / 60);
        assert(out@ =~= crate::text::decimal(seconds as nat / 60));
        out.push_str(" min ago");
    } else if seconds < 86400 {
        push_u64(&mut out, seconds / 3600);
        assert(out@ =~= crate::text::decimal(seconds as nat / 3600));
        out.push_str(" h ago");
    } else if seconds < 604800 {
        push_u64(&mut out, seconds / 86400);
        assert(out@ =~= crate::text::decimal(seconds as nat / 86400));
        out.push_str(" d ago");
    } else {
        out.push_str(day);
        assert(out@ =~= day@);
    }
    out
}

/// The age of a recorded moment at another; one that cannot be read was long ago.
pub open spec fn age_at(created_at: Seq<char>, now: Moment) -> Seq<char> {
    match moment_of(created_at) {
        Some(then) => age_words(seconds_between(then, now), day_of(then.second)),
        None => "long ago"@,
    }
}

/// The age of a recorded moment (`YYYY-MM-DD HH:MM:SS`, local time) at moment `now` of the same
/// clock.
pub fn humanize_ago_at(created_at: &str, now: Moment) -> (r: String)
    ensures
        r@ == age_at(created_at@, now),
{
    match parse_moment(created_at) {
        Some(then) => {
            let passed: i64 = elapsed(then, now);
            let seconds: u64 = if passed > 0 {
                passed as u64
            } else {
                0
            };
            let day = day_text(then.second);
            age(seconds, day.as_str())
        },
        None => "long ago".to_string(),
    }
}

/// Human-readable age of a `created_at` string in local time: `< 1 h → "N min ago"`, `< 24 h →
/// "N h ago"`, `< 7 days → "N d ago"`, beyond that the day. A broken string → `"long ago"`.
pub fn humanize_ago(created_at: &str) -> (r: String)
    ensures
        exists|now: Moment| r@ == #[trigger] age_at(created_at@, now),
        moment_of(created_at@) is None ==> r@ == "long ago"@,
{
    humanize_ago_at(created_at, local_now())
}

/// As the clock goes on a moment never gets younger: `just now`, then minutes, hours and days in
/// turn, then its day.
pub proof fn law_ages_follow_the_clock(a: nat, b: nat, day: Seq<char>)
    requires
        a <= b,
    ensures
        age_words(b, day) == "just now"@ && b < 60 ==> age_words(a, day) == "just now"@,
        604800 <= a ==> age_words(a, day) == day && age_words(b, day) == day,
        60 <= a && b < 3600 ==> a / 60 <= b / 60,
        3600 <= a && b < 86400 ==> a / 3600 <= b / 3600,
        86400 <= a && b < 604800 ==> a / 86400 <= b / 86400,
{
}

} // verus!
