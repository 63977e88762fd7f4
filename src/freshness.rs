//! When cached rate data may be trusted.
//!
//! Rates are published once per business day, at about 14:00 UTC. With an
//! hour of grace the day's data is expected from 15:00 UTC on; over a weekend
//! the newest data is the preceding Friday's.
use vstd::arithmetic::div_mod::lemma_fundamental_div_mod_converse;
use vstd::prelude::*;

verus! {

/// Seconds in one calendar day.
pub const SECONDS_PER_DAY: i64 = 86400;

/// Seconds from midnight UTC to the publication cutoff (15:00 UTC).
pub const CUTOFF_SECONDS: i64 = 54000;

/// Friday, counted in days from Monday.
pub const FRIDAY: i64 = 4;

/// An instant in UTC, in whole seconds from 1970-01-01T00:00:00Z.
#[derive(Clone, Copy, Debug, PartialEq, Eq, Structural)]
pub struct UtcInstant {
    pub seconds: i64,
}

/// The calendar day, counted from 1970-01-01, on which a UTC second falls.
pub open spec fn day_of(seconds: int) -> int {
    seconds / (SECONDS_PER_DAY as int)
}

/// Days from Monday of a day number; 1970-01-01 was a Thursday.
pub open spec fn weekday_of(day: int) -> int {
    (day + 3) % 7
}

/// The day whose publication is due as of `now`: before the cutoff it is
/// still the previous calendar day.
pub open spec fn effective_day(now: int) -> int {
    day_of(now - CUTOFF_SECONDS)
}

/// How many days lie between a day and the Friday before it, zero on a
/// weekday.
pub open spec fn weekend_rollback(day: int) -> int {
    if weekday_of(day) > FRIDAY {
        weekday_of(day) - FRIDAY
    } else {
        0
    }
}

/// The newest business day whose rates should exist at `now`.
pub open spec fn expected_publication_day(now: int) -> int {
    effective_day(now) - weekend_rollback(effective_day(now))
}

/// Data published on `published_day` is fresh at `now`.
pub open spec fn is_fresh_day(now: int, published_day: int) -> bool {
    published_day >= expected_publication_day(now)
}

impl UtcInstant {
    /// The instant `seconds` seconds after 1970-01-01T00:00:00Z.
    pub fn from_unix_seconds(seconds: i64) -> (r: UtcInstant)
        ensures
            r.seconds == seconds,
    {
        UtcInstant { seconds }
    }

    /// The calendar day on which this instant falls.
    pub fn day(&self) -> (r: i64)
        ensures
            r == day_of(self.seconds as int),
    {
        let q = self.seconds.checked_div_euclid(SECONDS_PER_DAY);
        match q {
            Some(d) => d,
            None => {
                assert(false);
                0
            }
        }
    }
}

/// Days from Monday of the day `day`.
pub fn weekday(day: i64) -> (r: i64)
    ensures
        r == weekday_of(day as int),
        0 <= r < 7,
{
    let m = match day.checked_rem_euclid(7) {
        Some(m) => m,
        None => {
            assert(false);
            0
        },
    };
    let w: i64 = if m + 3 >= 7 {
        m + 3 - 7
    } else {
        m + 3
    };
    proof {
        let q = day as int / 7;
        lemma_fundamental_div_mod_converse(day as int, 7, q, m as int);
        if m + 3 >= 7 {
            lemma_fundamental_div_mod_converse(day + 3, 7, q + 1, w as int);
        } else {
            lemma_fundamental_div_mod_converse(day + 3, 7, q, w as int);
        }
    }
    w
}

/// The calendar day whose publication is due at `now`: the day of `now`
/// moved back by the cutoff.
pub fn effective_day_at(now: UtcInstant) -> (r: i64)
    ensures
        r == effective_day(now.seconds as int),
{
    let q = now.day();
    let rem = match now.seconds.checked_rem_euclid(SECONDS_PER_DAY) {
        Some(m) => m,
        None => {
            assert(false);
            0
        },
    };
    proof {
        lemma_fundamental_div_mod_converse(now.seconds as int, 86400, q as int, rem as int);
        assert(q > -200000000000000000) by (nonlinear_arith)
            requires
                now.seconds == q * 86400 + rem,
                0 <= rem < 86400,
                now.seconds >= -9223372036854775808,
        ;
    }
    if rem >= CUTOFF_SECONDS {
        proof {
            lemma_fundamental_div_mod_converse(
                now.seconds - CUTOFF_SECONDS,
                86400,
                q as int,
                rem - CUTOFF_SECONDS,
            );
        }
        q
    } else {
        proof {
            lemma_fundamental_div_mod_converse(
                now.seconds - CUTOFF_SECONDS,
                86400,
                q - 1,
                rem + SECONDS_PER_DAY - CUTOFF_SECONDS,
            );
        }
        q - 1
    }
}

/// The newest business day whose rates should have been published at `now`.
pub fn expected_publication_day_at(now: UtcInstant) -> (r: i64)
    ensures
        r == expected_publication_day(now.seconds as int),
{
    let day = effective_day_at(now);
    let w = weekday(day);
    if w > FRIDAY {
        day - (w - FRIDAY)
    } else {
        day
    }
}

/// Whether data whose publication instant is `published` may still be used at
/// `now`: its calendar day is no older than the expected publication day.
pub fn is_fresh(now: UtcInstant, published: UtcInstant) -> (r: bool)
    ensures
        r == is_fresh_day(now.seconds as int, day_of(published.seconds as int)),
{
    published.day() >= expected_publication_day_at(now)
}

/// What chrono reads from `text` as a UTC date and time by the strftime
/// pattern `format`, in seconds from the epoch.
pub uninterp spec fn utc_seconds_of(text: Seq<char>, format: Seq<char>) -> Option<i64>;

/// Relies on chrono's `NaiveDateTime::parse_from_str`, read as UTC: it returns
/// an error or a date and time that depend on the two strings alone.
#[verifier::external_body]
fn parse_utc_seconds(text: &str, format: &str) -> (r: Option<i64>)
    ensures
        r == utc_seconds_of(text@, format@),
{
    chrono::NaiveDateTime::parse_from_str(text, format).ok().map(|d| d.and_utc().timestamp())
}

/// The instant, if any, at which a publication date written `YYYY-MM-DD`
/// begins.
pub open spec fn publication_instant(time: Seq<char>) -> Option<i64> {
    utc_seconds_of(time + "T00:00:00"@, "%Y-%m-%dT%H:%M:%S"@)
}

/// Whether rate data published on the date written `time` (`YYYY-MM-DD`) may
/// still be used at `now`; `None` where `time` is no such date.
pub fn is_data_fresh(now: UtcInstant, time: String) -> (r: Option<bool>)
    ensures
        r == match publication_instant(time@) {
            Some(p) => Some(is_fresh_day(now.seconds as int, day_of(p as int))),
            None => None::<bool>,
        },
{
    let mut text = time;
    text.append("T00:00:00");
    match parse_utc_seconds(text.as_str(), "%Y-%m-%dT%H:%M:%S") {
        Some(p) => Some(is_fresh(now, UtcInstant::from_unix_seconds(p))),
        None => None,
    }
}

/// Before the cutoff the effective day is the day before; from the cutoff on
/// it is the calendar day itself.
proof fn lemma_effective_day(now: int)
    ensures
        now % 86400 >= CUTOFF_SECONDS ==> effective_day(now) == day_of(now),
        now % 86400 < CUTOFF_SECONDS ==> effective_day(now) == day_of(now) - 1,
{
    let q = now / 86400;
    let m = now % 86400;
    lemma_fundamental_div_mod_converse(now, 86400, q, m);
    if m >= CUTOFF_SECONDS {
        lemma_fundamental_div_mod_converse(now - CUTOFF_SECONDS, 86400, q, m - CUTOFF_SECONDS);
    } else {
        lemma_fundamental_div_mod_converse(
            now - CUTOFF_SECONDS,
            86400,
            q - 1,
            m + SECONDS_PER_DAY - CUTOFF_SECONDS,
        );
    }
}

/// The weekday of the day before.
proof fn lemma_weekday_before(day: int)
    ensures
        weekday_of(day) == 0 ==> weekday_of(day - 1) == 6,
        weekday_of(day) > 0 ==> weekday_of(day - 1) == weekday_of(day) - 1,
{
    let q = (day + 3) / 7;
    let w = (day + 3) % 7;
    lemma_fundamental_div_mod_converse(day + 3, 7, q, w);
    if w == 0 {
        lemma_fundamental_div_mod_converse(day + 2, 7, q - 1, 6);
    } else {
        lemma_fundamental_div_mod_converse(day + 2, 7, q, w - 1);
    }
}

/// On a business day (Monday to Friday) data of the day before stays fresh
/// until the 15:00 UTC cutoff and is stale from the cutoff on, when only the
/// day's own data is fresh.
pub proof fn lemma_cutoff_boundary(now: UtcInstant)
    requires
        weekday_of(day_of(now.seconds as int)) <= FRIDAY,
    ensures
        now.seconds % SECONDS_PER_DAY < CUTOFF_SECONDS ==> is_fresh_day(
            now.seconds as int,
            day_of(now.seconds as int) - 1,
        ),
        now.seconds % SECONDS_PER_DAY >= CUTOFF_SECONDS ==> !is_fresh_day(
            now.seconds as int,
            day_of(now.seconds as int) - 1,
        ) && is_fresh_day(now.seconds as int, day_of(now.seconds as int)),
{
    lemma_effective_day(now.seconds as int);
    lemma_weekday_before(day_of(now.seconds as int));
}

/// On a Saturday or a Sunday, at any time of day, the expected publication day
/// is the Friday before.
pub proof fn lemma_weekend_rollback(now: UtcInstant)
    requires
        weekday_of(day_of(now.seconds as int)) > FRIDAY,
    ensures
        expected_publication_day(now.seconds as int) == day_of(now.seconds as int) - (
        weekday_of(day_of(now.seconds as int)) - FRIDAY),
        weekday_of(expected_publication_day(now.seconds as int)) == FRIDAY,
{
    let d = day_of(now.seconds as int);
    lemma_effective_day(now.seconds as int);
    lemma_weekday_before(d);
    lemma_weekday_before(d - 1);
}

} // verus!
