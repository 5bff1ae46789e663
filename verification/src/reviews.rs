//! Review totals, daily limits, and the learning-day window.
//!
//! A learning day starts at a configured time of day rather than at
//! midnight; today's totals are counted over the window around the
//! current moment.

use vstd::prelude::*;

use crate::error::AppError;
use crate::error::code_unknown;
use crate::settings_learning::single_colon_at;
use crate::text::u32_parseable;
use crate::text::u32_value;
use crate::utility::get_current_timestamp;

verus! {

/// A query for one card's reviews.
#[derive(Debug)]
pub struct GetReviewsData {
    pub card_id: i64,
}

/// A half-open time window for counting reviews.
#[derive(Debug)]
pub struct GetReviewTotalsParams {
    pub from: i64,
    pub to: i64,
}

/// How many cards of each kind were reviewed in a window.
#[derive(Debug)]
pub struct ReviewTotals {
    pub untouched: i64,
    pub learn: i64,
    pub review: i64,
    pub total: i64,
}

/// The daily caps today's totals are held against.
#[derive(Debug)]
pub struct DailyLimits {
    pub untouched: u32,
    pub learn: u32,
    pub review: u32,
    pub total: u32,
}

/// Which of the daily caps today's totals have reached.
#[derive(Debug)]
pub struct TodaysReviewTotalsMeta {
    pub is_untouched_over_the_limit: bool,
    pub is_learn_over_the_limit: bool,
    pub is_review_over_the_limit: bool,
    pub is_total_over_the_limit: bool,
}

/// Today's totals, the limits, and which limits are reached.
#[derive(Debug)]
pub struct TodaysReviewTotals {
    pub daily_limits: DailyLimits,
    pub review_totals: ReviewTotals,
    pub meta: TodaysReviewTotalsMeta,
}

/// Reject a review rating outside the known range of one to four.
pub fn validate_rating(rating: i32) -> (r: Result<(), AppError>)
    ensures
        r is Ok <==> 1 <= rating <= 4,
        r matches Err(e) ==> e.code@ == crate::error::code_reviews_rating() && e.details is Some,
{
    if rating < 1 || rating > 4 {
        let mut details: String = "Invalid review rating: ".to_owned();
        let rendered = crate::text::i64_to_string(rating as i64);
        details.append(rendered.as_str());
        return Err(AppError::new("validation.reviews.rating", Some(details)));
    }
    Ok(())
}

/// Reject a review state outside the known range of zero to three.
pub fn validate_state(state: i32) -> (r: Result<(), AppError>)
    ensures
        r is Ok <==> 0 <= state <= 3,
        r matches Err(e) ==> e.code@ == crate::error::code_reviews_state() && e.details is Some,
{
    if state < 0 || state > 3 {
        let mut details: String = "Invalid review state: ".to_owned();
        let rendered = crate::text::i64_to_string(state as i64);
        details.append(rendered.as_str());
        return Err(AppError::new("validation.reviews.state", Some(details)));
    }
    Ok(())
}

/// Reject a negative scheduled-days count.
pub fn validate_scheduled_days(days: i32) -> (r: Result<(), AppError>)
    ensures
        r is Ok <==> days >= 0,
        r matches Err(e) ==> e.code@ == crate::error::code_reviews_scheduled_days()
            && e.details is Some,
{
    if days < 0 {
        let mut details: String = "Invalid scheduled days: ".to_owned();
        let rendered = crate::text::i64_to_string(days as i64);
        details.append(rendered.as_str());
        return Err(AppError::new("validation.reviews.scheduled-days", Some(details)));
    }
    Ok(())
}

/// Reject a negative learning-steps count.
pub fn validate_learning_steps(steps: i32) -> (r: Result<(), AppError>)
    ensures
        r is Ok <==> steps >= 0,
        r matches Err(e) ==> e.code@ == crate::error::code_reviews_learning_steps()
            && e.details is Some,
{
    if steps < 0 {
        let mut details: String = "Invalid review learning steps: ".to_owned();
        let rendered = crate::text::i64_to_string(steps as i64);
        details.append(rendered.as_str());
        return Err(AppError::new("validation.reviews.learning-steps", Some(details)));
    }
    Ok(())
}

/// Reject a negative review duration.
pub fn validate_time(time: i32) -> (r: Result<(), AppError>)
    ensures
        r is Ok <==> time >= 0,
        r matches Err(e) ==> e.code@ == crate::error::code_reviews_time() && e.details is Some,
{
    if time < 0 {
        let mut details: String = "Invalid review time: ".to_owned();
        let rendered = crate::text::i64_to_string(time as i64);
        details.append(rendered.as_str());
        return Err(AppError::new("validation.reviews.time", Some(details)));
    }
    Ok(())
}

/// The hour and minute parts read out of a start-of-day string: zero for
/// a missing or malformed part, as the bookkeeping tolerates bad input.
pub open spec fn spec_day_start_parts(s: Seq<char>) -> (u32, u32) {
    if exists|i: int| #[trigger] single_colon_at(s, i) {
        let i = choose|i: int| single_colon_at(s, i);
        (
            if u32_parseable(s.subrange(0, i)) {
                u32_value(s.subrange(0, i)) as u32
            } else {
                0u32
            },
            if u32_parseable(s.subrange(i + 1, s.len() as int)) {
                u32_value(s.subrange(i + 1, s.len() as int)) as u32
            } else {
                0u32
            },
        )
    } else {
        (0u32, 0u32)
    }
}

/// Read the hour and minute parts of a start-of-day string, falling back
/// to zero on anything malformed.
pub fn parse_day_starts_at(day_starts_at: &str) -> (r: (u32, u32))
    ensures
        r == spec_day_start_parts(day_starts_at@),
{
    let n = day_starts_at.unicode_len();
    let mut colon: Option<usize> = None;
    let mut j: usize = 0;
    while j < n
        invariant
            j <= n,
            n == day_starts_at@.len(),
            match colon {
                Some(i) => i < j && day_starts_at@[i as int] == ':' && (forall|j2: int|
                    0 <= j2 < j && j2 != i ==> day_starts_at@[j2] != ':'),
                None => forall|j2: int| 0 <= j2 < j ==> day_starts_at@[j2] != ':',
            },
        decreases n - j,
    {
        if day_starts_at.get_char(j) == ':' {
            match colon {
                None => {
                    colon = Some(j);
                },
                Some(first) => {
                    proof {
                        assert forall|i: int| !single_colon_at(day_starts_at@, i) by {
                            if single_colon_at(day_starts_at@, i) {
                                if i != first as int {
                                    assert(day_starts_at@[first as int] != ':');
                                } else {
                                    assert(day_starts_at@[j as int] != ':');
                                }
                            }
                        }
                    }
                    return (0, 0);
                },
            }
        }
        j += 1;
    }
    let i = match colon {
        Some(i) => i,
        None => {
            proof {
                assert forall|i: int| !single_colon_at(day_starts_at@, i) by {
                    if single_colon_at(day_starts_at@, i) {
                        assert(day_starts_at@[i] != ':');
                    }
                }
            }
            return (0, 0);
        },
    };
    proof {
        assert(single_colon_at(day_starts_at@, i as int));
        assert forall|i2: int| single_colon_at(day_starts_at@, i2) implies i2 == i as int by {
            if i2 != i as int {
                assert(day_starts_at@[i as int] != ':');
            }
        }
    }
    let hours_part = day_starts_at.substring_char(0, i);
    let minutes_part = day_starts_at.substring_char(i + 1, n);
    let hours = match crate::text::parse_u32(hours_part) {
        Some(h) => h,
        None => 0,
    };
    let minutes = match crate::text::parse_u32(minutes_part) {
        Some(m) => m,
        None => 0,
    };
    (hours, minutes)
}

/// The clock bound within which the learning-day arithmetic stays in
/// range: far beyond any real clock reading.
pub const CLOCK_MILLIS_BOUND: i64 = 4_000_000_000_000_000;

/// The learning-day window around a moment: one whole day, cut at the
/// configured time of day.
pub open spec fn spec_learning_day_range(now_ms: i64, day_starts_at: Seq<char>) -> (i64, i64) {
    let parts = spec_day_start_parts(day_starts_at);
    let now_s = now_ms / 1000;
    let since_midnight = now_s % 86400;
    let boundary = parts.0 * 3600 + parts.1 * 60;
    let today_boundary = now_s - since_midnight + boundary;
    if since_midnight < boundary {
        (((today_boundary - 86400) * 1000) as i64, (today_boundary * 1000) as i64)
    } else {
        ((today_boundary * 1000) as i64, ((today_boundary + 86400) * 1000) as i64)
    }
}

/// The learning-day window around `now_ms`.  With a boundary inside the
/// day — as every validated start-of-day time is — the window contains
/// the moment itself and spans exactly one day.
pub fn learning_day_range(now_ms: i64, day_starts_at: &str) -> (r: (i64, i64))
    requires
        0 <= now_ms <= CLOCK_MILLIS_BOUND,
    ensures
        r == spec_learning_day_range(now_ms, day_starts_at@),
        r.1 - r.0 == 86_400_000,
        ({
            let parts = spec_day_start_parts(day_starts_at@);
            parts.0 * 3600 + parts.1 * 60 < 86400 ==> r.0 <= now_ms < r.1
        }),
{
    let parts = parse_day_starts_at(day_starts_at);
    let now_s = now_ms / 1000;
    let since_midnight = now_s % 86400;
    let boundary: i64 = (parts.0 as i64) * 3600 + (parts.1 as i64) * 60;
    let today_boundary = now_s - since_midnight + boundary;
    let r = if since_midnight < boundary {
        ((today_boundary - 86400) * 1000, today_boundary * 1000)
    } else {
        (today_boundary * 1000, (today_boundary + 86400) * 1000)
    };
    proof {
        assert(0 <= now_s <= CLOCK_MILLIS_BOUND / 1000);
        assert(0 <= since_midnight < 86400);
        assert(now_s * 1000 <= now_ms < (now_s + 1) * 1000) by (nonlinear_arith)
            requires
                0 <= now_ms,
                now_s == now_ms / 1000,
        ;
        assert(now_s % 86400 == since_midnight);
        if boundary < 86400 {
            if since_midnight < boundary {
                assert(today_boundary - 86400 <= now_s < today_boundary);
                assert((today_boundary - 86400) * 1000 <= now_s * 1000);
                assert((now_s + 1) * 1000 <= today_boundary * 1000);
            } else {
                assert(today_boundary <= now_s < today_boundary + 86400);
                assert(today_boundary * 1000 <= now_s * 1000);
                assert((now_s + 1) * 1000 <= (today_boundary + 86400) * 1000);
            }
        }
    }
    r
}

/// The learning-day window around the present moment; fails only where
/// the system clock cannot be read or reads out of range.
pub fn get_current_learning_day_range(day_starts_at: &str) -> (r: Result<(i64, i64), AppError>)
    ensures
        match r {
            Ok(range) => exists|now: i64|
                0 <= now <= CLOCK_MILLIS_BOUND && range == #[trigger] spec_learning_day_range(
                    now,
                    day_starts_at@,
                ),
            Err(e) => e.code@ == code_unknown(),
        },
{
    let now = match get_current_timestamp() {
        Ok(ms) => ms,
        Err(e) => {
            return Err(e);
        },
    };
    if now < 0 || now > CLOCK_MILLIS_BOUND {
        return Err(
            AppError::new("unknown", Some("System clock reads out of range".to_owned())),
        );
    }
    let range = learning_day_range(now, day_starts_at);
    Ok(range)
}

} // verus!
