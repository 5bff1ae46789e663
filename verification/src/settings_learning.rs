//! Learning settings: daily limits, the learn-ahead window and the time
//! of day a learning day starts.

use vstd::prelude::*;

use crate::error::AppError;
use crate::error::code_daily_limits_learn;
use crate::error::code_daily_limits_review;
use crate::error::code_daily_limits_untouched;
use crate::error::code_day_starts_at;
use crate::error::code_learn_ahead_hours;
use crate::error::code_learn_ahead_minutes;
use crate::text::u32_parseable;
use crate::text::u32_to_string;
use crate::text::u32_value;

verus! {

/// Daily caps on reviewed cards; a zero total disables all checks.
#[derive(Debug)]
pub struct DailyLimits {
    pub total: u32,
    pub untouched: u32,
    pub learn: u32,
    pub review: u32,
}

/// Whether the daily limits are consistent: with a non-zero total, no
/// per-kind limit may exceed it.
pub open spec fn daily_limits_ok(d: DailyLimits) -> bool {
    d.total == 0 || (d.untouched <= d.total && d.learn <= d.total && d.review <= d.total)
}

/// The code reported for inconsistent daily limits: the untouched cap is
/// checked first, then learn, then review.
pub open spec fn daily_limits_err_code(d: DailyLimits) -> Seq<char> {
    if d.untouched > d.total {
        code_daily_limits_untouched()
    } else if d.learn > d.total {
        code_daily_limits_learn()
    } else {
        code_daily_limits_review()
    }
}

impl DailyLimits {
    /// Reject limits whose per-kind caps exceed a non-zero total.
    pub fn validate(&self) -> (r: Result<(), AppError>)
        ensures
            r is Ok <==> daily_limits_ok(*self),
            r matches Err(e) ==> e.code@ == daily_limits_err_code(*self),
    {
        if self.total == 0 {
            return Ok(());
        }
        if self.untouched > self.total {
            return Err(
                AppError::new(
                    "validation.settings-learning.daily-limits.untouched-exceeds-total",
                    None,
                ),
            );
        }
        if self.learn > self.total {
            return Err(
                AppError::new(
                    "validation.settings-learning.daily-limits.learn-exceeds-total",
                    None,
                ),
            );
        }
        if self.review > self.total {
            return Err(
                AppError::new(
                    "validation.settings-learning.daily-limits.review-exceeds-total",
                    None,
                ),
            );
        }
        Ok(())
    }
}

/// How far ahead of schedule cards may be learned: hours and minutes.
#[derive(Debug)]
pub struct LearnAheadLimit(pub u32, pub u32);

/// Whether a learn-ahead window is accepted: at most 48 hours, minutes
/// below an hour.
pub open spec fn learn_ahead_ok(l: LearnAheadLimit) -> bool {
    l.0 <= 48 && l.1 <= 59
}

impl LearnAheadLimit {
    /// Reject a window of more than 48 hours or with a minute part of an
    /// hour or more; hours are checked first.
    pub fn validate(&self) -> (r: Result<(), AppError>)
        ensures
            r is Ok <==> learn_ahead_ok(*self),
            r matches Err(e) ==> e.code@ == (if self.0 > 48 {
                code_learn_ahead_hours()
            } else {
                code_learn_ahead_minutes()
            }),
    {
        if self.0 > 48 {
            let mut details: String = "Hours out of range: ".to_owned();
            let rendered = u32_to_string(self.0);
            details.append(rendered.as_str());
            return Err(
                AppError::new(
                    "validation.settings-learning.learn-ahead-limit.hours-range",
                    Some(details),
                ),
            );
        }
        if self.1 > 59 {
            let mut details: String = "Minutes out of range: ".to_owned();
            let rendered = u32_to_string(self.0);
            details.append(rendered.as_str());
            return Err(
                AppError::new(
                    "validation.settings-learning.learn-ahead-limit.minutes-range",
                    Some(details),
                ),
            );
        }
        Ok(())
    }
}

/// Whether exactly one colon stands in the string, at position `i`.
pub open spec fn single_colon_at(s: Seq<char>, i: int) -> bool {
    0 <= i < s.len() && s[i] == ':' && (forall|j: int|
        0 <= j < s.len() && j != i ==> s[j] != ':')
}

/// Whether the string is an accepted start-of-day time: hours and minutes
/// separated by one colon, each a decimal number, at most 23:59.
pub open spec fn day_start_ok(s: Seq<char>) -> bool {
    exists|i: int|
        #[trigger] single_colon_at(s, i) && u32_parseable(s.subrange(0, i)) && u32_parseable(
            s.subrange(i + 1, s.len() as int),
        ) && u32_value(s.subrange(0, i)) <= 23 && u32_value(s.subrange(i + 1, s.len() as int))
            <= 59
}

/// Reject a start-of-day time that is not `"HH:MM"` with hours below 24
/// and minutes below 60.
pub fn validate_day_starts_at(value: &str) -> (r: Result<(), AppError>)
    ensures
        r is Ok <==> day_start_ok(value@),
        r matches Err(e) ==> e.code@ == code_day_starts_at(),
{
    let n = value.unicode_len();
    let mut colon: Option<usize> = None;
    let mut j: usize = 0;
    while j < n
        invariant
            j <= n,
            n == value@.len(),
            match colon {
                Some(i) => i < j && value@[i as int] == ':' && (forall|j2: int|
                    0 <= j2 < j && j2 != i ==> value@[j2] != ':'),
                None => forall|j2: int| 0 <= j2 < j ==> value@[j2] != ':',
            },
        decreases n - j,
    {
        if value.get_char(j) == ':' {
            match colon {
                None => {
                    colon = Some(j);
                },
                Some(first) => {
                    proof {
                        assert forall|i: int| !single_colon_at(value@, i) by {
                            if single_colon_at(value@, i) {
                                if i != first as int {
                                    assert(value@[first as int] != ':');
                                } else {
                                    assert(value@[j as int] != ':');
                                }
                            }
                        }
                    }
                    return Err(
                        AppError::new(
                            "validation.settings-learning.day-starts-at",
                            Some("Invalid time format".to_owned()),
                        ),
                    );
                },
            }
        }
        j += 1;
    }
    let i = match colon {
        Some(i) => i,
        None => {
            proof {
                assert forall|i: int| !single_colon_at(value@, i) by {
                    if single_colon_at(value@, i) {
                        assert(value@[i] != ':');
                    }
                }
            }
            return Err(
                AppError::new(
                    "validation.settings-learning.day-starts-at",
                    Some("Invalid time format".to_owned()),
                ),
            );
        },
    };
    proof {
        assert(single_colon_at(value@, i as int));
        assert forall|i2: int| single_colon_at(value@, i2) implies i2 == i as int by {
            if i2 != i as int {
                assert(value@[i as int] != ':');
            }
        }
    }
    let hours_part = value.substring_char(0, i);
    let minutes_part = value.substring_char(i + 1, n);
    let hours = match crate::text::parse_u32(hours_part) {
        Some(h) => h,
        None => {
            return Err(
                AppError::new(
                    "validation.settings-learning.day-starts-at",
                    Some("Invalid hours".to_owned()),
                ),
            );
        },
    };
    let minutes = match crate::text::parse_u32(minutes_part) {
        Some(m) => m,
        None => {
            return Err(
                AppError::new(
                    "validation.settings-learning.day-starts-at",
                    Some("Invalid minutes".to_owned()),
                ),
            );
        },
    };
    if hours > 23 {
        return Err(
            AppError::new(
                "validation.settings-learning.day-starts-at",
                Some("Invalid hours".to_owned()),
            ),
        );
    }
    if minutes > 59 {
        return Err(
            AppError::new(
                "validation.settings-learning.day-starts-at",
                Some("Invalid minutes".to_owned()),
            ),
        );
    }
    Ok(())
}

} // verus!
