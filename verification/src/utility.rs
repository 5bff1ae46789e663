//! Clock access shared by the bookkeeping code.

use vstd::prelude::*;

use crate::error::AppError;
use crate::error::code_unknown;

verus! {

/// Relies on std::time::SystemTime, read once via now and duration_since:
/// the milliseconds since the Unix epoch.  Nothing is assumed of the
/// clock's value; `None` when the clock reads before the epoch.
#[verifier::external_body]
fn now_unix_millis() -> (r: Option<i64>) {
    match std::time::SystemTime::now().duration_since(std::time::UNIX_EPOCH) {
        Ok(elapsed) => Some(elapsed.as_millis() as i64),
        Err(_) => None,
    }
}

/// Milliseconds since the Unix epoch, from the system clock.
pub fn get_current_timestamp() -> (r: Result<i64, AppError>)
    ensures
        r matches Err(e) ==> e.code@ == code_unknown(),
{
    match now_unix_millis() {
        Some(ms) => Ok(ms),
        None => Err(
            AppError::new(
                "unknown",
                Some("System clock reads before the Unix epoch".to_owned()),
            ),
        ),
    }
}

/// The current timestamp, zero where the clock cannot be read.
pub fn default_now() -> i64 {
    match get_current_timestamp() {
        Ok(ms) => ms,
        Err(_) => 0,
    }
}

} // verus!
