//! Date and time handling: the calendar checks of the reservation form and
//! the clock, both through chrono.

use vstd::prelude::*;
use crate::errors::{AppError, AppResult};

verus! {

/// Whether chrono accepts the string as a calendar date in the form
/// YYYY-MM-DD. A function of the characters alone.
pub uninterp spec fn date_parses(s: Seq<char>) -> bool;

/// Whether chrono accepts the string as a time of day in the form HH:MM.
/// A function of the characters alone.
pub uninterp spec fn time_parses(s: Seq<char>) -> bool;

/// Relies on chrono's NaiveDate::parse_from_str with the format "%Y-%m-%d":
/// whether a string parses as a calendar date depends on its characters
/// alone.
#[verifier::external_body]
fn naive_date_ok(s: &str) -> (r: bool)
    ensures
        r == date_parses(s@),
{
    chrono::NaiveDate::parse_from_str(s, "%Y-%m-%d").is_ok()
}

/// Relies on chrono's NaiveTime::parse_from_str with the format "%H:%M":
/// whether a string parses as a time of day depends on its characters
/// alone.
#[verifier::external_body]
fn naive_time_ok(s: &str) -> (r: bool)
    ensures
        r == time_parses(s@),
{
    chrono::NaiveTime::parse_from_str(s, "%H:%M").is_ok()
}

/// Checks a reservation date: accepted exactly when chrono parses it as
/// YYYY-MM-DD.
pub fn validate_date(date_str: &str) -> (r: AppResult<()>)
    ensures
        r is Ok <==> date_parses(date_str@),
        r matches Err(e) ==> e.is_validation(),
{
    if naive_date_ok(date_str) {
        Ok(())
    } else {
        Err(AppError::Validation(String::from_str("Formato de fecha inválido, use YYYY-MM-DD")))
    }
}

/// Checks a reservation time: accepted exactly when chrono parses it as
/// HH:MM.
pub fn validate_time(time_str: &str) -> (r: AppResult<()>)
    ensures
        r is Ok <==> time_parses(time_str@),
        r matches Err(e) ==> e.is_validation(),
{
    if naive_time_ok(time_str) {
        Ok(())
    } else {
        Err(AppError::Validation(String::from_str("Formato de hora inválido, use HH:MM")))
    }
}

/// Relies on chrono's Utc::now: the current Unix timestamp in seconds. The
/// result depends on the system clock, so nothing is promised of it.
#[verifier::external_body]
pub fn current_timestamp() -> i64 {
    chrono::Utc::now().timestamp()
}

} // verus!
