//! The times of the database and their text form. A time is a `DateTime`
//! of sea_orm's prelude, which is chrono's `NaiveDateTime`: a date and a time
//! of day without a time zone.

use vstd::prelude::*;
use sea_orm::entity::prelude::DateTime;

verus! {

#[verifier::external_type_specification]
#[verifier::external_body]
pub struct ExDateTime(sea_orm::entity::prelude::DateTime);

/// The text that chrono's `Display` writes for a date-time: the date, a
/// space and the time of day, as in `2023-01-01 00:00:00`.
pub uninterp spec fn datetime_text(at: DateTime) -> Seq<char>;

/// Shows a date-time through the `to_string` that chrono's `Display` for
/// `NaiveDateTime` gives it. The text depends on the date-time alone: it is
/// the date, a space and the time of day, written from the value's own
/// fields with no locale or time zone, and the writing does not fail.
#[verifier::external_body]
pub(crate) fn show_datetime(at: &DateTime) -> (text: String)
    ensures
        text@ == datetime_text(*at),
{
    at.to_string()
}

} // verus!
