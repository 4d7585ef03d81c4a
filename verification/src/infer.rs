//! Year inference for dates parsed without an explicit year.

use vstd::prelude::*;

verus! {

/// What `infer_year` returns: the current year, shifted one year into the
/// past when the parsed month lies more than three months "in the future"
/// relative to the current month. Months are numbered 1 through 12 and the
/// comparison is on the raw numbers; it deliberately does not wrap across
/// the December/January boundary.
pub open spec fn spec_infer_year(parsed_month: Option<u8>, this_month: u8, this_year: int) -> int {
    match parsed_month {
        None => this_year,
        Some(m) => {
            if m > this_month + 3 {
                this_year - 1
            } else {
                this_year
            }
        }
    }
}

/// Infers the year of a parsed date time. It assumes that events appear more
/// often delayed than in the future and, as a result, skews towards the past
/// year.
pub fn infer_year(parsed_month_opt: Option<u8>, this_month: u8, this_year: i32) -> (year: i32)
    requires
        parsed_month_opt is Some ==> 1 <= parsed_month_opt->0 <= 12,
        1 <= this_month <= 12,
        this_year > i32::MIN,
    ensures
        year == spec_infer_year(parsed_month_opt, this_month, this_year as int),
{
    match parsed_month_opt {
        None => this_year,
        Some(parsed_month) => {
            if parsed_month > this_month + 3 {
                this_year - 1
            } else {
                this_year
            }
        }
    }
}

/// A missing month never shifts the year: inference returns the current year.
pub proof fn lemma_infer_year_no_month(this_month: u8, this_year: int)
    ensures
        spec_infer_year(None, this_month, this_year) == this_year,
{
}

/// A parsed month equal to the current month never shifts the year.
pub proof fn lemma_infer_year_same_month(month: u8, this_year: int)
    ensures
        spec_infer_year(Some(month), month, this_year) == this_year,
{
}

/// The inferred year is one less than the current year exactly when the
/// parsed month exceeds the current month by more than three.
pub proof fn lemma_infer_year_future_month(parsed_month: u8, this_month: u8, this_year: int)
    ensures
        parsed_month > this_month + 3 ==> spec_infer_year(
            Some(parsed_month),
            this_month,
            this_year,
        ) == this_year - 1,
        parsed_month <= this_month + 3 ==> spec_infer_year(
            Some(parsed_month),
            this_month,
            this_year,
        ) == this_year,
{
}

} // verus!
