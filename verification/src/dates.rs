//! Calendar dates, read with `chrono` and held in their canonical `YYYY-MM-DD`
//! text form.
use vstd::prelude::*;

verus! {

/// The canonical text of the date that `chrono` reads from `s` with the format
/// `%Y-%m-%d`, or `None` when it reads none.
pub uninterp spec fn iso_date_of(s: Seq<char>) -> Option<Seq<char>>;

/// Calls `chrono::NaiveDate::parse_from_str(s, "%Y-%m-%d")` and, on success, the
/// date's `Display`. Claimed of it: the outcome is `iso_date_of(s)`, a function of
/// `s` alone. Which texts chrono accepts, and how it prints the date, is left to
/// that name.
#[verifier::external_body]
pub(crate) fn parse_iso_date(s: &str) -> (r: Option<String>)
    ensures
        r matches Some(d) ==> iso_date_of(s@) == Some(d@),
        r is None ==> iso_date_of(s@) is None,
{
    match chrono::NaiveDate::parse_from_str(s, "%Y-%m-%d") {
        Ok(d) => Some(d.to_string()),
        Err(_) => None,
    }
}

/// The canonical date text behind an optional date field (`None` stays `None`,
/// and so does text that is no date).
pub fn optional_date(s: Option<String>) -> (r: Option<String>)
    ensures
        s is None ==> r is None,
        s matches Some(t) ==> (match iso_date_of(t@) {
            Some(d) => r matches Some(x) && x@ == d,
            None => r is None,
        }),
{
    match s {
        Some(t) => parse_iso_date(t.as_str()),
        None => None,
    }
}

} // verus!
