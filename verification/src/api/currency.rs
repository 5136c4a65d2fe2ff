//! The currencies that prices can be in.

use crate::error::AppError;
use crate::text::{cat5, same, to_upper, unicode_upper};
use vstd::prelude::*;

verus! {

/// Is this the code of a currency that prices can be in?
pub open spec fn is_accepted_currency(code: Seq<char>) -> bool {
    code == "SAT"@ || code == "USD"@ || code == "EUR"@
}

/// Is this the code of a currency that prices can be in?
pub fn currency_is_accepted(code: &str) -> (r: bool)
    ensures
        r == is_accepted_currency(code@),
{
    same(code, "SAT") || same(code, "USD") || same(code, "EUR")
}

/// What is said of a currency that prices cannot be in; `field` names where it
/// was given.
pub open spec fn unsupported_currency(field: Seq<char>, code: Seq<char>) -> Seq<char> {
    "unsupported "@ + field + " '"@ + code + "'; accepted: SAT, USD, EUR"@
}

/// A currency code in upper case, where prices can be in that currency.
pub fn accept_currency(field: &str, upper: String) -> (r: Result<String, AppError>)
    ensures
        match r {
            Ok(code) => is_accepted_currency(upper@) && code == upper,
            Err(e) => !is_accepted_currency(upper@) && e.is_bad_request(
                unsupported_currency(field@, upper@),
            ),
        },
{
    if currency_is_accepted(upper.as_str()) {
        Ok(upper)
    } else {
        Err(
            AppError::BadRequest(
                cat5("unsupported ", field, " '", upper.as_str(), "'; accepted: SAT, USD, EUR"),
            ),
        )
    }
}

/// A currency code as it is stored: in upper case.
pub fn normalize_currency(field: &str, code: &str) -> (r: Result<String, AppError>)
    ensures
        match r {
            Ok(c) => is_accepted_currency(unicode_upper(code@)) && c@ == unicode_upper(code@),
            Err(e) => !is_accepted_currency(unicode_upper(code@)) && e.is_bad_request(
                unsupported_currency(field@, unicode_upper(code@)),
            ),
        },
{
    accept_currency(field, to_upper(code))
}

} // verus!
