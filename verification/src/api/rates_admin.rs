//! Fetching an exchange rate anew.

use crate::error::AppError;
use crate::text::{cat2, to_upper, unicode_upper};
use vstd::prelude::*;

verus! {

/// Asks for a currency's rate to be fetched anew.
#[derive(Clone, Debug)]
pub struct RefreshReq {
    pub currency: String,
}

/// The currency whose rate is fetched anew, as rates are kept: in upper case.
pub fn refresh(req: &RefreshReq) -> (r: String)
    ensures
        r@ == unicode_upper(req.currency@),
{
    to_upper(req.currency.as_str())
}

/// No source had the rate.
pub fn refresh_failed(detail: &str) -> (r: AppError)
    ensures
        r.is_upstream("rate refresh failed: "@ + detail@),
{
    AppError::Upstream(cat2("rate refresh failed: ", detail))
}

} // verus!
