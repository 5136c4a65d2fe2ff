//! Notices that were or are to be delivered.

use crate::api::admin::{clamp_limit, clamped};
use crate::error::{bad_request_with, not_found_with, AppError};
use crate::text::same;
use vstd::prelude::*;

verus! {

/// How many deliveries are listed where nothing is said.
pub const DEFAULT_LIMIT: i64 = 100;

/// How many deliveries are listed at most.
pub const MAX_LIMIT: i64 = 500;

/// Which deliveries are listed.
#[derive(Clone, Debug)]
pub struct ListDeliveriesQuery {
    pub endpoint_id: Option<String>,
    /// `pending`, `delivered`, `failed` or `all`.
    pub status: Option<String>,
    pub limit: Option<i64>,
}

/// Which deliveries are listed, by their state.
#[derive(Clone, Copy, Debug, PartialEq, Eq, Structural)]
pub enum DeliveryStatusFilter {
    Pending,
    Delivered,
    /// Those that are not tried again.
    Failed,
    All,
}

impl DeliveryStatusFilter {
    /// The filter with a name.
    pub open spec fn named(name: Seq<char>) -> Option<DeliveryStatusFilter> {
        if name == "pending"@ {
            Some(DeliveryStatusFilter::Pending)
        } else if name == "delivered"@ {
            Some(DeliveryStatusFilter::Delivered)
        } else if name == "failed"@ {
            Some(DeliveryStatusFilter::Failed)
        } else if name == "all"@ {
            Some(DeliveryStatusFilter::All)
        } else {
            None
        }
    }

    /// The filter with a name.
    pub fn parse(name: &str) -> (r: Option<DeliveryStatusFilter>)
        ensures
            r == DeliveryStatusFilter::named(name@),
    {
        if same(name, "pending") {
            Some(DeliveryStatusFilter::Pending)
        } else if same(name, "delivered") {
            Some(DeliveryStatusFilter::Delivered)
        } else if same(name, "failed") {
            Some(DeliveryStatusFilter::Failed)
        } else if same(name, "all") {
            Some(DeliveryStatusFilter::All)
        } else {
            None
        }
    }
}

/// Does `r` say which deliveries are listed, and how many at most?
pub open spec fn is_delivery_list(
    q: ListDeliveriesQuery,
    r: Result<(DeliveryStatusFilter, i64), AppError>,
) -> bool {
    let filter = match q.status {
        Some(name) => DeliveryStatusFilter::named(name@),
        None => Some(DeliveryStatusFilter::All),
    };
    match r {
        Ok((f, limit)) => filter == Some(f) && limit == clamped(
            match q.limit {
                Some(n) => n as int,
                None => DEFAULT_LIMIT as int,
            },
            1,
            MAX_LIMIT as int,
        ),
        Err(e) => filter is None && e.is_bad_request(
            "invalid status filter '"@ + q.status->0@
                + "'; expected pending|delivered|failed|all"@,
        ),
    }
}

/// Which deliveries are listed, and how many at most.
pub fn list(q: &ListDeliveriesQuery) -> (r: Result<(DeliveryStatusFilter, i64), AppError>)
    ensures
        is_delivery_list(*q, r),
{
    let filter: DeliveryStatusFilter = match &q.status {
        Some(name) => match DeliveryStatusFilter::parse(name.as_str()) {
            Some(f) => f,
            None => {
                return Err(
                    bad_request_with(
                        "invalid status filter '",
                        name.as_str(),
                        "'; expected pending|delivered|failed|all",
                    ),
                );
            },
        },
        None => DeliveryStatusFilter::All,
    };
    let limit: i64 = match q.limit {
        Some(n) => n,
        None => DEFAULT_LIMIT,
    };
    Ok((filter, clamp_limit(limit, 1, MAX_LIMIT)))
}

/// There is no delivery with this id to try again.
pub fn no_delivery(id: &str) -> (r: AppError)
    ensures
        r.is_not_found("webhook delivery '"@ + id@ + "'"@),
{
    not_found_with("webhook delivery '", id, "'")
}

} // verus!
