//! Which payment providers the default profile has.

use crate::models::{MerchantProfile, PaymentProviderRow};
use crate::text::{copy_opt, same};
use vstd::prelude::*;

verus! {

/// What is told about a provider.
#[derive(Clone, Debug, PartialEq, Eq)]
pub struct ProviderSummary {
    pub id: String,
    pub kind: String,
    pub label: String,
    pub base_url: String,
    pub store_id: Option<String>,
}

/// What is told about the default profile's providers.
#[derive(Clone, Debug, PartialEq, Eq)]
pub struct ProviderStatus {
    pub btcpay_configured: bool,
    pub zaprite_configured: bool,
    /// The kind of the provider that was connected first.
    pub active: Option<String>,
    pub merchant_profile_id: Option<String>,
    pub merchant_profile_name: Option<String>,
    pub providers: Vec<ProviderSummary>,
}

/// Is one of the providers of this kind?
pub open spec fn has_kind(rows: Seq<PaymentProviderRow>, kind: Seq<char>) -> bool {
    exists|i: int| 0 <= i < rows.len() && (#[trigger] rows[i]).kind@ == kind
}

/// Is one of the providers of this kind?
pub fn any_of_kind(rows: &Vec<PaymentProviderRow>, kind: &str) -> (r: bool)
    ensures
        r == has_kind(rows@, kind@),
{
    for i in 0..rows.len()
        invariant
            forall|j: int| 0 <= j < i ==> (#[trigger] rows@[j]).kind@ != kind@,
    {
        if same(rows[i].kind.as_str(), kind) {
            assert(rows@[i as int].kind@ == kind@);
            return true;
        }
    }
    false
}

/// The first provider of a kind.
pub open spec fn first_of_kind(rows: Seq<PaymentProviderRow>, kind: Seq<char>) -> Option<
    PaymentProviderRow,
>
    decreases rows.len(),
{
    if rows.len() == 0 {
        None
    } else if rows[0].kind@ == kind {
        Some(rows[0])
    } else {
        first_of_kind(rows.drop_first(), kind)
    }
}

/// The first provider of a kind.
pub fn find_kind<'a>(rows: &'a Vec<PaymentProviderRow>, kind: &str) -> (r: Option<
    &'a PaymentProviderRow,
>)
    ensures
        opt_row(r) == first_of_kind(rows@, kind@),
{
    let n: usize = rows.len();
    assert(rows@.subrange(0, n as int) == rows@);
    for i in 0..n
        invariant
            n == rows@.len(),
            first_of_kind(rows@, kind@) == first_of_kind(
                rows@.subrange(i as int, n as int),
                kind@,
            ),
    {
        assert(rows@.subrange(i as int, n as int).drop_first() == rows@.subrange(
            i + 1,
            n as int,
        ));
        if same(rows[i].kind.as_str(), kind) {
            return Some(&rows[i]);
        }
    }
    None
}

/// The provider behind a reference.
pub open spec fn opt_row(o: Option<&PaymentProviderRow>) -> Option<PaymentProviderRow> {
    match o {
        Some(row) => Some(*row),
        None => None,
    }
}

/// What is told about a provider.
pub open spec fn summary_of(row: PaymentProviderRow) -> ProviderSummary {
    ProviderSummary {
        id: row.id,
        kind: row.kind,
        label: row.label,
        base_url: row.base_url,
        store_id: row.store_id,
    }
}

fn summaries(rows: &Vec<PaymentProviderRow>) -> (r: Vec<ProviderSummary>)
    ensures
        r@ == rows@.map_values(|row: PaymentProviderRow| summary_of(row)),
{
    let mut out: Vec<ProviderSummary> = Vec::new();
    for i in 0..rows.len()
        invariant
            out@ == rows@.take(i as int).map_values(|row: PaymentProviderRow| summary_of(row)),
    {
        let row: &PaymentProviderRow = &rows[i];
        out.push(
            ProviderSummary {
                id: row.id.clone(),
                kind: row.kind.clone(),
                label: row.label.clone(),
                base_url: row.base_url.clone(),
                store_id: copy_opt(&row.store_id),
            },
        );
        assert(rows@.take(i + 1) == rows@.take(i as int).push(rows@[i as int]));
    }
    assert(rows@.take(rows@.len() as int) == rows@);
    out
}

/// Is `r` what is told about the default profile's providers?
pub open spec fn is_provider_status(
    default: Option<MerchantProfile>,
    rows: Seq<PaymentProviderRow>,
    r: ProviderStatus,
) -> bool {
    &&& r.btcpay_configured == has_kind(rows, "btcpay"@)
    &&& r.zaprite_configured == has_kind(rows, "zaprite"@)
    &&& r.active == if rows.len() > 0 {
        Some(rows[0].kind)
    } else {
        None
    }
    &&& r.merchant_profile_id == match default {
        Some(p) => Some(p.id),
        None => None,
    }
    &&& r.merchant_profile_name == match default {
        Some(p) => Some(p.name),
        None => None,
    }
    &&& r.providers@ == rows.map_values(|row: PaymentProviderRow| summary_of(row))
}

/// What is told about the default profile's providers, in the order in which
/// they were connected. Where there is no default profile, there are none.
pub fn status(default: &Option<MerchantProfile>, rows: &Vec<PaymentProviderRow>) -> (r:
    ProviderStatus)
    ensures
        is_provider_status(*default, rows@, r),
{
    let active: Option<String> = if rows.len() > 0 {
        Some(rows[0].kind.clone())
    } else {
        None
    };
    let (merchant_profile_id, merchant_profile_name) = match default {
        Some(p) => (Some(p.id.clone()), Some(p.name.clone())),
        None => (None, None),
    };
    ProviderStatus {
        btcpay_configured: any_of_kind(rows, "btcpay"),
        zaprite_configured: any_of_kind(rows, "zaprite"),
        active,
        merchant_profile_id,
        merchant_profile_name,
        providers: summaries(rows),
    }
}

} // verus!
