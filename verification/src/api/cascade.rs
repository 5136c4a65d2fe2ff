//! What a deletion takes with it, in the order in which it has to go.

use vstd::prelude::*;

verus! {

/// Records that can belong to a product or a policy.
#[derive(Clone, Copy, Debug, PartialEq, Eq, Structural)]
pub enum Records {
    Machines,
    Redemptions,
    TierChanges,
    /// What codes say of the policies that they are restricted to; the codes
    /// themselves stay.
    CodeScopes,
    Codes,
    Subscriptions,
    Licenses,
    Invoices,
    Policies,
    Products,
}

/// Do records of the first kind point to records of the second?
pub open spec fn refer_to(a: Records, b: Records) -> bool {
    match a {
        Records::Machines => b is Licenses,
        Records::Redemptions => b is Invoices || b is Codes,
        Records::TierChanges => b is Policies || b is Licenses,
        Records::CodeScopes => b is Policies,
        Records::Codes => b is Policies || b is Products,
        Records::Subscriptions => b is Policies || b is Licenses,
        Records::Licenses => b is Invoices || b is Policies || b is Products,
        Records::Invoices => b is Policies || b is Products,
        Records::Policies => b is Products,
        Records::Products => false,
    }
}

/// Do records go before those that they point to?
pub open spec fn in_order(order: Seq<Records>) -> bool {
    forall|i: int, j: int|
        0 <= i < order.len() && 0 <= j < order.len() && refer_to(
            #[trigger] order[i],
            #[trigger] order[j],
        ) ==> i < j
}

/// What goes with a product. Customers' records go only by force.
pub open spec fn gone_with_product(force: bool) -> Seq<Records> {
    if force {
        seq![
            Records::Machines,
            Records::Redemptions,
            Records::Licenses,
            Records::Invoices,
            Records::Codes,
            Records::Policies,
            Records::Products,
        ]
    } else {
        seq![Records::Codes, Records::Policies, Records::Products]
    }
}

/// What goes with a product.
pub fn product_cascade(force: bool) -> (r: Vec<Records>)
    ensures
        r@ == gone_with_product(force),
{
    if force {
        vec![
            Records::Machines,
            Records::Redemptions,
            Records::Licenses,
            Records::Invoices,
            Records::Codes,
            Records::Policies,
            Records::Products,
        ]
    } else {
        vec![Records::Codes, Records::Policies, Records::Products]
    }
}

/// What goes with a policy. Codes that were restricted to it are kept.
pub open spec fn gone_with_policy() -> Seq<Records> {
    seq![
        Records::Machines,
        Records::Redemptions,
        Records::TierChanges,
        Records::CodeScopes,
        Records::Subscriptions,
        Records::Licenses,
        Records::Invoices,
        Records::Policies,
    ]
}

/// What goes with a policy.
pub fn policy_cascade() -> (r: Vec<Records>)
    ensures
        r@ == gone_with_policy(),
{
    vec![
        Records::Machines,
        Records::Redemptions,
        Records::TierChanges,
        Records::CodeScopes,
        Records::Subscriptions,
        Records::Licenses,
        Records::Invoices,
        Records::Policies,
    ]
}

/// Whatever is deleted, no record that is left to delete points to one that is
/// gone already.
pub proof fn deletions_leave_nothing_dangling(force: bool)
    ensures
        in_order(gone_with_product(force)),
        in_order(gone_with_policy()),
{
}

/// A product that is not deleted by force takes no customer's record with it.
pub proof fn customers_records_go_only_by_force()
    ensures
        forall|i: int|
            0 <= i < gone_with_product(false).len() ==> match #[trigger] gone_with_product(
                false,
            )[i] {
                Records::Codes | Records::Policies | Records::Products => true,
                _ => false,
            },
{
}

} // verus!
