//! HAL representations of subscriptions, served by the HTTP API.

use vstd::prelude::*;
use vstd::string::*;

use crate::model::{SourceBranchInfo, Subscription, SubscriptionWithBranch};
use crate::text::int_decimal;

verus! {

/// HAL link structure.
#[derive(Debug, Clone, PartialEq, Eq)]
pub struct HalLink {
    /// URL of the link.
    pub href: String,
}

/// HAL links for a subscription.
#[derive(Debug, Clone, PartialEq, Eq)]
pub struct SubscriptionLinks {
    /// Self link.
    pub self_link: HalLink,
    /// Update link.
    pub update: HalLink,
    /// Delete link.
    pub delete: HalLink,
}

/// HAL representation of a subscription.
#[derive(Debug, Clone)]
pub struct SubscriptionHal {
    /// The subscription data.
    pub subscription: Subscription,
    /// The source repository and branch.
    pub source_branch: SourceBranchInfo,
    /// HAL links.
    pub links: SubscriptionLinks,
}

/// HAL links for a subscription page.
#[derive(Debug, Clone, PartialEq, Eq)]
pub struct SubscriptionPageLinks {
    /// Next page link.
    pub next: Option<HalLink>,
}

/// Paginated representation of subscriptions.
#[derive(Debug, Clone)]
pub struct SubscriptionPage {
    /// The subscription data.
    pub data: Vec<SubscriptionHal>,
    /// Number of elements remaining after this page.
    pub remaining_count: i64,
    /// HAL links.
    pub links: SubscriptionPageLinks,
}

/// The path of the subscription `id`: `/subscriptions/{id}`.
pub open spec fn subscription_href(id: i64) -> Seq<char> {
    "/subscriptions/"@ + int_decimal(id as int)
}

/// The path of the subscription `id`.
pub fn subscription_path(id: i64) -> (s: String)
    ensures
        s@ == subscription_href(id),
{
    let digits = crate::external::decimal_string(id as i128);
    String::from_str("/subscriptions/").concat(digits.as_str())
}

/// The links of the subscription `id`: self, update and delete all point
/// at its path.
pub fn subscription_links(id: i64) -> (l: SubscriptionLinks)
    ensures
        l.self_link.href@ == subscription_href(id),
        l.update.href@ == subscription_href(id),
        l.delete.href@ == subscription_href(id),
{
    SubscriptionLinks {
        self_link: HalLink { href: subscription_path(id) },
        update: HalLink { href: subscription_path(id) },
        delete: HalLink { href: subscription_path(id) },
    }
}

/// Maps a [`SubscriptionWithBranch`] to its HAL representation.
pub fn map_to_hal(sub_with_branch: SubscriptionWithBranch) -> (h: SubscriptionHal)
    ensures
        h.subscription == sub_with_branch.subscription,
        h.source_branch == sub_with_branch.source_branch,
        h.links.self_link.href@ == subscription_href(sub_with_branch.subscription.id),
        h.links.update.href@ == subscription_href(sub_with_branch.subscription.id),
        h.links.delete.href@ == subscription_href(sub_with_branch.subscription.id),
{
    let id = sub_with_branch.subscription.id;
    SubscriptionHal {
        subscription: sub_with_branch.subscription,
        source_branch: sub_with_branch.source_branch,
        links: subscription_links(id),
    }
}

} // verus!
