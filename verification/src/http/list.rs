//! Pagination of the subscription list.

use vstd::prelude::*;
use vstd::string::*;

use crate::config::DatabaseConfig;
use crate::http::hal::{HalLink, SubscriptionHal, SubscriptionPage, SubscriptionPageLinks};
use crate::polling::git::{lemma_next_index_of_finds, next_index_of};
use crate::text::{
    int_decimal, is_digit, is_numeral, lemma_int_decimal_reads_back, lemma_nat_decimal_reads_back,
    nat_decimal, numeral_value,
};

verus! {

/// Query parameters for listing subscriptions.
#[derive(Debug, Clone, Copy, PartialEq, Eq)]
pub struct ListSubscriptionsQuery {
    /// Maximum number of subscriptions to return.
    pub limit: Option<usize>,
    /// The ID of the last subscription in the previous page.
    pub last_id: Option<i64>,
}

/// Which page to read: at most `limit` subscriptions with an ID above
/// `last_id`.
#[derive(Debug, Clone, Copy, PartialEq, Eq)]
pub struct PageRequest {
    /// Page size.
    pub limit: usize,
    /// Exclusive lower bound on the IDs.
    pub last_id: i64,
}

/// The page size: the requested one, or the configured default when none
/// is given, never above the configured cap.
pub open spec fn spec_page_limit(requested: Option<usize>, default: usize, cap: usize) -> usize {
    let wanted = match requested {
        Some(l) => l,
        None => default,
    };
    if wanted <= cap {
        wanted
    } else {
        cap
    }
}

/// A page never holds more than the configured cap.
pub proof fn lemma_page_limit_capped(requested: Option<usize>, default: usize, cap: usize)
    ensures
        spec_page_limit(requested, default, cap) <= cap,
        requested is Some && requested->0 <= cap ==> spec_page_limit(requested, default, cap)
            == requested->0,
{
}

/// The page that a query asks for under the configured limits; without a
/// cursor the list starts after ID 0.
pub fn page_request(query: &ListSubscriptionsQuery, config: &DatabaseConfig) -> (r: PageRequest)
    ensures
        r.limit == spec_page_limit(
            query.limit,
            config.subscriptions_list_limit,
            config.subscriptions_list_limit_cap,
        ),
        r.last_id == match query.last_id {
            Some(id) => id,
            None => 0,
        },
{
    let wanted = match query.limit {
        Some(l) => l,
        None => config.subscriptions_list_limit,
    };
    let limit = if wanted <= config.subscriptions_list_limit_cap {
        wanted
    } else {
        config.subscriptions_list_limit_cap
    };
    let last_id = match query.last_id {
        Some(id) => id,
        None => 0,
    };
    PageRequest { limit, last_id }
}

/// The cursor after a page: the ID of its last subscription, or the
/// cursor it was read after when it is empty.
pub fn next_cursor(data: &Vec<SubscriptionHal>, last_id: i64) -> (c: i64)
    ensures
        c == if data@.len() > 0 {
            data@.last().subscription.id
        } else {
            last_id
        },
{
    if data.len() > 0 {
        data[data.len() - 1].subscription.id
    } else {
        last_id
    }
}

/// The path of the page of at most `limit` subscriptions after `last_id`.
pub open spec fn page_href(limit: usize, last_id: i64) -> Seq<char> {
    "/subscriptions?limit="@ + int_decimal(limit as int) + "&last_id="@ + int_decimal(last_id as int)
}

/// The next-page path reads back as the page size and the cursor: after
/// `/subscriptions?limit=` comes, up to the first `&`, a numeral whose value
/// is `limit`; then `&last_id=` and a numeral whose value is `last_id`.
pub proof fn lemma_page_href_reads_back(limit: usize, last_id: i64)
    ensures
        ({
            let h = page_href(limit, last_id);
            let p = "/subscriptions?limit="@;
            let q = h.subrange(p.len() as int, h.len() as int);
            let a = next_index_of(q, '&', 0);
            &&& p.len() <= h.len()
            &&& h.subrange(0, p.len() as int) == p
            &&& a + 9 <= q.len()
            &&& is_numeral(q.subrange(0, a))
            &&& numeral_value(q.subrange(0, a)) == limit
            &&& q.subrange(a, a + 9) == "&last_id="@
            &&& is_numeral(q.subrange(a + 9, q.len() as int))
            &&& numeral_value(q.subrange(a + 9, q.len() as int)) == last_id
        }),
{
    reveal_strlit("/subscriptions?limit=");
    reveal_strlit("&last_id=");
    let p = "/subscriptions?limit="@;
    let l = int_decimal(limit as int);
    let c = int_decimal(last_id as int);
    let sep = "&last_id="@;
    lemma_int_decimal_reads_back(limit as int);
    lemma_int_decimal_reads_back(last_id as int);
    lemma_nat_decimal_reads_back(limit as nat);
    assert(l == nat_decimal(limit as nat));
    let h = page_href(limit, last_id);
    assert(h =~= p + (l + sep + c));
    let q = h.subrange(p.len() as int, h.len() as int);
    assert(q =~= l + sep + c);
    assert(h.subrange(0, p.len() as int) =~= p);
    assert forall|j: int| 0 <= j < l.len() implies q[j] != '&' by {
        assert(q[j] == l[j]);
        assert(is_digit(l[j]));
    }
    assert(q[l.len() as int] == '&');
    lemma_next_index_of_finds(q, '&', 0, l.len() as int);
    assert(q.subrange(0, l.len() as int) =~= l);
    assert(q.subrange(l.len() as int, l.len() as int + 9) =~= sep);
    assert(q.subrange(l.len() as int + 9, q.len() as int) =~= c);
}

/// The path of the page of at most `limit` subscriptions after `last_id`.
pub fn page_path(limit: usize, last_id: i64) -> (s: String)
    ensures
        s@ == page_href(limit, last_id),
{
    let limit_digits = crate::external::decimal_string(limit as i128);
    let id_digits = crate::external::decimal_string(last_id as i128);
    String::from_str("/subscriptions?limit=").concat(limit_digits.as_str()).concat(
        "&last_id=",
    ).concat(id_digits.as_str())
}

/// Builds a page: it links to the next page, read after its last
/// subscription, exactly when it is not empty and subscriptions remain.
pub fn build_page(data: Vec<SubscriptionHal>, limit: usize, remaining_count: i64) -> (p:
    SubscriptionPage)
    ensures
        p.data@ == data@,
        p.remaining_count == remaining_count,
        p.links.next is Some <==> (data@.len() > 0 && remaining_count > 0),
        p.links.next matches Some(link) ==> link.href@ == page_href(
            limit,
            data@.last().subscription.id,
        ),
{
    let next = if data.len() > 0 && remaining_count > 0 {
        Some(HalLink { href: page_path(limit, data[data.len() - 1].subscription.id) })
    } else {
        None
    };
    SubscriptionPage { data, remaining_count, links: SubscriptionPageLinks { next } }
}

} // verus!
