//! Listing response shapes: rows, pagination metadata, filters, sort
//! descriptor and navigation links, together with the functions that derive
//! the metadata and rebuild the links from the request parameters.

use vstd::prelude::*;

verus! {

use vstd::string::StringExecFns;
use crate::numfmt::{dec_str, u32_string};
use crate::requests::SortOrder;
use crate::similarity::Score;

/// One listing row: the owner, the subject term, its count, and the
/// similarity score when a fuzzy filter was supplied.
#[derive(Debug, Clone)]
pub struct Data {
    pub username: String,
    pub word: String,
    pub count: u32,
    pub similarity: Option<Score>,
}

/// Links attached to a single row.
#[derive(Debug, Clone)]
pub struct DataLinks {
    pub own: String,
}

/// Pagination metadata derived from the request and the total row count.
#[derive(Clone, Copy, Debug, PartialEq, Eq, Structural)]
pub struct Pagination {
    pub page: u32,
    pub limit: u32,
    pub total_rows: u32,
    pub total_pages: u32,
    pub has_next: bool,
    pub has_prev: bool,
}

/// The filters that produced a listing, echoed back to the client.
#[derive(Debug, Clone)]
pub struct Filters {
    pub username: Option<String>,
    pub word: Option<String>,
}

/// The sort column and direction of a listing.
#[derive(Debug, Clone)]
pub struct Sort {
    pub by: String,
    pub order: String,
}

/// Metadata of the filtered listing endpoint.
#[derive(Debug, Clone)]
pub struct Meta {
    pub pagination: Pagination,
    pub filters: Filters,
    pub sort: Sort,
}

/// Metadata of the pagination-only listing endpoints.
#[derive(Debug, Clone)]
pub struct PartMeta {
    pub pagination: Pagination,
    pub sort: Sort,
}

/// Navigation links of a listing window.
#[derive(Debug, Clone)]
pub struct Links {
    pub own: String,
    pub first: String,
    pub last: String,
    pub prev: Option<String>,
    pub next: Option<String>,
}

/// The filtered listing response.
#[derive(Debug)]
pub struct Response {
    pub data: Vec<Data>,
    pub meta: Meta,
    pub links: Links,
}

/// One row of the per-user totals listing.
#[derive(Debug, Clone)]
pub struct UserData {
    pub username: String,
    pub count: u32,
}

/// The per-user totals response.
#[derive(Debug)]
pub struct UserResponse {
    pub data: Vec<UserData>,
    pub meta: PartMeta,
    pub links: Links,
}

/// One row of the per-word totals listing.
#[derive(Debug, Clone)]
pub struct WordData {
    pub word: String,
    pub count: u32,
}

/// The per-word totals response.
#[derive(Debug)]
pub struct WordResponse {
    pub data: Vec<WordData>,
    pub meta: PartMeta,
    pub links: Links,
}

/// Ceiling division: the number of pages needed for `total` rows at `limit`
/// rows per page.
pub open spec fn ceil_div(total: nat, limit: nat) -> nat
    recommends
        limit >= 1,
{
    (total + limit - 1) as nat / limit
}

/// Derives the pagination metadata: the total page count is the ceiling
/// division of the row count by the limit, there is a next page exactly
/// when the page lies before the last one, and a previous page exactly when
/// the page lies after the first.
pub fn paginate(page: u32, limit: u32, total_rows: u32) -> (r: Pagination)
    requires
        limit >= 1,
    ensures
        r.page == page,
        r.limit == limit,
        r.total_rows == total_rows,
        r.total_pages == ceil_div(total_rows as nat, limit as nat),
        r.has_next == (page < r.total_pages),
        r.has_prev == (page > 1),
{
    let t = total_rows as u64;
    let l = limit as u64;
    let tp = (t + l - 1) / l;
    proof {
        assert(tp <= t) by (nonlinear_arith)
            requires
                l >= 1,
                tp == (t + l - 1) as u64 / l,
        ;
    }
    let total_pages = tp as u32;
    Pagination {
        page,
        limit,
        total_rows,
        total_pages,
        has_next: page < total_pages,
        has_prev: page > 1,
    }
}

/// The query-string suffix that re-encodes the optional filters.
pub open spec fn filter_suffix(username: Option<Seq<char>>, word: Option<Seq<char>>) -> Seq<char> {
    (match username {
        Option::Some(u) => "&username="@ + u,
        Option::None => Seq::<char>::empty(),
    }) + (match word {
        Option::Some(w) => "&word="@ + w,
        Option::None => Seq::<char>::empty(),
    })
}

/// A listing link for one page, rebuilt from the parameters so that
/// following it reproduces an equivalent query.
pub open spec fn link_of(page: u32, limit: u32, order: SortOrder, filter: Seq<char>) -> Seq<char> {
    "/counter?page="@ + dec_str(page as nat) + "&limit="@ + dec_str(limit as nat) + "&order="@
        + order.spec_str() + filter
}

/// Re-encodes the optional filters as a query-string suffix.
pub fn build_filter_suffix(username: &Option<String>, word: &Option<String>) -> (r: String)
    ensures
        r@ == filter_suffix(
            match *username {
                Option::Some(ref u) => Option::Some(u@),
                Option::None => Option::<Seq<char>>::None,
            },
            match *word {
                Option::Some(ref w) => Option::Some(w@),
                Option::None => Option::<Seq<char>>::None,
            },
        ),
{
    let mut out = String::new();
    match username {
        Option::Some(u) => {
            out.append("&username=");
            out.append(u.as_str());
        },
        Option::None => {},
    }
    match word {
        Option::Some(w) => {
            out.append("&word=");
            out.append(w.as_str());
        },
        Option::None => {},
    }
    out
}

/// Builds the link for one page.
pub fn build_link(page: u32, limit: u32, order: SortOrder, filter: &str) -> (r: String)
    ensures
        r@ == link_of(page, limit, order, filter@),
{
    let mut out = String::new();
    out.append("/counter?page=");
    let p = u32_string(page);
    out.append(p.as_str());
    out.append("&limit=");
    let l = u32_string(limit);
    out.append(l.as_str());
    out.append("&order=");
    out.append(order.as_str());
    out.append(filter);
    out
}

/// Builds the navigation links of one listing window: self, first and last
/// always; next exactly when a next page exists, pointing one page forward;
/// previous exactly when the page is past the first, pointing one page
/// back.
pub fn build_links(p: Pagination, order: SortOrder, filter: &str) -> (r: Links)
    requires
        p.has_next ==> p.page < p.total_pages,
        p.has_prev ==> p.page > 1,
    ensures
        r.own@ == link_of(p.page, p.limit, order, filter@),
        r.first@ == link_of(1, p.limit, order, filter@),
        r.last@ == link_of(p.total_pages, p.limit, order, filter@),
        r.next matches Option::Some(n) <==> p.has_next,
        r.next matches Option::Some(n) ==> p.page < u32::MAX && n@ == link_of(
            (p.page + 1) as u32,
            p.limit,
            order,
            filter@,
        ),
        r.prev matches Option::Some(v) <==> p.has_prev,
        r.prev matches Option::Some(v) ==> p.page > 1 && v@ == link_of(
            (p.page - 1) as u32,
            p.limit,
            order,
            filter@,
        ),
{
    Links {
        own: build_link(p.page, p.limit, order, filter),
        first: build_link(1, p.limit, order, filter),
        last: build_link(p.total_pages, p.limit, order, filter),
        next: if p.has_next {
            Option::Some(build_link(p.page + 1, p.limit, order, filter))
        } else {
            Option::None
        },
        prev: if p.has_prev {
            Option::Some(build_link(p.page - 1, p.limit, order, filter))
        } else {
            Option::None
        },
    }
}

/// The sort descriptor of every listing: by count, in the given direction.
pub fn build_sort(order: SortOrder) -> (r: Sort)
    ensures
        r.by@ == "count"@,
        r.order@ == order.spec_str(),
{
    Sort { by: "count".to_owned(), order: order.as_str().to_owned() }
}

} // verus!
