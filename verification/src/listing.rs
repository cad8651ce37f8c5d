//! Assembly of listing responses: attaching similarity scores to the rows
//! of a fetched page, the stable descending re-sort by score, and the
//! composition of rows, pagination metadata and navigation links.

use vstd::prelude::*;

verus! {

use vstd::seq_lib::lemma_multiset_commutative;
use vstd::seq_lib::group_to_multiset_ensures;
use crate::requests::{SetQueryPagination, SetQueryParams};
use crate::responses::{
    build_filter_suffix, build_links, build_sort, ceil_div, filter_suffix, link_of, paginate,
    Data, Filters, Meta, PartMeta, Response, UserData, UserResponse, WordData, WordResponse,
};
use crate::similarity::{scored, similarity, Score};
use crate::sqlgen::opt_view;

/// One raw row of the counter table, as the store returns it.
#[derive(Debug, Clone)]
pub struct CountRow {
    pub username: String,
    pub word: String,
    pub count: u32,
}

impl Data {
    /// Builds one listing row from a fetched raw row: when a username
    /// filter is supplied the row is scored against it, otherwise when a
    /// word filter is supplied the row's word is scored against that, and
    /// with no filter no score is attached.
    pub fn from_row(
        row: CountRow,
        filter_username: &Option<String>,
        filter_word: &Option<String>,
    ) -> (r: Data)
        ensures
            row_scored(row, r, opt_view(*filter_username), opt_view(*filter_word)),
    {
        let similarity_score: Option<Score> = match filter_username {
            Option::Some(u) => Option::Some(similarity(row.username.as_str(), u.as_str())),
            Option::None => match filter_word {
                Option::Some(w) => Option::Some(similarity(row.word.as_str(), w.as_str())),
                Option::None => Option::None,
            },
        };
        Data { username: row.username, word: row.word, count: row.count, similarity: similarity_score }
    }
}

/// How one listing row relates to the raw row it came from: the fields are
/// carried over, and the similarity field follows the filters (username
/// filter preferred, word filter next, no score without a filter).
pub open spec fn row_scored(
    row: CountRow,
    d: Data,
    fu: Option<Seq<char>>,
    fw: Option<Seq<char>>,
) -> bool {
    &&& d.username == row.username
    &&& d.word == row.word
    &&& d.count == row.count
    &&& match (fu, fw) {
        (Option::Some(u), _) => d.similarity matches Option::Some(s) && scored(
            row.username@,
            u,
            s,
        ),
        (Option::None, Option::Some(w)) => d.similarity matches Option::Some(s) && scored(
            row.word@,
            w,
            s,
        ),
        (Option::None, Option::None) => d.similarity is None,
    }
}

/// `row_scored`, element by element.
pub open spec fn rows_scored(
    rows: Seq<CountRow>,
    ds: Seq<Data>,
    fu: Option<Seq<char>>,
    fw: Option<Seq<char>>,
) -> bool {
    &&& ds.len() == rows.len()
    &&& forall|i: int| 0 <= i < rows.len() ==> row_scored(rows[i], #[trigger] ds[i], fu, fw)
}

/// Scores every fetched row against the supplied filters.
pub fn attach_similarity(
    rows: Vec<CountRow>,
    filter_username: &Option<String>,
    filter_word: &Option<String>,
) -> (r: Vec<Data>)
    ensures
        rows_scored(rows@, r@, opt_view(*filter_username), opt_view(*filter_word)),
{
    let mut out: Vec<Data> = Vec::new();
    let mut rest = rows;
    let ghost all = rest@;
    let n_all = rest.len();
    let mut i: usize = 0;
    proof {
        assert(all.skip(0) =~= all);
    }
    while rest.len() > 0
        invariant
            all.len() == n_all,
            i + rest@.len() == all.len(),
            rest@ == all.skip(i as int),
            out@.len() == i,
            forall|k: int|
                0 <= k < i ==> row_scored(
                    all[k],
                    #[trigger] out@[k],
                    opt_view(*filter_username),
                    opt_view(*filter_word),
                ),
        decreases rest@.len(),
    {
        let row = rest.remove(0);
        proof {
            assert(row == all[i as int]);
            assert(all.skip(i as int).drop_first() =~= all.skip(i as int + 1));
        }
        let d = Data::from_row(row, filter_username, filter_word);
        out.push(d);
        i += 1;
    }
    out
}

/// The sort key of a row: its similarity as a fraction, a missing score
/// counting as zero.
pub open spec fn sim_key(d: Data) -> (nat, nat) {
    match d.similarity {
        Option::Some(s) => (s.num as nat, s.den as nat),
        Option::None => (0nat, 1nat),
    }
}

/// `a`'s similarity is at least `b`'s (fractions compared exactly, by
/// cross-multiplication).
pub open spec fn key_ge(a: Data, b: Data) -> bool {
    sim_key(a).0 * sim_key(b).1 >= sim_key(b).0 * sim_key(a).1
}

/// `a`'s similarity is strictly above `b`'s.
pub open spec fn key_gt(a: Data, b: Data) -> bool {
    sim_key(a).0 * sim_key(b).1 > sim_key(b).0 * sim_key(a).1
}

/// Every row scores at least as high as the row after it.
pub open spec fn sorted_desc(s: Seq<Data>) -> bool {
    forall|i: int| 0 <= i < s.len() - 1 ==> key_ge(#[trigger] s[i], s[i + 1])
}

/// Inserts `x` behind every element scoring strictly above it, so that
/// elements already present keep their place ahead of an equal-scoring
/// newcomer.
pub open spec fn insert_desc(x: Data, s: Seq<Data>) -> Seq<Data>
    decreases s.len(),
{
    if s.len() == 0 {
        seq![x]
    } else if key_gt(s[0], x) {
        seq![s[0]] + insert_desc(x, s.drop_first())
    } else {
        seq![x] + s
    }
}

/// The stable descending sort by similarity: each element is inserted into
/// the sorted remainder, ahead of later elements with an equal score.
pub open spec fn sort_desc(s: Seq<Data>) -> Seq<Data>
    decreases s.len(),
{
    if s.len() == 0 {
        s
    } else {
        insert_desc(s[0], sort_desc(s.drop_first()))
    }
}

pub proof fn lemma_insert_desc_len(x: Data, s: Seq<Data>)
    ensures
        insert_desc(x, s).len() == s.len() + 1,
    decreases s.len(),
{
    if s.len() == 0 {
    } else if key_gt(s[0], x) {
        lemma_insert_desc_len(x, s.drop_first());
    } else {
    }
}

/// Inserting into a descending list keeps it descending.
pub proof fn lemma_insert_desc_sorted(x: Data, s: Seq<Data>)
    requires
        sorted_desc(s),
    ensures
        sorted_desc(insert_desc(x, s)),
    decreases s.len(),
{
    if s.len() == 0 {
    } else if key_gt(s[0], x) {
        let rest = s.drop_first();
        assert(sorted_desc(rest)) by {
            assert forall|i: int| 0 <= i < rest.len() - 1 implies key_ge(
                #[trigger] rest[i],
                rest[i + 1],
            ) by {
                assert(rest[i] == s[i + 1]);
                assert(rest[i + 1] == s[i + 2]);
            }
        }
        lemma_insert_desc_sorted(x, rest);
        lemma_insert_desc_len(x, rest);
        let t = insert_desc(x, rest);
        let r = seq![s[0]] + t;
        assert(key_ge(s[0], t[0])) by {
            if rest.len() == 0 {
                assert(t =~= seq![x]);
            } else if key_gt(rest[0], x) {
                assert(t[0] == rest[0]);
                assert(key_ge(s[0], s[1]));
            } else {
                assert(t[0] == x);
            }
        }
        assert forall|i: int| 0 <= i < r.len() - 1 implies key_ge(#[trigger] r[i], r[i + 1]) by {
            if i == 0 {
                assert(r[0] == s[0]);
                assert(r[1] == t[0]);
            } else {
                assert(r[i] == t[i - 1]);
                assert(r[i + 1] == t[i]);
            }
        }
    } else {
        let r = seq![x] + s;
        assert(key_ge(x, s[0]));
        assert forall|i: int| 0 <= i < r.len() - 1 implies key_ge(#[trigger] r[i], r[i + 1]) by {
            if i == 0 {
                assert(r[0] == x);
                assert(r[1] == s[0]);
            } else {
                assert(r[i] == s[i - 1]);
                assert(r[i + 1] == s[i]);
            }
        }
    }
}

/// The stable sort leaves a descending list.
pub proof fn lemma_sort_desc_sorted(s: Seq<Data>)
    ensures
        sorted_desc(sort_desc(s)),
    decreases s.len(),
{
    if s.len() == 0 {
    } else {
        lemma_sort_desc_sorted(s.drop_first());
        lemma_insert_desc_sorted(s[0], sort_desc(s.drop_first()));
    }
}

pub proof fn lemma_insert_desc_multiset(x: Data, s: Seq<Data>)
    ensures
        insert_desc(x, s).to_multiset() == s.to_multiset().insert(x),
    decreases s.len(),
{
    broadcast use group_to_multiset_ensures;

    if s.len() == 0 {
        assert(seq![x] =~= Seq::<Data>::empty().push(x));
        assert(Seq::<Data>::empty().push(x).to_multiset() =~= Seq::<Data>::empty()
            .to_multiset()
            .insert(x));
    } else if key_gt(s[0], x) {
        let rest = s.drop_first();
        lemma_insert_desc_multiset(x, rest);
        lemma_multiset_commutative(seq![s[0]], insert_desc(x, rest));
        lemma_multiset_commutative(seq![s[0]], rest);
        assert(s =~= seq![s[0]] + rest);
        assert(insert_desc(x, s).to_multiset() =~= s.to_multiset().insert(x));
    } else {
        lemma_multiset_commutative(seq![x], s);
        assert(seq![x] =~= Seq::<Data>::empty().push(x));
        assert(insert_desc(x, s).to_multiset() =~= s.to_multiset().insert(x));
    }
}

/// The stable sort returns exactly the rows it was given (the same
/// multiset).
pub proof fn lemma_sort_desc_multiset(s: Seq<Data>)
    ensures
        sort_desc(s).to_multiset() == s.to_multiset(),
    decreases s.len(),
{
    broadcast use group_to_multiset_ensures;

    if s.len() == 0 {
    } else {
        let rest = s.drop_first();
        lemma_sort_desc_multiset(rest);
        lemma_insert_desc_multiset(s[0], sort_desc(rest));
        lemma_multiset_commutative(seq![s[0]], rest);
        assert(s =~= seq![s[0]] + rest);
        assert(seq![s[0]] =~= Seq::<Data>::empty().push(s[0]));
        assert(sort_desc(s).to_multiset() =~= s.to_multiset());
    }
}

/// Is `a`'s similarity strictly above `b`'s? Missing scores count as zero.
fn score_gt(a: &Data, b: &Data) -> (r: bool)
    ensures
        r == key_gt(*a, *b),
{
    let (an, ad): (u64, u64) = match a.similarity {
        Option::Some(s) => (s.num, s.den),
        Option::None => (0, 1),
    };
    let (bn, bd): (u64, u64) = match b.similarity {
        Option::Some(s) => (s.num, s.den),
        Option::None => (0, 1),
    };
    proof {
        assert((an as u128) * (bd as u128) <= (u64::MAX as u128) * (u64::MAX as u128))
            by (nonlinear_arith)
            requires
                an <= u64::MAX,
                bd <= u64::MAX,
        ;
        assert((bn as u128) * (ad as u128) <= (u64::MAX as u128) * (u64::MAX as u128))
            by (nonlinear_arith)
            requires
                bn <= u64::MAX,
                ad <= u64::MAX,
        ;
    }
    (an as u128) * (bd as u128) > (bn as u128) * (ad as u128)
}

/// Inserts one row into a descending list, behind every strictly higher
/// scoring row.
fn insert_row(x: Data, v: Vec<Data>) -> (r: Vec<Data>)
    ensures
        r@ == insert_desc(x, v@),
    decreases v@.len(),
{
    if v.len() == 0 {
        let mut r: Vec<Data> = Vec::new();
        r.push(x);
        proof {
            assert(r@ =~= seq![x]);
        }
        r
    } else if score_gt(&v[0], &x) {
        let ghost orig = v@;
        let mut rest = v;
        let h = rest.remove(0);
        proof {
            assert(rest@ =~= orig.drop_first());
        }
        let mut r = insert_row(x, rest);
        r.insert(0, h);
        proof {
            assert(r@ =~= seq![h] + insert_desc(x, orig.drop_first()));
        }
        r
    } else {
        let ghost orig = v@;
        let mut r = v;
        r.insert(0, x);
        proof {
            assert(r@ =~= seq![x] + orig);
        }
        r
    }
}

/// Every row of the sorted listing is one of the rows that went in.
pub proof fn lemma_sort_desc_elements(s: Seq<Data>)
    ensures
        sort_desc(s).len() == s.len(),
        forall|i: int| 0 <= i < sort_desc(s).len() ==> s.contains(#[trigger] sort_desc(s)[i]),
{
    broadcast use group_to_multiset_ensures;

    lemma_sort_desc_multiset(s);
    vstd::seq_lib::to_multiset_len(s);
    vstd::seq_lib::to_multiset_len(sort_desc(s));
    assert forall|i: int| 0 <= i < sort_desc(s).len() implies s.contains(
        #[trigger] sort_desc(s)[i],
    ) by {
        let x = sort_desc(s)[i];
        assert(sort_desc(s).contains(x));
        vstd::seq_lib::to_multiset_contains(sort_desc(s), x);
        vstd::seq_lib::to_multiset_contains(s, x);
    }
}

/// Sorts the rows by descending similarity, stably: rows with equal scores
/// keep their original order.
pub fn sort_rows(v: Vec<Data>) -> (r: Vec<Data>)
    ensures
        r@ == sort_desc(v@),
    decreases v@.len(),
{
    if v.len() == 0 {
        v
    } else {
        let ghost orig = v@;
        let mut rest = v;
        let h = rest.remove(0);
        proof {
            assert(rest@ =~= orig.drop_first());
        }
        let sorted = sort_rows(rest);
        insert_row(h, sorted)
    }
}

/// Does the listing carry a fuzzy filter?
pub open spec fn has_filter(q: SetQueryParams) -> bool {
    q.username is Some || q.word is Some
}

/// Composes the filtered listing response from one fetched page, the
/// normalized parameters and the total matching row count. When a fuzzy
/// filter is present every row is scored against it and the page is
/// re-sorted stably by descending similarity; without a filter the rows
/// pass through in store order and carry no score. The metadata and the
/// navigation links are derived exactly from the parameters.
pub fn assemble_listing(rows: Vec<CountRow>, q: SetQueryParams, total_rows: u32) -> (r: Response)
    requires
        q.limit >= 1,
    ensures
        r.meta.pagination.page == q.page,
        r.meta.pagination.limit == q.limit,
        r.meta.pagination.total_rows == total_rows,
        r.meta.pagination.total_pages == ceil_div(total_rows as nat, q.limit as nat),
        r.meta.pagination.has_next == (q.page < r.meta.pagination.total_pages),
        r.meta.pagination.has_prev == (q.page > 1),
        r.meta.filters.username == q.username,
        r.meta.filters.word == q.word,
        r.meta.sort.by@ == "count"@,
        r.meta.sort.order@ == q.order.spec_str(),
        r.links.own@ == link_of(
            q.page,
            q.limit,
            q.order,
            filter_suffix(opt_view(q.username), opt_view(q.word)),
        ),
        r.links.first@ == link_of(
            1,
            q.limit,
            q.order,
            filter_suffix(opt_view(q.username), opt_view(q.word)),
        ),
        r.links.last@ == link_of(
            r.meta.pagination.total_pages,
            q.limit,
            q.order,
            filter_suffix(opt_view(q.username), opt_view(q.word)),
        ),
        r.links.next matches Option::Some(n) <==> q.page < r.meta.pagination.total_pages,
        r.links.next matches Option::Some(n) ==> q.page < u32::MAX && n@ == link_of(
            (q.page + 1) as u32,
            q.limit,
            q.order,
            filter_suffix(opt_view(q.username), opt_view(q.word)),
        ),
        r.links.prev matches Option::Some(v) <==> q.page > 1,
        r.links.prev matches Option::Some(v) ==> q.page > 1 && v@ == link_of(
            (q.page - 1) as u32,
            q.limit,
            q.order,
            filter_suffix(opt_view(q.username), opt_view(q.word)),
        ),
        r.data@.len() == rows@.len(),
        !has_filter(q) ==> rows_scored(rows@, r.data@, Option::None, Option::None),
        has_filter(q) ==> exists|mid: Seq<Data>|
            #[trigger] rows_scored(rows@, mid, opt_view(q.username), opt_view(q.word))
                && r.data@ == sort_desc(mid),
        has_filter(q) ==> sorted_desc(r.data@),
        has_filter(q) ==> forall|i: int|
            0 <= i < r.data@.len() ==> (#[trigger] r.data@[i]).similarity is Some,
{
    let scored_rows = attach_similarity(rows, &q.username, &q.word);
    let ghost mid = scored_rows@;
    let filtered = q.username.is_some() || q.word.is_some();
    let data = if filtered {
        proof {
            lemma_sort_desc_sorted(mid);
            lemma_sort_desc_elements(mid);
        }
        sort_rows(scored_rows)
    } else {
        scored_rows
    };
    proof {
        if filtered {
            assert forall|i: int| 0 <= i < sort_desc(mid).len() implies (
            #[trigger] sort_desc(mid)[i]).similarity is Some by {
                let j = choose|j: int| 0 <= j < mid.len() && mid[j] == sort_desc(mid)[i];
                assert(row_scored(rows@[j], mid[j], opt_view(q.username), opt_view(q.word)));
            }
        }
    }
    let pg = paginate(q.page, q.limit, total_rows);
    let suffix = build_filter_suffix(&q.username, &q.word);
    let links = build_links(pg, q.order, suffix.as_str());
    let meta = Meta {
        pagination: pg,
        filters: Filters { username: q.username, word: q.word },
        sort: build_sort(q.order),
    };
    Response { data, meta, links }
}

impl UserData {
    /// Builds one per-user totals row from fetched values.
    pub fn from_row(username: String, count: u32) -> (r: UserData)
        ensures
            r.username == username,
            r.count == count,
    {
        UserData { username, count }
    }
}

impl WordData {
    /// Builds one per-word totals row from fetched values.
    pub fn from_row(word: String, count: u32) -> (r: WordData)
        ensures
            r.word == word,
            r.count == count,
    {
        WordData { word, count }
    }
}

/// Composes the per-user totals response: the fetched rows pass through in
/// store order; metadata and links are derived from the parameters (these
/// listings carry no filter, so the links have no filter suffix).
pub fn assemble_user_listing(rows: Vec<UserData>, q: SetQueryPagination, total_rows: u32) -> (r:
    UserResponse)
    requires
        q.limit >= 1,
    ensures
        r.data == rows,
        r.meta.pagination.page == q.page,
        r.meta.pagination.limit == q.limit,
        r.meta.pagination.total_rows == total_rows,
        r.meta.pagination.total_pages == ceil_div(total_rows as nat, q.limit as nat),
        r.meta.pagination.has_next == (q.page < r.meta.pagination.total_pages),
        r.meta.pagination.has_prev == (q.page > 1),
        r.meta.sort.by@ == "count"@,
        r.meta.sort.order@ == q.order.spec_str(),
        r.links.own@ == link_of(q.page, q.limit, q.order, Seq::<char>::empty()),
        r.links.first@ == link_of(1, q.limit, q.order, Seq::<char>::empty()),
        r.links.last@ == link_of(
            r.meta.pagination.total_pages,
            q.limit,
            q.order,
            Seq::<char>::empty(),
        ),
        r.links.next matches Option::Some(n) <==> q.page < r.meta.pagination.total_pages,
        r.links.next matches Option::Some(n) ==> q.page < u32::MAX && n@ == link_of(
            (q.page + 1) as u32,
            q.limit,
            q.order,
            Seq::<char>::empty(),
        ),
        r.links.prev matches Option::Some(v) <==> q.page > 1,
        r.links.prev matches Option::Some(v) ==> q.page > 1 && v@ == link_of(
            (q.page - 1) as u32,
            q.limit,
            q.order,
            Seq::<char>::empty(),
        ),
{
    let pg = paginate(q.page, q.limit, total_rows);
    proof {
        reveal_strlit("");
        assert(""@ =~= Seq::<char>::empty());
    }
    let links = build_links(pg, q.order, "");
    let meta = PartMeta { pagination: pg, sort: build_sort(q.order) };
    UserResponse { data: rows, meta, links }
}

/// Composes the per-word totals response, exactly as the per-user one.
pub fn assemble_word_listing(rows: Vec<WordData>, q: SetQueryPagination, total_rows: u32) -> (r:
    WordResponse)
    requires
        q.limit >= 1,
    ensures
        r.data == rows,
        r.meta.pagination.page == q.page,
        r.meta.pagination.limit == q.limit,
        r.meta.pagination.total_rows == total_rows,
        r.meta.pagination.total_pages == ceil_div(total_rows as nat, q.limit as nat),
        r.meta.pagination.has_next == (q.page < r.meta.pagination.total_pages),
        r.meta.pagination.has_prev == (q.page > 1),
        r.meta.sort.by@ == "count"@,
        r.meta.sort.order@ == q.order.spec_str(),
        r.links.own@ == link_of(q.page, q.limit, q.order, Seq::<char>::empty()),
        r.links.first@ == link_of(1, q.limit, q.order, Seq::<char>::empty()),
        r.links.last@ == link_of(
            r.meta.pagination.total_pages,
            q.limit,
            q.order,
            Seq::<char>::empty(),
        ),
        r.links.next matches Option::Some(n) <==> q.page < r.meta.pagination.total_pages,
        r.links.next matches Option::Some(n) ==> q.page < u32::MAX && n@ == link_of(
            (q.page + 1) as u32,
            q.limit,
            q.order,
            Seq::<char>::empty(),
        ),
        r.links.prev matches Option::Some(v) <==> q.page > 1,
        r.links.prev matches Option::Some(v) ==> q.page > 1 && v@ == link_of(
            (q.page - 1) as u32,
            q.limit,
            q.order,
            Seq::<char>::empty(),
        ),
{
    let pg = paginate(q.page, q.limit, total_rows);
    proof {
        reveal_strlit("");
        assert(""@ =~= Seq::<char>::empty());
    }
    let links = build_links(pg, q.order, "");
    let meta = PartMeta { pagination: pg, sort: build_sort(q.order) };
    WordResponse { data: rows, meta, links }
}

} // verus!
