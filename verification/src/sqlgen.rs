//! Construction of the bounded listing queries: the wildcard-interspersed
//! `LIKE` pattern of a fuzzy filter, the `WHERE` clause, the query texts
//! and the `OFFSET` value.
//!
//! Filter values reach this module only after validation restricted them to
//! the name alphabet, and the sort direction is a closed two-value set, so
//! the interpolated texts cannot escape their quoting.

use vstd::prelude::*;

verus! {

use vstd::string::{StringExecFns, StrSliceExecFns};
use crate::requests::SortOrder;

/// The view of an optional string.
pub open spec fn opt_view(o: Option<String>) -> Option<Seq<char>> {
    match o {
        Option::Some(s) => Option::Some(s@),
        Option::None => Option::None,
    }
}

/// The fuzzy `LIKE` pattern of `s`: a wildcard before, between and after
/// every character.
pub open spec fn like_pat(s: Seq<char>) -> Seq<char>
    decreases s.len(),
{
    if s.len() == 0 {
        seq!['%']
    } else {
        like_pat(s.drop_last()).push(s.last()).push('%')
    }
}

/// Builds the fuzzy `LIKE` pattern of `s`.
pub fn like_pattern(s: &str) -> (r: String)
    ensures
        r@ == like_pat(s@),
{
    let n = s.unicode_len();
    let mut out = "%".to_owned();
    proof {
        reveal_strlit("%");
        assert(s@.take(0) =~= Seq::<char>::empty());
        assert(out@ =~= like_pat(s@.take(0)));
    }
    let mut i: usize = 0;
    while i < n
        invariant
            i <= n,
            n == s@.len(),
            out@ == like_pat(s@.take(i as int)),
        decreases n - i,
    {
        let c = s.substring_char(i, i + 1);
        out.append(c);
        out.append("%");
        proof {
            reveal_strlit("%");
            assert(c@ =~= seq![s@[i as int]]);
            assert(s@.take(i + 1).drop_last() =~= s@.take(i as int));
            assert(s@.take(i + 1).last() == s@[i as int]);
            assert(out@ =~= like_pat(s@.take(i + 1)));
        }
        i += 1;
    }
    proof {
        assert(s@.take(n as int) =~= s@);
    }
    out
}

/// The `WHERE` clause for the optional filters: one `LIKE` test per
/// supplied filter, joined with `AND`, empty when no filter is supplied.
pub open spec fn where_clause_of(username: Option<Seq<char>>, word: Option<Seq<char>>) -> Seq<
    char,
> {
    match (username, word) {
        (Option::None, Option::None) => Seq::<char>::empty(),
        (Option::Some(u), Option::None) => "WHERE username LIKE '"@ + like_pat(u) + "'"@,
        (Option::None, Option::Some(w)) => "WHERE word LIKE '"@ + like_pat(w) + "'"@,
        (Option::Some(u), Option::Some(w)) => "WHERE username LIKE '"@ + like_pat(u)
            + "' AND word LIKE '"@ + like_pat(w) + "'"@,
    }
}

/// Builds the `WHERE` clause for the optional filters.
pub fn build_where_clause(username: &Option<String>, word: &Option<String>) -> (r: String)
    ensures
        r@ == where_clause_of(opt_view(*username), opt_view(*word)),
{
    let mut out = String::new();
    match (username, word) {
        (Option::None, Option::None) => {},
        (Option::Some(u), Option::None) => {
            out.append("WHERE username LIKE '");
            let p = like_pattern(u.as_str());
            out.append(p.as_str());
            out.append("'");
        },
        (Option::None, Option::Some(w)) => {
            out.append("WHERE word LIKE '");
            let p = like_pattern(w.as_str());
            out.append(p.as_str());
            out.append("'");
        },
        (Option::Some(u), Option::Some(w)) => {
            out.append("WHERE username LIKE '");
            let p = like_pattern(u.as_str());
            out.append(p.as_str());
            out.append("' AND word LIKE '");
            let q = like_pattern(w.as_str());
            out.append(q.as_str());
            out.append("'");
        },
    }
    out
}

/// The text of the page query: filtered, ordered by count in the given
/// direction, bounded by `LIMIT`/`OFFSET` placeholders.
pub open spec fn data_query_of(
    username: Option<Seq<char>>,
    word: Option<Seq<char>>,
    order: SortOrder,
) -> Seq<char> {
    "\n            SELECT username, word, count\n            FROM counter\n            "@
        + where_clause_of(username, word) + "\n            ORDER BY count "@ + order.spec_str()
        + "\n            LIMIT ?1\n            OFFSET ?2;\n        "@
}

/// Builds the text of the page query.
pub fn build_data_query(username: &Option<String>, word: &Option<String>, order: SortOrder) -> (r:
    String)
    ensures
        r@ == data_query_of(opt_view(*username), opt_view(*word), order),
{
    let mut out = "\n            SELECT username, word, count\n            FROM counter\n            ".to_owned();
    let w = build_where_clause(username, word);
    out.append(w.as_str());
    out.append("\n            ORDER BY count ");
    out.append(order.as_str());
    out.append("\n            LIMIT ?1\n            OFFSET ?2;\n        ");
    out
}

/// The text of the total-row-count query, under the same filters.
pub open spec fn count_query_of(username: Option<Seq<char>>, word: Option<Seq<char>>) -> Seq<
    char,
> {
    "\n            SELECT COUNT(*) AS total_rows\n            FROM counter\n            "@
        + where_clause_of(username, word) + ";\n        "@
}

/// Builds the text of the total-row-count query.
pub fn build_count_query(username: &Option<String>, word: &Option<String>) -> (r: String)
    ensures
        r@ == count_query_of(opt_view(*username), opt_view(*word)),
{
    let mut out = "\n            SELECT COUNT(*) AS total_rows\n            FROM counter\n            ".to_owned();
    let w = build_where_clause(username, word);
    out.append(w.as_str());
    out.append(";\n        ");
    out
}

/// The text of the per-user totals page query.
pub open spec fn users_query_of(order: SortOrder) -> Seq<char> {
    "\n            SELECT username, SUM(count) AS total\n            FROM counter\n            GROUP BY username\n            ORDER BY total "@
        + order.spec_str() + "\n            LIMIT ?1\n            OFFSET ?2;\n        "@
}

/// Builds the text of the per-user totals page query.
pub fn build_users_query(order: SortOrder) -> (r: String)
    ensures
        r@ == users_query_of(order),
{
    let mut out =
        "\n            SELECT username, SUM(count) AS total\n            FROM counter\n            GROUP BY username\n            ORDER BY total ".to_owned();
    out.append(order.as_str());
    out.append("\n            LIMIT ?1\n            OFFSET ?2;\n        ");
    out
}

/// The text of the per-word totals page query.
pub open spec fn words_query_of(order: SortOrder) -> Seq<char> {
    "\n            SELECT word, SUM(count) AS total\n            FROM counter\n            GROUP BY word\n            ORDER BY total "@
        + order.spec_str() + "\n            LIMIT ?1\n            OFFSET ?2;\n        "@
}

/// Builds the text of the per-word totals page query.
pub fn build_words_query(order: SortOrder) -> (r: String)
    ensures
        r@ == words_query_of(order),
{
    let mut out =
        "\n            SELECT word, SUM(count) AS total\n            FROM counter\n            GROUP BY word\n            ORDER BY total ".to_owned();
    out.append(order.as_str());
    out.append("\n            LIMIT ?1\n            OFFSET ?2;\n        ");
    out
}

/// The text of the distinct-owner count query used by the per-user
/// listing.
pub fn distinct_count_query() -> (r: &'static str)
    ensures
        r@ == "\n        SELECT COUNT(DISTINCT(username)) AS total_rows\n        FROM counter;\n    "@,
{
    "\n        SELECT COUNT(DISTINCT(username)) AS total_rows\n        FROM counter;\n    "
}

/// The text of the distinct-word count query used by the per-word
/// listing, so that its page count is derived from the same grouping its
/// data query uses.
pub fn distinct_words_count_query() -> (r: &'static str)
    ensures
        r@ == "\n        SELECT COUNT(DISTINCT(word)) AS total_rows\n        FROM counter;\n    "@,
{
    "\n        SELECT COUNT(DISTINCT(word)) AS total_rows\n        FROM counter;\n    "
}

/// The `OFFSET` of the requested page: the rows of all pages before it.
pub fn page_offset(page: u32, limit: u32) -> (r: u64)
    requires
        page >= 1,
    ensures
        r == (page - 1) * limit,
{
    let p = (page - 1) as u64;
    let l = limit as u64;
    proof {
        assert(p * l <= u32::MAX as u64 * u32::MAX as u64) by (nonlinear_arith)
            requires
                p <= u32::MAX as u64,
                l <= u32::MAX as u64,
        ;
    }
    p * l
}

} // verus!
