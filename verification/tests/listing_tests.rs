//! The query engine: pagination metadata, query texts, links, and the
//! assembled listing responses.

use counter_api::listing::{
    assemble_listing, assemble_user_listing, assemble_word_listing, sort_rows, CountRow,
};
use counter_api::numfmt::u32_string;
use counter_api::requests::{SetQueryPagination, SetQueryParams, SortOrder};
use counter_api::responses::{paginate, Data, UserData, WordData};
use counter_api::similarity::Score;
use counter_api::sqlgen::{
    build_count_query, build_data_query, build_users_query, build_where_clause,
    distinct_count_query, distinct_words_count_query, like_pattern, page_offset,
};

fn listing_params(
    page: u32,
    limit: u32,
    order: SortOrder,
    username: Option<&str>,
    word: Option<&str>,
) -> SetQueryParams {
    SetQueryParams {
        page,
        limit,
        order,
        username: username.map(|s| s.to_string()),
        word: word.map(|s| s.to_string()),
    }
}

#[test]
fn decimal_rendering_is_exact() {
    assert_eq!(u32_string(0), "0");
    assert_eq!(u32_string(7), "7");
    assert_eq!(u32_string(10), "10");
    assert_eq!(u32_string(108), "108");
    assert_eq!(u32_string(4_294_967_295), "4294967295");
}

#[test]
fn pagination_flags_follow_the_window() {
    let p = paginate(2, 3, 108);
    assert_eq!(p.total_pages, 36);
    assert!(p.has_next);
    assert!(p.has_prev);

    let first = paginate(1, 10, 25);
    assert_eq!(first.total_pages, 3);
    assert!(first.has_next);
    assert!(!first.has_prev);

    let last = paginate(3, 10, 25);
    assert!(!last.has_next);
    assert!(last.has_prev);

    let empty = paginate(1, 10, 0);
    assert_eq!(empty.total_pages, 0);
    assert!(!empty.has_next);
    assert!(!empty.has_prev);

    let exact = paginate(2, 5, 10);
    assert_eq!(exact.total_pages, 2);
    assert!(!exact.has_next);
    assert!(exact.has_prev);
}

#[test]
fn like_pattern_intersperses_wildcards() {
    assert_eq!(like_pattern("di"), "%d%i%");
    assert_eq!(like_pattern("a"), "%a%");
    assert_eq!(like_pattern(""), "%");
}

#[test]
fn where_clause_combines_filters_with_and() {
    assert_eq!(build_where_clause(&None, &None), "");
    assert_eq!(
        build_where_clause(&Some("di".to_string()), &None),
        "WHERE username LIKE '%d%i%'"
    );
    assert_eq!(
        build_where_clause(&None, &Some("hi".to_string())),
        "WHERE word LIKE '%h%i%'"
    );
    assert_eq!(
        build_where_clause(&Some("di".to_string()), &Some("hi".to_string())),
        "WHERE username LIKE '%d%i%' AND word LIKE '%h%i%'"
    );
}

#[test]
fn query_texts_are_built_exactly() {
    let q = build_data_query(&Some("di".to_string()), &None, SortOrder::Desc);
    assert_eq!(
        q,
        "\n            SELECT username, word, count\n            FROM counter\n            WHERE username LIKE '%d%i%'\n            ORDER BY count desc\n            LIMIT ?1\n            OFFSET ?2;\n        "
    );
    let c = build_count_query(&Some("di".to_string()), &None);
    assert_eq!(
        c,
        "\n            SELECT COUNT(*) AS total_rows\n            FROM counter\n            WHERE username LIKE '%d%i%';\n        "
    );
    let u = build_users_query(SortOrder::Asc);
    assert!(u.contains("GROUP BY username"));
    assert!(u.contains("ORDER BY total asc"));
    // each grouped listing counts its own grouping
    assert_eq!(
        distinct_count_query(),
        "\n        SELECT COUNT(DISTINCT(username)) AS total_rows\n        FROM counter;\n    "
    );
    assert_eq!(
        distinct_words_count_query(),
        "\n        SELECT COUNT(DISTINCT(word)) AS total_rows\n        FROM counter;\n    "
    );
}

#[test]
fn offset_multiplies_without_overflow() {
    assert_eq!(page_offset(1, 10), 0);
    assert_eq!(page_offset(2, 3), 3);
    assert_eq!(page_offset(4_294_967_295, 100), 429_496_729_400);
}

fn row(username: &str, word: &str, count: u32) -> CountRow {
    CountRow {
        username: username.to_string(),
        word: word.to_string(),
        count,
    }
}

#[test]
fn listing_page_two_of_fuzzy_filtered_dataset() {
    // one page (LIMIT 3) of a dataset of 108 matching rows
    let rows = vec![row("urkodi", "this", 7), row("adits87", "think", 9), row("madi", "shi", 8)];
    let q = listing_params(2, 3, SortOrder::Desc, Some("di"), None);
    let r = assemble_listing(rows, q, 108);

    assert_eq!(r.data.len(), 3);
    assert_eq!(r.meta.pagination.page, 2);
    assert_eq!(r.meta.pagination.limit, 3);
    assert_eq!(r.meta.pagination.total_rows, 108);
    assert_eq!(r.meta.pagination.total_pages, 36);
    assert!(r.meta.pagination.has_next);
    assert!(r.meta.pagination.has_prev);
    for d in &r.data {
        assert!(d.similarity.is_some());
    }
    // descending similarity
    let scores: Vec<f32> = r
        .data
        .iter()
        .map(|d| {
            let s = d.similarity.unwrap();
            s.num as f32 / s.den as f32
        })
        .collect();
    for w in scores.windows(2) {
        assert!(w[0] >= w[1]);
    }
    assert_eq!(r.meta.filters.username.as_deref(), Some("di"));
    assert_eq!(r.meta.filters.word, None);
    assert_eq!(r.meta.sort.by, "count");
    assert_eq!(r.meta.sort.order, "desc");
    assert_eq!(r.links.own, "/counter?page=2&limit=3&order=desc&username=di");
    assert_eq!(r.links.first, "/counter?page=1&limit=3&order=desc&username=di");
    assert_eq!(r.links.last, "/counter?page=36&limit=3&order=desc&username=di");
    assert_eq!(
        r.links.next.as_deref(),
        Some("/counter?page=3&limit=3&order=desc&username=di")
    );
    assert_eq!(
        r.links.prev.as_deref(),
        Some("/counter?page=1&limit=3&order=desc&username=di")
    );
}

#[test]
fn unfiltered_listing_keeps_store_order_and_carries_no_scores() {
    let rows = vec![row("a_user", "alpha", 9), row("b_user", "beta", 5), row("c_user", "gamma", 1)];
    let q = listing_params(1, 10, SortOrder::Desc, None, None);
    let r = assemble_listing(rows, q, 3);
    assert_eq!(r.data.len(), 3);
    assert_eq!(r.data[0].username, "a_user");
    assert_eq!(r.data[1].username, "b_user");
    assert_eq!(r.data[2].username, "c_user");
    for d in &r.data {
        assert!(d.similarity.is_none());
    }
    assert_eq!(r.links.own, "/counter?page=1&limit=10&order=desc");
    assert_eq!(r.links.next, None);
    assert_eq!(r.links.prev, None);
}

#[test]
fn word_filter_scores_against_the_word_column() {
    let rows = vec![row("u1", "hi", 4), row("u2", "zzz", 4)];
    let q = listing_params(1, 10, SortOrder::Desc, None, Some("hi"));
    let r = assemble_listing(rows, q, 2);
    let first = r.data[0].similarity.unwrap();
    assert_eq!((first.num, first.den), (1, 1));
    let second = r.data[1].similarity.unwrap();
    assert_eq!(second.num, 0);
    assert_eq!(r.data[0].word, "hi");
}

#[test]
fn sort_is_stable_for_equal_scores() {
    let mk = |username: &str, num: u64, den: u64| Data {
        username: username.to_string(),
        word: String::new(),
        count: 0,
        similarity: Some(Score { num, den }),
    };
    // 1/2 == 2/4: the two middle rows tie; the earlier one must stay first
    let rows = vec![
        mk("low", 1, 4),
        mk("tie_first", 1, 2),
        mk("high", 3, 4),
        mk("tie_second", 2, 4),
    ];
    let sorted = sort_rows(rows);
    let names: Vec<&str> = sorted.iter().map(|d| d.username.as_str()).collect();
    assert_eq!(names, vec!["high", "tie_first", "tie_second", "low"]);
}

#[test]
fn user_listing_passes_rows_through_with_links() {
    let rows = vec![
        UserData::from_row("adits87".to_string(), 5783),
        UserData::from_row("qa_z".to_string(), 3830),
    ];
    let q = SetQueryPagination {
        page: 1,
        limit: 3,
        order: SortOrder::Desc,
    };
    let r = assemble_user_listing(rows, q, 5);
    assert_eq!(r.data.len(), 2);
    assert_eq!(r.data[0].username, "adits87");
    assert_eq!(r.meta.pagination.total_pages, 2);
    assert!(r.meta.pagination.has_next);
    assert!(!r.meta.pagination.has_prev);
    assert_eq!(r.links.own, "/counter?page=1&limit=3&order=desc");
    assert_eq!(r.links.next.as_deref(), Some("/counter?page=2&limit=3&order=desc"));
    assert_eq!(r.links.prev, None);
}

#[test]
fn word_listing_passes_rows_through_with_links() {
    let rows = vec![
        WordData::from_row("u".to_string(), 187),
        WordData::from_row("a".to_string(), 185),
    ];
    let q = SetQueryPagination {
        page: 2,
        limit: 3,
        order: SortOrder::Desc,
    };
    let r = assemble_word_listing(rows, q, 5);
    assert_eq!(r.data[1].word, "a");
    assert_eq!(r.meta.pagination.total_pages, 2);
    assert!(!r.meta.pagination.has_next);
    assert!(r.meta.pagination.has_prev);
    assert_eq!(r.links.last, "/counter?page=2&limit=3&order=desc");
    assert_eq!(r.links.prev.as_deref(), Some("/counter?page=1&limit=3&order=desc"));
    assert_eq!(r.links.next, None);
}

#[test]
fn both_filters_prefer_the_username_axis() {
    // the username filter wins the similarity axis; both filters are
    // re-encoded into every link, username first
    let rows = vec![row("di", "zzz", 2), row("zzz", "hi", 3)];
    let q = listing_params(2, 3, SortOrder::Desc, Some("di"), Some("hi"));
    let r = assemble_listing(rows, q, 108);
    // first row's username equals the filter: exact score 1
    let top = &r.data[0];
    assert_eq!(top.username, "di");
    let s = top.similarity.unwrap();
    assert_eq!((s.num, s.den), (1, 1));
    // the second row's username shares nothing with "di"
    let other = r.data[1].similarity.unwrap();
    assert_eq!(other.num, 0);
    assert_eq!(
        r.links.own,
        "/counter?page=2&limit=3&order=desc&username=di&word=hi"
    );
    assert_eq!(
        r.links.next.as_deref(),
        Some("/counter?page=3&limit=3&order=desc&username=di&word=hi")
    );
    assert_eq!(
        r.links.prev.as_deref(),
        Some("/counter?page=1&limit=3&order=desc&username=di&word=hi")
    );
}
