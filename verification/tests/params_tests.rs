//! Parameter normalization, clamping and validation.

use counter_api::requests::{
    validate_credentials, validate_pagination, validate_params, Credentials, FieldError,
    QueryPagination, QueryParams, SetQueryPagination, SetQueryParams, SortOrder,
};

fn raw(
    page: Option<u32>,
    limit: Option<u32>,
    order: Option<&str>,
    username: Option<&str>,
    word: Option<&str>,
) -> QueryParams {
    QueryParams {
        page,
        limit,
        order: order.map(|s| s.to_string()),
        username: username.map(|s| s.to_string()),
        word: word.map(|s| s.to_string()),
    }
}

#[test]
fn limit_is_clamped_into_range() {
    let q: SetQueryParams = raw(None, Some(0), None, None, None).into();
    assert_eq!(q.limit, 1);
    let q: SetQueryParams = raw(None, Some(500), None, None, None).into();
    assert_eq!(q.limit, 100);
    let q: SetQueryParams = raw(None, Some(37), None, None, None).into();
    assert_eq!(q.limit, 37);
    let q: SetQueryParams = raw(None, None, None, None, None).into();
    assert_eq!(q.limit, 10);
}

#[test]
fn page_is_clamped_to_at_least_one() {
    let q: SetQueryParams = raw(Some(0), None, None, None, None).into();
    assert_eq!(q.page, 1);
    let q: SetQueryParams = raw(None, None, None, None, None).into();
    assert_eq!(q.page, 1);
    let q: SetQueryParams = raw(Some(4_000_000_000), None, None, None, None).into();
    assert_eq!(q.page, 4_000_000_000);
}

#[test]
fn order_is_restricted_to_the_closed_set() {
    let q: SetQueryParams = raw(None, None, Some("asc"), None, None).into();
    assert_eq!(q.order, SortOrder::Asc);
    let q: SetQueryParams = raw(None, None, Some("desc"), None, None).into();
    assert_eq!(q.order, SortOrder::Desc);
    let q: SetQueryParams = raw(None, None, None, None, None).into();
    assert_eq!(q.order, SortOrder::Desc);
    // anything outside the closed set falls back to descending
    let q: SetQueryParams = raw(None, None, Some("count; DROP TABLE"), None, None).into();
    assert_eq!(q.order, SortOrder::Desc);
}

#[test]
fn pagination_only_parameters_normalize_the_same_way() {
    let q: SetQueryPagination = QueryPagination {
        page: None,
        limit: Some(101),
        order: Some("asc".to_string()),
    }
    .into();
    assert_eq!(q.page, 1);
    assert_eq!(q.limit, 100);
    assert_eq!(q.order, SortOrder::Asc);
}

#[test]
fn each_listing_field_is_validated() {
    assert_eq!(
        validate_params(&raw(Some(0), None, None, None, None)),
        Err(FieldError::Page)
    );
    assert_eq!(
        validate_params(&raw(None, Some(0), None, None, None)),
        Err(FieldError::Limit)
    );
    assert_eq!(
        validate_params(&raw(None, Some(101), None, None, None)),
        Err(FieldError::Limit)
    );
    assert_eq!(
        validate_params(&raw(None, None, Some("upward"), None, None)),
        Err(FieldError::Order)
    );
    assert_eq!(
        validate_params(&raw(None, None, None, Some("ab"), None)),
        Err(FieldError::Username)
    );
    assert_eq!(
        validate_params(&raw(None, None, None, Some("has space"), None)),
        Err(FieldError::Username)
    );
    assert_eq!(
        validate_params(&raw(None, None, None, None, Some(""))),
        Err(FieldError::Word)
    );
    assert_eq!(
        validate_params(&raw(None, None, None, None, Some("semi;colon"))),
        Err(FieldError::Word)
    );
    assert_eq!(
        validate_params(&raw(Some(2), Some(3), Some("desc"), Some("di_1"), Some("hi"))),
        Ok(())
    );
}

#[test]
fn pagination_validation_checks_the_three_fields() {
    let ok = QueryPagination {
        page: Some(1),
        limit: Some(100),
        order: Some("desc".to_string()),
    };
    assert_eq!(validate_pagination(&ok), Ok(()));
    let bad = QueryPagination {
        page: Some(1),
        limit: Some(100),
        order: Some("sideways".to_string()),
    };
    assert_eq!(validate_pagination(&bad), Err(FieldError::Order));
}

#[test]
fn credentials_are_validated_field_by_field() {
    let ok = Credentials {
        username: "JohnDoe123".to_string(),
        password: "pass-word_1".to_string(),
    };
    assert_eq!(validate_credentials(&ok), Ok(()));

    let short_name = Credentials {
        username: "Jo".to_string(),
        password: "password".to_string(),
    };
    assert_eq!(validate_credentials(&short_name), Err(FieldError::Username));

    let bad_name = Credentials {
        username: "John Doe".to_string(),
        password: "password".to_string(),
    };
    assert_eq!(validate_credentials(&bad_name), Err(FieldError::Username));

    let short_password = Credentials {
        username: "JohnDoe123".to_string(),
        password: "p4s".to_string(),
    };
    assert_eq!(
        validate_credentials(&short_password),
        Err(FieldError::Password)
    );

    let odd_password = Credentials {
        username: "JohnDoe123".to_string(),
        password: "password with spaces".to_string(),
    };
    assert_eq!(
        validate_credentials(&odd_password),
        Err(FieldError::Password)
    );

    let punctuated = Credentials {
        username: "JohnDoe123".to_string(),
        password: "p@ss^word!(9)".to_string(),
    };
    assert_eq!(validate_credentials(&punctuated), Ok(()));
}
