//! Untrusted request parameters for the listing endpoints and for the
//! credential flow, their validation rules, and their normalized forms.
//!
//! Raw parameters are clamped into legal ranges before use: the page is at
//! least 1, the limit lies in `[1, 100]`, and the sort order is one of the
//! two closed values, so that nothing unvalidated ever reaches the `ORDER
//! BY` position of a query.

use vstd::prelude::*;

verus! {

use crate::similarity::str_chars;

/// The closed set of sort directions; raw input never reaches the query
/// text, only these two values do.
#[derive(Clone, Copy, Debug, PartialEq, Eq, Structural)]
pub enum SortOrder {
    Asc,
    Desc,
}

impl SortOrder {
    /// The SQL token for this direction.
    pub open spec fn spec_str(self) -> Seq<char> {
        match self {
            SortOrder::Asc => "asc"@,
            SortOrder::Desc => "desc"@,
        }
    }

    /// Renders the direction as its SQL token.
    pub fn as_str(self) -> (r: &'static str)
        ensures
            r@ == self.spec_str(),
    {
        match self {
            SortOrder::Asc => "asc",
            SortOrder::Desc => "desc",
        }
    }
}

/// Raw listing query parameters, exactly as supplied by the client.
#[derive(Debug)]
pub struct QueryParams {
    pub page: Option<u32>,
    pub limit: Option<u32>,
    pub order: Option<String>,
    pub username: Option<String>,
    pub word: Option<String>,
}

/// Raw pagination-only query parameters.
#[derive(Debug)]
pub struct QueryPagination {
    pub page: Option<u32>,
    pub limit: Option<u32>,
    pub order: Option<String>,
}

/// A missing page defaults to 1; anything below 1 is raised to 1.
pub open spec fn spec_page(raw: Option<u32>) -> u32 {
    match raw {
        Option::None => 1u32,
        Option::Some(p) => if p < 1 {
            1u32
        } else {
            p
        },
    }
}

/// A missing limit defaults to 10; the value is clamped into `[1, 100]`.
pub open spec fn spec_limit(raw: Option<u32>) -> u32 {
    match raw {
        Option::None => 10u32,
        Option::Some(l) => if l < 1 {
            1u32
        } else if l > 100 {
            100u32
        } else {
            l
        },
    }
}

/// Only the literal `asc` selects ascending order; everything else,
/// including a missing value, falls back to descending.
pub open spec fn spec_order(raw: Option<Seq<char>>) -> SortOrder {
    match raw {
        Option::Some(s) => if s == "asc"@ {
            SortOrder::Asc
        } else {
            SortOrder::Desc
        },
        Option::None => SortOrder::Desc,
    }
}

/// Clamps a raw page number (at least 1, default 1).
pub fn clamp_page(raw: Option<u32>) -> (r: u32)
    ensures
        r == spec_page(raw),
        r >= 1,
{
    match raw {
        Option::None => 1,
        Option::Some(p) => if p < 1 {
            1
        } else {
            p
        },
    }
}

/// Clamps a raw limit (into `[1, 100]`, default 10).
pub fn clamp_limit(raw: Option<u32>) -> (r: u32)
    ensures
        r == spec_limit(raw),
        1 <= r <= 100,
{
    match raw {
        Option::None => 10,
        Option::Some(l) => if l < 1 {
            1
        } else if l > 100 {
            100
        } else {
            l
        },
    }
}

/// Maps a raw order token to the closed direction set.
pub fn clamp_order(raw: &Option<String>) -> (r: SortOrder)
    ensures
        r == spec_order(match *raw {
            Option::Some(ref s) => Option::Some(s@),
            Option::None => Option::<Seq<char>>::None,
        }),
{
    match raw {
        Option::Some(s) => {
            if *s == "asc".to_owned() {
                SortOrder::Asc
            } else {
                SortOrder::Desc
            }
        },
        Option::None => SortOrder::Desc,
    }
}

/// Normalized listing parameters: page and limit clamped, order closed,
/// filters passed through.
#[derive(Debug)]
pub struct SetQueryParams {
    pub page: u32,
    pub limit: u32,
    pub order: SortOrder,
    pub username: Option<String>,
    pub word: Option<String>,
}

impl vstd::std_specs::convert::FromSpecImpl<QueryParams> for SetQueryParams {
    open spec fn obeys_from_spec() -> bool {
        true
    }

    open spec fn from_spec(q: QueryParams) -> Self {
        SetQueryParams {
            page: spec_page(q.page),
            limit: spec_limit(q.limit),
            order: spec_order(match q.order {
                Option::Some(s) => Option::Some(s@),
                Option::None => Option::<Seq<char>>::None,
            }),
            username: q.username,
            word: q.word,
        }
    }
}

impl From<QueryParams> for SetQueryParams {
    /// Normalizes raw parameters: page `>= 1`, limit in `[1, 100]`, order
    /// restricted to the closed direction set, whatever was supplied.
    fn from(q: QueryParams) -> Self {
        SetQueryParams {
            page: clamp_page(q.page),
            limit: clamp_limit(q.limit),
            order: clamp_order(&q.order),
            username: q.username,
            word: q.word,
        }
    }
}

/// Normalized pagination-only parameters.
#[derive(Debug)]
pub struct SetQueryPagination {
    pub page: u32,
    pub limit: u32,
    pub order: SortOrder,
}

impl vstd::std_specs::convert::FromSpecImpl<QueryPagination> for SetQueryPagination {
    open spec fn obeys_from_spec() -> bool {
        true
    }

    open spec fn from_spec(q: QueryPagination) -> Self {
        SetQueryPagination {
            page: spec_page(q.page),
            limit: spec_limit(q.limit),
            order: spec_order(match q.order {
                Option::Some(s) => Option::Some(s@),
                Option::None => Option::<Seq<char>>::None,
            }),
        }
    }
}

impl From<QueryPagination> for SetQueryPagination {
    /// Normalizes raw pagination parameters exactly as the listing ones.
    fn from(q: QueryPagination) -> Self {
        SetQueryPagination {
            page: clamp_page(q.page),
            limit: clamp_limit(q.limit),
            order: clamp_order(&q.order),
        }
    }
}

/// The characters allowed in filter values and usernames.
pub open spec fn is_name_char(c: char) -> bool {
    ('a' <= c && c <= 'z') || ('A' <= c && c <= 'Z') || ('0' <= c && c <= '9') || c == '-' || c
        == '_'
}

/// The characters allowed in passwords: the name characters plus a small
/// set of punctuation.
pub open spec fn is_password_char(c: char) -> bool {
    is_name_char(c) || c == '!' || c == '@' || c == '#' || c == '$' || c == '%' || c == '^' || c
        == '&' || c == '*' || c == '(' || c == ')'
}

pub open spec fn all_name_chars(s: Seq<char>) -> bool {
    forall|i: int| 0 <= i < s.len() ==> is_name_char(#[trigger] s[i])
}

pub open spec fn all_password_chars(s: Seq<char>) -> bool {
    forall|i: int| 0 <= i < s.len() ==> is_password_char(#[trigger] s[i])
}

/// A valid username: 3 to 32 characters from the name alphabet.
pub open spec fn valid_username(s: Seq<char>) -> bool {
    3 <= s.len() <= 32 && all_name_chars(s)
}

/// A valid password: 6 to 128 characters from the password alphabet.
pub open spec fn valid_password(s: Seq<char>) -> bool {
    6 <= s.len() <= 128 && all_password_chars(s)
}

/// A valid word filter: 1 to 2000 characters from the name alphabet.
pub open spec fn valid_word_filter(s: Seq<char>) -> bool {
    1 <= s.len() <= 2000 && all_name_chars(s)
}

fn check_name_char(c: char) -> (r: bool)
    ensures
        r == is_name_char(c),
{
    ('a' <= c && c <= 'z') || ('A' <= c && c <= 'Z') || ('0' <= c && c <= '9') || c == '-' || c
        == '_'
}

fn check_password_char(c: char) -> (r: bool)
    ensures
        r == is_password_char(c),
{
    check_name_char(c) || c == '!' || c == '@' || c == '#' || c == '$' || c == '%' || c == '^' || c
        == '&' || c == '*' || c == '(' || c == ')'
}

/// Checks that every character of `s` is a name character.
pub fn check_all_name_chars(s: &str) -> (r: bool)
    ensures
        r == all_name_chars(s@),
{
    let v = str_chars(s);
    let mut i: usize = 0;
    while i < v.len()
        invariant
            i <= v@.len(),
            v@ == s@,
            forall|k: int| 0 <= k < i ==> is_name_char(#[trigger] s@[k]),
        decreases v@.len() - i,
    {
        if !check_name_char(v[i]) {
            return false;
        }
        i += 1;
    }
    true
}

/// Checks that every character of `s` is a password character.
pub fn check_all_password_chars(s: &str) -> (r: bool)
    ensures
        r == all_password_chars(s@),
{
    let v = str_chars(s);
    let mut i: usize = 0;
    while i < v.len()
        invariant
            i <= v@.len(),
            v@ == s@,
            forall|k: int| 0 <= k < i ==> is_password_char(#[trigger] s@[k]),
        decreases v@.len() - i,
    {
        if !check_password_char(v[i]) {
            return false;
        }
        i += 1;
    }
    true
}

/// Login or registration credentials, exactly as supplied by the client.
#[derive(Debug, Clone)]
pub struct Credentials {
    pub username: String,
    pub password: String,
}

/// Which field of a request failed validation.
#[derive(Clone, Copy, Debug, PartialEq, Eq, Structural)]
pub enum FieldError {
    Page,
    Limit,
    Order,
    Username,
    Word,
    Password,
    Value,
}

/// The validation verdict on credentials: username first, then password.
pub open spec fn credentials_check(username: Seq<char>, password: Seq<char>) -> Result<
    (),
    FieldError,
> {
    if !valid_username(username) {
        Result::Err(FieldError::Username)
    } else if !valid_password(password) {
        Result::Err(FieldError::Password)
    } else {
        Result::Ok(())
    }
}

/// Validates credentials: the username must be 3-32 name characters, the
/// password 6-128 password characters; the first offending field is named.
pub fn validate_credentials(c: &Credentials) -> (r: Result<(), FieldError>)
    ensures
        r == credentials_check(c.username@, c.password@),
        r is Ok <==> valid_username(c.username@) && valid_password(c.password@),
{
    let ulen = c.username.as_str().unicode_len();
    if ulen < 3 || ulen > 32 || !check_all_name_chars(c.username.as_str()) {
        return Result::Err(FieldError::Username);
    }
    let plen = c.password.as_str().unicode_len();
    if plen < 6 || plen > 128 || !check_all_password_chars(c.password.as_str()) {
        return Result::Err(FieldError::Password);
    }
    Result::Ok(())
}

/// The validation verdict on raw listing parameters, field by field in a
/// fixed order: page, limit, order, username, word.
pub open spec fn params_check(q: QueryParams) -> Result<(), FieldError> {
    if q.page matches Option::Some(p) && p < 1 {
        Result::Err(FieldError::Page)
    } else if q.limit matches Option::Some(l) && !(1 <= l <= 100) {
        Result::Err(FieldError::Limit)
    } else if q.order matches Option::Some(o) && !(o@ == "asc"@ || o@ == "desc"@) {
        Result::Err(FieldError::Order)
    } else if q.username matches Option::Some(u) && !valid_username(u@) {
        Result::Err(FieldError::Username)
    } else if q.word matches Option::Some(w) && !valid_word_filter(w@) {
        Result::Err(FieldError::Word)
    } else {
        Result::Ok(())
    }
}

/// Validates raw listing parameters before they reach the query engine:
/// a supplied page must be at least 1, a supplied limit within `[1, 100]`,
/// a supplied order exactly `asc` or `desc`, a supplied username filter
/// 3-32 name characters and a supplied word filter 1-2000 name characters.
pub fn validate_params(q: &QueryParams) -> (r: Result<(), FieldError>)
    ensures
        r == params_check(*q),
{
    if let Option::Some(p) = q.page {
        if p < 1 {
            return Result::Err(FieldError::Page);
        }
    }
    if let Option::Some(l) = q.limit {
        if l < 1 || l > 100 {
            return Result::Err(FieldError::Limit);
        }
    }
    if let Option::Some(ref o) = q.order {
        if !(*o == "asc".to_owned() || *o == "desc".to_owned()) {
            return Result::Err(FieldError::Order);
        }
    }
    if let Option::Some(ref u) = q.username {
        let ulen = u.as_str().unicode_len();
        if ulen < 3 || ulen > 32 || !check_all_name_chars(u.as_str()) {
            return Result::Err(FieldError::Username);
        }
    }
    if let Option::Some(ref w) = q.word {
        let wlen = w.as_str().unicode_len();
        if wlen < 1 || wlen > 2000 || !check_all_name_chars(w.as_str()) {
            return Result::Err(FieldError::Word);
        }
    }
    Result::Ok(())
}

/// The validation verdict on raw pagination-only parameters.
pub open spec fn pagination_check(q: QueryPagination) -> Result<(), FieldError> {
    if q.page matches Option::Some(p) && p < 1 {
        Result::Err(FieldError::Page)
    } else if q.limit matches Option::Some(l) && !(1 <= l <= 100) {
        Result::Err(FieldError::Limit)
    } else if q.order matches Option::Some(o) && !(o@ == "asc"@ || o@ == "desc"@) {
        Result::Err(FieldError::Order)
    } else {
        Result::Ok(())
    }
}

/// Validates raw pagination-only parameters the same way as the listing
/// ones.
pub fn validate_pagination(q: &QueryPagination) -> (r: Result<(), FieldError>)
    ensures
        r == pagination_check(*q),
{
    if let Option::Some(p) = q.page {
        if p < 1 {
            return Result::Err(FieldError::Page);
        }
    }
    if let Option::Some(l) = q.limit {
        if l < 1 || l > 100 {
            return Result::Err(FieldError::Limit);
        }
    }
    if let Option::Some(ref o) = q.order {
        if !(*o == "asc".to_owned() || *o == "desc".to_owned()) {
            return Result::Err(FieldError::Order);
        }
    }
    Result::Ok(())
}

} // verus!
