use user_api::httpapi::route::{parse_id, route, Method, Route};

#[test]
fn parse_id_reads_plain_digits() {
    assert_eq!(parse_id("0"), Some(0));
    assert_eq!(parse_id("7"), Some(7));
    assert_eq!(parse_id("99999"), Some(99999));
    assert_eq!(parse_id("0042"), Some(42));
}

#[test]
fn parse_id_reads_a_sign() {
    assert_eq!(parse_id("+5"), Some(5));
    assert_eq!(parse_id("-5"), Some(-5));
    assert_eq!(parse_id("-0"), Some(0));
    assert_eq!(parse_id("-120"), Some(-120));
}

#[test]
fn parse_id_reads_the_limits() {
    assert_eq!(parse_id("9223372036854775807"), Some(i64::MAX));
    assert_eq!(parse_id("-9223372036854775808"), Some(i64::MIN));
    assert_eq!(parse_id("+9223372036854775807"), Some(i64::MAX));
    assert_eq!(parse_id("-9223372036854775807"), Some(i64::MIN + 1));
}

#[test]
fn parse_id_refuses_what_does_not_fit() {
    assert_eq!(parse_id("9223372036854775808"), None);
    assert_eq!(parse_id("-9223372036854775809"), None);
    assert_eq!(parse_id("18446744073709551616"), None);
    assert_eq!(parse_id("99999999999999999999999999"), None);
    assert_eq!(parse_id("92233720368547758070"), None);
}

#[test]
fn parse_id_refuses_what_is_no_number() {
    assert_eq!(parse_id(""), None);
    assert_eq!(parse_id("+"), None);
    assert_eq!(parse_id("-"), None);
    assert_eq!(parse_id("abc"), None);
    assert_eq!(parse_id("12a"), None);
    assert_eq!(parse_id("1 2"), None);
    assert_eq!(parse_id(" 1"), None);
    assert_eq!(parse_id("--1"), None);
    assert_eq!(parse_id("+-1"), None);
    assert_eq!(parse_id("1.0"), None);
    assert_eq!(parse_id("٣"), None);
}

#[test]
fn parse_id_agrees_with_the_standard_parser() {
    let samples = [
        "0", "1", "-1", "+1", "007", "-", "+", "", "12345678901234567890", "-9223372036854775808",
        "9223372036854775807", "9223372036854775808", "1e3", "0x10", "/", "5/",
    ];
    for sample in samples {
        assert_eq!(parse_id(sample), sample.parse::<i64>().ok(), "{}", sample);
    }
}

#[test]
fn route_table_has_two_routes() {
    assert_eq!(route(Method::Post, "/users"), Route::CreateUser);
    assert_eq!(route(Method::Get, "/users/1"), Route::GetUser(1));
    assert_eq!(route(Method::Get, "/users/99999"), Route::GetUser(99999));
    assert_eq!(route(Method::Get, "/users/-3"), Route::GetUser(-3));
}

#[test]
fn route_has_nothing_else() {
    assert_eq!(route(Method::Get, "/users"), Route::NotFound);
    assert_eq!(route(Method::Other, "/users"), Route::NotFound);
    assert_eq!(route(Method::Post, "/users/1"), Route::NotFound);
    assert_eq!(route(Method::Post, "/users/abc"), Route::NotFound);
    assert_eq!(route(Method::Get, "/not-found"), Route::NotFound);
    assert_eq!(route(Method::Post, "/not-found"), Route::NotFound);
    assert_eq!(route(Method::Get, ""), Route::NotFound);
    assert_eq!(route(Method::Get, "/user"), Route::NotFound);
    assert_eq!(route(Method::Get, "/users/"), Route::NotFound);
    assert_eq!(route(Method::Get, "/users/1/"), Route::NotFound);
    assert_eq!(route(Method::Get, "/users/a/b"), Route::NotFound);
    assert_eq!(route(Method::Get, "/usersx1"), Route::NotFound);
    assert_eq!(route(Method::Get, "/Users/1"), Route::NotFound);
    assert_eq!(route(Method::Get, "users/1"), Route::NotFound);
}

#[test]
fn route_refuses_a_malformed_id() {
    assert_eq!(route(Method::Get, "/users/abc"), Route::BadRequest);
    assert_eq!(route(Method::Get, "/users/+"), Route::BadRequest);
    assert_eq!(route(Method::Get, "/users/9223372036854775808"), Route::BadRequest);
    assert_eq!(route(Method::Get, "/users/é"), Route::BadRequest);
}
