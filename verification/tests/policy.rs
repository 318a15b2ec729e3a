use short_url::bean::{NewShortUrlRequest, UserEntity};
use short_url::creation::check_request;
use short_url::error::{NEED_AUTH, TTL_ERROR, URL_ERROR};
use short_url::policy::{check_target, check_ttl, evaluate, expire_time, PolicyError};
use short_url::setting::{GUEST_MAX_TTL, MIN_TTL};
use short_url::trusted::ParsedUrl;

fn request(url: &str, ttl: Option<u64>) -> NewShortUrlRequest {
    NewShortUrlRequest { url: url.to_string(), ttl }
}

fn known_user() -> Option<UserEntity> {
    Some(UserEntity { username: "ada".to_string(), api_key: "k-1".to_string() })
}

#[test]
fn policy_constants() {
    assert_eq!(GUEST_MAX_TTL, 2_592_000);
    assert_eq!(MIN_TTL, 60);
}

#[test]
fn ttl_below_a_minute_is_too_short_for_everyone() {
    for ttl in [1u64, 2, 30, 59] {
        assert_eq!(check_ttl(Some(ttl), false), Err(PolicyError::TtlTooShort));
        assert_eq!(check_ttl(Some(ttl), true), Err(PolicyError::TtlTooShort));
    }
}

#[test]
fn ttl_of_a_minute_is_granted() {
    assert_eq!(check_ttl(Some(60), false), Ok(60));
    assert_eq!(check_ttl(Some(60), true), Ok(60));
    assert_eq!(check_ttl(Some(120), false), Ok(120));
}

#[test]
fn guest_gets_up_to_thirty_days() {
    assert_eq!(check_ttl(Some(GUEST_MAX_TTL), false), Ok(GUEST_MAX_TTL));
    assert_eq!(check_ttl(Some(GUEST_MAX_TTL + 1), false), Err(PolicyError::NeedAuth));
    assert_eq!(check_ttl(Some(u64::MAX), false), Err(PolicyError::NeedAuth));
}

#[test]
fn never_to_expire_is_for_known_users() {
    assert_eq!(check_ttl(Some(0), false), Err(PolicyError::NeedAuth));
    assert_eq!(check_ttl(None, false), Err(PolicyError::NeedAuth));
    assert_eq!(check_ttl(Some(0), true), Ok(0));
    assert_eq!(check_ttl(None, true), Ok(0));
}

#[test]
fn known_user_gets_more_than_thirty_days() {
    assert_eq!(check_ttl(Some(GUEST_MAX_TTL + 1), true), Ok(GUEST_MAX_TTL + 1));
    assert_eq!(check_ttl(Some(u64::MAX), true), Ok(u64::MAX));
}

#[test]
fn zero_is_exempt_from_the_minimum() {
    assert_eq!(check_ttl(Some(0), true), Ok(0));
    assert_eq!(check_ttl(Some(1), true), Err(PolicyError::TtlTooShort));
}

#[test]
fn expiry_is_now_plus_ttl_in_milliseconds() {
    assert_eq!(expire_time(1_600_000_000_000, 120), 1_600_000_120_000);
    assert_eq!(expire_time(0, 60), 60_000);
    assert_eq!(expire_time(5, 1), 1_005);
}

#[test]
fn expiry_of_a_record_that_never_expires_is_zero() {
    assert_eq!(expire_time(1_600_000_000_000, 0), 0);
    assert_eq!(expire_time(u64::MAX, 0), 0);
}

#[test]
fn expiry_may_reach_the_largest_number() {
    assert_eq!(expire_time(u64::MAX - 60_000, 60), u64::MAX);
}

#[test]
fn evaluate_grants_and_dates() {
    assert_eq!(evaluate(Some(120), &None, 1_000), Ok(121_000));
    assert_eq!(evaluate(None, &known_user(), 1_000), Ok(0));
    assert_eq!(evaluate(Some(GUEST_MAX_TTL + 1), &known_user(), 7), Ok(2_592_001_007));
}

#[test]
fn evaluate_refuses() {
    assert_eq!(evaluate(None, &None, 1_000), Err(PolicyError::NeedAuth));
    assert_eq!(evaluate(Some(59), &known_user(), 1_000), Err(PolicyError::TtlTooShort));
    assert_eq!(evaluate(Some(u64::MAX), &None, u64::MAX), Err(PolicyError::NeedAuth));
}

#[test]
fn refusals_become_errors() {
    let need_auth = PolicyError::NeedAuth.to_js_error();
    assert_eq!(need_auth.message, "Need Auth");
    assert_eq!(need_auth.status, 401);
    assert_eq!(need_auth.error_code, NEED_AUTH);
    let too_short = PolicyError::TtlTooShort.to_js_error();
    assert_eq!(too_short.message, "The TTL must be greater than 60 seconds.");
    assert_eq!(too_short.status, 400);
    assert_eq!(too_short.error_code, TTL_ERROR);
}

#[test]
fn target_that_parsed_with_a_hierarchy_is_taken() {
    let parsed = Ok(ParsedUrl {
        path: "/page".to_string(),
        host: Some("example.com".to_string()),
        cannot_be_a_base: false,
    });
    assert_eq!(check_target(&parsed), Ok(()));
}

#[test]
fn target_without_hierarchy_is_refused() {
    let parsed = Ok(ParsedUrl { path: "a@b.com".to_string(), host: None, cannot_be_a_base: true });
    let err = check_target(&parsed).unwrap_err();
    assert_eq!(err.message, "target url syntax error");
    assert_eq!(err.status, 400);
    assert_eq!(err.error_code, URL_ERROR);
}

#[test]
fn target_that_did_not_parse_is_refused_with_the_parser_message() {
    let err = check_target(&Err("empty host".to_string())).unwrap_err();
    assert_eq!(err.message, "empty host");
    assert_eq!(err.status, 400);
    assert_eq!(err.error_code, URL_ERROR);
}

#[test]
fn request_with_good_url_and_ttl_is_let_in() {
    assert_eq!(check_request(&request("https://example.com/page", Some(120)), false), Ok(120));
    assert_eq!(check_request(&request("https://example.com/page", None), true), Ok(0));
}

#[test]
fn mailto_destination_is_a_url_error() {
    for authenticated in [false, true] {
        let err = check_request(&request("mailto:a@b.com", Some(120)), authenticated).unwrap_err();
        assert_eq!(err.message, "target url syntax error");
        assert_eq!(err.error_code, URL_ERROR);
        assert_eq!(err.status, 400);
    }
}

#[test]
fn data_destination_is_a_url_error() {
    let err = check_request(&request("data:text/plain,Stuff", Some(120)), true).unwrap_err();
    assert_eq!(err.error_code, URL_ERROR);
}

#[test]
fn destination_that_is_no_url_is_a_url_error() {
    let err = check_request(&request("not a url", Some(120)), true).unwrap_err();
    assert_eq!(err.message, "relative URL without a base");
    assert_eq!(err.error_code, URL_ERROR);
    assert_eq!(err.status, 400);
}

#[test]
fn destination_is_judged_before_the_ttl() {
    let err = check_request(&request("mailto:a@b.com", Some(5)), false).unwrap_err();
    assert_eq!(err.error_code, URL_ERROR);
    let err = check_request(&request("not a url", None), false).unwrap_err();
    assert_eq!(err.error_code, URL_ERROR);
}

#[test]
fn need_auth_is_judged_before_too_short() {
    let err = check_request(&request("https://example.com", Some(0)), false).unwrap_err();
    assert_eq!(err.error_code, NEED_AUTH);
    let err = check_request(&request("https://example.com", Some(59)), false).unwrap_err();
    assert_eq!(err.error_code, TTL_ERROR);
}
