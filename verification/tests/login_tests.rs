use autologinguet::classify::LoginVerdict;
use autologinguet::login::{
    build_login_query, build_login_url, login_outcome_from_response, LoginResult,
};
use autologinguet::status::CampusNetworkStatus;

#[test]
fn query_holds_the_fixed_protocol_constants() {
    let q = build_login_query("2021001", "secret", "");
    assert_eq!(q, "callback=dr1003&DDDDD=2021001&upass=secret&0MKKey=123456");
}

#[test]
fn provider_suffix_joins_the_account_name() {
    let q = build_login_query("2021001", "secret", "yd");
    assert_eq!(q, "callback=dr1003&DDDDD=2021001@yd&upass=secret&0MKKey=123456");
}

#[test]
fn password_is_percent_encoded() {
    let q = build_login_query("1", "p@ss word", "");
    assert_eq!(q, "callback=dr1003&DDDDD=1&upass=p%40ss%20word&0MKKey=123456");
}

#[test]
fn multibyte_password_encodes_each_byte() {
    let q = build_login_query("1", "密", "");
    assert_eq!(q, "callback=dr1003&DDDDD=1&upass=%E5%AF%86&0MKKey=123456");
}

#[test]
fn unreserved_password_bytes_pass_through() {
    let q = build_login_query("1", "Az09-._~", "");
    assert_eq!(q, "callback=dr1003&DDDDD=1&upass=Az09-._~&0MKKey=123456");
}

#[test]
fn url_trims_trailing_slashes_before_the_path() {
    assert_eq!(
        build_login_url("http://10.0.1.5/", "a=1"),
        "http://10.0.1.5/drcom/login?a=1"
    );
    assert_eq!(
        build_login_url("http://10.0.1.5//", "a=1"),
        "http://10.0.1.5/drcom/login?a=1"
    );
    assert_eq!(
        build_login_url("http://10.0.1.5", "a=1"),
        "http://10.0.1.5/drcom/login?a=1"
    );
}

#[test]
fn successful_response_reports_login_success() {
    let r: LoginResult = login_outcome_from_response(Some(r#"{"result":1,"otherField":"x"}"#), 42);
    assert!(r.success);
    assert_eq!(r.campus_status, CampusNetworkStatus::LoginSuccess);
    assert_eq!(r.elapsed_centis, 42);
}

#[test]
fn failure_marker_in_response_reports_failure() {
    let r = login_outcome_from_response(Some(r#"Msg=01, "result":1"#), 10);
    assert!(!r.success);
    assert_eq!(r.campus_status, CampusNetworkStatus::NotLoggedIn);
}

#[test]
fn missing_response_reports_failure_without_aborting() {
    let r = login_outcome_from_response(None, 7);
    assert!(!r.success);
    assert_eq!(r.campus_status, CampusNetworkStatus::NotLoggedIn);
    assert_eq!(r.elapsed_centis, 7);
}

#[test]
fn ambiguous_response_reports_failure() {
    assert_eq!(
        autologinguet::classify::classify_login_response("nothing known"),
        LoginVerdict::Ambiguous
    );
    let r = login_outcome_from_response(Some("nothing known"), 1);
    assert!(!r.success);
}
