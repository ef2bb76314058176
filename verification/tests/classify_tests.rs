use autologinguet::classify::{
    classify_login_response, classify_portal_body, content_length_acceptable,
    has_login_failure_marker, is_login_successful, wan_leg_success, wan_race_outcome,
    wan_status_from_race, LoginVerdict, WanLegObservation,
};
use autologinguet::status::{CampusNetworkStatus, WanStatus};

fn leg(completed: bool, http_success: bool, portal_redirect: bool, portal_page: bool) -> WanLegObservation {
    WanLegObservation { completed, http_success, portal_redirect, portal_page }
}

#[test]
fn portal_body_with_signed_in_marker_is_logged_in() {
    let status = classify_portal_body("<html><title>注销页</title></html>", "注销页", "上网登录页");
    assert_eq!(status, CampusNetworkStatus::AlreadyLoggedIn);
}

#[test]
fn portal_body_with_not_signed_in_marker_is_not_logged_in() {
    let status = classify_portal_body("<html><title>上网登录页</title></html>", "注销页", "上网登录页");
    assert_eq!(status, CampusNetworkStatus::NotLoggedIn);
}

#[test]
fn portal_body_with_neither_marker_fails_open_to_not_logged_in() {
    let status = classify_portal_body("<html>maintenance page</html>", "注销页", "上网登录页");
    assert_eq!(status, CampusNetworkStatus::NotLoggedIn);
}

#[test]
fn portal_body_with_both_markers_prefers_logged_in() {
    let status = classify_portal_body("上网登录页 ... 注销页", "注销页", "上网登录页");
    assert_eq!(status, CampusNetworkStatus::AlreadyLoggedIn);
}

#[test]
fn portal_marker_beyond_byte_limit_is_ignored() {
    let mut body = "x".repeat(5000);
    body.push_str("注销页");
    let status = classify_portal_body(&body, "注销页", "上网登录页");
    assert_eq!(status, CampusNetworkStatus::NotLoggedIn);
}

#[test]
fn portal_marker_inside_byte_limit_is_seen() {
    let mut body = "x".repeat(1000);
    body.push_str("注销页");
    body.push_str(&"y".repeat(5000));
    let status = classify_portal_body(&body, "注销页", "上网登录页");
    assert_eq!(status, CampusNetworkStatus::AlreadyLoggedIn);
}

#[test]
fn result_fragment_alone_is_success() {
    assert!(is_login_successful(r#"dr1003({"result":1,"uid":"x"})"#));
    assert_eq!(classify_login_response(r#"{"result":1}"#), LoginVerdict::Success);
}

#[test]
fn each_success_marker_is_recognised() {
    assert!(is_login_successful("<title>注销页</title>"));
    assert!(is_login_successful("<title>认证成功页</title>"));
    assert!(is_login_successful("Dr.COMWebLoginID_3.htm"));
    assert!(is_login_successful("\"result\":1"));
    assert!(!is_login_successful("nothing of note"));
}

#[test]
fn failure_marker_wins_over_success_marker() {
    let body = r#"Msg=01 but also "result":1"#;
    assert!(has_login_failure_marker(body));
    assert_eq!(classify_login_response(body), LoginVerdict::Failure);
}

#[test]
fn ldap_error_is_a_failure_marker() {
    assert_eq!(classify_login_response("ldap auth error"), LoginVerdict::Failure);
}

#[test]
fn unrecognised_login_body_is_ambiguous() {
    assert_eq!(classify_login_response("<html>???</html>"), LoginVerdict::Ambiguous);
}

#[test]
fn truncated_login_body_still_holds_early_marker() {
    let mut body = String::from(r#"{"result":1,"otherField":"x"}"#);
    body.push_str(&"z".repeat(9000));
    assert_eq!(classify_login_response(&body), LoginVerdict::Success);
}

#[test]
fn login_marker_beyond_login_byte_limit_is_ignored() {
    let mut body = "z".repeat(9000);
    body.push_str("\"result\":1");
    assert_eq!(classify_login_response(&body), LoginVerdict::Ambiguous);
}

#[test]
fn content_length_bound_is_ten_megabytes() {
    assert!(content_length_acceptable(Some(10 * 1024 * 1024)));
    assert!(!content_length_acceptable(Some(10 * 1024 * 1024 + 1)));
    assert!(content_length_acceptable(None));
}

#[test]
fn race_succeeds_when_one_leg_truly_succeeds() {
    let legs = vec![
        leg(false, false, false, false),
        leg(true, true, false, false),
        leg(true, false, false, false),
    ];
    assert!(wan_race_outcome(&legs));
}

#[test]
fn race_fails_when_all_legs_fail_or_are_rewrites() {
    let legs = vec![
        leg(false, false, false, false),
        leg(true, true, true, false),
        leg(true, true, false, true),
        leg(true, false, false, false),
    ];
    assert!(!wan_race_outcome(&legs));
    assert!(!wan_race_outcome(&Vec::new()));
}

#[test]
fn redirected_leg_is_not_a_success() {
    assert!(!wan_leg_success(&leg(true, true, true, false)));
    assert!(!wan_leg_success(&leg(true, true, false, true)));
    assert!(wan_leg_success(&leg(true, true, false, false)));
}

#[test]
fn race_outcome_maps_to_wan_status() {
    assert_eq!(wan_status_from_race(true), WanStatus::Connected);
    assert_eq!(wan_status_from_race(false), WanStatus::Disconnected);
}
