//! Classification of portal responses and reachability probes.
//!
//! The captive portal answers with unstable, vendor-specific pages, so every
//! decision here is a prioritised check of literal markers against a
//! byte-bounded prefix of the response text.

use vstd::prelude::*;
use crate::status::{CampusNetworkStatus, WanStatus};
use crate::text::{chars_vec, contains_seq, contains_sub, truncate_utf8, utf8_take};

verus! {

/// Bytes of a portal status page that are considered during classification.
pub const PORTAL_BODY_LIMIT: usize = 4096;

/// Bytes of a login response that are considered during classification.
pub const LOGIN_BODY_LIMIT: usize = 8192;

/// Largest login response body that is read at all.
pub const MAX_RESPONSE_SIZE: u64 = 10485760;

/// How a portal status page classifies: the page names the logged-in state,
/// or it does not — an unrecognised page counts as not logged in, because
/// failing open towards "needs login" is safe for an automated retry.
pub open spec fn portal_body_status(body: Seq<char>, signed_in_title: Seq<char>) -> CampusNetworkStatus {
    if contains_seq(utf8_take(body, PORTAL_BODY_LIMIT as int), signed_in_title) {
        CampusNetworkStatus::AlreadyLoggedIn
    } else {
        CampusNetworkStatus::NotLoggedIn
    }
}

/// Classify a portal status page against the configured page-title markers.
///
/// Only the first `PORTAL_BODY_LIMIT` bytes of the body are considered. A
/// body holding the signed-in marker is `AlreadyLoggedIn`; a body holding
/// the not-signed-in marker, or neither marker, is `NotLoggedIn`.
pub fn classify_portal_body(body: &str, signed_in_title: &str, not_sign_in_title: &str) -> (r:
    CampusNetworkStatus)
    ensures
        r == portal_body_status(body@, signed_in_title@),
        contains_seq(utf8_take(body@, PORTAL_BODY_LIMIT as int), signed_in_title@) ==> r
            == CampusNetworkStatus::AlreadyLoggedIn,
        !contains_seq(utf8_take(body@, PORTAL_BODY_LIMIT as int), signed_in_title@) ==> r
            == CampusNetworkStatus::NotLoggedIn,
{
    let chars = chars_vec(body);
    let truncated = truncate_utf8(&chars, PORTAL_BODY_LIMIT);
    let signed = chars_vec(signed_in_title);
    let not_signed = chars_vec(not_sign_in_title);
    if contains_sub(&truncated, &signed) {
        CampusNetworkStatus::AlreadyLoggedIn
    } else if contains_sub(&truncated, &not_signed) {
        CampusNetworkStatus::NotLoggedIn
    } else {
        CampusNetworkStatus::NotLoggedIn
    }
}

/// The text holds one of the known success signals: the logout-page title,
/// the authentication-success title, the vendor page name, or the JSON
/// success fragment.
pub open spec fn login_success_marker(t: Seq<char>) -> bool {
    contains_seq(t, "注销页"@) || contains_seq(t, "认证成功页"@) || contains_seq(
        t,
        "Dr.COMWebLoginID_3.htm"@,
    ) || contains_seq(t, "\"result\":1"@)
}

/// The text holds one of the known failure signals.
pub open spec fn login_failure_marker(t: Seq<char>) -> bool {
    contains_seq(t, "ldap auth error"@) || contains_seq(t, "Msg=01"@)
}

/// Whether a login response text signals success.
///
/// The portal's response format differs between firmware versions, so this
/// is a union of known-good patterns, not a single schema.
pub fn is_login_successful(login_text: &str) -> (r: bool)
    ensures
        r == login_success_marker(login_text@),
{
    let t = chars_vec(login_text);
    let m1 = chars_vec("注销页");
    let m2 = chars_vec("认证成功页");
    let m3 = chars_vec("Dr.COMWebLoginID_3.htm");
    let m4 = chars_vec("\"result\":1");
    contains_sub(&t, &m1) || contains_sub(&t, &m2) || contains_sub(&t, &m3) || contains_sub(
        &t,
        &m4,
    )
}

/// Whether a login response text holds a known failure marker.
pub fn has_login_failure_marker(login_text: &str) -> (r: bool)
    ensures
        r == login_failure_marker(login_text@),
{
    let t = chars_vec(login_text);
    let m1 = chars_vec("ldap auth error");
    let m2 = chars_vec("Msg=01");
    contains_sub(&t, &m1) || contains_sub(&t, &m2)
}

/// The three-way reading of a login response text.
#[derive(Debug, Clone, Copy, PartialEq, Eq, Structural)]
pub enum LoginVerdict {
    /// A success marker was found and no failure marker.
    Success,
    /// A known failure marker was found; it wins over any other content.
    Failure,
    /// Neither a success nor a known failure marker was found.
    Ambiguous,
}

/// The verdict a login response text earns: a known failure marker always
/// wins, then any success marker, else the text is ambiguous.
pub open spec fn login_verdict_spec(t: Seq<char>) -> LoginVerdict {
    if login_failure_marker(t) {
        LoginVerdict::Failure
    } else if login_success_marker(t) {
        LoginVerdict::Success
    } else {
        LoginVerdict::Ambiguous
    }
}

/// Only a `Success` verdict counts as a successful login; `Failure` and
/// `Ambiguous` are both reported as failure to the caller.
pub open spec fn verdict_success(v: LoginVerdict) -> bool {
    v == LoginVerdict::Success
}

/// Classify a full login response body.
///
/// Only the first `LOGIN_BODY_LIMIT` bytes are considered. A body holding a
/// known failure marker is `Failure` whatever else it holds; otherwise a
/// body holding any success marker is `Success`; otherwise `Ambiguous`.
pub fn classify_login_response(body: &str) -> (r: LoginVerdict)
    ensures
        r == login_verdict_spec(utf8_take(body@, LOGIN_BODY_LIMIT as int)),
{
    let chars = chars_vec(body);
    let truncated = truncate_utf8(&chars, LOGIN_BODY_LIMIT);
    let t = crate::text::string_from_chars(&truncated);
    if has_login_failure_marker(t.as_str()) {
        LoginVerdict::Failure
    } else if is_login_successful(t.as_str()) {
        LoginVerdict::Success
    } else {
        LoginVerdict::Ambiguous
    }
}

/// A login response body may only be read when its announced length is
/// within bounds; an unannounced length counts as zero.
pub fn content_length_acceptable(content_length: Option<u64>) -> (r: bool)
    ensures
        r == (match content_length {
            Some(l) => l <= MAX_RESPONSE_SIZE,
            None => true,
        }),
{
    match content_length {
        Some(l) => l <= MAX_RESPONSE_SIZE,
        None => true,
    }
}

/// What one wide-area probe leg observed, reduced to plain facts.
#[derive(Debug, Clone, Copy, PartialEq, Eq, Structural)]
pub struct WanLegObservation {
    /// The request completed within its timeout.
    pub completed: bool,
    /// The HTTP status was in the success range.
    pub http_success: bool,
    /// The response's resolved host occurs in the portal address: the portal
    /// intercepted the request.
    pub portal_redirect: bool,
    /// The re-read body held the not-signed-in marker: a rewritten portal
    /// page.
    pub portal_page: bool,
}

/// A leg is a true success when it completed with an HTTP success and was
/// neither a portal redirect nor a rewritten portal page.
pub open spec fn leg_success(l: WanLegObservation) -> bool {
    l.completed && l.http_success && !l.portal_redirect && !l.portal_page
}

/// Whether one leg observation counts as a true success.
pub fn wan_leg_success(l: &WanLegObservation) -> (r: bool)
    ensures
        r == leg_success(*l),
{
    l.completed && l.http_success && !l.portal_redirect && !l.portal_page
}

/// Some leg of the race is a true success.
pub open spec fn race_success(legs: Seq<WanLegObservation>) -> bool {
    exists|i: int| 0 <= i < legs.len() && leg_success(legs[i])
}

/// The aggregate result of the reachability race: `true` exactly when at
/// least one leg returned an HTTP success and was not classified as a portal
/// redirect or a rewritten portal page.
pub fn wan_race_outcome(legs: &Vec<WanLegObservation>) -> (r: bool)
    ensures
        r == race_success(legs@),
{
    let n = legs.len();
    let mut i: usize = 0;
    while i < n
        invariant
            n == legs@.len(),
            i <= n,
            forall|k: int| 0 <= k < i ==> !leg_success(legs@[k]),
        decreases n - i,
    {
        if wan_leg_success(&legs[i]) {
            return true;
        }
        i = i + 1;
    }
    false
}

/// The wide-area status that a finished race reports.
pub fn wan_status_from_race(raced: bool) -> (r: WanStatus)
    ensures
        raced ==> r == WanStatus::Connected,
        !raced ==> r == WanStatus::Disconnected,
{
    if raced {
        WanStatus::Connected
    } else {
        WanStatus::Disconnected
    }
}

/// The race is decided by the first successful leg: once some prefix of the
/// observations holds a true success, the aggregate result is `true` no
/// matter what the remaining legs would report. The runner may therefore
/// stop consuming results as soon as one leg succeeds, without waiting for
/// slower legs.
pub proof fn lemma_race_decided_by_first_success(legs: Seq<WanLegObservation>, i: int)
    requires
        0 <= i < legs.len(),
        leg_success(legs[i]),
    ensures
        race_success(legs.take(i + 1)),
        forall|rest: Seq<WanLegObservation>| #[trigger] race_success(legs.take(i + 1) + rest),
{
    assert(legs.take(i + 1)[i] == legs[i]);
    assert(race_success(legs.take(i + 1)));
    assert forall|rest: Seq<WanLegObservation>| #[trigger] race_success(legs.take(i + 1) + rest) by {
        assert((legs.take(i + 1) + rest)[i] == legs[i]);
    }
}

} // verus!
