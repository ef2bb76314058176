//! Building the portal's proprietary login request, and reading its answer.
//!
//! The wire format is a plain HTTP GET whose query string carries the
//! account, the percent-encoded password and two fixed protocol constants;
//! it is dictated by the portal vendor and treated as an opaque text
//! contract.

use vstd::prelude::*;
use vstd::string::*;
use crate::classify::{login_verdict_spec, verdict_success, classify_login_response, LoginVerdict, LOGIN_BODY_LIMIT};
use crate::status::CampusNetworkStatus;
use crate::text::{chars_vec, string_from_chars, utf8_take};

verus! {

/// Bytes that percent-encoding passes through unchanged: ASCII
/// alphanumerics and `-`, `.`, `_`, `~`.
pub open spec fn url_unreserved_byte(b: u8) -> bool {
    (48 <= b <= 57) || (65 <= b <= 90) || (97 <= b <= 122) || b == 45 || b == 46 || b == 95 || b
        == 126
}

/// The uppercase hexadecimal digit for a nibble.
pub open spec fn hex_upper_char(d: u8) -> char {
    if d == 0 {
        '0'
    } else if d == 1 {
        '1'
    } else if d == 2 {
        '2'
    } else if d == 3 {
        '3'
    } else if d == 4 {
        '4'
    } else if d == 5 {
        '5'
    } else if d == 6 {
        '6'
    } else if d == 7 {
        '7'
    } else if d == 8 {
        '8'
    } else if d == 9 {
        '9'
    } else if d == 10 {
        'A'
    } else if d == 11 {
        'B'
    } else if d == 12 {
        'C'
    } else if d == 13 {
        'D'
    } else if d == 14 {
        'E'
    } else {
        'F'
    }
}

/// The percent-encoding of a byte sequence: unreserved bytes stand as
/// themselves, every other byte becomes `%` and two uppercase hex digits.
pub open spec fn percent_encoded(bytes: Seq<u8>) -> Seq<char>
    decreases bytes.len(),
{
    if bytes.len() == 0 {
        Seq::empty()
    } else {
        (if url_unreserved_byte(bytes[0]) {
            seq![bytes[0] as char]
        } else {
            seq!['%', hex_upper_char(bytes[0] / 16), hex_upper_char(bytes[0] % 16)]
        }) + percent_encoded(bytes.skip(1))
    }
}

/// Relies on `urlencoding::encode`: it percent-encodes every byte of the
/// argument's UTF-8 form except ASCII alphanumerics and `-`, `.`, `_`, `~`,
/// writing `%` and two uppercase hexadecimal digits for each encoded byte.
#[verifier::external_body]
fn url_encode(s: &str) -> (r: String)
    ensures
        r@ == percent_encoded(s.spec_bytes()),
{
    urlencoding::encode(s).into_owned()
}

/// The account name as the portal expects it: the provider suffix appended
/// after `@`, or the bare name for the campus provider.
pub open spec fn full_username_spec(username: Seq<char>, isp: Seq<char>) -> Seq<char> {
    if isp.len() == 0 {
        username
    } else {
        username + "@"@ + isp
    }
}

/// The query string of the portal's login request.
pub open spec fn login_query_spec(
    username: Seq<char>,
    password: Seq<char>,
    isp: Seq<char>,
) -> Seq<char> {
    "callback=dr1003&DDDDD="@ + full_username_spec(username, isp) + "&upass="@ + percent_encoded(
        vstd::utf8::encode_utf8(password),
    ) + "&0MKKey=123456"@
}

/// Build the query string of the login request. `isp` must already be
/// normalised: empty for the campus provider.
pub fn build_login_query(username: &str, password: &str, isp: &str) -> (r: String)
    ensures
        r@ == login_query_spec(username@, password@, isp@),
{
    let encoded_password = url_encode(password);
    let user = if isp.is_empty() {
        String::from_str(username)
    } else {
        String::from_str(username).concat("@").concat(isp)
    };
    let r = String::from_str("callback=dr1003&DDDDD=").concat(user.as_str()).concat(
        "&upass=",
    ).concat(encoded_password.as_str()).concat("&0MKKey=123456");
    assert(r@ =~= login_query_spec(username@, password@, isp@));
    r
}

/// `s` without its trailing slashes.
pub open spec fn trim_trailing_slashes(s: Seq<char>) -> Seq<char>
    decreases s.len(),
{
    if s.len() > 0 && s[s.len() - 1] == '/' {
        trim_trailing_slashes(s.drop_last())
    } else {
        s
    }
}

/// The full address of the login request: the portal address without its
/// trailing slashes, the fixed path, then the query string.
pub open spec fn login_url_spec(login_ip: Seq<char>, query: Seq<char>) -> Seq<char> {
    trim_trailing_slashes(login_ip) + "/drcom/login?"@ + query
}

/// Build the full address of the login request.
pub fn build_login_url(login_ip: &str, query: &str) -> (r: String)
    ensures
        r@ == login_url_spec(login_ip@, query@),
{
    let chars = chars_vec(login_ip);
    let n = chars.len();
    let mut b: usize = n;
    proof {
        assert(login_ip@.subrange(0, n as int) =~= login_ip@);
    }
    while b > 0 && chars[b - 1] == '/'
        invariant
            n == chars@.len(),
            chars@ == login_ip@,
            b <= n,
            trim_trailing_slashes(login_ip@) == trim_trailing_slashes(
                login_ip@.subrange(0, b as int),
            ),
        decreases b,
    {
        let ghost s = login_ip@.subrange(0, b as int);
        proof {
            assert(s[s.len() - 1] == login_ip@[b - 1]);
            assert(s.drop_last() =~= login_ip@.subrange(0, b - 1));
        }
        b = b - 1;
    }
    proof {
        let s = login_ip@.subrange(0, b as int);
        if s.len() > 0 {
            assert(s[s.len() - 1] == login_ip@[b - 1]);
        }
        assert(trim_trailing_slashes(s) == s);
    }
    let mut out: Vec<char> = Vec::new();
    let mut k: usize = 0;
    while k < b
        invariant
            n == chars@.len(),
            k <= b <= n,
            chars@ == login_ip@,
            out@ == login_ip@.subrange(0, k as int),
        decreases b - k,
    {
        out.push(chars[k]);
        k = k + 1;
        assert(out@ =~= login_ip@.subrange(0, k as int));
    }
    let path = chars_vec("/drcom/login?");
    let q = chars_vec(query);
    crate::text::push_all(&mut out, &path);
    crate::text::push_all(&mut out, &q);
    assert(out@ =~= login_url_spec(login_ip@, query@));
    string_from_chars(&out)
}

/// What a finished login attempt reports towards composition: whether it
/// succeeded, the campus status it implies, and how long it took.
#[derive(Debug, Clone)]
pub struct LoginResult {
    /// The response classified as success.
    pub success: bool,
    /// The campus status the attempt implies.
    pub campus_status: CampusNetworkStatus,
    /// Elapsed time of the attempt, in hundredths of a second.
    pub elapsed_centis: u64,
}

/// Read a finished login exchange into a result: a response body is
/// classified against the known markers (a known failure marker wins over
/// everything, then any success marker); a transport failure, passed as
/// `None`, is a failed attempt, never an error of the flow.
pub fn login_outcome_from_response(response_text: Option<&str>, elapsed_centis: u64) -> (r:
    LoginResult)
    ensures
        r.elapsed_centis == elapsed_centis,
        match response_text {
            Some(t) => r.success == verdict_success(
                login_verdict_spec(utf8_take(t@, LOGIN_BODY_LIMIT as int)),
            ),
            None => !r.success,
        },
        r.success ==> r.campus_status == CampusNetworkStatus::LoginSuccess,
        !r.success ==> r.campus_status == CampusNetworkStatus::NotLoggedIn,
{
    match response_text {
        Some(t) => {
            let verdict = classify_login_response(t);
            if verdict == LoginVerdict::Success {
                LoginResult {
                    success: true,
                    campus_status: CampusNetworkStatus::LoginSuccess,
                    elapsed_centis,
                }
            } else {
                LoginResult {
                    success: false,
                    campus_status: CampusNetworkStatus::NotLoggedIn,
                    elapsed_centis,
                }
            }
        },
        None => LoginResult {
            success: false,
            campus_status: CampusNetworkStatus::NotLoggedIn,
            elapsed_centis,
        },
    }
}

} // verus!
