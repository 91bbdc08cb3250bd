//! The Kimi device-authorization login: request headers, the verification URL
//! shown to the user, how token-endpoint replies are read, and the login loop's
//! decisions.
use vstd::prelude::*;
use crate::text::{
    trim, trim_seq, contains, contains_char, seq_contains, push_char, push_str, to_owned_string,
    filter_ascii, ascii_only, trim_end_char, trim_end_char_seq, str_eq, chars_of, all_ascii,
    lemma_ascii_only, lemma_trim_ascii, lemma_trim_idempotent, trim_start_seq, trim_end_seq,
};
use crate::json::{JsonValue, json_get, opt_str, get_str};
use crate::tokens::{StoredToken, TokenView, token_from_response, spec_token_from_response, now_unix};

verus! {

pub const DEFAULT_KIMI_OAUTH_HOST: &'static str = "https://auth.kimi.com";

/// The reply of the device-authorization endpoint.
#[derive(Debug)]
pub struct DeviceAuthorization {
    pub user_code: String,
    pub device_code: String,
    pub verification_uri: Option<String>,
    pub verification_uri_complete: Option<String>,
    pub expires_in: Option<u64>,
    pub interval: Option<u64>,
}

// ---------------------------------------------------------------------------
// Verification URL
// ---------------------------------------------------------------------------

/// The URL the user opens: the complete verification URI when it is not blank;
/// else the verification URI, trimmed, with `user_code=<code>` appended as a
/// query parameter unless it already carries one; else the bare user code.
pub open spec fn spec_verification_url(
    user_code: Seq<char>,
    uri: Option<Seq<char>>,
    complete: Option<Seq<char>>,
) -> Seq<char> {
    if complete.is_some() && trim_seq(complete.unwrap()).len() != 0 {
        trim_seq(complete.unwrap())
    } else {
        match uri {
            Some(b) => {
                let url = trim_seq(b);
                if seq_contains(url, "user_code="@) {
                    url
                } else {
                    url + seq![if url.contains('?') { '&' } else { '?' }] + "user_code="@
                        + user_code
                }
            },
            None => user_code,
        }
    }
}

pub open spec fn opt_string_view(o: Option<String>) -> Option<Seq<char>> {
    match o {
        Some(s) => Some(s@),
        None => None,
    }
}

pub fn build_verification_url(auth: &DeviceAuthorization) -> (r: String)
    ensures
        r@ == spec_verification_url(
            auth.user_code@,
            opt_string_view(auth.verification_uri),
            opt_string_view(auth.verification_uri_complete),
        ),
{
    if let Some(complete) = &auth.verification_uri_complete {
        let trimmed = trim(complete.as_str());
        if trimmed.unicode_len() != 0 {
            return trimmed;
        }
    }
    if let Some(base) = &auth.verification_uri {
        let mut url = trim(base.as_str());
        if !contains(url.as_str(), "user_code=") {
            if contains_char(url.as_str(), '?') {
                push_char(&mut url, '&');
            } else {
                push_char(&mut url, '?');
            }
            push_str(&mut url, "user_code=");
            push_str(&mut url, auth.user_code.as_str());
        }
        return url;
    }
    auth.user_code.clone()
}

/// Unless the device authorization gives a complete verification URI, the URL
/// shown to the user carries the user code: a verification URI gets a
/// `user_code=` parameter, and without one the user code itself is shown.
pub proof fn lemma_verification_url_carries_code(
    user_code: Seq<char>,
    uri: Option<Seq<char>>,
    complete: Option<Seq<char>>,
)
    requires
        complete.is_none() || trim_seq(complete.unwrap()).len() == 0,
    ensures
        uri.is_some() ==> seq_contains(spec_verification_url(user_code, uri, complete), "user_code="@),
        uri.is_none() ==> spec_verification_url(user_code, uri, complete) == user_code,
{
    reveal_strlit("user_code=");
    if uri.is_some() {
        let url = trim_seq(uri.unwrap());
        if !seq_contains(url, "user_code="@) {
            let sep: char = if url.contains('?') { '&' } else { '?' };
            let r = url + seq![sep] + "user_code="@ + user_code;
            let i: int = url.len() as int + 1;
            assert(r.subrange(i, i + 10) =~= "user_code="@);
        }
    }
}

// ---------------------------------------------------------------------------
// Request headers
// ---------------------------------------------------------------------------

/// A header value made printable: ASCII characters only, trimmed, `unknown`
/// when nothing is left.
pub open spec fn spec_ascii_sanitize(value: Seq<char>) -> Seq<char> {
    let s = trim_seq(ascii_only(value));
    if s.len() == 0 {
        "unknown"@
    } else {
        s
    }
}

/// Sanitising a sanitised header value changes nothing.
pub proof fn lemma_sanitize_idempotent(value: Seq<char>)
    ensures
        spec_ascii_sanitize(spec_ascii_sanitize(value)) == spec_ascii_sanitize(value),
{
    let s = trim_seq(ascii_only(value));
    lemma_ascii_only(value);
    lemma_trim_ascii(ascii_only(value));
    if s.len() == 0 {
        let u = "unknown"@;
        reveal_strlit("unknown");
        assert(all_ascii(u));
        lemma_ascii_only(u);
        assert(trim_start_seq(u) == u);
        assert(trim_end_seq(u) == u);
    } else {
        lemma_ascii_only(s);
        lemma_trim_idempotent(ascii_only(value));
    }
}

pub fn ascii_sanitize(value: &str) -> (r: String)
    ensures
        r@ == spec_ascii_sanitize(value@),
{
    let filtered = filter_ascii(value);
    let sanitized = trim(filtered.as_str());
    if sanitized.unicode_len() == 0 {
        to_owned_string("unknown")
    } else {
        sanitized
    }
}

/// A character that a header value may hold (`HeaderValue::from_str` accepts
/// a string exactly when each of its bytes is a tab, or at least 32 and not
/// 127; every byte of a non-ASCII character is at least 128).
pub open spec fn header_char_ok(c: char) -> bool {
    ((c as u32) >= 32 && (c as u32) != 127) || c == '\t'
}

pub open spec fn header_value_ok(s: Seq<char>) -> bool {
    forall|i: int| 0 <= i < s.len() ==> header_char_ok(#[trigger] s[i])
}

/// Whether `reqwest::header::HeaderValue::from_str` accepts `s`.
#[verifier::external_body]
fn header_value_accepted(s: &str) -> (r: bool)
    ensures
        r == header_value_ok(s@),
{
    reqwest::header::HeaderValue::from_str(s).is_ok()
}

/// The message of a refused header value.
pub const INVALID_HEADER_MESSAGE: &'static str = "failed to parse header value";

/// A sanitised header value, or the error that building it gives.
pub fn header_value(value: &str) -> (r: Result<String, String>)
    ensures
        match r {
            Ok(s) => s@ == spec_ascii_sanitize(value@) && header_value_ok(s@),
            Err(e) => !header_value_ok(spec_ascii_sanitize(value@)) && e@
                == INVALID_HEADER_MESSAGE@,
        },
{
    let sanitized = ascii_sanitize(value);
    if header_value_accepted(sanitized.as_str()) {
        Ok(sanitized)
    } else {
        Err(to_owned_string(INVALID_HEADER_MESSAGE))
    }
}

/// The device model header: OS type, OS version when known, architecture.
pub open spec fn spec_device_model(os_type: Seq<char>, os_version: Seq<char>, arch: Seq<char>) -> Seq<
    char,
> {
    if os_version.len() == 0 {
        os_type + " "@ + arch
    } else {
        os_type + " "@ + os_version + " "@ + arch
    }
}

/// The headers that Kimi requests carry, in order, given what the machine
/// reports (`host_name` is `None` when it could not be read).
pub open spec fn spec_header_inputs(
    device_id: Seq<char>,
    host_name: Option<Seq<char>>,
    os_type: Seq<char>,
    os_version: Seq<char>,
    arch: Seq<char>,
    version: Seq<char>,
) -> Seq<(Seq<char>, Seq<char>)> {
    seq![
        ("X-Msh-Platform"@, "kimi_cli"@),
        ("X-Msh-Version"@, version),
        ("X-Msh-Device-Name"@, match host_name {
            Some(h) => h,
            None => "unknown"@,
        }),
        ("X-Msh-Device-Model"@, spec_device_model(os_type, os_version, arch)),
        ("X-Msh-Os-Version"@, os_version),
        ("X-Msh-Device-Id"@, device_id),
    ]
}

pub open spec fn opt_str_view(o: Option<&str>) -> Option<Seq<char>> {
    match o {
        Some(s) => Some(s@),
        None => None,
    }
}

/// `out` holds the given headers in order, each value sanitised and valid.
pub open spec fn headers_match(out: Seq<(String, String)>, inputs: Seq<(Seq<char>, Seq<char>)>) -> bool {
    &&& out.len() == inputs.len()
    &&& forall|i: int|
        0 <= i < inputs.len() ==> (#[trigger] out[i]).0@ == inputs[i].0 && out[i].1@
            == spec_ascii_sanitize(inputs[i].1) && header_value_ok(out[i].1@)
}

/// Some given header value cannot be a header value once sanitised.
pub open spec fn some_header_refused(inputs: Seq<(Seq<char>, Seq<char>)>) -> bool {
    exists|i: int| 0 <= i < inputs.len() && !header_value_ok(spec_ascii_sanitize(#[trigger] inputs[i].1))
}

/// The common Kimi headers: each value sanitised; the first value that cannot
/// be a header value fails the whole set.
pub fn kimi_common_headers(
    device_id: &str,
    host_name: Option<&str>,
    os_type: &str,
    os_version: &str,
    arch: &str,
    version: &str,
) -> (r: Result<Vec<(String, String)>, String>)
    ensures
        r matches Ok(v) ==> headers_match(
            v@,
            spec_header_inputs(
                device_id@,
                opt_str_view(host_name),
                os_type@,
                os_version@,
                arch@,
                version@,
            ),
        ),
        r matches Err(e) ==> e@ == INVALID_HEADER_MESSAGE@,
        r is Err ==> some_header_refused(
            spec_header_inputs(
                device_id@,
                opt_str_view(host_name),
                os_type@,
                os_version@,
                arch@,
                version@,
            ),
        ),
{
    let ghost inputs = spec_header_inputs(
        device_id@,
        opt_str_view(host_name),
        os_type@,
        os_version@,
        arch@,
        version@,
    );
    let device_name = match host_name {
        Some(h) => to_owned_string(h),
        None => to_owned_string("unknown"),
    };
    let mut model = to_owned_string(os_type);
    push_str(&mut model, " ");
    if os_version.unicode_len() != 0 {
        push_str(&mut model, os_version);
        push_str(&mut model, " ");
    }
    push_str(&mut model, arch);
    assert(model@ =~= spec_device_model(os_type@, os_version@, arch@));
    let mut names: Vec<&str> = Vec::new();
    let mut values: Vec<String> = Vec::new();
    names.push("X-Msh-Platform");
    values.push(to_owned_string("kimi_cli"));
    names.push("X-Msh-Version");
    values.push(to_owned_string(version));
    names.push("X-Msh-Device-Name");
    values.push(device_name);
    names.push("X-Msh-Device-Model");
    values.push(model);
    names.push("X-Msh-Os-Version");
    values.push(to_owned_string(os_version));
    names.push("X-Msh-Device-Id");
    values.push(to_owned_string(device_id));
    assert(names@.len() == 6 && values@.len() == 6);
    assert forall|i: int| 0 <= i < 6 implies names@[i]@ == inputs[i].0 && values@[i]@
        == inputs[i].1 by {
        if i == 0 {
        } else if i == 1 {
        } else if i == 2 {
        } else if i == 3 {
        } else if i == 4 {
        } else {
        }
    }
    let mut out: Vec<(String, String)> = Vec::new();
    let mut i: usize = 0;
    while i < 6
        invariant
            names@.len() == 6,
            values@.len() == 6,
            inputs.len() == 6,
            inputs == spec_header_inputs(
                device_id@,
                opt_str_view(host_name),
                os_type@,
                os_version@,
                arch@,
                version@,
            ),
            forall|k: int| 0 <= k < 6 ==> names@[k]@ == inputs[k].0 && values@[k]@ == inputs[k].1,
            i <= 6,
            out@.len() == i,
            forall|k: int|
                0 <= k < i ==> (#[trigger] out@[k]).0@ == inputs[k].0 && out@[k].1@
                    == spec_ascii_sanitize(inputs[k].1) && header_value_ok(out@[k].1@),
        decreases 6 - i,
    {
        match header_value(values[i].as_str()) {
            Ok(v) => {
                out.push((to_owned_string(names[i]), v));
            },
            Err(e) => {
                assert(!header_value_ok(spec_ascii_sanitize(inputs[i as int].1)));
                return Err(e);
            },
        }
        i = i + 1;
    }
    Ok(out)
}

// ---------------------------------------------------------------------------
// OAuth host and endpoints
// ---------------------------------------------------------------------------

/// The OAuth host: `KIMI_CODE_OAUTH_HOST`, else `KIMI_OAUTH_HOST`, else the
/// default host.
pub fn oauth_host(code_oauth_host: Option<&str>, oauth_host_var: Option<&str>) -> (r: String)
    ensures
        r@ == match code_oauth_host {
            Some(h) => h@,
            None => match oauth_host_var {
                Some(h) => h@,
                None => DEFAULT_KIMI_OAUTH_HOST@,
            },
        },
{
    match code_oauth_host {
        Some(h) => to_owned_string(h),
        None => match oauth_host_var {
            Some(h) => to_owned_string(h),
            None => to_owned_string(DEFAULT_KIMI_OAUTH_HOST),
        },
    }
}

/// `base` without trailing slashes, followed by `path`.
pub open spec fn spec_endpoint(base: Seq<char>, path: Seq<char>) -> Seq<char> {
    trim_end_char_seq(base, '/') + path
}

pub fn endpoint(base: &str, path: &str) -> (r: String)
    ensures
        r@ == spec_endpoint(base@, path@),
{
    let mut r = trim_end_char(base, '/');
    push_str(&mut r, path);
    r
}

/// The device-authorization endpoint of an OAuth host.
pub fn device_authorization_url(host: &str) -> (r: String)
    ensures
        r@ == spec_endpoint(host@, "/api/oauth/device_authorization"@),
{
    endpoint(host, "/api/oauth/device_authorization")
}

/// The token endpoint of an OAuth host.
pub fn oauth_token_url(host: &str) -> (r: String)
    ensures
        r@ == spec_endpoint(host@, "/api/oauth/token"@),
{
    endpoint(host, "/api/oauth/token")
}

// ---------------------------------------------------------------------------
// Token polling
// ---------------------------------------------------------------------------

/// How a reply of the token endpoint during login is read.
#[derive(Debug)]
pub enum PollDecision {
    /// The user has not finished yet; poll again.
    Pending,
    /// Login finished; store this token.
    Success(StoredToken),
    /// The device code expired; start over.
    Expired,
    /// Login failed with this message.
    Failed(String),
}

/// The reading of a polling reply with status `status` and JSON body `payload`
/// at time `now`, as a tag with the token or message it carries.
pub open spec fn spec_poll_decision(status: u16, payload: JsonValue, now: i64) -> (
    int,
    Option<TokenView>,
    Seq<char>,
) {
    if status == 200 {
        match spec_token_from_response(payload, now) {
            Some(t) => (1, Some(t), Seq::empty()),
            None => (3, None, "Missing token fields in response"@),
        }
    } else {
        match opt_str(json_get(payload, "error"@)) {
            Some(code) => if code == "authorization_pending"@ || code == "slow_down"@ {
                (0, None, Seq::empty())
            } else if code == "expired_token"@ {
                (2, None, Seq::empty())
            } else {
                match opt_str(json_get(payload, "error_description"@)) {
                    Some(desc) => (3, None, "Token polling failed: "@ + code + " ("@ + desc + ")"@),
                    None => (3, None, "Token polling failed: "@ + code),
                }
            },
            None => (3, None, "Token polling failed with unexpected response."@),
        }
    }
}

pub open spec fn poll_view(d: PollDecision) -> (int, Option<TokenView>, Seq<char>) {
    match d {
        PollDecision::Pending => (0, None, Seq::empty()),
        PollDecision::Success(t) => (1, Some(t@), Seq::empty()),
        PollDecision::Expired => (2, None, Seq::empty()),
        PollDecision::Failed(m) => (3, None, m@),
    }
}

/// Reads a polling reply at time `now`.
pub fn classify_poll(status: u16, payload: &JsonValue, now: i64) -> (r: PollDecision)
    ensures
        poll_view(r) == spec_poll_decision(status, *payload, now),
{
    if status == 200 {
        return match token_from_response(payload, now) {
            Ok(t) => PollDecision::Success(t),
            Err(e) => PollDecision::Failed(e),
        };
    }
    match get_str(payload, "error") {
        Some(code) => {
            if str_eq(code, "authorization_pending") || str_eq(code, "slow_down") {
                return PollDecision::Pending;
            }
            if str_eq(code, "expired_token") {
                return PollDecision::Expired;
            }
            let mut msg = to_owned_string("Token polling failed: ");
            push_str(&mut msg, code);
            match get_str(payload, "error_description") {
                Some(desc) => {
                    push_str(&mut msg, " (");
                    push_str(&mut msg, desc);
                    push_str(&mut msg, ")");
                },
                None => {},
            }
            PollDecision::Failed(msg)
        },
        None => PollDecision::Failed(to_owned_string("Token polling failed with unexpected response.")),
    }
}

/// Reads a polling reply, dating a new token's expiry from the system clock.
pub fn poll_device_token(status: u16, payload: &JsonValue) -> (r: PollDecision)
    ensures
        exists|now: i64| poll_view(r) == spec_poll_decision(status, *payload, now),
{
    let now = now_unix();
    classify_poll(status, payload, now)
}

// ---------------------------------------------------------------------------
// Token refresh
// ---------------------------------------------------------------------------

pub const MISSING_REFRESH_MESSAGE: &'static str =
    "Missing refresh token. Run `llm-usage kimi login` again.";

pub const REFRESH_UNAUTHORIZED_MESSAGE: &'static str =
    "Token refresh unauthorized. Run `llm-usage kimi login` again.";

/// A refresh can only be asked for with a refresh token.
pub fn refresh_precheck(token: &StoredToken) -> (r: Result<(), String>)
    ensures
        r is Ok <==> token@.refresh_token.len() != 0,
        r matches Err(e) ==> e@ == MISSING_REFRESH_MESSAGE@,
{
    if token.refresh_token.as_str().unicode_len() == 0 {
        Err(to_owned_string(MISSING_REFRESH_MESSAGE))
    } else {
        Ok(())
    }
}

/// How the status of a refresh reply is read.
#[derive(Debug, PartialEq, Eq, Structural, Clone, Copy)]
pub enum RefreshStatus {
    /// 401 or 403: the user must log in again.
    Unauthorized,
    /// Any other status outside 2xx.
    Failed,
    /// 2xx: read the body as a token response.
    Accepted,
}

pub fn classify_refresh_status(status: u16) -> (r: RefreshStatus)
    ensures
        (status == 401 || status == 403) <==> r == RefreshStatus::Unauthorized,
        r == RefreshStatus::Accepted <==> (200 <= status <= 299),
{
    if status == 401 || status == 403 {
        RefreshStatus::Unauthorized
    } else if 200 <= status && status <= 299 {
        RefreshStatus::Accepted
    } else {
        RefreshStatus::Failed
    }
}

/// How a refresh reply is read; `status_text` is the status as shown (code and
/// reason), `body` the reply's text: 401 and 403 ask for a new login, any
/// other status outside 2xx fails with both.
pub fn refresh_reply_status(status: u16, status_text: &str, body: &str) -> (r: Result<(), String>)
    ensures
        (200 <= status <= 299) <==> r is Ok,
        (status == 401 || status == 403) ==> (r matches Err(e) && e@
            == REFRESH_UNAUTHORIZED_MESSAGE@),
        !(status == 401 || status == 403) && !(200 <= status <= 299) ==> (r matches Err(e) && e@
            == "Token refresh failed: "@ + status_text@ + " "@ + body@),
{
    match classify_refresh_status(status) {
        RefreshStatus::Unauthorized => Err(to_owned_string(REFRESH_UNAUTHORIZED_MESSAGE)),
        RefreshStatus::Accepted => Ok(()),
        RefreshStatus::Failed => {
            let mut e = to_owned_string("Token refresh failed: ");
            push_str(&mut e, status_text);
            push_str(&mut e, " ");
            push_str(&mut e, body);
            Err(e)
        },
    }
}

/// How the status of a device-authorization reply is read; `status_text` is
/// the status as shown (code and reason), `body` the reply's text.
pub fn device_authorization_status(status: u16, status_text: &str, body: &str) -> (r: Result<
    (),
    String,
>)
    ensures
        (200 <= status <= 299) <==> r is Ok,
        r matches Err(e) ==> e@ == "Device authorization failed: "@ + status_text@ + " "@ + body@,
{
    if 200 <= status && status <= 299 {
        return Ok(());
    }
    let mut e = to_owned_string("Device authorization failed: ");
    push_str(&mut e, status_text);
    push_str(&mut e, " ");
    push_str(&mut e, body);
    Err(e)
}

// ---------------------------------------------------------------------------
// The login loop
// ---------------------------------------------------------------------------

/// `e as i64`.
pub open spec fn u64_as_i64(e: u64) -> int {
    if e > i64::MAX {
        e - 18446744073709551616int
    } else {
        e as int
    }
}

/// The device code has outlived its lifetime, counted from `started`.
pub open spec fn spec_device_code_expired(expires_in: Option<u64>, started: i64, now: i64) -> bool {
    match expires_in {
        Some(e) => now - started >= u64_as_i64(e),
        None => false,
    }
}

pub fn device_code_expired(expires_in: Option<u64>, started: i64, now: i64) -> (r: bool)
    ensures
        r == spec_device_code_expired(expires_in, started, now),
{
    match expires_in {
        Some(e) => {
            let lifetime: i128 = if e > 9223372036854775807u64 {
                (e as i128) - 18446744073709551616i128
            } else {
                e as i128
            };
            (now as i128) - (started as i128) >= lifetime
        },
        None => false,
    }
}

/// Seconds to wait between polls: the server's interval, five by default,
/// at least one.
pub fn poll_wait_seconds(interval: Option<u64>) -> (r: u64)
    ensures
        r == match interval {
            Some(i) => if i >= 1 {
                i
            } else {
                1
            },
            None => 5,
        },
{
    let w = match interval {
        Some(i) => i,
        None => 5,
    };
    if w >= 1 {
        w
    } else {
        1
    }
}

/// What the login loop does next.
#[derive(Debug)]
pub enum LoginAction {
    /// Store this token; login is complete.
    Store(StoredToken),
    /// Ask for a new device code and show the new URL.
    Restart,
    /// Sleep this many seconds, then poll again.
    Wait(u64),
    /// Stop with this error.
    Fail(String),
}

/// The login loop's step after a poll.
pub fn kimi_login_next(poll: PollDecision, interval: Option<u64>) -> (r: LoginAction)
    ensures
        poll is Success ==> r is Store && r->Store_0@ == poll->Success_0@,
        poll is Expired ==> r is Restart,
        poll is Pending ==> r == LoginAction::Wait(
            match interval {
                Some(i) => if i >= 1 {
                    i
                } else {
                    1
                },
                None => 5,
            },
        ),
        poll is Failed ==> r is Fail && r->Fail_0@ == poll->Failed_0@,
{
    match poll {
        PollDecision::Success(t) => LoginAction::Store(t),
        PollDecision::Expired => LoginAction::Restart,
        PollDecision::Pending => LoginAction::Wait(poll_wait_seconds(interval)),
        PollDecision::Failed(m) => LoginAction::Fail(m),
    }
}

// ---------------------------------------------------------------------------
// Device id
// ---------------------------------------------------------------------------

pub open spec fn is_lower_hex(c: char) -> bool {
    ('0' <= c && c <= '9') || ('a' <= c && c <= 'f')
}

/// A fresh random id: `Uuid::new_v4()` in its simple form, 32 lower-case
/// hexadecimal digits.
#[verifier::external_body]
fn new_device_id() -> (r: String)
    ensures
        r@.len() == 32,
        forall|i: int| 0 <= i < 32 ==> is_lower_hex(#[trigger] r@[i]),
{
    uuid::Uuid::new_v4().simple().to_string()
}

/// The device id to use, given the stored file's contents (`None` when there is
/// no file), and whether it must be written.
pub fn resolve_device_id(stored: Option<&str>) -> (r: (String, bool))
    ensures
        match stored {
            Some(s) => r.0@ == trim_seq(s@) && !r.1,
            None => r.1 && r.0@.len() == 32 && forall|i: int|
                0 <= i < 32 ==> is_lower_hex(#[trigger] r.0@[i]),
        },
{
    match stored {
        Some(s) => (trim(s), false),
        None => (new_device_id(), true),
    }
}

} // verus!
