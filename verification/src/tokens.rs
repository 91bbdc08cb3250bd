//! Kimi access tokens: the stored form, the configuration-file form, and the
//! conversions, refresh rule and token-endpoint reading between them.
use vstd::prelude::*;
use crate::text::{trim, trim_seq, to_owned_string, lemma_trim_idempotent};
use crate::json::{JsonValue, JsonNumber, json_get, entries_get, number_as_u64, get};

verus! {

/// A token as kept on disk (`token.json`).
#[derive(Debug)]
pub struct StoredToken {
    pub access_token: String,
    pub refresh_token: String,
    /// Unix seconds; zero or less means unknown.
    pub expires_at: i64,
    pub scope: String,
    pub token_type: String,
}

pub struct TokenView {
    pub access_token: Seq<char>,
    pub refresh_token: Seq<char>,
    pub expires_at: i64,
    pub scope: Seq<char>,
    pub token_type: Seq<char>,
}

impl View for StoredToken {
    type V = TokenView;

    open spec fn view(&self) -> TokenView {
        TokenView {
            access_token: self.access_token@,
            refresh_token: self.refresh_token@,
            expires_at: self.expires_at,
            scope: self.scope@,
            token_type: self.token_type@,
        }
    }
}

/// The `[kimi]` table of the configuration file; every key is optional.
#[derive(Debug)]
pub struct KimiTokenConfig {
    pub access_token: Option<String>,
    pub refresh_token: Option<String>,
    pub expires_at: Option<i64>,
    pub scope: Option<String>,
    pub token_type: Option<String>,
}

pub struct KimiTokenConfigView {
    pub access_token: Option<Seq<char>>,
    pub refresh_token: Option<Seq<char>>,
    pub expires_at: Option<i64>,
    pub scope: Option<Seq<char>>,
    pub token_type: Option<Seq<char>>,
}

pub open spec fn opt_seq(o: Option<String>) -> Option<Seq<char>> {
    match o {
        Some(s) => Some(s@),
        None => None,
    }
}

impl View for KimiTokenConfig {
    type V = KimiTokenConfigView;

    open spec fn view(&self) -> KimiTokenConfigView {
        KimiTokenConfigView {
            access_token: opt_seq(self.access_token),
            refresh_token: opt_seq(self.refresh_token),
            expires_at: self.expires_at,
            scope: opt_seq(self.scope),
            token_type: opt_seq(self.token_type),
        }
    }
}

/// The whole configuration file (`llm-usage.toml`).
#[derive(Debug)]
pub struct LlmUsageConfig {
    pub kimi: Option<KimiTokenConfig>,
}

pub open spec fn config_view(c: LlmUsageConfig) -> Option<KimiTokenConfigView> {
    match c.kimi {
        Some(k) => Some(k@),
        None => None,
    }
}

// ---------------------------------------------------------------------------
// Specifications
// ---------------------------------------------------------------------------

/// The configuration form of a stored token: every key present.
pub open spec fn spec_from_token(t: TokenView) -> KimiTokenConfigView {
    KimiTokenConfigView {
        access_token: Some(t.access_token),
        refresh_token: Some(t.refresh_token),
        expires_at: Some(t.expires_at),
        scope: Some(t.scope),
        token_type: Some(t.token_type),
    }
}

pub open spec fn seq_or_empty(o: Option<Seq<char>>) -> Seq<char> {
    match o {
        Some(s) => s,
        None => Seq::empty(),
    }
}

/// The stored token that a configuration table describes: its access token
/// trimmed, which must then be non-empty; missing keys read as empty or zero.
pub open spec fn spec_to_token(c: KimiTokenConfigView) -> Option<TokenView> {
    match c.access_token {
        None => None,
        Some(a) => if trim_seq(a).len() == 0 {
            None
        } else {
            Some(
                TokenView {
                    access_token: trim_seq(a),
                    refresh_token: seq_or_empty(c.refresh_token),
                    expires_at: match c.expires_at {
                        Some(e) => e,
                        None => 0,
                    },
                    scope: seq_or_empty(c.scope),
                    token_type: seq_or_empty(c.token_type),
                },
            )
        },
    }
}

/// The token that a (possibly missing) configuration file yields.
pub open spec fn spec_config_token(c: Option<Option<KimiTokenConfigView>>) -> Option<TokenView> {
    match c {
        Some(Some(k)) => spec_to_token(k),
        _ => None,
    }
}

/// The token must be refreshed at time `now`: it has a refresh token, and its
/// expiry is unknown or less than five minutes away.
pub open spec fn spec_needs_refresh_at(t: TokenView, now: int) -> bool {
    &&& trim_seq(t.refresh_token).len() != 0
    &&& (t.expires_at <= 0 || t.expires_at <= now + 300)
}

pub open spec fn token_opt_view(t: Option<StoredToken>) -> Option<TokenView> {
    match t {
        Some(t) => Some(t@),
        None => None,
    }
}

// ---------------------------------------------------------------------------
// Operations
// ---------------------------------------------------------------------------

/// Seconds since the Unix epoch by the system clock (`SystemTime::now`), or
/// zero when the clock reads earlier than the epoch. Nothing is stated of the
/// reading: it is the machine's clock, and two calls may differ.
#[verifier::external_body]
pub fn now_unix() -> i64 {
    std::time::SystemTime::now().duration_since(std::time::UNIX_EPOCH).unwrap_or_else(
        |_| std::time::Duration::from_secs(0),
    ).as_secs() as i64
}

impl StoredToken {
    fn clone_token(&self) -> (r: StoredToken)
        ensures
            r@ == self@,
    {
        StoredToken {
            access_token: self.access_token.clone(),
            refresh_token: self.refresh_token.clone(),
            expires_at: self.expires_at,
            scope: self.scope.clone(),
            token_type: self.token_type.clone(),
        }
    }

    /// Whether the token must be refreshed at time `now` (Unix seconds).
    pub fn needs_refresh_at(&self, now: i64) -> (r: bool)
        ensures
            r == spec_needs_refresh_at(self@, now as int),
    {
        let refresh = trim(self.refresh_token.as_str());
        if refresh.unicode_len() == 0 {
            return false;
        }
        if self.expires_at <= 0 {
            return true;
        }
        (self.expires_at as i128) <= (now as i128) + 300
    }

    /// Whether the token must be refreshed now, by the system clock.
    pub fn needs_refresh(&self) -> (r: bool)
        ensures
            r ==> trim_seq(self@.refresh_token).len() != 0,
            trim_seq(self@.refresh_token).len() != 0 && self@.expires_at <= 0 ==> r,
            exists|now: i64| r == spec_needs_refresh_at(self@, now as int),
    {
        let now = now_unix();
        self.needs_refresh_at(now)
    }
}

impl LlmUsageConfig {
    /// The file holds nothing worth keeping.
    pub fn is_empty(&self) -> (r: bool)
        ensures
            r == self.kimi.is_none(),
    {
        self.kimi.is_none()
    }
}

impl KimiTokenConfig {
    pub fn from_token(token: &StoredToken) -> (r: KimiTokenConfig)
        ensures
            r@ == spec_from_token(token@),
    {
        KimiTokenConfig {
            access_token: Some(token.access_token.clone()),
            refresh_token: Some(token.refresh_token.clone()),
            expires_at: Some(token.expires_at),
            scope: Some(token.scope.clone()),
            token_type: Some(token.token_type.clone()),
        }
    }

    pub fn to_token(&self) -> (r: Option<StoredToken>)
        ensures
            token_opt_view(r) == spec_to_token(self@),
    {
        let access_token = match &self.access_token {
            Some(a) => trim(a.as_str()),
            None => {
                return None;
            },
        };
        if access_token.unicode_len() == 0 {
            return None;
        }
        let refresh_token = match &self.refresh_token {
            Some(s) => s.clone(),
            None => String::new(),
        };
        let scope = match &self.scope {
            Some(s) => s.clone(),
            None => String::new(),
        };
        let token_type = match &self.token_type {
            Some(s) => s.clone(),
            None => String::new(),
        };
        let expires_at = match self.expires_at {
            Some(e) => e,
            None => 0,
        };
        let t = StoredToken { access_token, refresh_token, expires_at, scope, token_type };
        assert(t@ == spec_to_token(self@).unwrap());
        Some(t)
    }
}

/// The Kimi token kept in a configuration file, given the file's contents
/// (`None` when the file is missing or unreadable).
pub fn load_kimi_token_from_config(config: Option<&LlmUsageConfig>) -> (r: Option<StoredToken>)
    ensures
        token_opt_view(r) == match config {
            Some(c) => match c.kimi {
                Some(k) => spec_to_token(k@),
                None => None,
            },
            None => None,
        },
{
    match config {
        Some(c) => match &c.kimi {
            Some(k) => k.to_token(),
            None => None,
        },
        None => None,
    }
}

/// The configuration to write so that it keeps `token`, given what the file
/// held before (`None` when it was missing or unreadable).
pub fn save_kimi_token_config(config: Option<LlmUsageConfig>, token: &StoredToken) -> (r:
    LlmUsageConfig)
    ensures
        config_view(r) == Some(spec_from_token(token@)),
{
    let mut c = match config {
        Some(c) => c,
        None => LlmUsageConfig { kimi: None },
    };
    c.kimi = Some(KimiTokenConfig::from_token(token));
    c
}

/// Whether a usable Kimi token is configured: the file exists and yields one.
pub fn has_kimi_token_config(file_exists: bool, config: Option<&LlmUsageConfig>) -> (r: bool)
    ensures
        r == (file_exists && match config {
            Some(c) => match c.kimi {
                Some(k) => spec_to_token(k@).is_some(),
                None => false,
            },
            None => false,
        }),
{
    if !file_exists {
        return false;
    }
    load_kimi_token_from_config(config).is_some()
}

/// What saving a token writes: the token file holds `token` itself, and the
/// configuration file becomes the returned configuration.
pub fn save_token(config: Option<LlmUsageConfig>, token: &StoredToken) -> (r: (
    StoredToken,
    LlmUsageConfig,
))
    ensures
        r.0@ == token@,
        config_view(r.1) == Some(spec_from_token(token@)),
{
    let t = token.clone_token();
    let c = save_kimi_token_config(config, token);
    (t, c)
}

/// What clearing the Kimi token does to the configuration file.
#[derive(Debug)]
pub enum ConfigClear {
    /// Nothing to remove; the file stays as it is.
    Unchanged,
    /// Delete the file.
    RemoveFile,
    /// Write this configuration back.
    Rewrite(LlmUsageConfig),
}

/// The outcome of clearing the Kimi token from `file`: a missing file, or one
/// without a Kimi table, stays as it is and nothing is removed; any other file
/// (one that cannot be parsed too) is deleted, since a configuration holds
/// nothing but the Kimi table.
pub open spec fn spec_clear_outcome(
    file: Option<Option<LlmUsageConfig>>,
    action: ConfigClear,
    removed: bool,
) -> bool {
    match file {
        None => action is Unchanged && !removed,
        Some(None) => action is RemoveFile && removed,
        Some(Some(c)) => if c.kimi.is_none() {
            action is Unchanged && !removed
        } else {
            action is RemoveFile && removed
        },
    }
}

/// What a read of the configuration gives for `file` (`None` when there is no
/// file or it cannot be parsed).
pub open spec fn spec_loaded(file: Option<Option<LlmUsageConfig>>) -> Option<
    Option<KimiTokenConfigView>,
> {
    match file {
        Some(Some(c)) => Some(config_view(c)),
        _ => None,
    }
}

/// What a read of the configuration gives once `action` was carried out on
/// `file`.
pub open spec fn spec_after_clear(file: Option<Option<LlmUsageConfig>>, action: ConfigClear) -> Option<
    Option<KimiTokenConfigView>,
> {
    match action {
        ConfigClear::Unchanged => spec_loaded(file),
        ConfigClear::RemoveFile => None,
        ConfigClear::Rewrite(c) => Some(config_view(c)),
    }
}

/// How to clear the Kimi token, given the configuration file: `None` when it
/// does not exist, `Some(None)` when it cannot be parsed, `Some(Some(c))`
/// otherwise. The boolean tells whether a token was removed.
pub fn clear_kimi_token_config(file: Option<Option<LlmUsageConfig>>) -> (r: (ConfigClear, bool))
    ensures
        spec_clear_outcome(file, r.0, r.1),
{
    match file {
        None => (ConfigClear::Unchanged, false),
        Some(None) => (ConfigClear::RemoveFile, true),
        Some(Some(mut config)) => {
            if config.kimi.is_none() {
                return (ConfigClear::Unchanged, false);
            }
            config.kimi = None;
            if config.is_empty() {
                (ConfigClear::RemoveFile, true)
            } else {
                (ConfigClear::Rewrite(config), true)
            }
        },
    }
}

/// The token that `kimi set-token` stores for the text `token`.
pub open spec fn spec_set_token(token: Seq<char>) -> TokenView {
    TokenView {
        access_token: trim_seq(token),
        refresh_token: Seq::empty(),
        expires_at: 0,
        scope: Seq::empty(),
        token_type: Seq::empty(),
    }
}

/// The token stored by `kimi set-token`: the given text trimmed, which must not
/// be empty; no refresh token, expiry unknown.
pub fn kimi_set_token(token: &str) -> (r: Result<StoredToken, String>)
    ensures
        trim_seq(token@).len() == 0 <==> r is Err,
        r matches Err(e) ==> e@ == "Token cannot be empty."@,
        r matches Ok(t) ==> t@ == spec_set_token(token@),
{
    let trimmed = trim(token);
    if trimmed.unicode_len() == 0 {
        return Err(to_owned_string("Token cannot be empty."));
    }
    Ok(
        StoredToken {
            access_token: trimmed,
            refresh_token: String::new(),
            expires_at: 0,
            scope: String::new(),
            token_type: String::new(),
        },
    )
}

// ---------------------------------------------------------------------------
// Token endpoint responses
// ---------------------------------------------------------------------------

/// The fields of a token response, as `TokenResponse` deserialises them: an
/// object with string `access_token`, `refresh_token`, `scope`, `token_type`
/// and an unsigned integer `expires_in` (other members ignored), or an array of
/// exactly those five values in that order.
pub open spec fn response_fields(v: JsonValue) -> Option<
    (Seq<char>, Seq<char>, u64, Seq<char>, Seq<char>),
> {
    match v {
        JsonValue::Object(e) => {
            match (
                entries_get(e@, "access_token"@),
                entries_get(e@, "refresh_token"@),
                entries_get(e@, "expires_in"@),
                entries_get(e@, "scope"@),
                entries_get(e@, "token_type"@),
            ) {
                (
                    Some(JsonValue::Str(a)),
                    Some(JsonValue::Str(r)),
                    Some(JsonValue::Number(JsonNumber::PosInt(x))),
                    Some(JsonValue::Str(s)),
                    Some(JsonValue::Str(t)),
                ) => Some((a@, r@, x, s@, t@)),
                _ => None,
            }
        },
        JsonValue::Array(items) => {
            if items@.len() == 5 {
                match (items@[0], items@[1], items@[2], items@[3], items@[4]) {
                    (
                        JsonValue::Str(a),
                        JsonValue::Str(r),
                        JsonValue::Number(JsonNumber::PosInt(x)),
                        JsonValue::Str(s),
                        JsonValue::Str(t),
                    ) => Some((a@, r@, x, s@, t@)),
                    _ => None,
                }
            } else {
                None
            }
        },
        _ => None,
    }
}

/// `now + expires_in` with two's-complement wrap-around into `i64`.
pub open spec fn expiry_from(now: i64, expires_in: u64) -> i64 {
    let s = now + expires_in;
    if s > i64::MAX {
        (s - 18446744073709551616int) as i64
    } else {
        s as i64
    }
}

/// The stored token that a token response gives at time `now`.
pub open spec fn spec_token_from_response(v: JsonValue, now: i64) -> Option<TokenView> {
    match response_fields(v) {
        Some((a, r, x, s, t)) => Some(
            TokenView {
                access_token: a,
                refresh_token: r,
                expires_at: expiry_from(now, x),
                scope: s,
                token_type: t,
            },
        ),
        None => None,
    }
}

fn str_field(v: &JsonValue) -> (r: Option<String>)
    ensures
        match r {
            Some(s) => v is Str && s@ == v->Str_0@,
            None => !(v is Str),
        },
{
    match v {
        JsonValue::Str(s) => Some(s.clone()),
        _ => None,
    }
}

fn u64_field(v: &JsonValue) -> (r: Option<u64>)
    ensures
        match r {
            Some(x) => *v == JsonValue::Number(JsonNumber::PosInt(x)),
            None => !(v matches JsonValue::Number(JsonNumber::PosInt(_))),
        },
{
    match v {
        JsonValue::Number(JsonNumber::PosInt(x)) => Some(*x),
        _ => None,
    }
}

fn opt_str_field(v: Option<&JsonValue>) -> (r: Option<String>)
    ensures
        match r {
            Some(s) => v.is_some() && v.unwrap() is Str && s@ == v.unwrap()->Str_0@,
            None => v.is_none() || !(v.unwrap() is Str),
        },
{
    match v {
        Some(x) => str_field(x),
        None => None,
    }
}

fn opt_u64_field(v: Option<&JsonValue>) -> (r: Option<u64>)
    ensures
        match r {
            Some(x) => v.is_some() && *v.unwrap() == JsonValue::Number(JsonNumber::PosInt(x)),
            None => v.is_none() || !(v.unwrap() matches JsonValue::Number(JsonNumber::PosInt(_))),
        },
{
    match v {
        Some(x) => u64_field(x),
        None => None,
    }
}

fn wrapping_expiry(now: i64, expires_in: u64) -> (r: i64)
    ensures
        r == expiry_from(now, expires_in),
{
    let s: i128 = (now as i128) + (expires_in as i128);
    if s > 9223372036854775807i128 {
        (s - 18446744073709551616i128) as i64
    } else {
        s as i64
    }
}

/// The stored token that a token response gives at time `now`.
pub fn token_from_response(payload: &JsonValue, now: i64) -> (r: Result<StoredToken, String>)
    ensures
        match r {
            Ok(t) => spec_token_from_response(*payload, now) == Some(t@),
            Err(e) => spec_token_from_response(*payload, now).is_none() && e@
                == "Missing token fields in response"@,
        },
{
    let fields: Option<(String, String, u64, String, String)> = match payload {
        JsonValue::Object(_) => {
            let a = opt_str_field(get(payload, "access_token"));
            let r = opt_str_field(get(payload, "refresh_token"));
            let x = opt_u64_field(get(payload, "expires_in"));
            let s = opt_str_field(get(payload, "scope"));
            let t = opt_str_field(get(payload, "token_type"));
            match (a, r, x, s, t) {
                (Some(a), Some(r), Some(x), Some(s), Some(t)) => Some((a, r, x, s, t)),
                _ => None,
            }
        },
        JsonValue::Array(items) => {
            if items.len() == 5 {
                let a = str_field(&items[0]);
                let r = str_field(&items[1]);
                let x = u64_field(&items[2]);
                let s = str_field(&items[3]);
                let t = str_field(&items[4]);
                match (a, r, x, s, t) {
                    (Some(a), Some(r), Some(x), Some(s), Some(t)) => Some((a, r, x, s, t)),
                    _ => None,
                }
            } else {
                None
            }
        },
        _ => None,
    };
    match fields {
        Some((a, r, x, s, t)) => {
            let expires_at = wrapping_expiry(now, x);
            Ok(
                StoredToken {
                    access_token: a,
                    refresh_token: r,
                    expires_at,
                    scope: s,
                    token_type: t,
                },
            )
        },
        None => Err(to_owned_string("Missing token fields in response")),
    }
}

/// Reads a token endpoint response into the token to store, dating its expiry
/// from the system clock.
pub fn parse_token_response(payload: &JsonValue) -> (r: Result<StoredToken, String>)
    ensures
        r is Ok <==> response_fields(*payload).is_some(),
        r matches Ok(t) ==> exists|now: i64| spec_token_from_response(*payload, now) == Some(t@),
        r matches Err(e) ==> e@ == "Missing token fields in response"@,
{
    let now = now_unix();
    token_from_response(payload, now)
}

// ---------------------------------------------------------------------------
// Laws
// ---------------------------------------------------------------------------

/// Reading back a token written to the configuration gives the same token,
/// with its access token trimmed; a token whose access token is blank reads
/// back as no token.
pub proof fn lemma_config_roundtrip(t: TokenView)
    ensures
        trim_seq(t.access_token).len() != 0 ==> spec_to_token(spec_from_token(t)) == Some(
            TokenView { access_token: trim_seq(t.access_token), ..t },
        ),
        trim_seq(t.access_token).len() == 0 ==> spec_to_token(spec_from_token(t)).is_none(),
{
}

/// Saving a token and then loading the token from the configuration that was
/// written gives that token back, its access token trimmed.
pub proof fn lemma_save_then_load(saved: LlmUsageConfig, t: TokenView)
    requires
        config_view(saved) == Some(spec_from_token(t)),
        trim_seq(t.access_token).len() != 0,
    ensures
        spec_config_token(Some(config_view(saved))) == Some(
            TokenView { access_token: trim_seq(t.access_token), ..t },
        ),
{
}

/// A token stored with `kimi set-token` is the token that later reads of the
/// configuration give, unchanged.
pub proof fn lemma_set_token_then_load(text: Seq<char>)
    requires
        trim_seq(text).len() != 0,
    ensures
        spec_config_token(Some(Some(spec_from_token(spec_set_token(text))))) == Some(
            spec_set_token(text),
        ),
{
    lemma_trim_idempotent(text);
}

/// After the Kimi token has been cleared from the configuration, no token is
/// read from it; a token was reported removed exactly when one was read
/// before, or the file could not be parsed.
pub proof fn lemma_clear_then_load(
    file: Option<Option<LlmUsageConfig>>,
    action: ConfigClear,
    removed: bool,
)
    requires
        spec_clear_outcome(file, action, removed),
    ensures
        spec_config_token(spec_after_clear(file, action)).is_none(),
        spec_config_token(spec_loaded(file)).is_some() ==> removed,
{
}

/// Once a token must be refreshed it stays so as time passes, and a token
/// that has a refresh token and has expired (or will within five minutes) must
/// be refreshed; one whose expiry is further away than that need not be.
pub proof fn lemma_refresh_as_time_passes(t: TokenView, now: int, later: int)
    requires
        now <= later,
    ensures
        spec_needs_refresh_at(t, now) ==> spec_needs_refresh_at(t, later),
        trim_seq(t.refresh_token).len() != 0 && t.expires_at <= now + 300 ==> spec_needs_refresh_at(
            t,
            now,
        ),
        t.expires_at > 0 && t.expires_at > now + 300 ==> !spec_needs_refresh_at(t, now),
        trim_seq(t.refresh_token).len() == 0 ==> !spec_needs_refresh_at(t, now),
{
}

} // verus!
