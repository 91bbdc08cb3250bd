//! The commands and the decisions around each request: which command runs,
//! which output it gives, where credentials come from, how replies and
//! failures are reported.
use vstd::prelude::*;
use crate::text::{trim, trim_seq, contains, seq_contains, push_str, to_owned_string};
use crate::auth::{endpoint, spec_endpoint};
use crate::tokens::{StoredToken, LlmUsageConfig, load_kimi_token_from_config, spec_to_token, token_opt_view};

verus! {

pub const DEFAULT_KIMI_BASE_URL: &'static str = "https://api.kimi.com/coding/v1";
pub const DEFAULT_OPENAI_BASE_URL: &'static str = "https://api.openai.com";
pub const DEFAULT_CHATGPT_BASE_URL: &'static str = "https://chatgpt.com/backend-api";
pub const KIMI_TOKEN_MISSING_MESSAGE: &'static str =
    "No token found. Run `llm-usage kimi login` first.";
pub const JSON_WITH_RAW_MESSAGE: &'static str = "`--json` cannot be combined with `--raw`.";
pub const JSON_USAGE_ONLY_MESSAGE: &'static str = "`--json` is only supported for usage commands.";

// ---------------------------------------------------------------------------
// Commands
// ---------------------------------------------------------------------------

#[derive(Debug)]
pub struct KimiUsageArgs {
    pub raw: bool,
    pub token: Option<String>,
}

#[derive(Debug)]
pub struct KimiSetTokenArgs {
    pub token: String,
}

#[derive(Debug)]
pub struct ApiCostsArgs {
    pub api_key: Option<String>,
    pub org: Option<String>,
    pub project: Option<String>,
    pub base_url: String,
    pub start: Option<String>,
    pub end: Option<String>,
    pub raw: bool,
}

#[derive(Debug)]
pub struct ChatgptLimitsArgs {
    pub access_token: Option<String>,
    pub account_id: Option<String>,
    pub auth_file: Option<String>,
    pub base_url: String,
    pub raw: bool,
}

impl ChatgptLimitsArgs {
    /// The arguments of the Codex section of the default command.
    pub fn default_args() -> (r: ChatgptLimitsArgs)
        ensures
            r.access_token.is_none(),
            r.account_id.is_none(),
            r.auth_file.is_none(),
            r.base_url@ == DEFAULT_CHATGPT_BASE_URL@,
            !r.raw,
    {
        ChatgptLimitsArgs {
            access_token: None,
            account_id: None,
            auth_file: None,
            base_url: to_owned_string(DEFAULT_CHATGPT_BASE_URL),
            raw: false,
        }
    }
}

#[derive(Debug)]
pub enum KimiCommand {
    Login,
    Usage(KimiUsageArgs),
    SetToken(KimiSetTokenArgs),
    Logout,
}

#[derive(Debug)]
pub enum Command {
    All,
    Kimi(Option<KimiCommand>),
    Codex(ChatgptLimitsArgs),
    ApiCosts(ApiCostsArgs),
}

/// What to run.
#[derive(Debug)]
pub enum Action {
    /// Kimi and Codex usage together.
    All { kimi_token: Option<String>, json: bool, debug: bool },
    KimiLogin,
    /// Kimi usage, with a header line when `include_header`.
    KimiUsage { args: KimiUsageArgs, include_header: bool, json: bool },
    KimiSetToken(KimiSetTokenArgs),
    KimiLogout,
    /// Codex limits, with a header line when `include_header`.
    Codex { args: ChatgptLimitsArgs, include_header: bool, json: bool },
    ApiCosts { args: ApiCostsArgs, json: bool },
}

pub open spec fn opt_seq(o: Option<String>) -> Option<Seq<char>> {
    match o {
        Some(s) => Some(s@),
        None => None,
    }
}

/// The action of a Kimi subcommand: `--json` only goes with usage; usage takes
/// the global token when it was given none of its own.
pub open spec fn kimi_action_ok(command: KimiCommand, global_token: Option<String>, json: bool, r: Result<Action, String>) -> bool {
    match command {
        KimiCommand::Usage(args) => match r {
            Ok(Action::KimiUsage { args: a, include_header, json: j }) => a.raw == args.raw
                && opt_seq(a.token) == (if args.token.is_some() {
                opt_seq(args.token)
            } else {
                opt_seq(global_token)
            }) && include_header && j == json,
            _ => false,
        },
        KimiCommand::Login => if json {
            r matches Err(e) && e@ == JSON_USAGE_ONLY_MESSAGE@
        } else {
            r matches Ok(Action::KimiLogin)
        },
        KimiCommand::Logout => if json {
            r matches Err(e) && e@ == JSON_USAGE_ONLY_MESSAGE@
        } else {
            r matches Ok(Action::KimiLogout)
        },
        KimiCommand::SetToken(args) => if json {
            r matches Err(e) && e@ == JSON_USAGE_ONLY_MESSAGE@
        } else {
            r matches Ok(Action::KimiSetToken(a)) && a.token@ == args.token@
        },
    }
}

pub fn run_kimi_command(command: KimiCommand, global_token: Option<String>, json: bool) -> (r:
    Result<Action, String>)
    ensures
        kimi_action_ok(command, global_token, json, r),
{
    if json {
        match &command {
            KimiCommand::Login | KimiCommand::Logout | KimiCommand::SetToken(_) => {
                return Err(to_owned_string(JSON_USAGE_ONLY_MESSAGE));
            },
            KimiCommand::Usage(_) => {},
        }
    }
    match command {
        KimiCommand::Login => Ok(Action::KimiLogin),
        KimiCommand::Usage(mut args) => {
            if args.token.is_none() {
                args.token = global_token;
            }
            Ok(Action::KimiUsage { args, include_header: true, json })
        },
        KimiCommand::SetToken(args) => Ok(Action::KimiSetToken(args)),
        KimiCommand::Logout => Ok(Action::KimiLogout),
    }
}

/// The action of the command line: the default command shows everything; a
/// bare `kimi` shows Kimi usage; `codex` shows Codex limits with a header.
pub fn run(command: Option<Command>, kimi_token: Option<String>, json: bool, debug: bool) -> (r:
    Result<Action, String>)
    ensures
        (command.is_none() || (command matches Some(Command::All))) ==> (r matches Ok(
            Action::All { kimi_token: t, json: j, debug: d },
        ) && opt_seq(t) == opt_seq(kimi_token) && j == json && d == debug),
        (command matches Some(Command::Kimi(None))) ==> (r matches Ok(
            Action::KimiUsage { args, include_header, json: j },
        ) && !args.raw && opt_seq(args.token) == opt_seq(kimi_token) && include_header && j
            == json),
        forall|k: KimiCommand|
            command == Some(Command::Kimi(Some(k))) ==> kimi_action_ok(k, kimi_token, json, r),
        forall|a: ChatgptLimitsArgs|
            command == Some(Command::Codex(a)) ==> (r matches Ok(
                Action::Codex { args, include_header, json: j },
            ) && args == a && include_header && j == json),
        forall|a: ApiCostsArgs|
            command == Some(Command::ApiCosts(a)) ==> (r matches Ok(Action::ApiCosts { args, json: j })
                && args == a && j == json),
{
    let command = match command {
        Some(c) => c,
        None => Command::All,
    };
    match command {
        Command::All => Ok(Action::All { kimi_token, json, debug }),
        Command::Kimi(sub) => {
            let sub = match sub {
                Some(k) => k,
                None => KimiCommand::Usage(KimiUsageArgs { raw: false, token: None }),
            };
            run_kimi_command(sub, kimi_token, json)
        },
        Command::Codex(args) => Ok(Action::Codex { args, include_header: true, json }),
        Command::ApiCosts(args) => Ok(Action::ApiCosts { args, json }),
    }
}

// ---------------------------------------------------------------------------
// Output
// ---------------------------------------------------------------------------

#[derive(Debug, PartialEq, Eq, Structural, Clone, Copy)]
pub enum OutputMode {
    /// The reply as received.
    Raw,
    /// The summary as JSON.
    Json,
    /// The summary as text.
    Summary,
}

/// How a usage command prints: `--json` and `--raw` exclude each other; the
/// header line goes with the text summary only.
pub fn output_plan(raw: bool, include_header: bool, json: bool) -> (r: Result<(bool, OutputMode), String>)
    ensures
        json && raw <==> r is Err,
        r matches Err(e) ==> e@ == JSON_WITH_RAW_MESSAGE@,
        r matches Ok((header, mode)) ==> header == (include_header && !raw && !json) && mode == (if raw {
            OutputMode::Raw
        } else if json {
            OutputMode::Json
        } else {
            OutputMode::Summary
        }),
{
    if json && raw {
        return Err(to_owned_string(JSON_WITH_RAW_MESSAGE));
    }
    let header = include_header && !raw && !json;
    let mode = if raw {
        OutputMode::Raw
    } else if json {
        OutputMode::Json
    } else {
        OutputMode::Summary
    };
    Ok((header, mode))
}

// ---------------------------------------------------------------------------
// The default command
// ---------------------------------------------------------------------------

/// The error is the one of a missing Kimi token.
pub open spec fn spec_is_missing_token(err: Seq<char>) -> bool {
    seq_contains(err, KIMI_TOKEN_MISSING_MESSAGE@)
}

pub fn is_kimi_missing_token_error(err: &str) -> (r: bool)
    ensures
        r == spec_is_missing_token(err@),
{
    contains(err, KIMI_TOKEN_MISSING_MESSAGE)
}

/// The error given when no Kimi token is stored is recognised as the one of a
/// missing token, so the default command is never failed by it.
pub proof fn lemma_missing_token_recognised()
    ensures
        spec_is_missing_token(KIMI_TOKEN_MISSING_MESSAGE@),
{
    let m = KIMI_TOKEN_MISSING_MESSAGE@;
    let z: int = 0;
    assert(m.subrange(z, z + m.len()) =~= m);
}

/// The Kimi section runs when a token was given or one is configured.
pub fn should_query_kimi(kimi_token: Option<&str>, has_config_token: bool) -> (r: bool)
    ensures
        r == (kimi_token.is_some() || has_config_token),
{
    kimi_token.is_some() || has_config_token
}

/// How a Kimi failure in the default command is reported: the message to
/// show (on standard error, or in the JSON `errors`), and whether the command
/// fails. A missing token is shown only with `--debug` and never fails it.
pub fn kimi_failure_report(err: &str, debug: bool, json: bool) -> (r: (Option<String>, bool))
    ensures
        spec_is_missing_token(err@) ==> !r.1 && (r.0 is Some <==> debug),
        !spec_is_missing_token(err@) ==> r.1 && r.0 is Some,
        r.0 matches Some(m) ==> m@ == (if json {
            "kimi: "@ + err@
        } else if spec_is_missing_token(err@) {
            "Kimi usage unavailable: "@ + err@
        } else {
            "Kimi usage error: "@ + err@
        }),
{
    let missing = is_kimi_missing_token_error(err);
    if missing && !debug {
        return (None, false);
    }
    let mut m = if json {
        to_owned_string("kimi: ")
    } else if missing {
        to_owned_string("Kimi usage unavailable: ")
    } else {
        to_owned_string("Kimi usage error: ")
    };
    push_str(&mut m, err);
    (Some(m), !missing)
}

/// The report of a missing Kimi token in the default command: shown only with
/// `--debug`, as the missing-token error is reported.
pub open spec fn spec_missing_token_report(debug: bool, json: bool) -> Option<Seq<char>> {
    if debug {
        Some(
            if json {
                "kimi: "@ + KIMI_TOKEN_MISSING_MESSAGE@
            } else {
                "Kimi usage unavailable: "@ + KIMI_TOKEN_MISSING_MESSAGE@
            },
        )
    } else {
        None
    }
}

/// `items` joined with `, `.
pub open spec fn join_comma(items: Seq<Seq<char>>) -> Seq<char>
    decreases items.len(),
{
    if items.len() == 0 {
        Seq::empty()
    } else if items.len() == 1 {
        items[0]
    } else {
        join_comma(items.drop_last()) + ", "@ + items.last()
    }
}

pub open spec fn strs_view(v: Seq<String>) -> Seq<Seq<char>> {
    v.map_values(|s: String| s@)
}

/// The default command succeeds when no section failed; otherwise it fails
/// naming the failed sections.
pub fn usage_failure_result(failures: &Vec<String>) -> (r: Result<(), String>)
    ensures
        failures@.len() == 0 <==> r is Ok,
        r matches Err(e) ==> e@ == "usage retrieval failed for: "@ + join_comma(strs_view(failures@)),
{
    if failures.len() == 0 {
        return Ok(());
    }
    let mut e = to_owned_string("usage retrieval failed for: ");
    let ghost head = e@;
    let mut i: usize = 0;
    while i < failures.len()
        invariant
            i <= failures@.len(),
            head == "usage retrieval failed for: "@,
            e@ == head + join_comma(strs_view(failures@.take(i as int))),
        decreases failures@.len() - i,
    {
        assert(strs_view(failures@.take(i + 1)).drop_last() =~= strs_view(failures@.take(i as int)));
        if i > 0 {
            push_str(&mut e, ", ");
        } else {
            assert(strs_view(failures@.take(0)) =~= Seq::<Seq<char>>::empty());
        }
        push_str(&mut e, failures[i].as_str());
        assert(e@ =~= head + join_comma(strs_view(failures@.take(i + 1))));
        i = i + 1;
    }
    assert(failures@.take(failures@.len() as int) =~= failures@);
    Err(e)
}

/// How a section of the default command went.
#[derive(Debug)]
pub enum SectionOutcome {
    /// Not queried: no token was available.
    Skipped,
    Succeeded,
    /// Failed with this error.
    Failed(String),
}

/// The report of the Kimi section, and whether it fails the command: a
/// skipped section reports the missing token with `--debug`; a failure is
/// reported as `kimi_failure_report` does.
pub open spec fn spec_kimi_report(o: SectionOutcome, debug: bool, json: bool) -> (
    Option<Seq<char>>,
    bool,
) {
    match o {
        SectionOutcome::Skipped => (spec_missing_token_report(debug, json), false),
        SectionOutcome::Succeeded => (None, false),
        SectionOutcome::Failed(e) => {
            let missing = spec_is_missing_token(e@);
            (
                if missing && !debug {
                    None
                } else {
                    Some(
                        if json {
                            "kimi: "@ + e@
                        } else if missing {
                            "Kimi usage unavailable: "@ + e@
                        } else {
                            "Kimi usage error: "@ + e@
                        },
                    )
                },
                !missing,
            )
        },
    }
}

/// The report of the Codex section, and whether it fails the command.
pub open spec fn spec_codex_report(o: SectionOutcome, json: bool) -> (Option<Seq<char>>, bool) {
    match o {
        SectionOutcome::Failed(e) => (
            Some(
                if json {
                    "codex: "@ + e@
                } else {
                    "Codex usage error: "@ + e@
                },
            ),
            true,
        ),
        _ => (None, false),
    }
}

pub open spec fn opt_list(a: Option<Seq<char>>) -> Seq<Seq<char>> {
    match a {
        Some(x) => seq![x],
        None => Seq::empty(),
    }
}

/// What the default command reports (Kimi's message, then Codex's) and how it
/// ends: it fails, naming the failed sections, when any section failed.
pub open spec fn spec_default_report(
    kimi: SectionOutcome,
    codex: SectionOutcome,
    debug: bool,
    json: bool,
) -> (Seq<Seq<char>>, Result<(), Seq<char>>) {
    let k = spec_kimi_report(kimi, debug, json);
    let c = spec_codex_report(codex, json);
    let failures = (if k.1 {
        seq!["kimi"@]
    } else {
        Seq::empty()
    }) + (if c.1 {
        seq!["codex"@]
    } else {
        Seq::empty()
    });
    (
        opt_list(k.0) + opt_list(c.0),
        if failures.len() == 0 {
            Ok(())
        } else {
            Err("usage retrieval failed for: "@ + join_comma(failures))
        },
    )
}

/// The Kimi section's report (on standard error, or in the JSON `errors`) and
/// whether it fails the default command.
pub fn kimi_report(outcome: &SectionOutcome, debug: bool, json: bool) -> (r: (Option<String>, bool))
    ensures
        (opt_seq(r.0), r.1) == spec_kimi_report(*outcome, debug, json),
{
    match outcome {
        SectionOutcome::Skipped => {
            proof {
                lemma_missing_token_recognised();
            }
            let (report, failed) = kimi_failure_report(KIMI_TOKEN_MISSING_MESSAGE, debug, json);
            (report, false)
        },
        SectionOutcome::Succeeded => (None, false),
        SectionOutcome::Failed(e) => kimi_failure_report(e.as_str(), debug, json),
    }
}

/// The Codex section's report and whether it fails the default command.
pub fn codex_report(outcome: &SectionOutcome, json: bool) -> (r: (Option<String>, bool))
    ensures
        (opt_seq(r.0), r.1) == spec_codex_report(*outcome, json),
{
    match outcome {
        SectionOutcome::Failed(e) => {
            let mut m = if json {
                to_owned_string("codex: ")
            } else {
                to_owned_string("Codex usage error: ")
            };
            push_str(&mut m, e.as_str());
            (Some(m), true)
        },
        _ => (None, false),
    }
}

fn push_opt(v: &mut Vec<String>, m: Option<String>)
    ensures
        strs_view(final(v)@) == strs_view(old(v)@) + opt_list(opt_seq(m)),
{
    let ghost before = strs_view(v@);
    match m {
        Some(x) => {
            v.push(x);
            assert(strs_view(v@) =~= before + opt_list(opt_seq(Some(x))));
        },
        None => {
            assert(strs_view(v@) =~= before + opt_list(opt_seq(None::<String>)));
        },
    }
}

/// The default command's messages and result, from how its two sections went.
pub fn default_command_report(
    kimi: &SectionOutcome,
    codex: &SectionOutcome,
    debug: bool,
    json: bool,
) -> (r: (Vec<String>, Result<(), String>))
    ensures
        ({
            let expected = spec_default_report(*kimi, *codex, debug, json);
            &&& strs_view(r.0@) == expected.0
            &&& match r.1 {
                Ok(()) => expected.1 == Ok::<(), Seq<char>>(()),
                Err(e) => expected.1 == Err::<(), Seq<char>>(e@),
            }
        }),
{
    let (km, kf) = kimi_report(kimi, debug, json);
    let (cm, cf) = codex_report(codex, json);
    let mut messages: Vec<String> = Vec::new();
    assert(strs_view(messages@) =~= Seq::<Seq<char>>::empty());
    push_opt(&mut messages, km);
    push_opt(&mut messages, cm);
    let mut failures: Vec<String> = Vec::new();
    if kf {
        failures.push(to_owned_string("kimi"));
    }
    if cf {
        failures.push(to_owned_string("codex"));
    }
    let ghost fs = (if kf {
        seq!["kimi"@]
    } else {
        Seq::<Seq<char>>::empty()
    }) + (if cf {
        seq!["codex"@]
    } else {
        Seq::<Seq<char>>::empty()
    });
    assert(strs_view(failures@) =~= fs);
    let result = usage_failure_result(&failures);
    (messages, result)
}

// ---------------------------------------------------------------------------
// Kimi requests// ---------------------------------------------------------------------------
// Kimi requests
// ---------------------------------------------------------------------------

/// Where the Kimi access token comes from.
#[derive(Debug)]
pub enum TokenSource {
    /// Given on the command line (trimmed).
    Given(String),
    /// Read from the configuration, refreshed if need be.
    Stored,
}

pub fn kimi_token_source(token: Option<&str>) -> (r: Result<TokenSource, String>)
    ensures
        token.is_none() ==> (r matches Ok(TokenSource::Stored)),
        forall|t: &str| token == Some(t) ==> (if trim_seq(t@).len() == 0 {
            r matches Err(e) && e@ == "`--token` cannot be empty."@
        } else {
            r matches Ok(TokenSource::Given(g)) && g@ == trim_seq(t@)
        }),
{
    match token {
        Some(t) => {
            let trimmed = trim(t);
            if trimmed.unicode_len() == 0 {
                Err(to_owned_string("`--token` cannot be empty."))
            } else {
                Ok(TokenSource::Given(trimmed))
            }
        },
        None => Ok(TokenSource::Stored),
    }
}

/// The configured Kimi token, or the missing-token error.
pub fn stored_kimi_token(config: Option<&LlmUsageConfig>) -> (r: Result<StoredToken, String>)
    ensures
        match r {
            Ok(t) => token_opt_view(Some(t)) == match config {
                Some(c) => match c.kimi {
                    Some(k) => spec_to_token(k@),
                    None => None,
                },
                None => None,
            },
            Err(e) => e@ == KIMI_TOKEN_MISSING_MESSAGE@ && match config {
                Some(c) => match c.kimi {
                    Some(k) => spec_to_token(k@).is_none(),
                    None => true,
                },
                None => true,
            },
        },
{
    match load_kimi_token_from_config(config) {
        Some(t) => Ok(t),
        None => Err(to_owned_string(KIMI_TOKEN_MISSING_MESSAGE)),
    }
}

/// The Kimi usage endpoint: `KIMI_CODE_BASE_URL` or the default base URL.
pub fn kimi_usages_url(base_url: Option<&str>) -> (r: String)
    ensures
        r@ == spec_endpoint(
            match base_url {
                Some(b) => b@,
                None => DEFAULT_KIMI_BASE_URL@,
            },
            "/usages"@,
        ),
{
    match base_url {
        Some(b) => endpoint(b, "/usages"),
        None => endpoint(DEFAULT_KIMI_BASE_URL, "/usages"),
    }
}

/// How the status of a usage reply is read; `status_text` is the status as
/// shown (code and reason).
pub fn kimi_usage_status(status: u16, status_text: &str) -> (r: Result<(), String>)
    ensures
        (200 <= status <= 299) <==> r is Ok,
        status == 401 ==> (r matches Err(e) && e@
            == "Authorization failed. Run `llm-usage kimi login` again."@),
        status != 401 && !(200 <= status <= 299) ==> (r matches Err(e) && e@
            == "Usage request failed with status "@ + status_text@),
{
    if status == 401 {
        return Err(to_owned_string("Authorization failed. Run `llm-usage kimi login` again."));
    }
    if !(200 <= status && status <= 299) {
        let mut e = to_owned_string("Usage request failed with status ");
        push_str(&mut e, status_text);
        return Err(e);
    }
    Ok(())
}

// ---------------------------------------------------------------------------
// Codex and OpenAI requests
// ---------------------------------------------------------------------------

/// The tokens of a Codex credentials file.
#[derive(Debug)]
pub struct CodexAuthTokens {
    pub access_token: Option<String>,
    pub account_id: Option<String>,
}

#[derive(Debug)]
pub struct CodexAuthFile {
    pub tokens: Option<CodexAuthTokens>,
}

pub open spec fn nonblank(s: Option<Seq<char>>) -> bool {
    s matches Some(t) && trim_seq(t).len() != 0
}

fn nonblank_str(s: Option<&str>) -> (r: bool)
    ensures
        r == nonblank(match s {
            Some(t) => Some(t@),
            None => None,
        }),
{
    match s {
        Some(t) => trim(t).unicode_len() != 0,
        None => false,
    }
}

/// A Codex token is available: given, in `CHATGPT_ACCESS_TOKEN`, or in the
/// credentials file, and not blank.
pub fn codex_token_available(given: Option<&str>, env: Option<&str>, file: Option<&str>) -> (r: bool)
    ensures
        r == (nonblank(
            match given {
                Some(t) => Some(t@),
                None => None,
            },
        ) || nonblank(
            match env {
                Some(t) => Some(t@),
                None => None,
            },
        ) || nonblank(
            match file {
                Some(t) => Some(t@),
                None => None,
            },
        )),
{
    nonblank_str(given) || nonblank_str(env) || nonblank_str(file)
}

/// The credentials file is read only when the token or the account id is
/// still missing.
pub fn needs_codex_auth_file(access_token: Option<&str>, account_id: Option<&str>) -> (r: bool)
    ensures
        r == (access_token.is_none() || account_id.is_none()),
{
    access_token.is_none() || account_id.is_none()
}

pub const MISSING_CHATGPT_TOKEN_MESSAGE: &'static str =
    "missing ChatGPT access token (set --access-token, CHATGPT_ACCESS_TOKEN, or ~/.codex/auth.json)";

fn clone_opt(o: &Option<String>) -> (r: Option<String>)
    ensures
        opt_seq(r) == opt_seq(*o),
{
    match o {
        Some(s) => Some(s.clone()),
        None => None,
    }
}

pub open spec fn or_seq(a: Option<Seq<char>>, b: Option<Seq<char>>) -> Option<Seq<char>> {
    if a.is_some() {
        a
    } else {
        b
    }
}

/// The token and account id of a Codex request: each from the given value,
/// else its variable, else (when either is still missing) the credentials
/// file. No token is an error.
pub open spec fn spec_chatgpt_credentials(
    access: Option<Seq<char>>,
    account: Option<Seq<char>>,
    file_access: Option<Seq<char>>,
    file_account: Option<Seq<char>>,
) -> Result<(Seq<char>, Option<Seq<char>>), Seq<char>> {
    let a = or_seq(access, file_access);
    let b = or_seq(account, file_account);
    match a {
        Some(t) => Ok((t, b)),
        None => Err(MISSING_CHATGPT_TOKEN_MESSAGE@),
    }
}

pub open spec fn file_tokens(f: Option<&CodexAuthFile>) -> (Option<Seq<char>>, Option<Seq<char>>) {
    match f {
        Some(f) => match f.tokens {
            Some(t) => (opt_seq(t.access_token), opt_seq(t.account_id)),
            None => (None, None),
        },
        None => (None, None),
    }
}

pub fn chatgpt_credentials(
    given_access: Option<String>,
    env_access: Option<String>,
    given_account: Option<String>,
    env_account: Option<String>,
    auth_file: Option<&CodexAuthFile>,
) -> (r: Result<(String, Option<String>), String>)
    ensures
        ({
            let access = or_seq(opt_seq(given_access), opt_seq(env_access));
            let account = or_seq(opt_seq(given_account), opt_seq(env_account));
            let (fa, fb) = file_tokens(auth_file);
            let expected = spec_chatgpt_credentials(access, account, fa, fb);
            match r {
                Ok((t, b)) => expected == Ok::<(Seq<char>, Option<Seq<char>>), Seq<char>>((t@, opt_seq(b))),
                Err(e) => expected == Err::<(Seq<char>, Option<Seq<char>>), Seq<char>>(e@),
            }
        }),
{
    let mut access = if given_access.is_some() {
        given_access
    } else {
        env_access
    };
    let mut account = if given_account.is_some() {
        given_account
    } else {
        env_account
    };
    if let Some(f) = auth_file {
        if let Some(t) = &f.tokens {
            if access.is_none() {
                access = clone_opt(&t.access_token);
            }
            if account.is_none() {
                account = clone_opt(&t.account_id);
            }
        }
    }
    match access {
        Some(t) => Ok((t, account)),
        None => Err(to_owned_string(MISSING_CHATGPT_TOKEN_MESSAGE)),
    }
}

/// The API key: given, else `OPENAI_API_KEY`.
pub fn api_key(given: Option<String>, env: Option<String>) -> (r: Result<String, String>)
    ensures
        match r {
            Ok(k) => Some(k@) == or_seq(opt_seq(given), opt_seq(env)),
            Err(e) => given.is_none() && env.is_none() && e@
                == "missing API key (set --api-key or OPENAI_API_KEY)"@,
        },
{
    match given {
        Some(k) => Ok(k),
        None => match env {
            Some(k) => Ok(k),
            None => Err(to_owned_string("missing API key (set --api-key or OPENAI_API_KEY)")),
        },
    }
}

/// How the status of a Codex usage reply is read; `status_text` is the status
/// as shown (code and reason), `body` the reply's text.
pub fn chatgpt_usage_status(status: u16, status_text: &str, body: &str) -> (r: Result<(), String>)
    ensures
        (200 <= status <= 299) <==> r is Ok,
        r matches Err(e) ==> e@ == "ChatGPT usage error ("@ + status_text@ + "): "@ + body@,
{
    if 200 <= status && status <= 299 {
        return Ok(());
    }
    let mut e = to_owned_string("ChatGPT usage error (");
    push_str(&mut e, status_text);
    push_str(&mut e, "): ");
    push_str(&mut e, body);
    Err(e)
}

/// How the status of a costs reply is read; `status_text` is the status as
/// shown (code and reason), `body` the reply's text.
pub fn openai_costs_status(status: u16, status_text: &str, body: &str) -> (r: Result<(), String>)
    ensures
        (200 <= status <= 299) <==> r is Ok,
        r matches Err(e) ==> e@ == "OpenAI API error ("@ + status_text@ + "): "@ + body@,
{
    if 200 <= status && status <= 299 {
        return Ok(());
    }
    let mut e = to_owned_string("OpenAI API error (");
    push_str(&mut e, status_text);
    push_str(&mut e, "): ");
    push_str(&mut e, body);
    Err(e)
}

/// The Codex usage endpoint of a backend base URL.
pub fn chatgpt_usage_url(base_url: &str) -> (r: String)
    ensures
        r@ == spec_endpoint(base_url@, "/wham/usage"@),
{
    endpoint(base_url, "/wham/usage")
}

/// The costs endpoint of an API base URL.
pub fn openai_costs_url(base_url: &str) -> (r: String)
    ensures
        r@ == spec_endpoint(base_url@, "/v1/organization/costs"@),
{
    endpoint(base_url, "/v1/organization/costs")
}

} // verus!
