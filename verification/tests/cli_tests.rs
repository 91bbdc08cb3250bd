use llm_usage::cli::{
    api_key, chatgpt_credentials, chatgpt_usage_url, codex_token_available,
    is_kimi_missing_token_error, kimi_failure_report, kimi_token_source, kimi_usage_status,
    kimi_usages_url, needs_codex_auth_file, openai_costs_url, output_plan, run, run_kimi_command,
    should_query_kimi, stored_kimi_token, usage_failure_result, Action, ApiCostsArgs,
    ChatgptLimitsArgs, CodexAuthFile, CodexAuthTokens, Command, KimiCommand, KimiSetTokenArgs,
    KimiUsageArgs, OutputMode, TokenSource, JSON_USAGE_ONLY_MESSAGE, KIMI_TOKEN_MISSING_MESSAGE,
    codex_report, default_command_report, kimi_report, SectionOutcome,
};
use llm_usage::tokens::{KimiTokenConfig, LlmUsageConfig};

#[test]
fn default_command_is_all() {
    match run(None, Some("t".to_string()), true, false) {
        Ok(Action::All { kimi_token, json, debug }) => {
            assert_eq!(kimi_token, Some("t".to_string()));
            assert!(json);
            assert!(!debug);
        }
        other => panic!("unexpected {:?}", other),
    }
}

#[test]
fn kimi_usage_takes_the_global_token() {
    match run(Some(Command::Kimi(None)), Some("g".to_string()), false, false) {
        Ok(Action::KimiUsage { args, include_header, json }) => {
            assert_eq!(args.token, Some("g".to_string()));
            assert!(!args.raw);
            assert!(include_header);
            assert!(!json);
        }
        other => panic!("unexpected {:?}", other),
    }
    let own = KimiCommand::Usage(KimiUsageArgs { raw: true, token: Some("own".to_string()) });
    match run_kimi_command(own, Some("g".to_string()), false) {
        Ok(Action::KimiUsage { args, .. }) => {
            assert_eq!(args.token, Some("own".to_string()));
            assert!(args.raw);
        }
        other => panic!("unexpected {:?}", other),
    }
}

#[test]
fn json_only_goes_with_usage() {
    for c in [
        KimiCommand::Login,
        KimiCommand::Logout,
        KimiCommand::SetToken(KimiSetTokenArgs { token: "x".to_string() }),
    ] {
        assert_eq!(run_kimi_command(c, None, true).unwrap_err(), JSON_USAGE_ONLY_MESSAGE);
    }
    assert!(matches!(run_kimi_command(KimiCommand::Login, None, false), Ok(Action::KimiLogin)));
    assert!(matches!(run_kimi_command(KimiCommand::Logout, None, false), Ok(Action::KimiLogout)));
    match run_kimi_command(KimiCommand::SetToken(KimiSetTokenArgs { token: "x".to_string() }), None, false) {
        Ok(Action::KimiSetToken(a)) => assert_eq!(a.token, "x"),
        other => panic!("unexpected {:?}", other),
    }
}

#[test]
fn codex_and_costs_commands() {
    match run(Some(Command::Codex(ChatgptLimitsArgs::default_args())), None, true, false) {
        Ok(Action::Codex { args, include_header, json }) => {
            assert_eq!(args.base_url, "https://chatgpt.com/backend-api");
            assert!(args.access_token.is_none());
            assert!(include_header);
            assert!(json);
        }
        other => panic!("unexpected {:?}", other),
    }
    let costs = ApiCostsArgs {
        api_key: None,
        org: None,
        project: None,
        base_url: "https://api.openai.com".to_string(),
        start: None,
        end: None,
        raw: true,
    };
    match run(Some(Command::ApiCosts(costs)), None, false, true) {
        Ok(Action::ApiCosts { args, json }) => {
            assert!(args.raw);
            assert!(!json);
        }
        other => panic!("unexpected {:?}", other),
    }
}

#[test]
fn output_modes() {
    assert_eq!(output_plan(true, true, true).unwrap_err(), "`--json` cannot be combined with `--raw`.");
    assert_eq!(output_plan(false, true, false).unwrap(), (true, OutputMode::Summary));
    assert_eq!(output_plan(false, false, false).unwrap(), (false, OutputMode::Summary));
    assert_eq!(output_plan(true, true, false).unwrap(), (false, OutputMode::Raw));
    assert_eq!(output_plan(false, true, true).unwrap(), (false, OutputMode::Json));
}

#[test]
fn missing_token_errors() {
    assert!(is_kimi_missing_token_error(KIMI_TOKEN_MISSING_MESSAGE));
    assert!(is_kimi_missing_token_error("error: No token found. Run `llm-usage kimi login` first."));
    assert!(!is_kimi_missing_token_error("Usage request failed with status 500"));
}

#[test]
fn kimi_section_runs_with_a_token() {
    assert!(should_query_kimi(Some(""), false));
    assert!(should_query_kimi(None, true));
    assert!(!should_query_kimi(None, false));
}

#[test]
fn kimi_failures_in_the_default_command() {
    assert_eq!(kimi_failure_report(KIMI_TOKEN_MISSING_MESSAGE, false, false), (None, false));
    let (m, failed) = kimi_failure_report(KIMI_TOKEN_MISSING_MESSAGE, true, false);
    assert_eq!(m.unwrap(), format!("Kimi usage unavailable: {}", KIMI_TOKEN_MISSING_MESSAGE));
    assert!(!failed);
    let (m, failed) = kimi_failure_report(KIMI_TOKEN_MISSING_MESSAGE, true, true);
    assert_eq!(m.unwrap(), format!("kimi: {}", KIMI_TOKEN_MISSING_MESSAGE));
    assert!(!failed);
    let (m, failed) = kimi_failure_report("boom", false, false);
    assert_eq!(m.unwrap(), "Kimi usage error: boom");
    assert!(failed);
    let (m, failed) = kimi_failure_report("boom", false, true);
    assert_eq!(m.unwrap(), "kimi: boom");
    assert!(failed);
}

#[test]
fn default_command_result() {
    assert_eq!(usage_failure_result(&vec![]), Ok(()));
    assert_eq!(
        usage_failure_result(&vec!["kimi".to_string(), "codex".to_string()]),
        Err("usage retrieval failed for: kimi, codex".to_string())
    );
    assert_eq!(
        usage_failure_result(&vec!["codex".to_string()]),
        Err("usage retrieval failed for: codex".to_string())
    );
}

#[test]
fn kimi_token_sources() {
    assert_eq!(kimi_token_source(Some("  ")).unwrap_err(), "`--token` cannot be empty.");
    assert!(matches!(kimi_token_source(Some(" t ")), Ok(TokenSource::Given(ref g)) if g == "t"));
    assert!(matches!(kimi_token_source(None), Ok(TokenSource::Stored)));
}

#[test]
fn stored_tokens() {
    assert_eq!(stored_kimi_token(None).unwrap_err(), KIMI_TOKEN_MISSING_MESSAGE);
    let c = LlmUsageConfig {
        kimi: Some(KimiTokenConfig {
            access_token: Some(" a ".to_string()),
            refresh_token: None,
            expires_at: Some(3),
            scope: None,
            token_type: None,
        }),
    };
    let t = stored_kimi_token(Some(&c)).unwrap();
    assert_eq!(t.access_token, "a");
    assert_eq!(t.expires_at, 3);
}

#[test]
fn kimi_requests() {
    assert_eq!(kimi_usages_url(None), "https://api.kimi.com/coding/v1/usages");
    assert_eq!(kimi_usages_url(Some("http://x/")), "http://x/usages");
    assert_eq!(kimi_usage_status(200, "200 OK"), Ok(()));
    assert_eq!(
        kimi_usage_status(401, "401 Unauthorized"),
        Err("Authorization failed. Run `llm-usage kimi login` again.".to_string())
    );
    assert_eq!(
        kimi_usage_status(500, "500 Internal Server Error"),
        Err("Usage request failed with status 500 Internal Server Error".to_string())
    );
}

#[test]
fn codex_credentials() {
    assert!(codex_token_available(Some(" t "), None, None));
    assert!(!codex_token_available(Some("  "), Some(""), None));
    assert!(codex_token_available(None, None, Some("f")));
    assert!(!codex_token_available(None, None, None));
    assert!(needs_codex_auth_file(None, Some("a")));
    assert!(!needs_codex_auth_file(Some("t"), Some("a")));
    let file = CodexAuthFile {
        tokens: Some(CodexAuthTokens {
            access_token: Some("file-token".to_string()),
            account_id: Some("file-acct".to_string()),
        }),
    };
    assert_eq!(
        chatgpt_credentials(None, Some("env".to_string()), None, None, Some(&file)),
        Ok(("env".to_string(), Some("file-acct".to_string())))
    );
    assert_eq!(
        chatgpt_credentials(Some("given".to_string()), Some("env".to_string()), None, Some("a".to_string()), None),
        Ok(("given".to_string(), Some("a".to_string())))
    );
    assert_eq!(
        chatgpt_credentials(None, None, None, None, None),
        Err("missing ChatGPT access token (set --access-token, CHATGPT_ACCESS_TOKEN, or ~/.codex/auth.json)".to_string())
    );
}

#[test]
fn openai_requests() {
    assert_eq!(api_key(Some("k".to_string()), Some("e".to_string())), Ok("k".to_string()));
    assert_eq!(api_key(None, Some("e".to_string())), Ok("e".to_string()));
    assert_eq!(
        api_key(None, None),
        Err("missing API key (set --api-key or OPENAI_API_KEY)".to_string())
    );
    assert_eq!(chatgpt_usage_url("https://chatgpt.com/backend-api/"), "https://chatgpt.com/backend-api/wham/usage");
    assert_eq!(openai_costs_url("https://api.openai.com"), "https://api.openai.com/v1/organization/costs");
}

#[test]
fn kimi_section_without_a_token() {
    use_kimi(SectionOutcome::Skipped, true, false, Some(format!("Kimi usage unavailable: {}", KIMI_TOKEN_MISSING_MESSAGE)), false);
    use_kimi(SectionOutcome::Skipped, true, true, Some(format!("kimi: {}", KIMI_TOKEN_MISSING_MESSAGE)), false);
    use_kimi(SectionOutcome::Skipped, false, false, None, false);
    use_kimi(SectionOutcome::Succeeded, true, false, None, false);
    use_kimi(SectionOutcome::Failed("boom".to_string()), false, false, Some("Kimi usage error: boom".to_string()), true);
    use_kimi(SectionOutcome::Failed(KIMI_TOKEN_MISSING_MESSAGE.to_string()), false, false, None, false);
}

fn use_kimi(o: SectionOutcome, debug: bool, json: bool, message: Option<String>, failed: bool) {
    assert_eq!(kimi_report(&o, debug, json), (message, failed));
}

#[test]
fn codex_section_reports() {
    assert_eq!(codex_report(&SectionOutcome::Skipped, false), (None, false));
    assert_eq!(codex_report(&SectionOutcome::Succeeded, true), (None, false));
    assert_eq!(
        codex_report(&SectionOutcome::Failed("x".to_string()), false),
        (Some("Codex usage error: x".to_string()), true)
    );
    assert_eq!(
        codex_report(&SectionOutcome::Failed("x".to_string()), true),
        (Some("codex: x".to_string()), true)
    );
}

#[test]
fn default_command_reports() {
    let (messages, result) =
        default_command_report(&SectionOutcome::Skipped, &SectionOutcome::Succeeded, true, false);
    assert_eq!(messages, vec![format!("Kimi usage unavailable: {}", KIMI_TOKEN_MISSING_MESSAGE)]);
    assert_eq!(result, Ok(()));
    let (messages, result) = default_command_report(
        &SectionOutcome::Failed("k".to_string()),
        &SectionOutcome::Failed("c".to_string()),
        false,
        true,
    );
    assert_eq!(messages, vec!["kimi: k".to_string(), "codex: c".to_string()]);
    assert_eq!(result, Err("usage retrieval failed for: kimi, codex".to_string()));
    let (messages, result) =
        default_command_report(&SectionOutcome::Succeeded, &SectionOutcome::Failed("c".to_string()), false, false);
    assert_eq!(messages, vec!["Codex usage error: c".to_string()]);
    assert_eq!(result, Err("usage retrieval failed for: codex".to_string()));
    let (messages, result) =
        default_command_report(&SectionOutcome::Skipped, &SectionOutcome::Skipped, false, false);
    assert!(messages.is_empty());
    assert_eq!(result, Ok(()));
}

#[test]
fn reply_statuses() {
    assert_eq!(llm_usage::cli::chatgpt_usage_status(200, "200 OK", "{}"), Ok(()));
    assert_eq!(
        llm_usage::cli::chatgpt_usage_status(403, "403 Forbidden", "nope"),
        Err("ChatGPT usage error (403 Forbidden): nope".to_string())
    );
    assert_eq!(llm_usage::cli::openai_costs_status(204, "204 No Content", ""), Ok(()));
    assert_eq!(
        llm_usage::cli::openai_costs_status(500, "500 Internal Server Error", "x"),
        Err("OpenAI API error (500 Internal Server Error): x".to_string())
    );
}
