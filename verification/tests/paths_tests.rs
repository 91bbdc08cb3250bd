use llm_usage::paths::{
    codex_auth_path, config_dir, config_path, config_path_no_create, data_dir, device_id_path,
    join, token_path,
};

#[test]
fn joining_paths() {
    assert_eq!(join("a", "b"), "a/b");
    assert_eq!(join("a/", "b"), "a/b");
    assert_eq!(join("", "b"), "b");
}

#[test]
fn data_files() {
    assert_eq!(data_dir(None), "./.kimi-usage");
    assert_eq!(data_dir(Some("/home/u/.local/share/kimi-usage")), "/home/u/.local/share/kimi-usage");
    assert_eq!(token_path("/d"), "/d/token.json");
    assert_eq!(device_id_path("/d/"), "/d/device_id");
}

#[test]
fn configuration_files() {
    assert_eq!(config_dir(Some("/home/u/.config"), Some("/ignored")), "/home/u/.config/llm-usage");
    assert_eq!(config_dir(None, Some("/h")), "/h/.config/llm-usage");
    assert_eq!(config_dir(None, None), "./.config/llm-usage");
    let (dir, path) = config_path(Some("/c"), None);
    assert_eq!(dir, "/c/llm-usage");
    assert_eq!(path, "/c/llm-usage/llm-usage.toml");
    assert_eq!(config_path_no_create(None, Some("/h")), "/h/.config/llm-usage/llm-usage.toml");
}

#[test]
fn codex_credentials_file() {
    assert_eq!(codex_auth_path(Some("/x/auth.json"), Some("/h")), "/x/auth.json");
    assert_eq!(codex_auth_path(None, Some("/h")), "/h/.codex/auth.json");
    assert_eq!(codex_auth_path(None, None), "./.codex/auth.json");
}
