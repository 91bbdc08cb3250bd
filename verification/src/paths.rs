//! Where the tool keeps its files.
//!
//! Paths are strings with Unix separators; the directories that the platform
//! reports, and the environment, are handed in by the caller.
use vstd::prelude::*;
use crate::text::{chars_of, push_char, push_str, to_owned_string};

verus! {

pub const TOKEN_FILENAME: &'static str = "token.json";
pub const DEVICE_ID_FILENAME: &'static str = "device_id";
pub const CONFIG_DIR_NAME: &'static str = "llm-usage";
pub const CONFIG_FILENAME: &'static str = "llm-usage.toml";

/// `Path::join` with a relative name: a separator goes between the two unless
/// the directory is empty or already ends with one.
pub open spec fn join_seq(dir: Seq<char>, name: Seq<char>) -> Seq<char> {
    if dir.len() == 0 {
        name
    } else if dir.last() == '/' {
        dir + name
    } else {
        dir + seq!['/'] + name
    }
}

pub fn join(dir: &str, name: &str) -> (r: String)
    ensures
        r@ == join_seq(dir@, name@),
{
    let v = chars_of(dir);
    let mut r = to_owned_string(dir);
    if v.len() == 0 {
        return to_owned_string(name);
    }
    if v[v.len() - 1] != '/' {
        push_char(&mut r, '/');
    }
    push_str(&mut r, name);
    r
}

/// The data directory: the platform's one for the project, else
/// `./.kimi-usage`.
pub open spec fn spec_data_dir(project_dir: Option<Seq<char>>) -> Seq<char> {
    match project_dir {
        Some(d) => d,
        None => join_seq("."@, ".kimi-usage"@),
    }
}

pub fn data_dir(project_dir: Option<&str>) -> (r: String)
    ensures
        r@ == spec_data_dir(match project_dir {
            Some(d) => Some(d@),
            None => None,
        }),
{
    match project_dir {
        Some(d) => to_owned_string(d),
        None => join(".", ".kimi-usage"),
    }
}

/// The token file inside the data directory.
pub fn token_path(data_dir: &str) -> (r: String)
    ensures
        r@ == join_seq(data_dir@, TOKEN_FILENAME@),
{
    join(data_dir, TOKEN_FILENAME)
}

/// The device id file inside the data directory.
pub fn device_id_path(data_dir: &str) -> (r: String)
    ensures
        r@ == join_seq(data_dir@, DEVICE_ID_FILENAME@),
{
    join(data_dir, DEVICE_ID_FILENAME)
}

/// The configuration directory: `llm-usage` under the platform's configuration
/// directory, else under `$HOME/.config`, else under `./.config`.
pub open spec fn spec_config_dir(base: Option<Seq<char>>, home: Option<Seq<char>>) -> Seq<char> {
    let b = match base {
        Some(b) => b,
        None => match home {
            Some(h) => join_seq(h, ".config"@),
            None => join_seq("."@, ".config"@),
        },
    };
    join_seq(b, CONFIG_DIR_NAME@)
}

pub open spec fn opt_view(o: Option<&str>) -> Option<Seq<char>> {
    match o {
        Some(s) => Some(s@),
        None => None,
    }
}

pub fn config_dir(base: Option<&str>, home: Option<&str>) -> (r: String)
    ensures
        r@ == spec_config_dir(opt_view(base), opt_view(home)),
{
    let b = match base {
        Some(b) => to_owned_string(b),
        None => match home {
            Some(h) => join(h, ".config"),
            None => join(".", ".config"),
        },
    };
    join(b.as_str(), CONFIG_DIR_NAME)
}

/// The configuration file, together with the directory that must exist before
/// it is written.
pub fn config_path(base: Option<&str>, home: Option<&str>) -> (r: (String, String))
    ensures
        r.0@ == spec_config_dir(opt_view(base), opt_view(home)),
        r.1@ == join_seq(spec_config_dir(opt_view(base), opt_view(home)), CONFIG_FILENAME@),
{
    let dir = config_dir(base, home);
    let path = join(dir.as_str(), CONFIG_FILENAME);
    (dir, path)
}

/// The configuration file, for reading.
pub fn config_path_no_create(base: Option<&str>, home: Option<&str>) -> (r: String)
    ensures
        r@ == join_seq(spec_config_dir(opt_view(base), opt_view(home)), CONFIG_FILENAME@),
{
    let dir = config_dir(base, home);
    join(dir.as_str(), CONFIG_FILENAME)
}

/// The Codex credentials file: the given path, else `$HOME/.codex/auth.json`
/// with `.` for a missing `$HOME`.
pub open spec fn spec_codex_auth_path(path: Option<Seq<char>>, home: Option<Seq<char>>) -> Seq<
    char,
> {
    match path {
        Some(p) => p,
        None => match home {
            Some(h) => h + "/.codex/auth.json"@,
            None => "./.codex/auth.json"@,
        },
    }
}

pub fn codex_auth_path(path: Option<&str>, home: Option<&str>) -> (r: String)
    ensures
        r@ == spec_codex_auth_path(opt_view(path), opt_view(home)),
{
    match path {
        Some(p) => to_owned_string(p),
        None => {
            let mut r = match home {
                Some(h) => to_owned_string(h),
                None => to_owned_string("."),
            };
            push_str(&mut r, "/.codex/auth.json");
            proof {
                reveal_strlit("/.codex/auth.json");
                reveal_strlit("./.codex/auth.json");
                reveal_strlit(".");
            }
            assert(home.is_none() ==> r@ =~= "./.codex/auth.json"@);
            r
        },
    }
}

} // verus!
