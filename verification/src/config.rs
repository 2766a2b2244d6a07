//! The configuration bundle: resolved from command-line flags (with their
//! environment-variable defaults) and repository-local configuration, in
//! that precedence, with fixed fallbacks.

use vstd::prelude::*;
use vstd::string::StringExecFns;
use crate::text::{ends_with_seq, str_ends_with};

verus! {

/// The theme used when none is configured.
pub fn default_theme() -> (t: &'static str)
    ensures
        t@ == "base16-ocean.dark"@,
{
    "base16-ocean.dark"
}

/// The maximum number of commits searched when none is configured.
pub const DEFAULT_MAX_COMMITS: usize = 15;

/// Fully configured arguments after loading from the command line, the
/// environment and repository configuration.
pub struct Config {
    /// Change the commit message that you amend, instead of using the
    /// original commit message.
    pub squash: bool,
    /// The maximum number of commits to show when looking for the merge
    /// point.
    pub max_commits: usize,
    /// Specify a commit to amend by the subject line of the commit.
    pub commit_message_pattern: Option<String>,
    /// The branch to not go past when looking for the merge point.
    pub default_upstream_branch: Option<String>,
    /// Require a newline when confirming y/n questions.
    pub require_newline: bool,
    /// User requested info about themes.
    pub help_themes: bool,
    /// Which theme to use.
    pub theme: String,
}

/// The options as the command line (with its environment-variable
/// defaults) supplied them; `None` where a flag was not given.
pub struct ArgValues {
    pub squash: Option<bool>,
    pub max_commits: Option<usize>,
    pub commit_message_pattern: Option<String>,
    pub default_upstream_branch: Option<String>,
    pub require_newline: Option<bool>,
    pub help_themes: bool,
    pub theme: Option<String>,
}

/// The options as repository-local configuration supplies them; `None`
/// where the setting is absent.
pub struct GitConfigValues {
    pub squash: Option<bool>,
    pub max_commits: Option<usize>,
    pub default_upstream_branch: Option<String>,
    pub require_newline: Option<bool>,
    pub theme: Option<String>,
}

/// First the flag, then the setting, then the fixed default.
pub open spec fn pick<T>(arg: Option<T>, setting: Option<T>, fallback: T) -> T {
    if arg is Some {
        arg.unwrap()
    } else if setting is Some {
        setting.unwrap()
    } else {
        fallback
    }
}

/// Resolve the configuration bundle: a flag wins over a repository
/// setting, which wins over the fixed default.
pub fn resolve_config(args: ArgValues, settings: GitConfigValues) -> (c: Config)
    ensures
        c.squash == pick(args.squash, settings.squash, false),
        c.max_commits == pick(args.max_commits, settings.max_commits, DEFAULT_MAX_COMMITS),
        c.commit_message_pattern == args.commit_message_pattern,
        args.default_upstream_branch is Some ==> c.default_upstream_branch
            == args.default_upstream_branch,
        args.default_upstream_branch is None ==> c.default_upstream_branch
            == settings.default_upstream_branch,
        c.require_newline == pick(args.require_newline, settings.require_newline, false),
        c.help_themes == args.help_themes,
        args.theme is Some ==> c.theme == args.theme.unwrap(),
        args.theme is None && settings.theme is Some ==> c.theme == settings.theme.unwrap(),
        args.theme is None && settings.theme is None ==> c.theme@ == "base16-ocean.dark"@,
{
    let squash: bool = match (args.squash, settings.squash) {
        (Some(v), _) => v,
        (None, Some(v)) => v,
        (None, None) => false,
    };
    let max_commits: usize = match (args.max_commits, settings.max_commits) {
        (Some(v), _) => v,
        (None, Some(v)) => v,
        (None, None) => DEFAULT_MAX_COMMITS,
    };
    let default_upstream_branch: Option<String> = match (
        args.default_upstream_branch,
        settings.default_upstream_branch,
    ) {
        (Some(v), _) => Some(v),
        (None, Some(v)) => Some(v),
        (None, None) => None,
    };
    let require_newline: bool = match (args.require_newline, settings.require_newline) {
        (Some(v), _) => v,
        (None, Some(v)) => v,
        (None, None) => false,
    };
    let theme: String = match (args.theme, settings.theme) {
        (Some(v), _) => v,
        (None, Some(v)) => v,
        (None, None) => default_theme().to_owned(),
    };
    Config {
        squash,
        max_commits,
        commit_message_pattern: args.commit_message_pattern,
        default_upstream_branch,
        require_newline,
        help_themes: args.help_themes,
        theme,
    }
}

/// Invoking the tool under a name ending in "squash" turns the squash mode
/// on, as if the flag had been given.
pub fn invoked_as_squash(program_name: &str) -> (r: bool)
    ensures
        r == ends_with_seq(program_name@, "squash"@),
{
    str_ends_with(program_name, "squash")
}

} // verus!
