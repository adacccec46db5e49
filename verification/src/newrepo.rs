//! Repository creation: how flags and configuration defaults combine.
//!
//! The API call itself is plain I/O and lives in the surrounding layer;
//! the library decides what to ask for.

use vstd::prelude::*;

use crate::cli::New;
use crate::config::Config;

verus! {

/// The repository-creation workflow's settings: the loaded
/// configuration and the subcommand's arguments.
#[derive(Debug, Clone, PartialEq, Eq)]
pub struct NewHandler {
    pub config: Config,
    pub args: New,
}

/// Is `s` the word `none`, in any letter case?  A license or gitignore
/// argument spelled so selects no template at all.
pub open spec fn spec_is_none_keyword(s: Seq<char>) -> bool {
    &&& s.len() == 4
    &&& (s[0] == 'n' || s[0] == 'N')
    &&& (s[1] == 'o' || s[1] == 'O')
    &&& (s[2] == 'n' || s[2] == 'N')
    &&& (s[3] == 'e' || s[3] == 'E')
}

/// Decide whether `s` is the word `none`, in any letter case.
pub fn is_none_keyword(s: &str) -> (r: bool)
    ensures
        r == spec_is_none_keyword(s@),
{
    let n = s.unicode_len();
    if n != 4 {
        return false;
    }
    let c0 = s.get_char(0);
    let c1 = s.get_char(1);
    let c2 = s.get_char(2);
    let c3 = s.get_char(3);
    (c0 == 'n' || c0 == 'N') && (c1 == 'o' || c1 == 'O') && (c2 == 'n' || c2 == 'N') && (c3 == 'e'
        || c3 == 'E')
}

/// Whether the new repository is private: an explicit `--public` wins,
/// then an explicit `--private`, then the configured default.
pub open spec fn spec_privacy(args: New, config: Config) -> bool {
    if args.public == Some(true) {
        false
    } else if args.private == Some(true) {
        true
    } else {
        config.default_private
    }
}

/// The license to request: the argument overrides the configured
/// default, and the `none` keyword selects no license.
pub open spec fn spec_license_choice(args: New, config: Config) -> Option<String> {
    match args.license {
        Some(license) => if spec_is_none_keyword(license@) {
            None
        } else {
            Some(license)
        },
        None => config.default_license,
    }
}

/// The gitignore template to request: the argument overrides the
/// configured default, and the `none` keyword selects no template.
pub open spec fn spec_gitignore_choice(args: New, config: Config) -> Option<String> {
    match args.gitignore {
        Some(gitignore) => if spec_is_none_keyword(gitignore@) {
            None
        } else {
            Some(gitignore)
        },
        None => config.default_gitignore,
    }
}

impl NewHandler {
    /// Pair the loaded configuration with the subcommand's arguments.
    pub fn new(config: Config, args: New) -> (h: NewHandler)
        ensures
            h.config == config,
            h.args == args,
    {
        NewHandler { config, args }
    }

    /// Decide whether the repository should be private.
    pub fn determine_privacy(&self) -> (r: bool)
        ensures
            r == spec_privacy(self.args, self.config),
    {
        match self.args.public {
            Some(true) => {
                return false;
            },
            _ => {
            },
        }
        match self.args.private {
            Some(true) => {
                return true;
            },
            _ => {
            },
        }
        self.config.default_private
    }

    /// Decide which license to request.
    pub fn determine_license(&self) -> (r: Option<String>)
        ensures
            r == spec_license_choice(self.args, self.config),
    {
        match &self.args.license {
            Some(license) => {
                if is_none_keyword(license.as_str()) {
                    None
                } else {
                    Some(license.clone())
                }
            },
            None => {
                match &self.config.default_license {
                    Some(license) => Some(license.clone()),
                    None => None,
                }
            },
        }
    }

    /// Decide which gitignore template to request.
    pub fn determine_gitignore(&self) -> (r: Option<String>)
        ensures
            r == spec_gitignore_choice(self.args, self.config),
    {
        match &self.args.gitignore {
            Some(gitignore) => {
                if is_none_keyword(gitignore.as_str()) {
                    None
                } else {
                    Some(gitignore.clone())
                }
            },
            None => {
                match &self.config.default_gitignore {
                    Some(gitignore) => Some(gitignore.clone()),
                    None => None,
                }
            },
        }
    }
}

} // verus!
