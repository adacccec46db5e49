//! Command-line arguments as plain records, and what they select.
//!
//! The argument parser lives in the surrounding layer and hands these
//! records in; the library decides which workflow each record asks for.

use vstd::prelude::*;

verus! {

/// The whole parsed command line.
#[derive(Debug, Clone, PartialEq, Eq)]
pub struct Cli {
    pub command: Commands,
}

/// The subcommand the user ran.
#[derive(Debug, Clone, PartialEq, Eq)]
pub enum Commands {
    /// Initialize configuration, authentication or both.
    Init(Init),
    /// Create a new repository.
    New(New),
    /// View, edit or clear the configuration.
    Config(Config),
}

/// Arguments of the initialization subcommand.
#[derive(Debug, Clone, Copy, PartialEq, Eq, Structural)]
pub struct Init {
    /// Set up authentication only.
    pub authentication: bool,
    /// Set up profile and preferences only.
    pub metadata: bool,
}

/// Arguments of the repository-creation subcommand.
#[derive(Debug, Clone, PartialEq, Eq)]
pub struct New {
    pub name: String,
    pub description: Option<String>,
    pub private: Option<bool>,
    pub public: Option<bool>,
    pub license: Option<String>,
    pub gitignore: Option<String>,
    pub readme: bool,
}

/// Arguments of the configuration subcommand.
#[derive(Debug, Clone, Copy, PartialEq, Eq, Structural)]
pub struct Config {
    pub view: bool,
    pub edit: bool,
    pub clear: bool,
}

/// Which initialization workflow to run.
#[derive(Debug, Clone, Copy, PartialEq, Eq, Structural)]
pub enum InitMode {
    Full,
    AuthOnly,
    MetaOnly,
}

/// The workflow the initialization flags select: authentication wins
/// over metadata, and without either flag the full workflow runs.
pub open spec fn spec_init_mode(args: Init) -> InitMode {
    if args.authentication {
        InitMode::AuthOnly
    } else if args.metadata {
        InitMode::MetaOnly
    } else {
        InitMode::Full
    }
}

/// Decide which initialization workflow the flags select.
pub fn init_mode(args: &Init) -> (m: InitMode)
    ensures
        m == spec_init_mode(*args),
{
    if args.authentication {
        InitMode::AuthOnly
    } else if args.metadata {
        InitMode::MetaOnly
    } else {
        InitMode::Full
    }
}

/// What the configuration subcommand does.
#[derive(Debug, Clone, Copy, PartialEq, Eq, Structural)]
pub enum ConfigAction {
    View,
    Edit,
    Clear,
}

/// The action the configuration flags select: view wins, then edit,
/// then clear, and without any flag the configuration is viewed.
pub open spec fn spec_config_action(args: Config) -> ConfigAction {
    if args.view {
        ConfigAction::View
    } else if args.edit {
        ConfigAction::Edit
    } else if args.clear {
        ConfigAction::Clear
    } else {
        ConfigAction::View
    }
}

/// Decide what the configuration subcommand does.
pub fn config_action(args: &Config) -> (a: ConfigAction)
    ensures
        a == spec_config_action(*args),
{
    if args.view {
        ConfigAction::View
    } else if args.edit {
        ConfigAction::Edit
    } else if args.clear {
        ConfigAction::Clear
    } else {
        ConfigAction::View
    }
}

/// The index of the first option equal to `v`, or 0 when none is.
pub open spec fn spec_first_match(options: Seq<Seq<char>>, v: Seq<char>, from: int) -> int
    decreases options.len() - from when 0 <= from <= options.len()
{
    if from >= options.len() {
        0
    } else if options[from] == v {
        from
    } else {
        spec_first_match(options, v, from + 1)
    }
}

/// Where a selection list starts: the index of the current value among
/// the options, the first one when it occurs more than once, and 0
/// when it is absent or not set at all.
pub open spec fn spec_option_index(options: Seq<Seq<char>>, current: Option<Seq<char>>) -> int {
    match current {
        Some(v) => spec_first_match(options, v, 0),
        None => 0,
    }
}

/// Find where a selection list should start for the current value.
pub fn find_option_index(options: &Vec<String>, current: &Option<String>) -> (r: usize)
    ensures
        r == spec_option_index(options.deep_view(), current.deep_view()),
        r <= options@.len(),
{
    let v = match current {
        Some(v) => v,
        None => {
            return 0;
        },
    };
    let n = options.len();
    let mut i: usize = 0;
    while i < n
        invariant
            current.deep_view() == Some(v@),
            n == options@.len(),
            0 <= i <= n,
            options.deep_view().len() == n,
            forall|j: int| 0 <= j < i ==> options.deep_view()[j] != v@,
            spec_first_match(options.deep_view(), v@, 0) == spec_first_match(
                options.deep_view(),
                v@,
                i as int,
            ),
        decreases n - i,
    {
        if options[i] == *v {
            proof {
                assert(options.deep_view()[i as int] == options@[i as int]@);
                assert(spec_first_match(options.deep_view(), v@, i as int) == i);
            }
            return i;
        }
        proof {
            assert(options.deep_view()[i as int] == options@[i as int]@);
        }
        i = i + 1;
    }
    0
}

} // verus!
