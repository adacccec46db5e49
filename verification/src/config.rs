//! The persisted configuration: a plain record and its update rules.
//!
//! Loading and saving the record go through the surrounding I/O layer;
//! the library owns the record itself, where its file lives under a
//! home directory, and what each update changes.

use vstd::prelude::*;

verus! {

/// Everything the tool remembers between runs.
#[derive(Debug, Clone, PartialEq, Eq)]
pub struct Config {
    pub github_token: Option<String>,
    pub github_username: Option<String>,
    pub user_name: Option<String>,
    pub user_email: Option<String>,
    pub default_private: bool,
    pub default_license: Option<String>,
    pub default_gitignore: Option<String>,
    pub preferred_editor: Option<String>,
    pub oauth_client_id: Option<String>,
    pub auto_clone: bool,
    pub clone_directory: Option<String>,
}

impl Default for Config {
    /// The configuration before anything was set.
    fn default() -> (c: Config)
        ensures
            c.github_token is None,
            c.github_username is None,
            c.user_name is None,
            c.user_email is None,
            !c.default_private,
            c.default_license is None,
            c.default_gitignore is None,
            c.preferred_editor is None,
            c.oauth_client_id is None,
            !c.auto_clone,
            c.clone_directory is None,
    {
        Config {
            github_token: None,
            github_username: None,
            user_name: None,
            user_email: None,
            default_private: false,
            default_license: None,
            default_gitignore: None,
            preferred_editor: None,
            oauth_client_id: None,
            auto_clone: false,
            clone_directory: None,
        }
    }
}

/// `c` with a new token and everything else unchanged.
pub open spec fn spec_with_token(c: Config, token: String) -> Config {
    Config { github_token: Some(token), ..c }
}

/// `c` with a new profile and everything else unchanged.
pub open spec fn spec_with_profile(
    c: Config,
    username: String,
    name: Option<String>,
    email: Option<String>,
) -> Config {
    Config { github_username: Some(username), user_name: name, user_email: email, ..c }
}

/// `c` with new repository defaults and everything else unchanged.
pub open spec fn spec_with_preferences(
    c: Config,
    default_private: bool,
    license: Option<String>,
    gitignore: Option<String>,
    editor: Option<String>,
) -> Config {
    Config {
        default_private,
        default_license: license,
        default_gitignore: gitignore,
        preferred_editor: editor,
        ..c
    }
}

/// `c` with a new OAuth client ID and everything else unchanged.
pub open spec fn spec_with_oauth_client_id(c: Config, client_id: String) -> Config {
    Config { oauth_client_id: Some(client_id), ..c }
}

/// `c` with new clone settings and everything else unchanged.
pub open spec fn spec_with_clone_settings(
    c: Config,
    auto_clone: bool,
    clone_directory: Option<String>,
) -> Config {
    Config { auto_clone, clone_directory, ..c }
}

impl Config {
    /// The configuration directory under the given home directory.
    pub fn config_dir(home: &str) -> (r: String)
        ensures
            r@ == home@ + "/.config/repogen"@,
    {
        let mut path = home.to_owned();
        path.append("/.config/repogen");
        path
    }

    /// The configuration file under the given home directory.
    pub fn config_file(home: &str) -> (r: String)
        ensures
            r@ == home@ + "/.config/repogen/config.toml"@,
    {
        let mut path = home.to_owned();
        path.append("/.config/repogen/config.toml");
        path
    }

    /// Record a credential.
    pub fn set_github_token(&mut self, token: String)
        ensures
            *final(self) == spec_with_token(*old(self), token),
    {
        self.github_token = Some(token);
    }

    /// Record the user's profile.
    pub fn set_user_profile(&mut self, username: String, name: Option<String>, email: Option<
        String,
    >)
        ensures
            *final(self) == spec_with_profile(*old(self), username, name, email),
    {
        self.github_username = Some(username);
        self.user_name = name;
        self.user_email = email;
    }

    /// Record the repository defaults.
    pub fn set_preferences(
        &mut self,
        default_private: bool,
        license: Option<String>,
        gitignore: Option<String>,
        editor: Option<String>,
    )
        ensures
            *final(self) == spec_with_preferences(
                *old(self),
                default_private,
                license,
                gitignore,
                editor,
            ),
    {
        self.default_private = default_private;
        self.default_license = license;
        self.default_gitignore = gitignore;
        self.preferred_editor = editor;
    }

    /// Record the OAuth application's client ID.
    pub fn set_oauth_client_id(&mut self, client_id: String)
        ensures
            *final(self) == spec_with_oauth_client_id(*old(self), client_id),
    {
        self.oauth_client_id = Some(client_id);
    }

    /// Record the clone settings.
    pub fn set_clone_settings(&mut self, auto_clone: bool, clone_directory: Option<String>)
        ensures
            *final(self) == spec_with_clone_settings(*old(self), auto_clone, clone_directory),
    {
        self.auto_clone = auto_clone;
        self.clone_directory = clone_directory;
    }
}

/// One of the characters a blank answer is made of.
pub open spec fn spec_blank_char(c: char) -> bool {
    c == ' ' || c == '\t' || c == '\n' || c == '\r'
}

/// Is the whole string made of blank characters?
pub open spec fn spec_is_blank(s: Seq<char>) -> bool {
    forall|i: int| 0 <= i < s.len() ==> spec_blank_char(#[trigger] s[i])
}

/// An optional answer from a prompt: a blank answer means the field is
/// unset, and anything else is kept verbatim.
pub fn normalize_blank_to_none(s: String) -> (r: Option<String>)
    ensures
        r matches Some(v) ==> v == s && !spec_is_blank(s@),
        r is None ==> spec_is_blank(s@),
{
    let n = s.as_str().unicode_len();
    let mut i: usize = 0;
    while i < n
        invariant
            n == s@.len(),
            0 <= i <= n,
            forall|j: int| 0 <= j < i ==> spec_blank_char(#[trigger] s@[j]),
        decreases n - i,
    {
        let c = s.as_str().get_char(i);
        if !(c == ' ' || c == '\t' || c == '\n' || c == '\r') {
            return Some(s);
        }
        i = i + 1;
    }
    None
}

/// The first position at or after `from` holding a character that is
/// not blank, or the length when there is none.
pub open spec fn spec_first_nonblank(s: Seq<char>, from: int) -> int
    decreases s.len() - from when 0 <= from <= s.len()
{
    if from >= s.len() {
        s.len() as int
    } else if !spec_blank_char(s[from]) {
        from
    } else {
        spec_first_nonblank(s, from + 1)
    }
}

/// The position just past the last character below `upto` that is not
/// blank, or 0 when there is none.
pub open spec fn spec_end_nonblank(s: Seq<char>, upto: int) -> int
    decreases upto when 0 <= upto <= s.len()
{
    if upto <= 0 {
        0
    } else if !spec_blank_char(s[upto - 1]) {
        upto
    } else {
        spec_end_nonblank(s, upto - 1)
    }
}

/// The string with its blank ends removed.
pub open spec fn spec_trimmed(s: Seq<char>) -> Seq<char> {
    let start = spec_first_nonblank(s, 0);
    let end = spec_end_nonblank(s, s.len() as int);
    if start < end {
        s.subrange(start, end)
    } else {
        Seq::empty()
    }
}

/// Is the character at `i` one of the blank ones?
fn blank_at(s: &str, i: usize) -> (r: bool)
    requires
        i < s@.len(),
    ensures
        r == spec_blank_char(s@[i as int]),
{
    let c = s.get_char(i);
    c == ' ' || c == '\t' || c == '\n' || c == '\r'
}

/// Scanning down for the last character that is not blank never goes
/// below 0 nor past where it started.
proof fn lemma_end_nonblank_le(s: Seq<char>, upto: int)
    requires
        0 <= upto <= s.len(),
    ensures
        0 <= spec_end_nonblank(s, upto) <= upto,
    decreases upto,
{
    if upto > 0 && spec_blank_char(s[upto - 1]) {
        lemma_end_nonblank_le(s, upto - 1);
    }
}

/// Remove the blank ends of a string.
pub fn trimmed(s: &str) -> (r: String)
    ensures
        r@ == spec_trimmed(s@),
{
    let n = s.unicode_len();
    let mut start: usize = 0;
    while start < n && blank_at(s, start)
        invariant
            n == s@.len(),
            0 <= start <= n,
            spec_first_nonblank(s@, 0) == spec_first_nonblank(s@, start as int),
        decreases n - start,
    {
        start = start + 1;
    }
    let mut end: usize = n;
    while end > start && blank_at(s, end - 1)
        invariant
            n == s@.len(),
            start <= end <= n,
            start == n || !spec_blank_char(s@[start as int]),
            spec_end_nonblank(s@, n as int) == spec_end_nonblank(s@, end as int),
            end == start ==> start == n,
        decreases end,
    {
        end = end - 1;
    }
    proof {
        lemma_end_nonblank_le(s@, n as int);
        assert(spec_first_nonblank(s@, 0) == start);
        if end == start {
            assert(s@.subrange(start as int, end as int) =~= Seq::<char>::empty());
        } else {
            assert(spec_end_nonblank(s@, n as int) == end);
        }
    }
    let piece = s.substring_char(start, end);
    piece.to_owned()
}

/// Why a client ID was not accepted.
#[derive(Debug, Clone, Copy, PartialEq, Eq, Structural)]
pub enum ClientIdError {
    /// Nothing but blanks was entered.
    Empty,
    /// The trimmed ID has fewer than ten characters.
    TooShort,
}

/// Prepare an OAuth client ID for storage: blank ends are dropped, and
/// what remains must be at least ten characters long.
pub fn normalize_client_id(s: &str) -> (r: Result<String, ClientIdError>)
    ensures
        r matches Ok(t) ==> t@ == spec_trimmed(s@) && t@.len() >= 10,
        r is Ok <==> spec_trimmed(s@).len() >= 10,
        spec_trimmed(s@).len() == 0 ==> r == Err::<String, ClientIdError>(ClientIdError::Empty),
        0 < spec_trimmed(s@).len() < 10 ==> r == Err::<String, ClientIdError>(
            ClientIdError::TooShort,
        ),
{
    let t = trimmed(s);
    let len = t.as_str().unicode_len();
    if len == 0 {
        Err(ClientIdError::Empty)
    } else if len < 10 {
        Err(ClientIdError::TooShort)
    } else {
        Ok(t)
    }
}

/// A token shortened for display: at most the first eight characters,
/// then three asterisks.
pub open spec fn spec_masked_token(t: Seq<char>) -> Seq<char> {
    (if t.len() <= 8 {
        t
    } else {
        t.subrange(0, 8)
    }) + "***"@
}

/// Shorten a token for display.
pub fn masked_token(token: &str) -> (r: String)
    ensures
        r@ == spec_masked_token(token@),
{
    let n = token.unicode_len();
    let prefix = if n <= 8 {
        token
    } else {
        token.substring_char(0, 8)
    };
    let mut masked = prefix.to_owned();
    masked.append("***");
    masked
}

} // verus!
