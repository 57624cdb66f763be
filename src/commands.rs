//! The decisions of the `alias`, `ls`, `login` and `logout` commands.
use vstd::prelude::*;
use crate::config::{require_config, Config, DefaultConfig, NO_CONFIG_MESSAGE};
use crate::error::ESQError;
use crate::text::{trim, trim_str};

verus! {

/// The subcommands of `alias`.
pub enum AliasCommands {
    List,
    Add { alias: String, index: String, select: Option<String>, query: Option<String> },
    Delete { alias: String },
}

/// The line that announces what an `alias` subcommand is about to do.
pub fn alias_notice(command: &AliasCommands) -> (r: String)
    ensures
        r@ == match command {
            AliasCommands::List => "Listing aliases..."@,
            AliasCommands::Add { alias, index, .. } => "Adding alias '"@ + alias@
                + "' for index '"@ + index@ + "'..."@,
            AliasCommands::Delete { alias } => "Deleting alias '"@ + alias@ + "'..."@,
        },
{
    match command {
        AliasCommands::List => String::from_str("Listing aliases..."),
        AliasCommands::Add { alias, index, .. } => String::from_str("Adding alias '").concat(
            alias.as_str(),
        ).concat("' for index '").concat(index.as_str()).concat("'..."),
        AliasCommands::Delete { alias } => String::from_str("Deleting alias '").concat(
            alias.as_str(),
        ).concat("'..."),
    }
}

/// Runs an `alias` subcommand; none of them exists yet, and each says which.
pub fn handle_alias_command(command: &AliasCommands) -> (r: Result<(), ESQError>)
    ensures
        r matches Err(ESQError::NotYetImplemented(m)) && m@ == match command {
            AliasCommands::List => "alias listing"@,
            AliasCommands::Add { .. } => "alias creation"@,
            AliasCommands::Delete { .. } => "alias deletion"@,
        },
{
    let what = match command {
        AliasCommands::List => "alias listing",
        AliasCommands::Add { .. } => "alias creation",
        AliasCommands::Delete { .. } => "alias deletion",
    };
    Err(ESQError::NotYetImplemented(String::from_str(what)))
}

/// The configuration that `ls` lists the indices with.
pub fn handle_ls_command(existing_config: Option<Config>) -> (r: Result<Config, ESQError>)
    ensures
        match existing_config {
            Some(c) => r == Ok::<Config, ESQError>(c),
            None => r matches Err(ESQError::ConfigError(m)) && m@ == NO_CONFIG_MESSAGE@,
        },
{
    require_config(existing_config)
}

/// The names present among the entries, in order.
pub open spec fn present_names(v: Seq<Option<String>>) -> Seq<Seq<char>>
    decreases v.len(),
{
    if v.len() == 0 {
        Seq::empty()
    } else {
        let rest = present_names(v.drop_last());
        match v.last() {
            Some(n) => rest.push(n@),
            None => rest,
        }
    }
}

/// The index names to print, one per line, skipping the entries that have none.
pub fn display_indices(indices: &Vec<Option<String>>) -> (r: Vec<String>)
    ensures
        crate::text::views(r@) == present_names(indices@),
{
    let mut out: Vec<String> = Vec::new();
    let mut i: usize = 0;
    while i < indices.len()
        invariant
            i <= indices@.len(),
            crate::text::views(out@) == present_names(indices@.take(i as int)),
        decreases indices.len() - i,
    {
        assert(indices@.take(i + 1).drop_last() =~= indices@.take(i as int));
        match &indices[i] {
            Some(name) => {
                let ghost before = crate::text::views(out@);
                out.push(name.clone());
                assert(crate::text::views(out@) =~= before.push(name@));
            },
            None => {},
        }
        i = i + 1;
    }
    assert(indices@.take(i as int) =~= indices@);
    out
}

/// The configuration to save on logout: the same without its password; `None` where there is
/// no session to end.
pub fn logout_config(existing_config: Option<Config>) -> (r: Option<Config>)
    ensures
        match existing_config {
            Some(c) if c.default.password is Some => r matches Some(n) && n.default.url
                == c.default.url && n.default.username == c.default.username
                && n.default.password is None,
            _ => r is None,
        },
{
    match existing_config {
        Some(c) => {
            if c.default.password.is_some() {
                let Config { default: DefaultConfig { url, username, .. } } = c;
                Some(Config { default: DefaultConfig { url, username, password: None } })
            } else {
                None
            }
        },
        None => None,
    }
}

/// The settings being assembled during a login.
pub struct LoginContext {
    pub config: DefaultConfig,
}

impl LoginContext {
    pub fn new(config: DefaultConfig) -> (r: Self)
        ensures
            r.config == config,
    {
        LoginContext { config }
    }
}

/// The URL to log in to: what was typed, trimmed, or the saved one where nothing was.
pub fn chosen_url(input: &str, existing_config: &Option<Config>) -> (r: String)
    ensures
        match existing_config {
            Some(c) if trim(input@).len() == 0 => r@ == c.default.url@,
            _ => r@ == trim(input@),
        },
{
    let typed = trim_str(input);
    match existing_config {
        Some(c) => {
            if typed.unicode_len() == 0 {
                c.default.url.clone()
            } else {
                typed
            }
        },
        None => typed,
    }
}

/// The user name to log in with: what was typed, trimmed, or the saved one where nothing was.
pub fn chosen_username(input: &str, existing_config: &Option<Config>) -> (r: String)
    ensures
        match existing_config {
            Some(c) if c.default.username is Some && trim(input@).len() == 0 => r@
                == c.default.username->0@,
            _ => r@ == trim(input@),
        },
{
    let typed = trim_str(input);
    match existing_config {
        Some(c) => match &c.default.username {
            Some(u) => {
                if typed.unicode_len() == 0 {
                    u.clone()
                } else {
                    typed
                }
            },
            None => typed,
        },
        None => typed,
    }
}

/// Whether a login asks for credentials before trying without them: where a user name is
/// saved.
pub fn asks_credentials_first(existing_config: &Option<Config>) -> (r: bool)
    ensures
        r == (existing_config matches Some(c) && c.default.username is Some),
{
    match existing_config {
        Some(c) => c.default.username.is_some(),
        None => false,
    }
}

/// `pat` occurs in `s`.
pub open spec fn contains(s: Seq<char>, pat: Seq<char>) -> bool {
    exists|i: int| 0 <= i <= s.len() - pat.len() && #[trigger] s.subrange(i, i + pat.len()) == pat
}

proof fn lemma_push_eq(a: Seq<char>, b: Seq<char>, x: char, y: char)
    ensures
        (a.push(x) == b.push(y)) == (a == b && x == y),
{
    if a.push(x) == b.push(y) {
        assert(a =~= a.push(x).drop_last());
        assert(b =~= b.push(y).drop_last());
        assert(a.push(x).last() == x);
    }
}

/// Whether `pat` occurs in `s`.
pub fn str_contains(s: &str, pat: &str) -> (r: bool)
    ensures
        r == contains(s@, pat@),
{
    let n = s.unicode_len();
    let m = pat.unicode_len();
    if m > n {
        return false;
    }
    let mut i: usize = 0;
    loop
        invariant
            n == s@.len(),
            m == pat@.len(),
            m <= n,
            i <= n - m,
            forall|k: int| 0 <= k < i ==> #[trigger] s@.subrange(k, k + m) != pat@,
        decreases n - m - i,
    {
        let mut j: usize = 0;
        let mut same = true;
        assert(s@.subrange(i as int, i as int) =~= pat@.subrange(0, 0));
        while j < m
            invariant
                n == s@.len(),
                m == pat@.len(),
                i + m <= n,
                j <= m,
                same == (s@.subrange(i as int, i + j) == pat@.subrange(0, j as int)),
            decreases m - j,
        {
            let ghost a = s@.subrange(i as int, i + j);
            let ghost b = pat@.subrange(0, j as int);
            assert(s@.subrange(i as int, i + j + 1) =~= a.push(s@[i + j]));
            assert(pat@.subrange(0, j + 1) =~= b.push(pat@[j as int]));
            proof {
                lemma_push_eq(a, b, s@[i + j], pat@[j as int]);
            }
            let c1 = s.get_char(i + j);
            let c2 = pat.get_char(j);
            same = same && c1 == c2;
            j = j + 1;
        }
        assert(pat@.subrange(0, m as int) =~= pat@);
        if same {
            return true;
        }
        if i == n - m {
            return false;
        }
        i = i + 1;
    }
}

/// What a probe of the service's `_cat` endpoint shows: `Ok(false)` where the answer is not a
/// success, `Ok(true)` where it lists the `_cat` endpoints, else an error.
pub fn connection_verdict(success: bool, body: &str) -> (r: Result<bool, ESQError>)
    ensures
        !success ==> r == Ok::<bool, ESQError>(false),
        success && contains(body@, "/_cat/"@) ==> r == Ok::<bool, ESQError>(true),
        success && !contains(body@, "/_cat/"@) ==> (r matches Err(e) && e is ConfigError),
{
    if !success {
        return Ok(false);
    }
    if !str_contains(body, "/_cat/") {
        return Err(
            ESQError::ConfigError(
                String::from_str("The server doesn't appear to be an Elasticsearch instance"),
            ),
        );
    }
    Ok(true)
}

} // verus!
