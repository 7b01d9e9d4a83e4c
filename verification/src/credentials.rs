//! The credential resolver: where the identity token comes from.
//!
//! The resolver never touches the environment or the disk. Its caller hands it
//! a snapshot of the variables it consults and the text of the configuration
//! files, and gets back the token or the reason why there is none.

use crate::error::{CopilotError, ErrorView};
use crate::json::{
    error_text, json_error_text, json_keys, json_member, json_parsed, json_string, member,
    object_keys, parse_json, string_of,
};
use vstd::prelude::*;

verus! {

/// The part of the process environment that the resolver consults. A variable
/// that is unset is `None`.
#[derive(Debug, Clone, PartialEq, Eq)]
pub struct Environment {
    /// The variable that may carry the identity token itself.
    pub github_token: Option<String>,
    /// Whether the marker of a managed cloud development environment is set.
    pub codespaces: bool,
    /// The XDG override of the configuration root.
    pub xdg_config_home: Option<String>,
    /// The application data directory of a Windows-like platform.
    pub local_app_data: Option<String>,
    /// The home directory.
    pub home: Option<String>,
    /// Whether the platform is Windows-like.
    pub windows: bool,
}

/// The mathematical content of an [`Environment`].
pub struct EnvironmentView {
    pub github_token: Option<Seq<char>>,
    pub codespaces: bool,
    pub xdg_config_home: Option<Seq<char>>,
    pub local_app_data: Option<Seq<char>>,
    pub home: Option<Seq<char>>,
    pub windows: bool,
}

impl View for Environment {
    type V = EnvironmentView;

    open spec fn view(&self) -> EnvironmentView {
        EnvironmentView {
            github_token: self.github_token.deep_view(),
            codespaces: self.codespaces,
            xdg_config_home: self.xdg_config_home.deep_view(),
            local_app_data: self.local_app_data.deep_view(),
            home: self.home.deep_view(),
            windows: self.windows,
        }
    }
}

/// The token that the environment supplies by itself: the token variable, where
/// the managed-environment marker is set beside it.
pub open spec fn environment_token(env: EnvironmentView) -> Option<Seq<char>> {
    if env.codespaces {
        env.github_token
    } else {
        None
    }
}

/// The configuration root: a non-empty XDG override; else, on a Windows-like
/// platform, a non-empty application data directory and nothing else; else the
/// directory `.config` under the home directory.
pub open spec fn config_root(env: EnvironmentView) -> Option<Seq<char>> {
    if env.xdg_config_home is Some && env.xdg_config_home->0.len() > 0 {
        env.xdg_config_home
    } else if env.windows {
        if env.local_app_data is Some && env.local_app_data->0.len() > 0 {
            env.local_app_data
        } else {
            None
        }
    } else if env.home is Some {
        Some(env.home->0 + "/.config"@)
    } else {
        None
    }
}

/// The configuration files that may hold the token, in the order in which they
/// are tried.
pub open spec fn candidate_files(root: Seq<char>) -> Seq<Seq<char>> {
    seq![root + "/github-copilot/hosts.json"@, root + "/github-copilot/apps.json"@]
}

/// The position of the first file that exists, where `files[i]` is the text of
/// candidate `i` or `None` for a candidate that does not exist.
pub open spec fn first_present(files: Seq<Option<Seq<char>>>) -> Option<int>
    decreases files.len(),
{
    if files.len() == 0 {
        None
    } else if files[0] is Some {
        Some(0)
    } else {
        match first_present(files.drop_first()) {
            Some(i) => Some(i + 1),
            None => None,
        }
    }
}

/// Returns the token that the environment supplies by itself, if it does.
pub fn env_token(env: &Environment) -> (token: Option<String>)
    ensures
        token.deep_view() == environment_token(env@),
{
    if env.codespaces {
        env.github_token.clone()
    } else {
        None
    }
}

/// Returns the configuration root, or `ConfigDirectoryNotFound` where the
/// environment names none.
pub fn get_config_path(env: &Environment) -> (root: Result<String, CopilotError>)
    ensures
        match root {
            Ok(path) => config_root(env@) == Some(path@),
            Err(e) => config_root(env@).is_none() && e@ == ErrorView::ConfigDirectoryNotFound,
        },
{
    if let Some(xdg) = &env.xdg_config_home {
        if !xdg.as_str().is_empty() {
            return Ok(xdg.clone());
        }
    }
    if env.windows {
        if let Some(local) = &env.local_app_data {
            if !local.as_str().is_empty() {
                return Ok(local.clone());
            }
        }
    } else if let Some(home) = &env.home {
        return Ok(home.clone().concat("/.config"));
    }
    Err(CopilotError::ConfigDirectoryNotFound)
}

/// Returns the paths of the candidate files under `root`, first the one that
/// takes precedence.
pub fn credential_files(root: &str) -> (paths: Vec<String>)
    ensures
        paths.deep_view() == candidate_files(root@),
{
    let hosts = String::from_str(root).concat("/github-copilot/hosts.json");
    let apps = String::from_str(root).concat("/github-copilot/apps.json");
    let mut paths: Vec<String> = Vec::new();
    paths.push(hosts);
    paths.push(apps);
    assert(paths.deep_view() =~= candidate_files(root@));
    paths
}

/// Returns the position of the first candidate that exists: the one that is
/// read, whatever the later candidates hold.
pub fn choose_file(files: &Vec<Option<String>>) -> (chosen: Option<usize>)
    ensures
        match chosen {
            Some(i) => i < files.len() && files[i as int] is Some && first_present(
                files.deep_view(),
            ) == Some(i as int),
            None => first_present(files.deep_view()).is_none(),
        },
{
    let mut i: usize = 0;
    while i < files.len()
        invariant
            i <= files.len(),
            forall|j: int| 0 <= j < i ==> files[j].is_none(),
        decreases files.len() - i,
    {
        if files[i].is_some() {
            proof {
                lemma_first_present(files.deep_view(), i as int);
            }
            return Some(i);
        }
        i += 1;
    }
    proof {
        lemma_none_present(files.deep_view());
    }
    None
}

/// The first present file is the one before which every file is absent.
pub proof fn lemma_first_present(files: Seq<Option<Seq<char>>>, i: int)
    requires
        0 <= i < files.len(),
        files[i] is Some,
        forall|j: int| 0 <= j < i ==> files[j].is_none(),
    ensures
        first_present(files) == Some(i),
    decreases i,
{
    if i > 0 {
        let rest = files.drop_first();
        assert forall|j: int| 0 <= j < i - 1 implies rest[j].is_none() by {
            assert(rest[j] == files[j + 1]);
        }
        lemma_first_present(rest, i - 1);
    }
}

/// Where every file is absent, none is chosen.
pub proof fn lemma_none_present(files: Seq<Option<Seq<char>>>)
    requires
        forall|j: int| 0 <= j < files.len() ==> files[j].is_none(),
    ensures
        first_present(files).is_none(),
    decreases files.len(),
{
    if files.len() > 0 {
        let rest = files.drop_first();
        assert forall|j: int| 0 <= j < rest.len() implies rest[j].is_none() by {
            assert(rest[j] == files[j + 1]);
        }
        lemma_none_present(rest);
    }
}

/// One entry of a configuration file: the connection it is for, and the token
/// stored under it where the entry has one that is a string.
#[derive(Debug, Clone, PartialEq, Eq)]
pub struct HostEntry {
    pub host: String,
    pub oauth_token: Option<String>,
}

/// The mathematical content of a [`HostEntry`].
pub struct HostEntryView {
    pub host: Seq<char>,
    pub oauth_token: Option<Seq<char>>,
}

impl DeepView for HostEntry {
    type V = HostEntryView;

    open spec fn deep_view(&self) -> HostEntryView {
        HostEntryView { host: self.host@, oauth_token: self.oauth_token.deep_view() }
    }
}

impl View for HostEntry {
    type V = HostEntryView;

    open spec fn view(&self) -> HostEntryView {
        self.deep_view()
    }
}

/// Whether `pattern` occurs in `text` as a run of consecutive characters.
pub open spec fn contains_text(text: Seq<char>, pattern: Seq<char>) -> bool {
    exists|i: int|
        0 <= i && i + pattern.len() <= text.len() && #[trigger] text.subrange(
            i,
            i + pattern.len(),
        ) == pattern
}

/// Whether an entry can supply the token: its connection names `github.com`
/// and it holds a token.
pub open spec fn supplies_token(entry: HostEntryView) -> bool {
    contains_text(entry.host, "github.com"@) && entry.oauth_token is Some
}

/// The token of the first entry that can supply one.
pub open spec fn first_github_token(entries: Seq<HostEntryView>) -> Option<Seq<char>>
    decreases entries.len(),
{
    if entries.len() == 0 {
        None
    } else if supplies_token(entries[0]) {
        entries[0].oauth_token
    } else {
        first_github_token(entries.drop_first())
    }
}

/// The string stored as `oauth_token` in the member `key` of `doc`.
pub open spec fn stored_token(doc: serde_json::Value, key: Seq<char>) -> Option<Seq<char>> {
    match json_member(doc, key) {
        Some(entry) => match json_member(entry, "oauth_token"@) {
            Some(token) => json_string(token),
            None => None,
        },
        None => None,
    }
}

/// The entries of a parsed configuration file, one for each key of the object,
/// or `None` where the document is no object.
pub open spec fn host_entries(doc: serde_json::Value) -> Option<Seq<HostEntryView>> {
    match json_keys(doc) {
        Some(keys) => Some(
            Seq::new(
                keys.len(),
                |i: int| HostEntryView { host: keys[i], oauth_token: stored_token(doc, keys[i]) },
            ),
        ),
        None => None,
    }
}

/// What a configuration file with the text `content` yields: a decode error
/// where it is no JSON, else the token of the first entry that supplies one,
/// else `CredentialNotFound`.
pub open spec fn config_token(content: Seq<char>) -> Result<Seq<char>, ErrorView> {
    match json_parsed(content) {
        Err(e) => Err(ErrorView::Decode { cause: json_error_text(e) }),
        Ok(doc) => match host_entries(doc) {
            None => Err(ErrorView::CredentialNotFound),
            Some(entries) => match first_github_token(entries) {
                Some(token) => Ok(token),
                None => Err(ErrorView::CredentialNotFound),
            },
        },
    }
}

/// What the resolver returns for an environment and the candidate files: the
/// token of the environment where it supplies one; else the token of the first
/// candidate that exists.
pub open spec fn resolved_token(env: EnvironmentView, files: Seq<Option<Seq<char>>>) -> Result<
    Seq<char>,
    ErrorView,
> {
    if environment_token(env) is Some {
        Ok(environment_token(env)->0)
    } else if config_root(env).is_none() {
        Err(ErrorView::ConfigDirectoryNotFound)
    } else {
        match first_present(files) {
            Some(i) => config_token(files[i]->0),
            None => Err(ErrorView::CredentialNotFound),
        }
    }
}

/// Calls `str::contains` with a string as the pattern: whether the pattern
/// matches a sub-slice of the text.
#[verifier::external_body]
pub(crate) fn str_contains(text: &str, pattern: &str) -> (found: bool)
    ensures
        found == contains_text(text@, pattern@),
{
    text.contains(pattern)
}

/// Returns the token of the first entry whose connection names `github.com`
/// and that holds a token.
pub fn find_github_token(entries: &Vec<HostEntry>) -> (token: Option<String>)
    ensures
        token.deep_view() == first_github_token(entries.deep_view()),
{
    let ghost all = entries.deep_view();
    let mut i: usize = 0;
    assert(all.skip(0) =~= all);
    while i < entries.len()
        invariant
            i <= entries.len(),
            all == entries.deep_view(),
            first_github_token(all) == first_github_token(all.skip(i as int)),
        decreases entries.len() - i,
    {
        let entry = &entries[i];
        proof {
            assert(all.skip(i as int)[0] == entry.deep_view());
            assert(all.skip(i as int).drop_first() =~= all.skip(i + 1));
        }
        if str_contains(entry.host.as_str(), "github.com") {
            if let Some(token) = &entry.oauth_token {
                return Some(token.clone());
            }
        }
        i += 1;
    }
    None
}

/// Reads the entries of a parsed configuration file: one for each key of the
/// object, in the order of its keys; `None` where the document is no object.
pub fn read_host_entries(doc: &serde_json::Value) -> (entries: Option<Vec<HostEntry>>)
    ensures
        entries.deep_view() == host_entries(*doc),
{
    let keys = match object_keys(doc) {
        Some(keys) => keys,
        None => { return None; },
    };
    let ghost names = keys.deep_view();
    let mut entries: Vec<HostEntry> = Vec::new();
    let mut i: usize = 0;
    while i < keys.len()
        invariant
            i <= keys.len(),
            names == keys.deep_view(),
            json_keys(*doc) == Some(names),
            entries.len() == i,
            forall|j: int|
                0 <= j < i ==> (#[trigger] entries[j]).deep_view() == (HostEntryView {
                    host: names[j],
                    oauth_token: stored_token(*doc, names[j]),
                }),
        decreases keys.len() - i,
    {
        let key = &keys[i];
        assert(names[i as int] == key@);
        let token = match member(doc, key.as_str()) {
            Some(entry) => match member(entry, "oauth_token") {
                Some(stored) => match string_of(stored) {
                    Some(text) => Some(String::from_str(text)),
                    None => None,
                },
                None => None,
            },
            None => None,
        };
        entries.push(HostEntry { host: key.clone(), oauth_token: token });
        i += 1;
    }
    assert(entries.deep_view() =~= host_entries(*doc)->0);
    Some(entries)
}

/// Reads the token out of the text of a configuration file.
pub fn token_from_config(content: &str) -> (token: Result<String, CopilotError>)
    ensures
        match token {
            Ok(t) => config_token(content@) == Ok::<Seq<char>, ErrorView>(t@),
            Err(e) => config_token(content@) == Err::<Seq<char>, ErrorView>(e@),
        },
{
    let doc = match parse_json(content) {
        Ok(doc) => doc,
        Err(e) => { return Err(CopilotError::Decode { cause: error_text(&e) }); },
    };
    let entries = match read_host_entries(&doc) {
        Some(entries) => entries,
        None => { return Err(CopilotError::CredentialNotFound); },
    };
    match find_github_token(&entries) {
        Some(t) => Ok(t),
        None => Err(CopilotError::CredentialNotFound),
    }
}

/// Resolves the identity token from a snapshot of the environment and of the
/// candidate files, where `files[i]` is the text of candidate `i` or `None` for
/// a candidate that does not exist.
pub fn get_github_token(env: &Environment, files: &Vec<Option<String>>) -> (token: Result<
    String,
    CopilotError,
>)
    ensures
        match token {
            Ok(t) => resolved_token(env@, files.deep_view()) == Ok::<Seq<char>, ErrorView>(t@),
            Err(e) => resolved_token(env@, files.deep_view()) == Err::<Seq<char>, ErrorView>(e@),
        },
{
    if let Some(t) = env_token(env) {
        return Ok(t);
    }
    if let Err(e) = get_config_path(env) {
        return Err(e);
    }
    match choose_file(files) {
        Some(i) => match &files[i] {
            Some(content) => {
                assert(files.deep_view()[i as int] == Some(content@));
                token_from_config(content.as_str())
            },
            None => Err(CopilotError::CredentialNotFound),
        },
        None => Err(CopilotError::CredentialNotFound),
    }
}

/// Where exactly one entry names `github.com`, and that entry holds a token,
/// the scan returns that token.
pub proof fn lemma_single_github_entry(entries: Seq<HostEntryView>, i: int)
    requires
        0 <= i < entries.len(),
        supplies_token(entries[i]),
        forall|j: int|
            0 <= j < entries.len() && j != i ==> !contains_text(
                (#[trigger] entries[j]).host,
                "github.com"@,
            ),
    ensures
        first_github_token(entries) == entries[i].oauth_token,
    decreases i,
{
    if i > 0 {
        let rest = entries.drop_first();
        assert(!supplies_token(entries[0]));
        assert forall|j: int| 0 <= j < rest.len() && j != i - 1 implies !contains_text(
            (#[trigger] rest[j]).host,
            "github.com"@,
        ) by {
            assert(rest[j] == entries[j + 1]);
        }
        lemma_single_github_entry(rest, i - 1);
    }
}

/// A configuration file that parses to an object with exactly one key naming
/// `github.com`, whose entry stores the token `t`, resolves to exactly `t`,
/// whichever of the candidates it is.
pub proof fn law_single_entry_resolves(
    env: EnvironmentView,
    files: Seq<Option<Seq<char>>>,
    k: int,
    i: int,
)
    requires
        environment_token(env).is_none(),
        config_root(env) is Some,
        first_present(files) == Some(k),
        json_parsed(files[k]->0) is Ok,
        host_entries(json_parsed(files[k]->0)->Ok_0) is Some,
        ({
            let entries = host_entries(json_parsed(files[k]->0)->Ok_0)->0;
            &&& 0 <= i < entries.len()
            &&& supplies_token(entries[i])
            &&& forall|j: int|
                0 <= j < entries.len() && j != i ==> !contains_text(
                    (#[trigger] entries[j]).host,
                    "github.com"@,
                )
        }),
    ensures
        resolved_token(env, files) == Ok::<Seq<char>, ErrorView>(
            host_entries(json_parsed(files[k]->0)->Ok_0)->0[i].oauth_token->0,
        ),
{
    lemma_single_github_entry(host_entries(json_parsed(files[k]->0)->Ok_0)->0, i);
}

/// The chosen file is present, and every file before it is absent.
pub proof fn lemma_chosen_file(files: Seq<Option<Seq<char>>>)
    ensures
        match first_present(files) {
            Some(k) => {
                &&& 0 <= k < files.len()
                &&& files[k] is Some
                &&& forall|j: int| 0 <= j < k ==> files[j].is_none()
            },
            None => forall|j: int| 0 <= j < files.len() ==> files[j].is_none(),
        },
    decreases files.len(),
{
    if files.len() > 0 {
        let rest = files.drop_first();
        lemma_chosen_file(rest);
        if files[0] is Some {
        } else {
            match first_present(rest) {
                Some(k) => {
                    assert(rest[k] == files[k + 1]);
                    assert forall|j: int| 0 <= j < k + 1 implies files[j].is_none() by {
                        if j > 0 {
                            assert(rest[j - 1] == files[j]);
                        }
                    }
                },
                None => {
                    assert forall|j: int| 0 <= j < files.len() implies files[j].is_none() by {
                        if j > 0 {
                            assert(rest[j - 1] == files[j]);
                        }
                    }
                },
            }
        }
    }
}

/// The first candidate that exists decides alone: the result is the same
/// whatever the later candidates hold, a valid token included. Where the
/// first of two candidates exists, the second is never consulted.
pub proof fn law_first_file_wins(
    env: EnvironmentView,
    files: Seq<Option<Seq<char>>>,
    others: Seq<Option<Seq<char>>>,
    k: int,
)
    requires
        first_present(files) == Some(k),
        k < others.len(),
        forall|j: int| 0 <= j <= k ==> others[j] == files[j],
    ensures
        first_present(others) == Some(k),
        resolved_token(env, files) == resolved_token(env, others),
        environment_token(env).is_none() && config_root(env) is Some ==> resolved_token(env, files)
            == config_token(files[k]->0),
{
    lemma_chosen_file(files);
    lemma_first_present(others, k);
}

/// Where the environment supplies the token, the result is that token, letter
/// for letter, whatever the files hold: none needs to be read.
pub proof fn law_environment_token_first(
    env: EnvironmentView,
    files: Seq<Option<Seq<char>>>,
)
    requires
        env.codespaces,
        env.github_token is Some,
    ensures
        resolved_token(env, files) == Ok::<Seq<char>, ErrorView>(env.github_token->0),
{
}

} // verus!
