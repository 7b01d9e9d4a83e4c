use copilot_client::credentials::{
    choose_file, credential_files, env_token, find_github_token, get_config_path,
    get_github_token, read_host_entries, token_from_config, Environment, HostEntry,
};
use copilot_client::error::CopilotError;

fn bare_env() -> Environment {
    Environment {
        github_token: None,
        codespaces: false,
        xdg_config_home: None,
        local_app_data: None,
        home: None,
        windows: false,
    }
}

fn home_env() -> Environment {
    Environment { home: Some("/home/ada".to_string()), ..bare_env() }
}

fn entry(host: &str, token: Option<&str>) -> HostEntry {
    HostEntry { host: host.to_string(), oauth_token: token.map(|t| t.to_string()) }
}

const HOSTS: &str = r#"{"github.com":{"user":"ada","oauth_token":"gho_hosts"}}"#;
const APPS: &str = r#"{"github.com:Iv1.b507a08c87ecfe98":{"oauth_token":"gho_apps"}}"#;

#[test]
fn env_token_needs_the_marker() {
    let with_marker =
        Environment { github_token: Some("ghu_env".to_string()), codespaces: true, ..bare_env() };
    assert_eq!(env_token(&with_marker), Some("ghu_env".to_string()));
    let without_marker =
        Environment { github_token: Some("ghu_env".to_string()), codespaces: false, ..bare_env() };
    assert_eq!(env_token(&without_marker), None);
    let marker_only = Environment { codespaces: true, ..bare_env() };
    assert_eq!(env_token(&marker_only), None);
}

#[test]
fn config_path_prefers_xdg() {
    let env = Environment {
        xdg_config_home: Some("/xdg".to_string()),
        home: Some("/home/ada".to_string()),
        ..bare_env()
    };
    assert_eq!(get_config_path(&env), Ok("/xdg".to_string()));
}

#[test]
fn config_path_skips_empty_xdg() {
    let env = Environment {
        xdg_config_home: Some(String::new()),
        home: Some("/home/ada".to_string()),
        ..bare_env()
    };
    assert_eq!(get_config_path(&env), Ok("/home/ada/.config".to_string()));
}

#[test]
fn config_path_falls_back_to_home() {
    assert_eq!(get_config_path(&home_env()), Ok("/home/ada/.config".to_string()));
}

#[test]
fn config_path_keeps_an_empty_home() {
    let env = Environment { home: Some(String::new()), ..bare_env() };
    assert_eq!(get_config_path(&env), Ok("/.config".to_string()));
}

#[test]
fn config_path_on_windows_uses_app_data_only() {
    let with_app_data = Environment {
        windows: true,
        local_app_data: Some("C:\\Users\\ada\\AppData\\Local".to_string()),
        home: Some("/home/ada".to_string()),
        ..bare_env()
    };
    assert_eq!(get_config_path(&with_app_data), Ok("C:\\Users\\ada\\AppData\\Local".to_string()));
    let without = Environment { windows: true, home: Some("/home/ada".to_string()), ..bare_env() };
    assert_eq!(get_config_path(&without), Err(CopilotError::ConfigDirectoryNotFound));
    let empty = Environment {
        windows: true,
        local_app_data: Some(String::new()),
        ..bare_env()
    };
    assert_eq!(get_config_path(&empty), Err(CopilotError::ConfigDirectoryNotFound));
}

#[test]
fn config_path_ignores_app_data_elsewhere() {
    let env = Environment { local_app_data: Some("C:\\Local".to_string()), ..bare_env() };
    assert_eq!(get_config_path(&env), Err(CopilotError::ConfigDirectoryNotFound));
}

#[test]
fn config_path_fails_without_any_variable() {
    assert_eq!(get_config_path(&bare_env()), Err(CopilotError::ConfigDirectoryNotFound));
}

#[test]
fn credential_files_are_hosts_then_apps() {
    assert_eq!(
        credential_files("/home/ada/.config"),
        vec![
            "/home/ada/.config/github-copilot/hosts.json".to_string(),
            "/home/ada/.config/github-copilot/apps.json".to_string(),
        ]
    );
}

#[test]
fn choose_file_takes_the_first_present() {
    assert_eq!(choose_file(&vec![Some("a".to_string()), Some("b".to_string())]), Some(0));
    assert_eq!(choose_file(&vec![None, Some("b".to_string())]), Some(1));
    assert_eq!(choose_file(&vec![None, None]), None);
    assert_eq!(choose_file(&Vec::new()), None);
}

#[test]
fn find_token_of_the_github_entry() {
    let entries = vec![entry("gitlab.com", Some("glpat")), entry("github.com", Some("gho_1"))];
    assert_eq!(find_github_token(&entries), Some("gho_1".to_string()));
}

#[test]
fn find_token_matches_a_key_that_contains_the_host() {
    let entries = vec![entry("https://github.com:Iv1.abc", Some("gho_2"))];
    assert_eq!(find_github_token(&entries), Some("gho_2".to_string()));
    let near = vec![entry("github.co", Some("x")), entry("githubXcom", Some("y"))];
    assert_eq!(find_github_token(&near), None);
}

#[test]
fn find_token_skips_an_entry_without_token() {
    let entries = vec![entry("github.com", None), entry("enterprise.github.com", Some("gho_3"))];
    assert_eq!(find_github_token(&entries), Some("gho_3".to_string()));
}

#[test]
fn find_token_takes_the_first_of_several() {
    let entries = vec![entry("a.github.com", Some("first")), entry("b.github.com", Some("second"))];
    assert_eq!(find_github_token(&entries), Some("first".to_string()));
}

#[test]
fn find_token_in_nothing() {
    assert_eq!(find_github_token(&Vec::new()), None);
}

#[test]
fn host_entries_of_an_object() {
    let doc: serde_json::Value = serde_json::from_str(
        r#"{"github.com":{"oauth_token":"t1"},"other":{"oauth_token":7},"plain":"text","none":{}}"#,
    )
    .unwrap();
    let mut entries = read_host_entries(&doc).unwrap();
    entries.sort_by(|a, b| a.host.cmp(&b.host));
    assert_eq!(
        entries,
        vec![
            entry("github.com", Some("t1")),
            entry("none", None),
            entry("other", None),
            entry("plain", None),
        ]
    );
}

#[test]
fn host_entries_of_what_is_no_object() {
    let list: serde_json::Value = serde_json::from_str(r#"[{"github.com":{}}]"#).unwrap();
    assert_eq!(read_host_entries(&list), None);
    let text: serde_json::Value = serde_json::from_str(r#""github.com""#).unwrap();
    assert_eq!(read_host_entries(&text), None);
}

#[test]
fn token_from_a_hosts_file() {
    assert_eq!(token_from_config(HOSTS), Ok("gho_hosts".to_string()));
    assert_eq!(token_from_config(APPS), Ok("gho_apps".to_string()));
}

#[test]
fn token_is_returned_letter_for_letter() {
    let content = r#"{"github.com":{"oauth_token":" gh\u00e9 \"q\" \t"}}"#;
    assert_eq!(token_from_config(content), Ok(" gh\u{e9} \"q\" \t".to_string()));
}

#[test]
fn token_from_a_file_that_is_no_json() {
    let expected = serde_json::from_str::<serde_json::Value>("{oops").unwrap_err().to_string();
    assert_eq!(token_from_config("{oops"), Err(CopilotError::Decode { cause: expected }));
    assert!(matches!(token_from_config(""), Err(CopilotError::Decode { .. })));
}

#[test]
fn token_from_a_file_without_github_entry() {
    assert_eq!(
        token_from_config(r#"{"gitlab.com":{"oauth_token":"x"}}"#),
        Err(CopilotError::CredentialNotFound)
    );
    assert_eq!(token_from_config("{}"), Err(CopilotError::CredentialNotFound));
    assert_eq!(token_from_config("[]"), Err(CopilotError::CredentialNotFound));
}

#[test]
fn token_that_is_no_string_is_not_found() {
    assert_eq!(
        token_from_config(r#"{"github.com":{"oauth_token":42}}"#),
        Err(CopilotError::CredentialNotFound)
    );
    assert_eq!(
        token_from_config(r#"{"github.com":{"user":"ada"}}"#),
        Err(CopilotError::CredentialNotFound)
    );
    assert_eq!(token_from_config(r#"{"github.com":"gho"}"#), Err(CopilotError::CredentialNotFound));
}

#[test]
fn resolver_returns_the_single_github_token() {
    let files = vec![Some(HOSTS.to_string()), None];
    assert_eq!(get_github_token(&home_env(), &files), Ok("gho_hosts".to_string()));
    let files = vec![None, Some(APPS.to_string())];
    assert_eq!(get_github_token(&home_env(), &files), Ok("gho_apps".to_string()));
}

#[test]
fn resolver_consults_only_the_first_file() {
    let both = vec![Some(HOSTS.to_string()), Some(APPS.to_string())];
    assert_eq!(get_github_token(&home_env(), &both), Ok("gho_hosts".to_string()));
    let hosts_without_token = vec![Some("{}".to_string()), Some(APPS.to_string())];
    assert_eq!(
        get_github_token(&home_env(), &hosts_without_token),
        Err(CopilotError::CredentialNotFound)
    );
    let hosts_broken = vec![Some("nonsense".to_string()), Some(APPS.to_string())];
    assert!(matches!(
        get_github_token(&home_env(), &hosts_broken),
        Err(CopilotError::Decode { .. })
    ));
}

#[test]
fn resolver_takes_the_environment_token_verbatim() {
    let env = Environment {
        github_token: Some(" ghu env\n".to_string()),
        codespaces: true,
        ..bare_env()
    };
    assert_eq!(get_github_token(&env, &Vec::new()), Ok(" ghu env\n".to_string()));
    let files = vec![Some(HOSTS.to_string()), Some(APPS.to_string())];
    assert_eq!(get_github_token(&env, &files), Ok(" ghu env\n".to_string()));
}

#[test]
fn resolver_without_marker_reads_the_files() {
    let env = Environment { github_token: Some("ghu_env".to_string()), ..home_env() };
    let files = vec![Some(HOSTS.to_string()), None];
    assert_eq!(get_github_token(&env, &files), Ok("gho_hosts".to_string()));
}

#[test]
fn resolver_without_config_directory() {
    let files = vec![Some(HOSTS.to_string()), None];
    assert_eq!(get_github_token(&bare_env(), &files), Err(CopilotError::ConfigDirectoryNotFound));
}

#[test]
fn resolver_without_any_file() {
    assert_eq!(
        get_github_token(&home_env(), &vec![None, None]),
        Err(CopilotError::CredentialNotFound)
    );
}
