use copilot_client::error::CopilotError;
use copilot_client::headers::{build_headers, token_headers};

fn value(headers: &reqwest::header::HeaderMap, name: &str) -> Vec<u8> {
    headers.get(name).unwrap().as_bytes().to_vec()
}

#[test]
fn call_headers_are_the_six_named_ones() {
    let headers = build_headers("abc", "Neovim/0.9.0").unwrap();
    assert_eq!(headers.len(), 6);
    assert_eq!(headers.keys_len(), 6);
    assert_eq!(value(&headers, "authorization"), b"Bearer abc".to_vec());
    assert_eq!(value(&headers, "editor-version"), b"Neovim/0.9.0".to_vec());
    assert_eq!(value(&headers, "editor-plugin-version"), b"CopilotChat.nvim/*".to_vec());
    assert_eq!(value(&headers, "copilot-integration-id"), b"vscode-chat".to_vec());
    assert_eq!(value(&headers, "user-agent"), b"CopilotChat.nvim".to_vec());
    assert_eq!(value(&headers, "accept"), b"application/json".to_vec());
}

#[test]
fn header_names_are_filed_in_lower_case() {
    let headers = build_headers("abc", "Neovim/0.9.0").unwrap();
    let mut names: Vec<String> = headers.keys().map(|k| k.as_str().to_string()).collect();
    names.sort();
    assert_eq!(
        names,
        vec![
            "accept",
            "authorization",
            "copilot-integration-id",
            "editor-plugin-version",
            "editor-version",
            "user-agent",
        ]
    );
}

#[test]
fn session_token_is_embedded_verbatim() {
    let headers = build_headers("tid=1;exp=2; sku=free\t", "e").unwrap();
    assert_eq!(value(&headers, "authorization"), b"Bearer tid=1;exp=2; sku=free\t".to_vec());
    let empty = build_headers("", "").unwrap();
    assert_eq!(value(&empty, "authorization"), b"Bearer ".to_vec());
    assert_eq!(value(&empty, "editor-version"), b"".to_vec());
}

#[test]
fn text_beyond_ascii_is_kept_as_utf8() {
    let headers = build_headers("cl\u{e9}", "\u{65e5}\u{672c}").unwrap();
    assert_eq!(value(&headers, "authorization"), "Bearer cl\u{e9}".as_bytes().to_vec());
    assert_eq!(value(&headers, "editor-version"), "\u{65e5}\u{672c}".as_bytes().to_vec());
}

#[test]
fn control_characters_fail_header_construction() {
    assert_eq!(build_headers("a\nb", "e").unwrap_err(), CopilotError::HeaderConstruction);
    assert_eq!(build_headers("abc", "e\r").unwrap_err(), CopilotError::HeaderConstruction);
    assert_eq!(build_headers("a\u{7f}", "e").unwrap_err(), CopilotError::HeaderConstruction);
    assert_eq!(build_headers("\u{0}", "e").unwrap_err(), CopilotError::HeaderConstruction);
    assert_eq!(build_headers("a\u{1f}", "e").unwrap_err(), CopilotError::HeaderConstruction);
    assert!(build_headers("a\tb c~", "e").is_ok());
}

#[test]
fn exchange_headers_carry_the_identity_token() {
    let headers = token_headers("gho_secret").unwrap();
    assert_eq!(headers.len(), 3);
    assert_eq!(value(&headers, "authorization"), b"Token gho_secret".to_vec());
    assert_eq!(value(&headers, "user-agent"), b"CopilotChat.nvim".to_vec());
    assert_eq!(value(&headers, "accept"), b"application/json".to_vec());
}

#[test]
fn exchange_headers_fail_on_a_malformed_token() {
    assert_eq!(token_headers("gho\n").unwrap_err(), CopilotError::HeaderConstruction);
}
