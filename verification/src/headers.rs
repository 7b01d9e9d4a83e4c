//! The header builder: the headers of the token exchange and of every call to
//! the service, held in the header map of the HTTP client.
//!
//! The map and its values are those of `reqwest::header`. Their declarations, the
//! two names for what they hold and the four functions marked `external_body`
//! are believed, not proved; everything else here is proved from them.

use crate::error::{CopilotError, ErrorView};
use reqwest::header::{HeaderMap, HeaderValue, InvalidHeaderValue};
use vstd::prelude::*;
use vstd::utf8::{
    encode_scalar, encode_utf8, has_width_1_encoding, has_width_2_encoding, has_width_3_encoding,
    is_ascii_chars, is_ascii_chars_encode_utf8,
};

verus! {

/// `reqwest::header::HeaderMap`, the header map that a request carries.
#[verifier::external_type_specification]
#[verifier::external_body]
#[verifier::reject_recursive_types(T)]
pub struct ExHeaderMap<T>(reqwest::header::HeaderMap<T>);

/// `reqwest::header::HeaderValue`, the checked bytes of one header value.
#[verifier::external_type_specification]
#[verifier::external_body]
pub struct ExHeaderValue(reqwest::header::HeaderValue);

/// `reqwest::header::InvalidHeaderValue`, the refusal of a text as a header
/// value.
#[verifier::external_type_specification]
#[verifier::external_body]
pub struct ExInvalidHeaderValue(reqwest::header::InvalidHeaderValue);

/// What a header map holds: the bytes of the value stored under each name, the
/// name in lower case, as the map keeps it.
pub uninterp spec fn header_entries(headers: HeaderMap<HeaderValue>) -> Map<Seq<char>, Seq<u8>>;

/// The bytes of a header value.
pub uninterp spec fn header_value_bytes(value: HeaderValue) -> Seq<u8>;

/// Whether a byte may stand in a header value: a tab, or anything from the space
/// upwards but the delete character.
pub open spec fn header_byte_ok(b: u8) -> bool {
    (b >= 32 && b != 127) || b == 9
}

/// Whether every byte may stand in a header value.
pub open spec fn header_value_ok(bytes: Seq<u8>) -> bool {
    forall|i: int| 0 <= i < bytes.len() ==> header_byte_ok(#[trigger] bytes[i])
}

/// Whether every byte is a tab or a visible ASCII character.
pub open spec fn header_value_visible(bytes: Seq<u8>) -> bool {
    forall|i: int|
        0 <= i < bytes.len() ==> {
            let b = #[trigger] bytes[i];
            (b >= 32 && b < 127) || b == 9
        }
}

/// Whether a character may stand in a header value: a tab, or any character
/// that is no control character.
pub open spec fn header_char_ok(c: char) -> bool {
    c == '\t' || (' ' <= c && c != '\u{7f}')
}

/// Whether a text can be a header value: it holds no control character but the
/// tab.
pub open spec fn header_text_ok(text: Seq<char>) -> bool {
    forall|i: int| 0 <= i < text.len() ==> header_char_ok(#[trigger] text[i])
}

/// Whether a character may stand in a header name: a letter, a digit, or one of
/// the marks that an HTTP token admits.
pub open spec fn header_name_char_ok(c: char) -> bool {
    ||| 'a' <= c <= 'z'
    ||| 'A' <= c <= 'Z'
    ||| '0' <= c <= '9'
    ||| c == '!'
    ||| c == '#'
    ||| c == '$'
    ||| c == '%'
    ||| c == '&'
    ||| c == '\''
    ||| c == '*'
    ||| c == '+'
    ||| c == '-'
    ||| c == '.'
    ||| c == '^'
    ||| c == '_'
    ||| c == '`'
    ||| c == '|'
    ||| c == '~'
}

/// Whether a text is a header name of at most 64 characters.
pub open spec fn header_name_ok(name: Seq<char>) -> bool {
    &&& 1 <= name.len() <= 64
    &&& forall|i: int| 0 <= i < name.len() ==> header_name_char_ok(#[trigger] name[i])
}

/// A character with an upper-case letter turned into its lower-case form.
pub open spec fn lower_case(c: char) -> char {
    if 'A' <= c <= 'Z' {
        ((c as u8) + 32) as char
    } else {
        c
    }
}

/// The key under which a header map files a name: the name in lower case.
pub open spec fn header_key(name: Seq<char>) -> Seq<char> {
    Seq::new(name.len(), |i: int| lower_case(name[i]))
}

/// The content of a header map that holds nothing.
pub open spec fn no_headers() -> Map<Seq<char>, Seq<u8>> {
    Map::empty()
}

/// Calls `HeaderMap::new`: a map that holds nothing.
#[verifier::external_body]
pub(crate) fn empty_headers() -> (headers: HeaderMap)
    ensures
        header_entries(headers) == no_headers(),
{
    HeaderMap::new()
}

/// Calls `HeaderValue::from_str`, which accepts a text exactly where each of its
/// bytes is a tab or at least 32 and not 127, and then keeps the bytes as they
/// are.
#[verifier::external_body]
pub(crate) fn checked_value(text: &str) -> (r: Result<HeaderValue, InvalidHeaderValue>)
    ensures
        r is Ok <==> header_value_ok(encode_utf8(text@)),
        r matches Ok(value) ==> header_value_bytes(value) == encode_utf8(text@),
{
    HeaderValue::from_str(text)
}

/// Calls `HeaderValue::from_static`, which panics on a byte that is neither a
/// tab nor visible ASCII, and else keeps the bytes as they are.
#[verifier::external_body]
pub(crate) fn fixed_value(text: &'static str) -> (value: HeaderValue)
    requires
        header_value_visible(encode_utf8(text@)),
    ensures
        header_value_bytes(value) == encode_utf8(text@),
{
    HeaderValue::from_static(text)
}

/// Calls `HeaderMap::insert` with the name as a static string. The map turns the
/// name into lower case and panics where it is no header name; a name of more
/// than 64 bytes takes another path in the map and is left out here. Under that
/// key the map then holds the new value alone. `insert` panics where the map
/// would have to grow past 32768 slots, which takes at least 6554 names: the
/// bound leaves that out.
#[verifier::external_body]
pub(crate) fn set_header(headers: &mut HeaderMap, name: &'static str, value: HeaderValue)
    requires
        header_name_ok(name@),
        header_entries(*old(headers)).dom().finite(),
        header_entries(*old(headers)).dom().len() < 4096,
    ensures
        header_entries(*final(headers)) == header_entries(*old(headers)).insert(
            header_key(name@),
            header_value_bytes(value),
        ),
{
    headers.insert(name, value);
}

/// The headers of the token exchange.
pub open spec fn exchange_headers(identity_token: Seq<char>) -> Map<Seq<char>, Seq<u8>> {
    map![
        "user-agent"@ => encode_utf8("CopilotChat.nvim"@),
        "accept"@ => encode_utf8("application/json"@),
        "authorization"@ => encode_utf8("Token "@ + identity_token),
    ]
}

/// The headers of a call to the service.
pub open spec fn call_headers(session_token: Seq<char>, editor_version: Seq<char>) -> Map<
    Seq<char>,
    Seq<u8>,
> {
    map![
        "authorization"@ => encode_utf8("Bearer "@ + session_token),
        "editor-version"@ => encode_utf8(editor_version),
        "editor-plugin-version"@ => encode_utf8("CopilotChat.nvim/*"@),
        "copilot-integration-id"@ => encode_utf8("vscode-chat"@),
        "user-agent"@ => encode_utf8("CopilotChat.nvim"@),
        "accept"@ => encode_utf8("application/json"@),
    ]
}

/// Builds the headers of the token exchange, which carry the identity token.
/// Fails exactly where the identity token holds a control character other than
/// the tab.
pub fn token_headers(identity_token: &str) -> (r: Result<HeaderMap, CopilotError>)
    ensures
        match r {
            Ok(map) => header_text_ok(identity_token@) && header_entries(map) == exchange_headers(
                identity_token@,
            ),
            Err(e) => !header_text_ok(identity_token@) && e@ == ErrorView::HeaderConstruction,
        },
{
    let mut map = empty_headers();
    proof {
        lemma_fixed_texts();
        law_prefixed_value("Token "@, identity_token@);
    }
    set_header(&mut map, "User-Agent", fixed_value("CopilotChat.nvim"));
    set_header(&mut map, "Accept", fixed_value("application/json"));
    let authorization = String::from_str("Token ").concat(identity_token);
    match checked_value(authorization.as_str()) {
        Ok(value) => {
            set_header(&mut map, "Authorization", value);
            assert(header_entries(map) =~= exchange_headers(identity_token@));
            Ok(map)
        },
        Err(_) => Err(CopilotError::HeaderConstruction),
    }
}

/// Builds the headers of a call to the service. Fails exactly where the session
/// token or the editor version holds a control character other than the tab.
pub fn build_headers(session_token: &str, editor_version: &str) -> (r: Result<
    HeaderMap,
    CopilotError,
>)
    ensures
        match r {
            Ok(map) => {
                &&& header_text_ok(session_token@)
                &&& header_text_ok(editor_version@)
                &&& header_entries(map) == call_headers(session_token@, editor_version@)
            },
            Err(e) => {
                &&& !(header_text_ok(session_token@) && header_text_ok(editor_version@))
                &&& e@ == ErrorView::HeaderConstruction
            },
        },
{
    let mut map = empty_headers();
    proof {
        lemma_fixed_texts();
        law_prefixed_value("Bearer "@, session_token@);
        law_header_text(editor_version@);
    }
    let authorization = String::from_str("Bearer ").concat(session_token);
    match checked_value(authorization.as_str()) {
        Ok(value) => set_header(&mut map, "Authorization", value),
        Err(_) => { return Err(CopilotError::HeaderConstruction); },
    }
    match checked_value(editor_version) {
        Ok(value) => set_header(&mut map, "Editor-Version", value),
        Err(_) => { return Err(CopilotError::HeaderConstruction); },
    }
    set_header(&mut map, "Editor-Plugin-Version", fixed_value("CopilotChat.nvim/*"));
    set_header(&mut map, "Copilot-Integration-Id", fixed_value("vscode-chat"));
    set_header(&mut map, "User-Agent", fixed_value("CopilotChat.nvim"));
    set_header(&mut map, "Accept", fixed_value("application/json"));
    assert(header_entries(map) =~= call_headers(session_token@, editor_version@));
    Ok(map)
}

/// A byte sequence can be a header value exactly where both of its parts can.
pub proof fn lemma_header_value_parts(a: Seq<u8>, b: Seq<u8>)
    ensures
        header_value_ok(a + b) <==> header_value_ok(a) && header_value_ok(b),
{
    if header_value_ok(a + b) {
        assert forall|i: int| 0 <= i < a.len() implies header_byte_ok(#[trigger] a[i]) by {
            assert((a + b)[i] == a[i]);
        }
        assert forall|i: int| 0 <= i < b.len() implies header_byte_ok(#[trigger] b[i]) by {
            assert((a + b)[a.len() + i] == b[i]);
        }
    }
}

/// The bytes that encode one character can stand in a header value exactly
/// where the character can: every byte of a character beyond ASCII is at least
/// 128.
pub proof fn lemma_header_char(c: char)
    ensures
        header_value_ok(encode_scalar(c as u32)) <==> header_char_ok(c),
{
    let s = c as u32;
    let bytes = encode_scalar(s);
    if has_width_1_encoding(s) {
        assert((s & 0x7F) as u8 == s) by (bit_vector)
            requires
                s <= 0x7F,
        ;
        assert(bytes[0] == s);
        if header_char_ok(c) {
            assert forall|i: int| 0 <= i < bytes.len() implies header_byte_ok(
                #[trigger] bytes[i],
            ) by {}
        }
    } else {
        assert(0xC0u8 | ((s >> 6) & 0x1F) as u8 >= 0x80) by (bit_vector);
        assert(0xE0u8 | ((s >> 12) & 0x0F) as u8 >= 0x80) by (bit_vector);
        assert(0xF0u8 | ((s >> 18) & 0x7) as u8 >= 0x80) by (bit_vector);
        assert(0x80u8 | (s & 0x3F) as u8 >= 0x80) by (bit_vector);
        assert(0x80u8 | ((s >> 6) & 0x3F) as u8 >= 0x80) by (bit_vector);
        assert(0x80u8 | ((s >> 12) & 0x3F) as u8 >= 0x80) by (bit_vector);
        assert(0xC0u8 | ((s >> 6) & 0x1F) as u8 != 127) by (bit_vector);
        assert(0xE0u8 | ((s >> 12) & 0x0F) as u8 != 127) by (bit_vector);
        assert(0xF0u8 | ((s >> 18) & 0x7) as u8 != 127) by (bit_vector);
        assert(0x80u8 | (s & 0x3F) as u8 != 127) by (bit_vector);
        assert(0x80u8 | ((s >> 6) & 0x3F) as u8 != 127) by (bit_vector);
        assert(0x80u8 | ((s >> 12) & 0x3F) as u8 != 127) by (bit_vector);
        assert forall|i: int| 0 <= i < bytes.len() implies header_byte_ok(#[trigger] bytes[i]) by {
            if has_width_2_encoding(s) {
            } else if has_width_3_encoding(s) {
            } else {
            }
        }
    }
}

/// A text is accepted as a header value exactly where it holds no control
/// character but the tab.
pub proof fn law_header_text(text: Seq<char>)
    ensures
        header_value_ok(encode_utf8(text)) <==> header_text_ok(text),
    decreases text.len(),
{
    if text.len() > 0 {
        let rest = text.drop_first();
        lemma_header_char(text[0]);
        law_header_text(rest);
        lemma_header_value_parts(encode_scalar(text[0] as u32), encode_utf8(rest));
        if header_text_ok(text) {
            assert forall|i: int| 0 <= i < rest.len() implies header_char_ok(
                #[trigger] rest[i],
            ) by {
                assert(rest[i] == text[i + 1]);
            }
        }
        if header_char_ok(text[0]) && header_text_ok(rest) {
            assert forall|i: int| 0 <= i < text.len() implies header_char_ok(
                #[trigger] text[i],
            ) by {
                if i > 0 {
                    assert(text[i] == rest[i - 1]);
                }
            }
        }
    }
}

/// A value made of a fixed word of letters, a space and a token is accepted
/// exactly where the token holds no control character but the tab: the header
/// builder fails on a malformed token and on nothing else.
pub proof fn law_prefixed_value(prefix: Seq<char>, token: Seq<char>)
    requires
        header_text_ok(prefix),
    ensures
        header_value_ok(encode_utf8(prefix + token)) <==> header_text_ok(token),
{
    law_header_text(prefix + token);
    let whole = prefix + token;
    if header_text_ok(whole) {
        assert forall|i: int| 0 <= i < token.len() implies header_char_ok(#[trigger] token[i]) by {
            assert(whole[prefix.len() + i] == token[i]);
        }
    }
    if header_text_ok(token) {
        assert forall|i: int| 0 <= i < whole.len() implies header_char_ok(#[trigger] whole[i]) by {
            if i < prefix.len() {
                assert(whole[i] == prefix[i]);
            } else {
                assert(whole[i] == token[i - prefix.len()]);
            }
        }
    }
}

/// The headers of a call are exactly the six named ones. The authorization
/// holds `Bearer `, then the session token as it is; the editor version is
/// passed on as it is; the other four are fixed.
pub proof fn law_call_headers(session_token: Seq<char>, editor_version: Seq<char>)
    ensures
        call_headers(session_token, editor_version).dom() =~= set![
            "authorization"@,
            "editor-version"@,
            "editor-plugin-version"@,
            "copilot-integration-id"@,
            "user-agent"@,
            "accept"@,
        ],
        call_headers(session_token, editor_version).dom().len() == 6,
        call_headers(session_token, editor_version)["authorization"@] == encode_utf8(
            "Bearer "@ + session_token,
        ),
        call_headers(session_token, editor_version)["editor-version"@] == encode_utf8(
            editor_version,
        ),
        call_headers(session_token, editor_version)["editor-plugin-version"@] == encode_utf8(
            "CopilotChat.nvim/*"@,
        ),
        call_headers(session_token, editor_version)["copilot-integration-id"@] == encode_utf8(
            "vscode-chat"@,
        ),
        call_headers(session_token, editor_version)["user-agent"@] == encode_utf8(
            "CopilotChat.nvim"@,
        ),
        call_headers(session_token, editor_version)["accept"@] == encode_utf8(
            "application/json"@,
        ),
{
    lemma_distinct_names();
    let names = set![
        "authorization"@,
        "editor-version"@,
        "editor-plugin-version"@,
        "copilot-integration-id"@,
        "user-agent"@,
        "accept"@,
    ];
    assert(call_headers(session_token, editor_version).dom() =~= names);
    assert(names.len() == 6) by {
        vstd::set::axiom_set_insert_len(Set::<Seq<char>>::empty(), "authorization"@);
    }
}

/// The headers of the token exchange are exactly the three named ones, and the
/// authorization holds `Token `, then the identity token as it is.
pub proof fn law_exchange_headers(identity_token: Seq<char>)
    ensures
        exchange_headers(identity_token).dom() =~= set![
            "user-agent"@,
            "accept"@,
            "authorization"@,
        ],
        exchange_headers(identity_token)["authorization"@] == encode_utf8(
            "Token "@ + identity_token,
        ),
        exchange_headers(identity_token)["user-agent"@] == encode_utf8("CopilotChat.nvim"@),
        exchange_headers(identity_token)["accept"@] == encode_utf8("application/json"@),
{
    lemma_distinct_names();
}

/// No two of the six header names are the same.
proof fn lemma_distinct_names()
    ensures
        "authorization"@.len() == 13,
        "editor-version"@.len() == 14,
        "editor-plugin-version"@.len() == 21,
        "copilot-integration-id"@.len() == 22,
        "user-agent"@.len() == 10,
        "accept"@.len() == 6,
{
    reveal_strlit("authorization");
    reveal_strlit("editor-version");
    reveal_strlit("editor-plugin-version");
    reveal_strlit("copilot-integration-id");
    reveal_strlit("user-agent");
    reveal_strlit("accept");
}

/// A text of visible ASCII characters is encoded as visible bytes.
proof fn lemma_visible_text(text: Seq<char>)
    requires
        forall|i: int| 0 <= i < text.len() ==> ' ' <= #[trigger] text[i] <= '~',
    ensures
        header_value_visible(encode_utf8(text)),
{
    assert(is_ascii_chars(text));
    is_ascii_chars_encode_utf8(text);
}

/// The fixed names and values of the builder are header names and visible
/// header values, and each name is filed under its lower-case form.
proof fn lemma_fixed_texts()
    ensures
        header_value_visible(encode_utf8("CopilotChat.nvim"@)),
        header_value_visible(encode_utf8("CopilotChat.nvim/*"@)),
        header_value_visible(encode_utf8("application/json"@)),
        header_value_visible(encode_utf8("vscode-chat"@)),
        header_name_ok("Authorization"@),
        header_key("Authorization"@) == "authorization"@,
        header_name_ok("Editor-Version"@),
        header_key("Editor-Version"@) == "editor-version"@,
        header_name_ok("Editor-Plugin-Version"@),
        header_key("Editor-Plugin-Version"@) == "editor-plugin-version"@,
        header_name_ok("Copilot-Integration-Id"@),
        header_key("Copilot-Integration-Id"@) == "copilot-integration-id"@,
        header_name_ok("User-Agent"@),
        header_key("User-Agent"@) == "user-agent"@,
        header_name_ok("Accept"@),
        header_key("Accept"@) == "accept"@,
        header_text_ok("Bearer "@),
        header_text_ok("Token "@),
{
    reveal_strlit("Bearer ");
    reveal_strlit("Token ");
    reveal_strlit("CopilotChat.nvim");
    reveal_strlit("CopilotChat.nvim/*");
    reveal_strlit("application/json");
    reveal_strlit("vscode-chat");
    lemma_visible_text("CopilotChat.nvim"@);
    lemma_visible_text("CopilotChat.nvim/*"@);
    lemma_visible_text("application/json"@);
    lemma_visible_text("vscode-chat"@);
    reveal_strlit("Authorization");
    reveal_strlit("authorization");
    assert(header_key("Authorization"@) =~= "authorization"@);
    reveal_strlit("Editor-Version");
    reveal_strlit("editor-version");
    assert(header_key("Editor-Version"@) =~= "editor-version"@);
    reveal_strlit("Editor-Plugin-Version");
    reveal_strlit("editor-plugin-version");
    assert(header_key("Editor-Plugin-Version"@) =~= "editor-plugin-version"@);
    reveal_strlit("Copilot-Integration-Id");
    reveal_strlit("copilot-integration-id");
    assert(header_key("Copilot-Integration-Id"@) =~= "copilot-integration-id"@);
    reveal_strlit("User-Agent");
    reveal_strlit("user-agent");
    assert(header_key("User-Agent"@) =~= "user-agent"@);
    reveal_strlit("Accept");
    reveal_strlit("accept");
    assert(header_key("Accept"@) =~= "accept"@);
}

} // verus!
