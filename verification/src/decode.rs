//! The wire contracts of the replies: which JSON documents decode to which
//! values. `serde_json` reads the text; the shape that each reply must have is
//! checked here, field by field.

use crate::error::{CopilotError, ErrorView};
use crate::json::{
    error_text, is_null, items_of, json_error_text, json_is_null, json_items, json_member,
    json_number_bits, json_parsed, json_string, json_u64, member, number_bits_of, parse_json,
    string_of, unsigned_of,
};
use crate::types::{
    Agent, AgentView, AgentsResponse, ChatChoice, ChatChoiceView, ChatResponse,
    CopilotTokenResponse, Embedding, EmbeddingResponse, EmbeddingView, Message, MessageView,
    Model, ModelView, ModelsResponse, TokenUsage,
};
use vstd::prelude::*;

verus! {

/// The error for a field that is missing or holds a value of another kind: its
/// cause is the name of the field followed by what was expected.
pub open spec fn wrong_shape(name: Seq<char>, expected: Seq<char>) -> ErrorView {
    ErrorView::Decode { cause: name + expected }
}

/// Whether `doc` has no member `name`, or has `null` there.
pub open spec fn is_absent(doc: serde_json::Value, name: Seq<char>) -> bool {
    match json_member(doc, name) {
        Some(v) => json_is_null(v),
        None => true,
    }
}

/// The string that the member `name` of `doc` must hold.
pub open spec fn text_of(doc: serde_json::Value, name: Seq<char>) -> Result<Seq<char>, ErrorView> {
    let found = match json_member(doc, name) {
        Some(v) => json_string(v),
        None => None,
    };
    match found {
        Some(text) => Ok(text),
        None => Err(wrong_shape(name, ": expected a string"@)),
    }
}

/// The string that the member `name` of `doc` may hold.
pub open spec fn optional_text_of(doc: serde_json::Value, name: Seq<char>) -> Result<
    Option<Seq<char>>,
    ErrorView,
> {
    if is_absent(doc, name) {
        Ok(None)
    } else {
        match json_string(json_member(doc, name)->0) {
            Some(text) => Ok(Some(text)),
            None => Err(wrong_shape(name, ": expected a string or null"@)),
        }
    }
}

/// The unsigned integer that the member `name` of `doc` must hold.
pub open spec fn u64_of(doc: serde_json::Value, name: Seq<char>) -> Result<u64, ErrorView> {
    let found = match json_member(doc, name) {
        Some(v) => json_u64(v),
        None => None,
    };
    match found {
        Some(number) => Ok(number),
        None => Err(wrong_shape(name, ": expected an unsigned integer"@)),
    }
}

/// The unsigned integer of 32 bits that the member `name` of `doc` must hold.
pub open spec fn u32_of(doc: serde_json::Value, name: Seq<char>) -> Result<u32, ErrorView> {
    let found = match json_member(doc, name) {
        Some(v) => json_u64(v),
        None => None,
    };
    if found is Some && found->0 <= u32::MAX {
        Ok(found->0 as u32)
    } else {
        Err(wrong_shape(name, ": expected an unsigned integer of 32 bits"@))
    }
}

/// The unsigned integer of 32 bits that the member `name` of `doc` may hold.
pub open spec fn optional_u32_of(doc: serde_json::Value, name: Seq<char>) -> Result<
    Option<u32>,
    ErrorView,
> {
    if is_absent(doc, name) {
        Ok(None)
    } else {
        let found = json_u64(json_member(doc, name)->0);
        if found is Some && found->0 <= u32::MAX {
            Ok(Some(found->0 as u32))
        } else {
            Err(wrong_shape(name, ": expected an unsigned integer of 32 bits or null"@))
        }
    }
}

/// The position that the member `name` of `doc` must hold.
pub open spec fn index_of(doc: serde_json::Value, name: Seq<char>) -> Result<usize, ErrorView> {
    let found = match json_member(doc, name) {
        Some(v) => json_u64(v),
        None => None,
    };
    if found is Some && found->0 <= usize::MAX {
        Ok(found->0 as usize)
    } else {
        Err(wrong_shape(name, ": expected a position"@))
    }
}

/// The elements of the array that the member `name` of `doc` must hold.
pub open spec fn list_of(doc: serde_json::Value, name: Seq<char>) -> Result<
    Seq<serde_json::Value>,
    ErrorView,
> {
    let found = match json_member(doc, name) {
        Some(v) => json_items(v),
        None => None,
    };
    match found {
        Some(items) => Ok(items),
        None => Err(wrong_shape(name, ": expected an array"@)),
    }
}

/// The values that the elements decode to, in their order, or the error of the
/// first element that does not decode.
pub open spec fn decode_each<T>(
    items: Seq<serde_json::Value>,
    decode: spec_fn(serde_json::Value) -> Result<T, ErrorView>,
) -> Result<Seq<T>, ErrorView>
    decreases items.len(),
{
    if items.len() == 0 {
        Ok(Seq::empty())
    } else {
        match decode_each(items.drop_last(), decode) {
            Err(e) => Err(e),
            Ok(before) => match decode(items.last()) {
                Err(e) => Err(e),
                Ok(value) => Ok(before.push(value)),
            },
        }
    }
}

/// The agent that a document decodes to.
pub open spec fn agent_of(doc: serde_json::Value) -> Result<AgentView, ErrorView> {
    match text_of(doc, "id"@) {
        Err(e) => Err(e),
        Ok(id) => match text_of(doc, "name"@) {
            Err(e) => Err(e),
            Ok(name) => match optional_text_of(doc, "description"@) {
                Err(e) => Err(e),
                Ok(description) => Ok(AgentView { id, name, description }),
            },
        },
    }
}

/// The model that a document decodes to.
pub open spec fn model_of(doc: serde_json::Value) -> Result<ModelView, ErrorView> {
    match text_of(doc, "id"@) {
        Err(e) => Err(e),
        Ok(id) => match text_of(doc, "name"@) {
            Err(e) => Err(e),
            Ok(name) => match optional_text_of(doc, "version"@) {
                Err(e) => Err(e),
                Ok(version) => match optional_text_of(doc, "tokenizer"@) {
                    Err(e) => Err(e),
                    Ok(tokenizer) => match optional_u32_of(doc, "max_input_tokens"@) {
                        Err(e) => Err(e),
                        Ok(max_input_tokens) => match optional_u32_of(
                            doc,
                            "max_output_tokens"@,
                        ) {
                            Err(e) => Err(e),
                            Ok(max_output_tokens) => Ok(
                                ModelView {
                                    id,
                                    name,
                                    version,
                                    tokenizer,
                                    max_input_tokens,
                                    max_output_tokens,
                                },
                            ),
                        },
                    },
                },
            },
        },
    }
}

/// The message that a document decodes to.
pub open spec fn message_of(doc: serde_json::Value) -> Result<MessageView, ErrorView> {
    match text_of(doc, "role"@) {
        Err(e) => Err(e),
        Ok(role) => match text_of(doc, "content"@) {
            Err(e) => Err(e),
            Ok(content) => Ok(MessageView { role, content }),
        },
    }
}

/// The token usage that a document decodes to.
pub open spec fn usage_of(doc: serde_json::Value) -> Result<TokenUsage, ErrorView> {
    match u32_of(doc, "total_tokens"@) {
        Err(e) => Err(e),
        Ok(total_tokens) => Ok(TokenUsage { total_tokens }),
    }
}

/// The choice that a document decodes to.
pub open spec fn choice_of(doc: serde_json::Value) -> Result<ChatChoiceView, ErrorView> {
    match json_member(doc, "message"@) {
        None => Err(wrong_shape("message"@, ": expected an object"@)),
        Some(m) => match message_of(m) {
            Err(e) => Err(e),
            Ok(message) => match optional_text_of(doc, "finish_reason"@) {
                Err(e) => Err(e),
                Ok(finish_reason) => if is_absent(doc, "usage"@) {
                    Ok(ChatChoiceView { message, finish_reason, usage: None })
                } else {
                    match usage_of(json_member(doc, "usage"@)->0) {
                        Err(e) => Err(e),
                        Ok(usage) => Ok(ChatChoiceView { message, finish_reason, usage: Some(usage) }),
                    }
                },
            },
        },
    }
}

/// The coordinate that a document decodes to: the bits of its number.
pub open spec fn coordinate_of(doc: serde_json::Value) -> Result<u64, ErrorView> {
    match json_number_bits(doc) {
        Some(bits) => Ok(bits),
        None => Err(wrong_shape("embedding"@, ": expected numbers"@)),
    }
}

/// The embedding that a document decodes to.
pub open spec fn embedding_of(doc: serde_json::Value) -> Result<EmbeddingView, ErrorView> {
    match index_of(doc, "index"@) {
        Err(e) => Err(e),
        Ok(index) => match list_of(doc, "embedding"@) {
            Err(e) => Err(e),
            Ok(items) => match decode_each(items, coordinate_decoder()) {
                Err(e) => Err(e),
                Ok(embedding) => Ok(EmbeddingView { index, embedding }),
            },
        },
    }
}

/// [`agent_of`] as a function value.
pub open spec fn agent_decoder() -> spec_fn(serde_json::Value) -> Result<AgentView, ErrorView> {
    |doc: serde_json::Value| agent_of(doc)
}

/// [`model_of`] as a function value.
pub open spec fn model_decoder() -> spec_fn(serde_json::Value) -> Result<ModelView, ErrorView> {
    |doc: serde_json::Value| model_of(doc)
}

/// [`choice_of`] as a function value.
pub open spec fn choice_decoder() -> spec_fn(serde_json::Value) -> Result<
    ChatChoiceView,
    ErrorView,
> {
    |doc: serde_json::Value| choice_of(doc)
}

/// [`coordinate_of`] as a function value.
pub open spec fn coordinate_decoder() -> spec_fn(serde_json::Value) -> Result<u64, ErrorView> {
    |doc: serde_json::Value| coordinate_of(doc)
}

/// [`embedding_of`] as a function value.
pub open spec fn embedding_decoder() -> spec_fn(serde_json::Value) -> Result<
    EmbeddingView,
    ErrorView,
> {
    |doc: serde_json::Value| embedding_of(doc)
}

/// What a body decodes to where it must be a JSON object whose member `name` is
/// an array of elements that `decode` accepts.
pub open spec fn decoded_list<T>(
    body: Seq<char>,
    name: Seq<char>,
    decode: spec_fn(serde_json::Value) -> Result<T, ErrorView>,
) -> Result<Seq<T>, ErrorView> {
    match json_parsed(body) {
        Err(e) => Err(ErrorView::Decode { cause: json_error_text(e) }),
        Ok(doc) => match list_of(doc, name) {
            Err(e) => Err(e),
            Ok(items) => decode_each(items, decode),
        },
    }
}

/// What the body of the agents reply decodes to.
pub open spec fn decoded_agents(body: Seq<char>) -> Result<Seq<AgentView>, ErrorView> {
    decoded_list(body, "agents"@, agent_decoder())
}

/// What the body of the models reply decodes to.
pub open spec fn decoded_models(body: Seq<char>) -> Result<Seq<ModelView>, ErrorView> {
    decoded_list(body, "data"@, model_decoder())
}

/// What the body of the chat completion reply decodes to.
pub open spec fn decoded_choices(body: Seq<char>) -> Result<Seq<ChatChoiceView>, ErrorView> {
    decoded_list(body, "choices"@, choice_decoder())
}

/// What the body of the embeddings reply decodes to.
pub open spec fn decoded_embeddings(body: Seq<char>) -> Result<Seq<EmbeddingView>, ErrorView> {
    decoded_list(body, "data"@, embedding_decoder())
}

/// What the body of a successful token exchange decodes to: the session token
/// and the second at which it expires.
pub open spec fn decoded_token(body: Seq<char>) -> Result<(Seq<char>, u64), ErrorView> {
    match json_parsed(body) {
        Err(e) => Err(ErrorView::Decode { cause: json_error_text(e) }),
        Ok(doc) => match text_of(doc, "token"@) {
            Err(e) => Err(e),
            Ok(token) => match u64_of(doc, "expires_at"@) {
                Err(e) => Err(e),
                Ok(expires_at) => Ok((token, expires_at)),
            },
        },
    }
}

/// Decoding one element more either adds its value or fails with its error.
pub proof fn lemma_decode_each_step<T>(
    items: Seq<serde_json::Value>,
    decode: spec_fn(serde_json::Value) -> Result<T, ErrorView>,
    i: int,
)
    requires
        0 <= i < items.len(),
    ensures
        decode_each(items.take(i + 1), decode) == match decode_each(items.take(i), decode) {
            Err(e) => Err::<Seq<T>, ErrorView>(e),
            Ok(before) => match decode(items[i]) {
                Err(e) => Err(e),
                Ok(value) => Ok(before.push(value)),
            },
        },
{
    assert(items.take(i + 1).drop_last() =~= items.take(i));
    assert(items.take(i + 1).last() == items[i]);
}

/// An error among the first `k` elements is the error of the whole.
pub proof fn lemma_decode_each_error<T>(
    items: Seq<serde_json::Value>,
    decode: spec_fn(serde_json::Value) -> Result<T, ErrorView>,
    k: int,
)
    requires
        0 <= k <= items.len(),
        decode_each(items.take(k), decode) is Err,
    ensures
        decode_each(items, decode) == decode_each(items.take(k), decode),
    decreases items.len() - k,
{
    if k == items.len() {
        assert(items.take(k) =~= items);
    } else {
        lemma_decode_each_step(items, decode, k);
        lemma_decode_each_error(items, decode, k + 1);
    }
}

/// Decoding keeps the order of the elements and stops at the first that fails:
/// where every element decodes, the values are as many as the elements and
/// each value is what the element at its position decodes to; else the error is
/// that of the first element that does not decode.
pub proof fn law_decode_each_in_order<T>(
    items: Seq<serde_json::Value>,
    decode: spec_fn(serde_json::Value) -> Result<T, ErrorView>,
)
    ensures
        match decode_each(items, decode) {
            Ok(values) => {
                &&& values.len() == items.len()
                &&& forall|i: int|
                    0 <= i < items.len() ==> decode(#[trigger] items[i]) == Ok::<T, ErrorView>(
                        values[i],
                    )
            },
            Err(e) => exists|k: int|
                {
                    &&& 0 <= k < items.len()
                    &&& decode(#[trigger] items[k]) == Err::<T, ErrorView>(e)
                    &&& forall|j: int| 0 <= j < k ==> decode(#[trigger] items[j]) is Ok
                },
        },
    decreases items.len(),
{
    if items.len() > 0 {
        let before = items.drop_last();
        law_decode_each_in_order(before, decode);
        match decode_each(before, decode) {
            Ok(values) => {
                assert forall|j: int| 0 <= j < before.len() implies decode(
                    #[trigger] items[j],
                ) is Ok by {
                    assert(before[j] == items[j]);
                }
                match decode(items.last()) {
                    Ok(value) => {
                        let all = values.push(value);
                        assert forall|i: int| 0 <= i < items.len() implies decode(
                            #[trigger] items[i],
                        ) == Ok::<T, ErrorView>(all[i]) by {
                            if i < before.len() {
                                assert(before[i] == items[i]);
                            }
                        }
                    },
                    Err(e) => {
                        let k = items.len() - 1;
                        assert(decode(items[k]) == Err::<T, ErrorView>(e));
                    },
                }
            },
            Err(e) => {
                let k = choose|k: int|
                    {
                        &&& 0 <= k < before.len()
                        &&& decode(#[trigger] before[k]) == Err::<T, ErrorView>(e)
                        &&& forall|j: int| 0 <= j < k ==> decode(#[trigger] before[j]) is Ok
                    };
                assert(before[k] == items[k]);
                assert forall|j: int| 0 <= j < k implies decode(#[trigger] items[j]) is Ok by {
                    assert(before[j] == items[j]);
                }
            },
        }
    }
}

/// Builds the error for a field of the wrong shape.
fn shape_error(name: &str, expected: &str) -> (e: CopilotError)
    ensures
        e@ == wrong_shape(name@, expected@),
{
    CopilotError::Decode { cause: String::from_str(name).concat(expected) }
}

/// Whether the member is missing or `null`.
fn absent(doc: &serde_json::Value, name: &str) -> (r: bool)
    ensures
        r == is_absent(*doc, name@),
{
    match member(doc, name) {
        Some(v) => is_null(v),
        None => true,
    }
}

/// Reads a member that must be a string.
fn text_field(doc: &serde_json::Value, name: &str) -> (r: Result<String, CopilotError>)
    ensures
        match r {
            Ok(text) => text_of(*doc, name@) == Ok::<Seq<char>, ErrorView>(text@),
            Err(e) => text_of(*doc, name@) == Err::<Seq<char>, ErrorView>(e@),
        },
{
    let found = match member(doc, name) {
        Some(v) => string_of(v),
        None => None,
    };
    match found {
        Some(text) => Ok(String::from_str(text)),
        None => Err(shape_error(name, ": expected a string")),
    }
}

/// Reads a member that may be a string.
fn optional_text_field(doc: &serde_json::Value, name: &str) -> (r: Result<
    Option<String>,
    CopilotError,
>)
    ensures
        match r {
            Ok(text) => optional_text_of(*doc, name@) == Ok::<Option<Seq<char>>, ErrorView>(
                text.deep_view(),
            ),
            Err(e) => optional_text_of(*doc, name@) == Err::<Option<Seq<char>>, ErrorView>(e@),
        },
{
    let v = match member(doc, name) {
        Some(v) => v,
        None => { return Ok(None); },
    };
    if is_null(v) {
        return Ok(None);
    }
    match string_of(v) {
        Some(text) => Ok(Some(String::from_str(text))),
        None => Err(shape_error(name, ": expected a string or null")),
    }
}

/// Reads a member that must be an unsigned integer.
fn u64_field(doc: &serde_json::Value, name: &str) -> (r: Result<u64, CopilotError>)
    ensures
        match r {
            Ok(number) => u64_of(*doc, name@) == Ok::<u64, ErrorView>(number),
            Err(e) => u64_of(*doc, name@) == Err::<u64, ErrorView>(e@),
        },
{
    let found = match member(doc, name) {
        Some(v) => unsigned_of(v),
        None => None,
    };
    match found {
        Some(number) => Ok(number),
        None => Err(shape_error(name, ": expected an unsigned integer")),
    }
}

/// Reads a member that must be an unsigned integer of 32 bits.
fn u32_field(doc: &serde_json::Value, name: &str) -> (r: Result<u32, CopilotError>)
    ensures
        match r {
            Ok(number) => u32_of(*doc, name@) == Ok::<u32, ErrorView>(number),
            Err(e) => u32_of(*doc, name@) == Err::<u32, ErrorView>(e@),
        },
{
    let found = match member(doc, name) {
        Some(v) => unsigned_of(v),
        None => None,
    };
    match found {
        Some(number) if number <= 0xffff_ffff => Ok(number as u32),
        _ => Err(shape_error(name, ": expected an unsigned integer of 32 bits")),
    }
}

/// Reads a member that may be an unsigned integer of 32 bits.
fn optional_u32_field(doc: &serde_json::Value, name: &str) -> (r: Result<
    Option<u32>,
    CopilotError,
>)
    ensures
        match r {
            Ok(number) => optional_u32_of(*doc, name@) == Ok::<Option<u32>, ErrorView>(number),
            Err(e) => optional_u32_of(*doc, name@) == Err::<Option<u32>, ErrorView>(e@),
        },
{
    let v = match member(doc, name) {
        Some(v) => v,
        None => { return Ok(None); },
    };
    if is_null(v) {
        return Ok(None);
    }
    match unsigned_of(v) {
        Some(number) if number <= 0xffff_ffff => Ok(Some(number as u32)),
        _ => Err(shape_error(name, ": expected an unsigned integer of 32 bits or null")),
    }
}

/// Reads a member that must be a position.
fn index_field(doc: &serde_json::Value, name: &str) -> (r: Result<usize, CopilotError>)
    ensures
        match r {
            Ok(number) => index_of(*doc, name@) == Ok::<usize, ErrorView>(number),
            Err(e) => index_of(*doc, name@) == Err::<usize, ErrorView>(e@),
        },
{
    let found = match member(doc, name) {
        Some(v) => unsigned_of(v),
        None => None,
    };
    match found {
        Some(number) if number <= usize::MAX as u64 => Ok(number as usize),
        _ => Err(shape_error(name, ": expected a position")),
    }
}

/// Reads a member that must be an array.
fn list_field<'a>(doc: &'a serde_json::Value, name: &str) -> (r: Result<
    &'a Vec<serde_json::Value>,
    CopilotError,
>)
    ensures
        match r {
            Ok(items) => list_of(*doc, name@) == Ok::<Seq<serde_json::Value>, ErrorView>(items@),
            Err(e) => list_of(*doc, name@) == Err::<Seq<serde_json::Value>, ErrorView>(e@),
        },
{
    let found = match member(doc, name) {
        Some(v) => items_of(v),
        None => None,
    };
    match found {
        Some(items) => Ok(items),
        None => Err(shape_error(name, ": expected an array")),
    }
}

/// Parses a body, with a parse error turned into a decode error.
fn parse_body(body: &str) -> (r: Result<serde_json::Value, CopilotError>)
    ensures
        match r {
            Ok(doc) => json_parsed(body@) == Ok::<serde_json::Value, serde_json::Error>(doc),
            Err(e) => json_parsed(body@) is Err && e@ == (ErrorView::Decode {
                cause: json_error_text(json_parsed(body@)->Err_0),
            }),
        },
{
    match parse_json(body) {
        Ok(doc) => Ok(doc),
        Err(e) => Err(CopilotError::Decode { cause: error_text(&e) }),
    }
}

/// Decodes one agent: a JSON object with the strings `id` and `name` and,
/// where it has one, the string `description`.
pub fn decode_agent(doc: &serde_json::Value) -> (r: Result<Agent, CopilotError>)
    ensures
        match r {
            Ok(agent) => agent_of(*doc) == Ok::<AgentView, ErrorView>(agent.deep_view()),
            Err(e) => agent_of(*doc) == Err::<AgentView, ErrorView>(e@),
        },
{
    let id = match text_field(doc, "id") {
        Ok(id) => id,
        Err(e) => { return Err(e); },
    };
    let name = match text_field(doc, "name") {
        Ok(name) => name,
        Err(e) => { return Err(e); },
    };
    let description = match optional_text_field(doc, "description") {
        Ok(description) => description,
        Err(e) => { return Err(e); },
    };
    Ok(Agent { id, name, description })
}

/// Decodes one model: a JSON object with the strings `id` and `name` and,
/// where it has them, the strings `version` and `tokenizer` and the token caps.
pub fn decode_model(doc: &serde_json::Value) -> (r: Result<Model, CopilotError>)
    ensures
        match r {
            Ok(model) => model_of(*doc) == Ok::<ModelView, ErrorView>(model.deep_view()),
            Err(e) => model_of(*doc) == Err::<ModelView, ErrorView>(e@),
        },
{
    let id = match text_field(doc, "id") {
        Ok(id) => id,
        Err(e) => { return Err(e); },
    };
    let name = match text_field(doc, "name") {
        Ok(name) => name,
        Err(e) => { return Err(e); },
    };
    let version = match optional_text_field(doc, "version") {
        Ok(version) => version,
        Err(e) => { return Err(e); },
    };
    let tokenizer = match optional_text_field(doc, "tokenizer") {
        Ok(tokenizer) => tokenizer,
        Err(e) => { return Err(e); },
    };
    let max_input_tokens = match optional_u32_field(doc, "max_input_tokens") {
        Ok(cap) => cap,
        Err(e) => { return Err(e); },
    };
    let max_output_tokens = match optional_u32_field(doc, "max_output_tokens") {
        Ok(cap) => cap,
        Err(e) => { return Err(e); },
    };
    Ok(Model { id, name, version, tokenizer, max_input_tokens, max_output_tokens })
}

/// Decodes one message: a JSON object with the strings `role` and `content`.
pub fn decode_message(doc: &serde_json::Value) -> (r: Result<Message, CopilotError>)
    ensures
        match r {
            Ok(message) => message_of(*doc) == Ok::<MessageView, ErrorView>(message.deep_view()),
            Err(e) => message_of(*doc) == Err::<MessageView, ErrorView>(e@),
        },
{
    let role = match text_field(doc, "role") {
        Ok(role) => role,
        Err(e) => { return Err(e); },
    };
    let content = match text_field(doc, "content") {
        Ok(content) => content,
        Err(e) => { return Err(e); },
    };
    Ok(Message { role, content })
}

/// Decodes one token usage: a JSON object with the count `total_tokens`.
pub fn decode_usage(doc: &serde_json::Value) -> (r: Result<TokenUsage, CopilotError>)
    ensures
        match r {
            Ok(usage) => usage_of(*doc) == Ok::<TokenUsage, ErrorView>(usage),
            Err(e) => usage_of(*doc) == Err::<TokenUsage, ErrorView>(e@),
        },
{
    match u32_field(doc, "total_tokens") {
        Ok(total_tokens) => Ok(TokenUsage { total_tokens }),
        Err(e) => Err(e),
    }
}

/// Decodes one choice: a JSON object with a `message` and, where it has them,
/// the string `finish_reason` and a `usage`.
pub fn decode_choice(doc: &serde_json::Value) -> (r: Result<ChatChoice, CopilotError>)
    ensures
        match r {
            Ok(choice) => choice_of(*doc) == Ok::<ChatChoiceView, ErrorView>(choice.deep_view()),
            Err(e) => choice_of(*doc) == Err::<ChatChoiceView, ErrorView>(e@),
        },
{
    let message = match member(doc, "message") {
        None => { return Err(shape_error("message", ": expected an object")); },
        Some(m) => match decode_message(m) {
            Ok(message) => message,
            Err(e) => { return Err(e); },
        },
    };
    let finish_reason = match optional_text_field(doc, "finish_reason") {
        Ok(reason) => reason,
        Err(e) => { return Err(e); },
    };
    if absent(doc, "usage") {
        return Ok(ChatChoice { message, finish_reason, usage: None });
    }
    match member(doc, "usage") {
        Some(u) => match decode_usage(u) {
            Ok(usage) => Ok(ChatChoice { message, finish_reason, usage: Some(usage) }),
            Err(e) => Err(e),
        },
        None => Ok(ChatChoice { message, finish_reason, usage: None }),
    }
}

/// Decodes one coordinate of an embedding.
fn decode_coordinate(doc: &serde_json::Value) -> (r: Result<u64, CopilotError>)
    ensures
        match r {
            Ok(bits) => coordinate_of(*doc) == Ok::<u64, ErrorView>(bits),
            Err(e) => coordinate_of(*doc) == Err::<u64, ErrorView>(e@),
        },
{
    match number_bits_of(doc) {
        Some(bits) => Ok(bits),
        None => Err(shape_error("embedding", ": expected numbers")),
    }
}

/// Decodes the coordinates of an embedding, in their order.
fn decode_coordinates(items: &Vec<serde_json::Value>) -> (r: Result<Vec<u64>, CopilotError>)
    ensures
        match r {
            Ok(values) => decode_each(items@, coordinate_decoder()) == Ok::<Seq<u64>, ErrorView>(
                values@,
            ),
            Err(e) => decode_each(items@, coordinate_decoder()) == Err::<Seq<u64>, ErrorView>(e@),
        },
{
    let mut values: Vec<u64> = Vec::new();
    let mut i: usize = 0;
    while i < items.len()
        invariant
            i <= items.len(),
            decode_each(items@.take(i as int), coordinate_decoder()) == Ok::<Seq<u64>, ErrorView>(
                values@,
            ),
        decreases items.len() - i,
    {
        proof {
            lemma_decode_each_step(items@, coordinate_decoder(), i as int);
        }
        match decode_coordinate(&items[i]) {
            Ok(value) => {
                values.push(value);
            },
            Err(e) => {
                proof {
                    lemma_decode_each_error(items@, coordinate_decoder(), i + 1);
                }
                return Err(e);
            },
        }
        i += 1;
    }
    assert(items@.take(items.len() as int) =~= items@);
    Ok(values)
}

/// Decodes one embedding: a JSON object with the position `index` and the
/// array of numbers `embedding`.
pub fn decode_embedding(doc: &serde_json::Value) -> (r: Result<Embedding, CopilotError>)
    ensures
        match r {
            Ok(embedding) => embedding_of(*doc) == Ok::<EmbeddingView, ErrorView>(
                embedding.deep_view(),
            ),
            Err(e) => embedding_of(*doc) == Err::<EmbeddingView, ErrorView>(e@),
        },
{
    let index = match index_field(doc, "index") {
        Ok(index) => index,
        Err(e) => { return Err(e); },
    };
    let items = match list_field(doc, "embedding") {
        Ok(items) => items,
        Err(e) => { return Err(e); },
    };
    match decode_coordinates(items) {
        Ok(embedding) => Ok(Embedding { index, embedding }),
        Err(e) => Err(e),
    }
}

/// Decodes agents, in their order.
fn decode_agent_list(items: &Vec<serde_json::Value>) -> (r: Result<Vec<Agent>, CopilotError>)
    ensures
        match r {
            Ok(values) => decode_each(items@, agent_decoder()) == Ok::<Seq<AgentView>, ErrorView>(
                values.deep_view(),
            ),
            Err(e) => decode_each(items@, agent_decoder()) == Err::<Seq<AgentView>, ErrorView>(e@),
        },
{
    let mut values: Vec<Agent> = Vec::new();
    let mut i: usize = 0;
    assert(values.deep_view() =~= Seq::<AgentView>::empty());
    while i < items.len()
        invariant
            i <= items.len(),
            decode_each(items@.take(i as int), agent_decoder()) == Ok::<Seq<AgentView>, ErrorView>(
                values.deep_view(),
            ),
        decreases items.len() - i,
    {
        proof {
            lemma_decode_each_step(items@, agent_decoder(), i as int);
        }
        let ghost before = values.deep_view();
        match decode_agent(&items[i]) {
            Ok(value) => {
                let ghost added = value.deep_view();
                values.push(value);
                assert(values.deep_view() =~= before.push(added));
            },
            Err(e) => {
                proof {
                    lemma_decode_each_error(items@, agent_decoder(), i + 1);
                }
                return Err(e);
            },
        }
        i += 1;
    }
    assert(items@.take(items.len() as int) =~= items@);
    Ok(values)
}

/// Decodes models, in their order.
fn decode_model_list(items: &Vec<serde_json::Value>) -> (r: Result<Vec<Model>, CopilotError>)
    ensures
        match r {
            Ok(values) => decode_each(items@, model_decoder()) == Ok::<Seq<ModelView>, ErrorView>(
                values.deep_view(),
            ),
            Err(e) => decode_each(items@, model_decoder()) == Err::<Seq<ModelView>, ErrorView>(e@),
        },
{
    let mut values: Vec<Model> = Vec::new();
    let mut i: usize = 0;
    assert(values.deep_view() =~= Seq::<ModelView>::empty());
    while i < items.len()
        invariant
            i <= items.len(),
            decode_each(items@.take(i as int), model_decoder()) == Ok::<Seq<ModelView>, ErrorView>(
                values.deep_view(),
            ),
        decreases items.len() - i,
    {
        proof {
            lemma_decode_each_step(items@, model_decoder(), i as int);
        }
        let ghost before = values.deep_view();
        match decode_model(&items[i]) {
            Ok(value) => {
                let ghost added = value.deep_view();
                values.push(value);
                assert(values.deep_view() =~= before.push(added));
            },
            Err(e) => {
                proof {
                    lemma_decode_each_error(items@, model_decoder(), i + 1);
                }
                return Err(e);
            },
        }
        i += 1;
    }
    assert(items@.take(items.len() as int) =~= items@);
    Ok(values)
}

/// Decodes choices, in their order.
fn decode_choice_list(items: &Vec<serde_json::Value>) -> (r: Result<Vec<ChatChoice>, CopilotError>)
    ensures
        match r {
            Ok(values) => decode_each(items@, choice_decoder()) == Ok::<Seq<ChatChoiceView>, ErrorView>(
                values.deep_view(),
            ),
            Err(e) => decode_each(items@, choice_decoder()) == Err::<Seq<ChatChoiceView>, ErrorView>(e@),
        },
{
    let mut values: Vec<ChatChoice> = Vec::new();
    let mut i: usize = 0;
    assert(values.deep_view() =~= Seq::<ChatChoiceView>::empty());
    while i < items.len()
        invariant
            i <= items.len(),
            decode_each(items@.take(i as int), choice_decoder()) == Ok::<Seq<ChatChoiceView>, ErrorView>(
                values.deep_view(),
            ),
        decreases items.len() - i,
    {
        proof {
            lemma_decode_each_step(items@, choice_decoder(), i as int);
        }
        let ghost before = values.deep_view();
        match decode_choice(&items[i]) {
            Ok(value) => {
                let ghost added = value.deep_view();
                values.push(value);
                assert(values.deep_view() =~= before.push(added));
            },
            Err(e) => {
                proof {
                    lemma_decode_each_error(items@, choice_decoder(), i + 1);
                }
                return Err(e);
            },
        }
        i += 1;
    }
    assert(items@.take(items.len() as int) =~= items@);
    Ok(values)
}

/// Decodes embeddings, in their order.
fn decode_embedding_list(items: &Vec<serde_json::Value>) -> (r: Result<Vec<Embedding>, CopilotError>)
    ensures
        match r {
            Ok(values) => decode_each(items@, embedding_decoder()) == Ok::<Seq<EmbeddingView>, ErrorView>(
                values.deep_view(),
            ),
            Err(e) => decode_each(items@, embedding_decoder()) == Err::<Seq<EmbeddingView>, ErrorView>(e@),
        },
{
    let mut values: Vec<Embedding> = Vec::new();
    let mut i: usize = 0;
    assert(values.deep_view() =~= Seq::<EmbeddingView>::empty());
    while i < items.len()
        invariant
            i <= items.len(),
            decode_each(items@.take(i as int), embedding_decoder()) == Ok::<Seq<EmbeddingView>, ErrorView>(
                values.deep_view(),
            ),
        decreases items.len() - i,
    {
        proof {
            lemma_decode_each_step(items@, embedding_decoder(), i as int);
        }
        let ghost before = values.deep_view();
        match decode_embedding(&items[i]) {
            Ok(value) => {
                let ghost added = value.deep_view();
                values.push(value);
                assert(values.deep_view() =~= before.push(added));
            },
            Err(e) => {
                proof {
                    lemma_decode_each_error(items@, embedding_decoder(), i + 1);
                }
                return Err(e);
            },
        }
        i += 1;
    }
    assert(items@.take(items.len() as int) =~= items@);
    Ok(values)
}

/// Decodes the body of a successful token exchange: a JSON object with a
/// string `token` and an unsigned integer `expires_at`.
pub fn decode_token_response(body: &str) -> (r: Result<CopilotTokenResponse, CopilotError>)
    ensures
        match r {
            Ok(response) => decoded_token(body@) == Ok::<(Seq<char>, u64), ErrorView>(
                (response.token@, response.expires_at),
            ),
            Err(e) => decoded_token(body@) == Err::<(Seq<char>, u64), ErrorView>(e@),
        },
{
    let doc = match parse_body(body) {
        Ok(doc) => doc,
        Err(e) => { return Err(e); },
    };
    let token = match text_field(&doc, "token") {
        Ok(token) => token,
        Err(e) => { return Err(e); },
    };
    match u64_field(&doc, "expires_at") {
        Ok(expires_at) => Ok(CopilotTokenResponse { token, expires_at }),
        Err(e) => Err(e),
    }
}

/// Decodes the body of the agents reply: a JSON object whose `agents` is an
/// array of agents.
pub fn decode_agents(body: &str) -> (r: Result<AgentsResponse, CopilotError>)
    ensures
        match r {
            Ok(response) => decoded_agents(body@) == Ok::<Seq<AgentView>, ErrorView>(
                response.agents.deep_view(),
            ),
            Err(e) => decoded_agents(body@) == Err::<Seq<AgentView>, ErrorView>(e@),
        },
{
    let doc = match parse_body(body) {
        Ok(doc) => doc,
        Err(e) => { return Err(e); },
    };
    let items = match list_field(&doc, "agents") {
        Ok(items) => items,
        Err(e) => { return Err(e); },
    };
    match decode_agent_list(items) {
        Ok(agents) => Ok(AgentsResponse { agents }),
        Err(e) => Err(e),
    }
}

/// Decodes the body of the models reply: a JSON object whose `data` is an array
/// of models.
pub fn decode_models(body: &str) -> (r: Result<ModelsResponse, CopilotError>)
    ensures
        match r {
            Ok(response) => decoded_models(body@) == Ok::<Seq<ModelView>, ErrorView>(
                response.data.deep_view(),
            ),
            Err(e) => decoded_models(body@) == Err::<Seq<ModelView>, ErrorView>(e@),
        },
{
    let doc = match parse_body(body) {
        Ok(doc) => doc,
        Err(e) => { return Err(e); },
    };
    let items = match list_field(&doc, "data") {
        Ok(items) => items,
        Err(e) => { return Err(e); },
    };
    match decode_model_list(items) {
        Ok(data) => Ok(ModelsResponse { data }),
        Err(e) => Err(e),
    }
}

/// Decodes the body of the chat completion reply: a JSON object whose
/// `choices` is an array of choices.
pub fn decode_chat_response(body: &str) -> (r: Result<ChatResponse, CopilotError>)
    ensures
        match r {
            Ok(response) => decoded_choices(body@) == Ok::<Seq<ChatChoiceView>, ErrorView>(
                response.choices.deep_view(),
            ),
            Err(e) => decoded_choices(body@) == Err::<Seq<ChatChoiceView>, ErrorView>(e@),
        },
{
    let doc = match parse_body(body) {
        Ok(doc) => doc,
        Err(e) => { return Err(e); },
    };
    let items = match list_field(&doc, "choices") {
        Ok(items) => items,
        Err(e) => { return Err(e); },
    };
    match decode_choice_list(items) {
        Ok(choices) => Ok(ChatResponse { choices }),
        Err(e) => Err(e),
    }
}

/// Decodes the body of the embeddings reply: a JSON object whose `data` is an
/// array of embeddings.
pub fn decode_embeddings(body: &str) -> (r: Result<EmbeddingResponse, CopilotError>)
    ensures
        match r {
            Ok(response) => decoded_embeddings(body@) == Ok::<Seq<EmbeddingView>, ErrorView>(
                response.data.deep_view(),
            ),
            Err(e) => decoded_embeddings(body@) == Err::<Seq<EmbeddingView>, ErrorView>(e@),
        },
{
    let doc = match parse_body(body) {
        Ok(doc) => doc,
        Err(e) => { return Err(e); },
    };
    let items = match list_field(&doc, "data") {
        Ok(items) => items,
        Err(e) => { return Err(e); },
    };
    match decode_embedding_list(items) {
        Ok(data) => Ok(EmbeddingResponse { data }),
        Err(e) => Err(e),
    }
}

} // verus!
