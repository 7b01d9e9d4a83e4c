//! The client: who calls, which requests a call sends, and what its replies
//! mean. The client sends nothing itself. A driver sends each request that the
//! client builds and hands the status and body of the reply back.

use crate::credentials::{get_github_token, resolved_token, Environment};
use crate::error::{CopilotError, ErrorView};
use crate::headers::{
    build_headers, call_headers, exchange_headers, header_entries, header_text_ok, token_headers,
};
use crate::decode::{
    decode_agents, decode_chat_response, decode_embeddings, decode_models, decode_token_response,
    decoded_agents, decoded_choices, decoded_embeddings, decoded_models, decoded_token,
};
use crate::types::{
    Agent, AgentView, ChatChoiceView, ChatRequest, ChatResponse, Embedding, EmbeddingRequest,
    EmbeddingView, Message, Model, ModelView,
};
use reqwest::header::HeaderMap;
use vstd::prelude::*;

verus! {

/// The method of a request.
#[derive(Debug, Clone, Copy, PartialEq, Eq)]
pub enum Method {
    Get,
    Post,
}

/// What a request carries as its body, to be sent as JSON.
#[derive(Debug, Clone, PartialEq, Eq)]
pub enum RequestBody {
    Empty,
    Chat(ChatRequest),
    Embeddings(EmbeddingRequest),
}

/// A request for the driver to send.
#[derive(Debug)]
pub struct HttpRequest {
    pub method: Method,
    pub url: String,
    pub headers: HeaderMap,
    pub body: RequestBody,
}

/// The address of the token endpoint.
pub open spec fn token_url() -> Seq<char> {
    "https://api.github.com/copilot_internal/v2/token"@
}

/// The address of the agents endpoint.
pub open spec fn agents_url() -> Seq<char> {
    "https://api.githubcopilot.com/agents"@
}

/// The address of the models endpoint.
pub open spec fn models_url() -> Seq<char> {
    "https://api.githubcopilot.com/models"@
}

/// The address of the chat completion endpoint.
pub open spec fn chat_url() -> Seq<char> {
    "https://api.githubcopilot.com/chat/completions"@
}

/// The address of the embeddings endpoint.
pub open spec fn embeddings_url() -> Seq<char> {
    "https://api.githubcopilot.com/embeddings"@
}

/// Whether a status reports success: 200 to 299.
pub open spec fn is_success(status: u16) -> bool {
    200 <= status <= 299
}

/// Whether a request has this method, address and headers.
pub open spec fn request_is(
    request: HttpRequest,
    method: Method,
    url: Seq<char>,
    headers: Map<Seq<char>, Seq<u8>>,
) -> bool {
    &&& request.method == method
    &&& request.url@ == url
    &&& header_entries(request.headers) == headers
}

/// Whether a call with this session token and editor version can be given its
/// headers: neither holds a control character other than the tab.
pub open spec fn call_headers_ok(session_token: Seq<char>, editor_version: Seq<char>) -> bool {
    header_text_ok(session_token) && header_text_ok(editor_version)
}

/// The body of a chat completion: one completion, the whole probability mass,
/// a temperature of one half, no streaming and no cap on the tokens.
pub open spec fn chat_body(messages: Vec<Message>, model_id: String) -> ChatRequest {
    ChatRequest {
        model: model_id,
        messages: messages,
        n: 1,
        top_p_permille: 1000,
        stream: false,
        temperature_permille: 500,
        max_tokens: None,
    }
}

/// Whether a body asks for embeddings of these inputs: 512 dimensions from the
/// small embedding model.
pub open spec fn is_embedding_body(body: EmbeddingRequest, inputs: Vec<String>) -> bool {
    &&& body.dimensions == 512
    &&& body.input == inputs
    &&& body.model@ == "text-embedding-3-small"@
}

/// Whether a catalog lists a model of this id.
pub open spec fn lists_model(catalog: Seq<Model>, id: Seq<char>) -> bool {
    exists|i: int| 0 <= i < catalog.len() && (#[trigger] catalog[i]).id@ == id
}

/// Whether a model may be asked for: any model where no catalog was fetched,
/// else one that the catalog lists.
pub open spec fn admits_model(catalog: Option<Seq<Model>>, id: Seq<char>) -> bool {
    catalog matches Some(models) ==> lists_model(models, id)
}

/// What the reply of the token endpoint means: an `UpstreamAuth` error for a
/// status that is no success, else the decoded session token.
pub open spec fn session_token(status: u16, body: Seq<char>) -> Result<Seq<char>, ErrorView> {
    if !is_success(status) {
        Err(ErrorView::UpstreamAuth { status: status as int, body: body })
    } else {
        match decoded_token(body) {
            Ok(decoded) => Ok(decoded.0),
            Err(e) => Err(e),
        }
    }
}

/// Judges the reply of the token endpoint and returns the session token. The
/// expiry of the token is decoded and then dropped: the client keeps no session
/// token, and every call exchanges the identity token anew.
pub fn get_copilot_token(status: u16, body: String) -> (r: Result<String, CopilotError>)
    ensures
        match r {
            Ok(token) => session_token(status, body@) == Ok::<Seq<char>, ErrorView>(token@),
            Err(e) => session_token(status, body@) == Err::<Seq<char>, ErrorView>(e@),
        },
{
    if status < 200 || status > 299 {
        return Err(CopilotError::UpstreamAuth { status, body });
    }
    match decode_token_response(body.as_str()) {
        Ok(response) => Ok(response.token),
        Err(e) => Err(e),
    }
}

/// Judges the reply to a call: the body, for the driver to decode, where the
/// status reports success, and else an `UpstreamRequest` error that carries the
/// status and the body as they came.
pub fn require_success(status: u16, body: String) -> (r: Result<String, CopilotError>)
    ensures
        match r {
            Ok(text) => is_success(status) && text == body,
            Err(e) => !is_success(status) && e == (CopilotError::UpstreamRequest {
                status,
                body,
            }),
        },
{
    if status < 200 || status > 299 {
        Err(CopilotError::UpstreamRequest { status, body })
    } else {
        Ok(body)
    }
}

/// What the reply to a call means: an `UpstreamRequest` error that carries the
/// status and the body where the status is no success, else what the body
/// decodes to.
pub open spec fn call_result<T>(status: u16, body: Seq<char>, decoded: Result<T, ErrorView>) -> Result<
    T,
    ErrorView,
> {
    if !is_success(status) {
        Err(ErrorView::UpstreamRequest { status: status as int, body: body })
    } else {
        decoded
    }
}

/// Whether embeddings answer `inputs` inputs one for one and in their order.
pub open spec fn answers_in_order(embeddings: Seq<EmbeddingView>, inputs: int) -> bool {
    &&& embeddings.len() == inputs
    &&& forall|i: int| 0 <= i < embeddings.len() ==> (#[trigger] embeddings[i]).index == i
}

/// Judges the reply to the agents call and returns the agents in the order of
/// the reply.
pub fn agents_from_reply(status: u16, body: String) -> (r: Result<Vec<Agent>, CopilotError>)
    ensures
        match r {
            Ok(agents) => call_result(status, body@, decoded_agents(body@)) == Ok::<
                Seq<AgentView>,
                ErrorView,
            >(agents.deep_view()),
            Err(e) => call_result(status, body@, decoded_agents(body@)) == Err::<
                Seq<AgentView>,
                ErrorView,
            >(e@),
        },
{
    let text = match require_success(status, body) {
        Ok(text) => text,
        Err(e) => { return Err(e); },
    };
    match decode_agents(text.as_str()) {
        Ok(response) => Ok(response.agents),
        Err(e) => Err(e),
    }
}

/// Judges the reply to the models call and returns the models in the order of
/// the reply.
pub fn models_from_reply(status: u16, body: String) -> (r: Result<Vec<Model>, CopilotError>)
    ensures
        match r {
            Ok(models) => call_result(status, body@, decoded_models(body@)) == Ok::<
                Seq<ModelView>,
                ErrorView,
            >(models.deep_view()),
            Err(e) => call_result(status, body@, decoded_models(body@)) == Err::<
                Seq<ModelView>,
                ErrorView,
            >(e@),
        },
{
    let text = match require_success(status, body) {
        Ok(text) => text,
        Err(e) => { return Err(e); },
    };
    match decode_models(text.as_str()) {
        Ok(response) => Ok(response.data),
        Err(e) => Err(e),
    }
}

/// Judges the reply to a chat completion and returns its choices in the order
/// of the reply.
pub fn chat_from_reply(status: u16, body: String) -> (r: Result<ChatResponse, CopilotError>)
    ensures
        match r {
            Ok(response) => call_result(status, body@, decoded_choices(body@)) == Ok::<
                Seq<ChatChoiceView>,
                ErrorView,
            >(response.choices.deep_view()),
            Err(e) => call_result(status, body@, decoded_choices(body@)) == Err::<
                Seq<ChatChoiceView>,
                ErrorView,
            >(e@),
        },
{
    let text = match require_success(status, body) {
        Ok(text) => text,
        Err(e) => { return Err(e); },
    };
    decode_chat_response(text.as_str())
}

/// Judges the reply to an embeddings call and returns the embeddings in the
/// order of the reply.
pub fn embeddings_from_reply(status: u16, body: String) -> (r: Result<
    Vec<Embedding>,
    CopilotError,
>)
    ensures
        match r {
            Ok(embeddings) => call_result(status, body@, decoded_embeddings(body@)) == Ok::<
                Seq<EmbeddingView>,
                ErrorView,
            >(embeddings.deep_view()),
            Err(e) => call_result(status, body@, decoded_embeddings(body@)) == Err::<
                Seq<EmbeddingView>,
                ErrorView,
            >(e@),
        },
{
    let text = match require_success(status, body) {
        Ok(text) => text,
        Err(e) => { return Err(e); },
    };
    match decode_embeddings(text.as_str()) {
        Ok(response) => Ok(response.data),
        Err(e) => Err(e),
    }
}

/// Tells whether the embeddings answer `inputs` inputs one for one and in their
/// order: as many embeddings as inputs, the embedding at each position
/// carrying that position as its index.
pub fn in_input_order(embeddings: &Vec<Embedding>, inputs: usize) -> (ordered: bool)
    ensures
        ordered == answers_in_order(embeddings.deep_view(), inputs as int),
{
    if embeddings.len() != inputs {
        return false;
    }
    let mut i: usize = 0;
    while i < embeddings.len()
        invariant
            i <= embeddings.len(),
            embeddings.len() == inputs,
            forall|j: int| 0 <= j < i ==> (#[trigger] embeddings.deep_view()[j]).index == j,
        decreases embeddings.len() - i,
    {
        if embeddings[i].index != i {
            assert(embeddings.deep_view()[i as int].index != i);
            return false;
        }
        i += 1;
    }
    true
}

/// A client of the service: the identity token, the editor version that it
/// reports and, where one was fetched, the catalog of models that it checks
/// model ids against. None of them changes once the client is made.
pub struct CopilotClient {
    github_token: String,
    editor_version: String,
    models: Option<Vec<Model>>,
}

/// The mathematical content of a [`CopilotClient`].
pub struct ClientView {
    pub identity_token: Seq<char>,
    pub editor_version: Seq<char>,
    pub catalog: Option<Seq<Model>>,
}

impl View for CopilotClient {
    type V = ClientView;

    closed spec fn view(&self) -> ClientView {
        ClientView {
            identity_token: self.github_token@,
            editor_version: self.editor_version@,
            catalog: match self.models {
                Some(models) => Some(models@),
                None => None,
            },
        }
    }
}

impl CopilotClient {
    /// Makes a client from an identity token and an editor version, with no
    /// catalog.
    pub fn new(github_token: String, editor_version: String) -> (client: Self)
        ensures
            client@.identity_token == github_token@,
            client@.editor_version == editor_version@,
            client@.catalog.is_none(),
    {
        CopilotClient { github_token, editor_version, models: None }
    }

    /// Makes a client whose identity token is resolved from a snapshot of the
    /// environment and of the candidate files.
    pub fn from_env(editor_version: String, env: &Environment, files: &Vec<Option<String>>) -> (r:
        Result<Self, CopilotError>)
        ensures
            match r {
                Ok(client) => {
                    &&& resolved_token(env@, files.deep_view()) == Ok::<Seq<char>, ErrorView>(
                        client@.identity_token,
                    )
                    &&& client@.editor_version == editor_version@
                    &&& client@.catalog.is_none()
                },
                Err(e) => resolved_token(env@, files.deep_view()) == Err::<Seq<char>, ErrorView>(
                    e@,
                ),
            },
    {
        match get_github_token(env, files) {
            Ok(github_token) => Ok(CopilotClient::new(github_token, editor_version)),
            Err(e) => Err(e),
        }
    }

    /// Gives the client a fetched catalog, against which it checks model ids
    /// from then on.
    pub fn with_models(self, models: Vec<Model>) -> (client: Self)
        ensures
            client@.identity_token == self@.identity_token,
            client@.editor_version == self@.editor_version,
            client@.catalog == Some(models@),
    {
        CopilotClient {
            github_token: self.github_token,
            editor_version: self.editor_version,
            models: Some(models),
        }
    }

    /// Checks a model id against the catalog. Fails with `ModelNotFound` exactly
    /// where a catalog was fetched and lists no model of that id.
    pub fn check_model(&self, model_id: &str) -> (r: Result<(), CopilotError>)
        ensures
            match r {
                Ok(_) => admits_model(self@.catalog, model_id@),
                Err(e) => !admits_model(self@.catalog, model_id@) && e@
                    == (ErrorView::ModelNotFound { requested_id: model_id@ }),
            },
    {
        let models = match &self.models {
            Some(models) => models,
            None => { return Ok(()); },
        };
        let wanted = String::from_str(model_id);
        let mut i: usize = 0;
        while i < models.len()
            invariant
                i <= models.len(),
                wanted@ == model_id@,
                self@.catalog == Some(models@),
                forall|j: int| 0 <= j < i ==> (#[trigger] models[j]).id@ != model_id@,
            decreases models.len() - i,
        {
            if models[i].id == wanted {
                assert(models@[i as int].id@ == model_id@);
                return Ok(());
            }
            i += 1;
        }
        Err(CopilotError::ModelNotFound { requested_id: wanted })
    }

    /// Builds the request of the token exchange: a `GET` of the token endpoint
    /// that carries the identity token. Fails exactly where the identity token
    /// holds a control character other than the tab.
    pub fn token_request(&self) -> (r: Result<HttpRequest, CopilotError>)
        ensures
            match r {
                Ok(request) => {
                    &&& header_text_ok(self@.identity_token)
                    &&& request_is(
                        request,
                        Method::Get,
                        token_url(),
                        exchange_headers(self@.identity_token),
                    )
                    &&& request.body == RequestBody::Empty
                },
                Err(e) => {
                    &&& !header_text_ok(self@.identity_token)
                    &&& e@ == ErrorView::HeaderConstruction
                },
            },
    {
        match token_headers(self.github_token.as_str()) {
            Ok(headers) => Ok(
                HttpRequest {
                    method: Method::Get,
                    url: String::from_str("https://api.github.com/copilot_internal/v2/token"),
                    headers,
                    body: RequestBody::Empty,
                },
            ),
            Err(e) => Err(e),
        }
    }

    /// Builds the headers of a call to the service from a session token and the
    /// editor version of the client.
    pub fn get_headers(&self, session_token: &str) -> (r: Result<HeaderMap, CopilotError>)
        ensures
            match r {
                Ok(headers) => call_headers_ok(session_token@, self@.editor_version)
                    && header_entries(headers) == call_headers(
                    session_token@,
                    self@.editor_version,
                ),
                Err(e) => !call_headers_ok(session_token@, self@.editor_version) && e@
                    == ErrorView::HeaderConstruction,
            },
    {
        build_headers(session_token, self.editor_version.as_str())
    }

    /// Builds a request to the service: the headers of a call, and the method,
    /// address and body as given.
    fn service_request(&self, session_token: &str, method: Method, url: &str, body: RequestBody) -> (r:
        Result<HttpRequest, CopilotError>)
        ensures
            match r {
                Ok(request) => {
                    &&& call_headers_ok(session_token@, self@.editor_version)
                    &&& request_is(
                        request,
                        method,
                        url@,
                        call_headers(session_token@, self@.editor_version),
                    )
                    &&& request.body == body
                },
                Err(e) => !call_headers_ok(session_token@, self@.editor_version) && e@
                    == ErrorView::HeaderConstruction,
            },
    {
        match self.get_headers(session_token) {
            Ok(headers) => Ok(HttpRequest { method, url: String::from_str(url), headers, body }),
            Err(e) => Err(e),
        }
    }

    /// Builds the request that lists the agents: a `GET` without a body.
    pub fn get_agents(&self, session_token: &str) -> (r: Result<HttpRequest, CopilotError>)
        ensures
            match r {
                Ok(request) => {
                    &&& call_headers_ok(session_token@, self@.editor_version)
                    &&& request_is(
                        request,
                        Method::Get,
                        agents_url(),
                        call_headers(session_token@, self@.editor_version),
                    )
                    &&& request.body == RequestBody::Empty
                },
                Err(e) => !call_headers_ok(session_token@, self@.editor_version) && e@
                    == ErrorView::HeaderConstruction,
            },
    {
        self.service_request(
            session_token,
            Method::Get,
            "https://api.githubcopilot.com/agents",
            RequestBody::Empty,
        )
    }

    /// Builds the request that lists the models: a `GET` without a body.
    pub fn get_models(&self, session_token: &str) -> (r: Result<HttpRequest, CopilotError>)
        ensures
            match r {
                Ok(request) => {
                    &&& call_headers_ok(session_token@, self@.editor_version)
                    &&& request_is(
                        request,
                        Method::Get,
                        models_url(),
                        call_headers(session_token@, self@.editor_version),
                    )
                    &&& request.body == RequestBody::Empty
                },
                Err(e) => !call_headers_ok(session_token@, self@.editor_version) && e@
                    == ErrorView::HeaderConstruction,
            },
    {
        self.service_request(
            session_token,
            Method::Get,
            "https://api.githubcopilot.com/models",
            RequestBody::Empty,
        )
    }

    /// Builds the request of a chat completion: a `POST` of the messages, in
    /// their order, with the fixed sampling parameters. A model that the
    /// catalog does not admit fails with `ModelNotFound` and yields no request,
    /// whatever the session token holds.
    pub fn chat_completion(&self, session_token: &str, messages: Vec<Message>, model_id: String) -> (r:
        Result<HttpRequest, CopilotError>)
        ensures
            match r {
                Ok(request) => {
                    &&& admits_model(self@.catalog, model_id@)
                    &&& call_headers_ok(session_token@, self@.editor_version)
                    &&& request_is(
                        request,
                        Method::Post,
                        chat_url(),
                        call_headers(session_token@, self@.editor_version),
                    )
                    &&& request.body == RequestBody::Chat(chat_body(messages, model_id))
                },
                Err(e) => if !admits_model(self@.catalog, model_id@) {
                    e@ == (ErrorView::ModelNotFound { requested_id: model_id@ })
                } else {
                    !call_headers_ok(session_token@, self@.editor_version) && e@
                        == ErrorView::HeaderConstruction
                },
            },
    {
        if let Err(e) = self.check_model(model_id.as_str()) {
            return Err(e);
        }
        let body = ChatRequest {
            model: model_id,
            messages,
            n: 1,
            top_p_permille: 1000,
            stream: false,
            temperature_permille: 500,
            max_tokens: None,
        };
        self.service_request(
            session_token,
            Method::Post,
            "https://api.githubcopilot.com/chat/completions",
            RequestBody::Chat(body),
        )
    }

    /// Builds the request for the embeddings of the inputs, in their order: a
    /// `POST` that asks the small embedding model for 512 dimensions.
    pub fn get_embeddings(&self, session_token: &str, inputs: Vec<String>) -> (r: Result<
        HttpRequest,
        CopilotError,
    >)
        ensures
            match r {
                Ok(request) => {
                    &&& call_headers_ok(session_token@, self@.editor_version)
                    &&& request_is(
                        request,
                        Method::Post,
                        embeddings_url(),
                        call_headers(session_token@, self@.editor_version),
                    )
                    &&& request.body matches RequestBody::Embeddings(body)
                    &&& is_embedding_body(body, inputs)
                },
                Err(e) => !call_headers_ok(session_token@, self@.editor_version) && e@
                    == ErrorView::HeaderConstruction,
            },
    {
        let body = EmbeddingRequest {
            dimensions: 512,
            input: inputs,
            model: String::from_str("text-embedding-3-small"),
        };
        self.service_request(
            session_token,
            Method::Post,
            "https://api.githubcopilot.com/embeddings",
            RequestBody::Embeddings(body),
        )
    }
}

} // verus!
