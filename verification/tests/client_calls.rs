use copilot_client::client::{
    agents_from_reply, chat_from_reply, embeddings_from_reply, get_copilot_token, in_input_order,
    models_from_reply, require_success,
};
use copilot_client::decode::{
    decode_agent, decode_agents, decode_chat_response, decode_choice, decode_embedding,
    decode_embeddings, decode_message, decode_model, decode_models, decode_token_response,
    decode_usage,
};
use copilot_client::{
    Agent, ChatChoice, ChatRequest, CopilotClient, CopilotError, CopilotTokenResponse, Embedding,
    EmbeddingRequest, Environment, Message, Method, Model, RequestBody, TokenUsage,
};

fn client() -> CopilotClient {
    CopilotClient::new("gho_identity".to_string(), "Neovim/0.9.0".to_string())
}

fn model(id: &str) -> Model {
    Model {
        id: id.to_string(),
        name: id.to_uppercase(),
        version: None,
        tokenizer: None,
        max_input_tokens: None,
        max_output_tokens: None,
    }
}

fn messages() -> Vec<Message> {
    vec![
        Message { role: "system".to_string(), content: "You are terse.".to_string() },
        Message { role: "user".to_string(), content: "Hello?".to_string() },
    ]
}

fn header(request: &copilot_client::HttpRequest, name: &str) -> String {
    String::from_utf8(request.headers.get(name).unwrap().as_bytes().to_vec()).unwrap()
}

fn decode_error(cause: &str) -> CopilotError {
    CopilotError::Decode { cause: cause.to_string() }
}

#[test]
fn token_request_goes_to_the_token_endpoint() {
    let request = client().token_request().unwrap();
    assert_eq!(request.method, Method::Get);
    assert_eq!(request.url, "https://api.github.com/copilot_internal/v2/token");
    assert_eq!(request.body, RequestBody::Empty);
    assert_eq!(request.headers.len(), 3);
    assert_eq!(header(&request, "authorization"), "Token gho_identity");
    assert_eq!(header(&request, "user-agent"), "CopilotChat.nvim");
    assert_eq!(header(&request, "accept"), "application/json");
}

#[test]
fn token_request_fails_on_a_malformed_identity_token() {
    let client = CopilotClient::new("gho\r\n".to_string(), "e".to_string());
    assert_eq!(client.token_request().unwrap_err(), CopilotError::HeaderConstruction);
}

#[test]
fn token_exchange_reports_the_exact_status() {
    assert_eq!(
        get_copilot_token(401, "bad credentials".to_string()),
        Err(CopilotError::UpstreamAuth { status: 401, body: "bad credentials".to_string() })
    );
    assert_eq!(
        get_copilot_token(500, String::new()),
        Err(CopilotError::UpstreamAuth { status: 500, body: String::new() })
    );
    let good = r#"{"token":"abc","expires_at":123}"#;
    assert_eq!(
        get_copilot_token(302, good.to_string()),
        Err(CopilotError::UpstreamAuth { status: 302, body: good.to_string() })
    );
    assert_eq!(
        get_copilot_token(199, good.to_string()),
        Err(CopilotError::UpstreamAuth { status: 199, body: good.to_string() })
    );
}

#[test]
fn token_exchange_yields_the_session_token() {
    let body = r#"{"token":"abc","expires_at":123}"#;
    assert_eq!(get_copilot_token(200, body.to_string()), Ok("abc".to_string()));
    assert_eq!(get_copilot_token(299, body.to_string()), Ok("abc".to_string()));
    assert_eq!(
        decode_token_response(body),
        Ok(CopilotTokenResponse { token: "abc".to_string(), expires_at: 123 })
    );
}

#[test]
fn token_reply_ignores_other_fields() {
    let body = r#"{"sku":"free","expires_at":18446744073709551615,"token":"t;x=1","refresh_in":1500}"#;
    assert_eq!(
        decode_token_response(body),
        Ok(CopilotTokenResponse { token: "t;x=1".to_string(), expires_at: u64::MAX })
    );
}

#[test]
fn token_reply_of_the_wrong_shape() {
    assert_eq!(
        decode_token_response(r#"{"expires_at":123}"#),
        Err(decode_error("token: expected a string"))
    );
    assert_eq!(
        decode_token_response(r#"{"token":7,"expires_at":123}"#),
        Err(decode_error("token: expected a string"))
    );
    assert_eq!(
        decode_token_response(r#"{"token":"abc"}"#),
        Err(decode_error("expires_at: expected an unsigned integer"))
    );
    assert_eq!(
        decode_token_response(r#"{"token":"abc","expires_at":-1}"#),
        Err(decode_error("expires_at: expected an unsigned integer"))
    );
    assert_eq!(
        decode_token_response(r#"{"token":"abc","expires_at":1.5}"#),
        Err(decode_error("expires_at: expected an unsigned integer"))
    );
    assert_eq!(
        decode_token_response(r#"{"token":"abc","expires_at":"123"}"#),
        Err(decode_error("expires_at: expected an unsigned integer"))
    );
    assert_eq!(decode_token_response("[]"), Err(decode_error("token: expected a string")));
}

#[test]
fn token_reply_that_is_no_json() {
    let cause = serde_json::from_str::<serde_json::Value>("<html>").unwrap_err().to_string();
    assert_eq!(get_copilot_token(200, "<html>".to_string()), Err(decode_error(&cause)));
}

#[test]
fn success_is_200_to_299() {
    assert_eq!(require_success(200, "a".to_string()), Ok("a".to_string()));
    assert_eq!(require_success(204, String::new()), Ok(String::new()));
    assert_eq!(require_success(299, "z".to_string()), Ok("z".to_string()));
    for status in [0u16, 100, 199, 300, 304, 400, 404, 429, 500, 599, 999, u16::MAX] {
        assert_eq!(
            require_success(status, "raw body".to_string()),
            Err(CopilotError::UpstreamRequest { status, body: "raw body".to_string() })
        );
    }
}

#[test]
fn call_headers_use_the_editor_version_of_the_client() {
    let headers = client().get_headers("abc").unwrap();
    assert_eq!(headers.len(), 6);
    assert_eq!(headers.get("authorization").unwrap().as_bytes(), b"Bearer abc");
    assert_eq!(headers.get("editor-version").unwrap().as_bytes(), b"Neovim/0.9.0");
    assert_eq!(client().get_headers("a\nb").unwrap_err(), CopilotError::HeaderConstruction);
}

#[test]
fn agents_request() {
    let request = client().get_agents("abc").unwrap();
    assert_eq!(request.method, Method::Get);
    assert_eq!(request.url, "https://api.githubcopilot.com/agents");
    assert_eq!(request.body, RequestBody::Empty);
    assert_eq!(request.headers.len(), 6);
    assert_eq!(header(&request, "authorization"), "Bearer abc");
    assert_eq!(header(&request, "editor-version"), "Neovim/0.9.0");
}

#[test]
fn models_request() {
    let request = client().get_models("abc").unwrap();
    assert_eq!(request.method, Method::Get);
    assert_eq!(request.url, "https://api.githubcopilot.com/models");
    assert_eq!(request.body, RequestBody::Empty);
    assert_eq!(header(&request, "authorization"), "Bearer abc");
}

#[test]
fn requests_never_carry_the_identity_token() {
    let request = client().chat_completion("abc", messages(), "gpt-4o".to_string()).unwrap();
    for value in request.headers.values() {
        assert!(!String::from_utf8_lossy(value.as_bytes()).contains("gho_identity"));
    }
}

#[test]
fn chat_request_has_the_fixed_sampling_parameters() {
    let request = client().chat_completion("abc", messages(), "gpt-4o".to_string()).unwrap();
    assert_eq!(request.method, Method::Post);
    assert_eq!(request.url, "https://api.githubcopilot.com/chat/completions");
    assert_eq!(header(&request, "authorization"), "Bearer abc");
    assert_eq!(
        request.body,
        RequestBody::Chat(ChatRequest {
            model: "gpt-4o".to_string(),
            messages: messages(),
            n: 1,
            top_p_permille: 1000,
            stream: false,
            temperature_permille: 500,
            max_tokens: None,
        })
    );
}

#[test]
fn chat_request_without_catalog_takes_any_model() {
    assert!(client().check_model("does-not-exist").is_ok());
    assert!(client().chat_completion("abc", Vec::new(), "does-not-exist".to_string()).is_ok());
}

#[test]
fn unknown_model_is_rejected_before_any_request() {
    let client = client().with_models(vec![model("gpt-4o"), model("gemini-2.0-flash-001")]);
    let not_found = CopilotError::ModelNotFound { requested_id: "does-not-exist".to_string() };
    assert_eq!(client.check_model("does-not-exist"), Err(not_found.clone()));
    assert_eq!(
        client.chat_completion("abc", messages(), "does-not-exist".to_string()).unwrap_err(),
        not_found
    );
    assert_eq!(
        client.chat_completion("bad\ntoken", messages(), "does-not-exist".to_string()).unwrap_err(),
        not_found
    );
}

#[test]
fn known_model_passes_the_catalog() {
    let client = client().with_models(vec![model("gpt-4o"), model("gemini-2.0-flash-001")]);
    assert_eq!(client.check_model("gpt-4o"), Ok(()));
    assert_eq!(client.check_model("gemini-2.0-flash-001"), Ok(()));
    assert!(client.check_model("gpt-4").is_err());
    assert!(client.check_model("GPT-4O").is_err());
    let request =
        client.chat_completion("abc", messages(), "gemini-2.0-flash-001".to_string()).unwrap();
    assert!(matches!(request.body, RequestBody::Chat(ref body) if body.model == "gemini-2.0-flash-001"));
    assert_eq!(
        client.chat_completion("a\u{7f}", messages(), "gpt-4o".to_string()).unwrap_err(),
        CopilotError::HeaderConstruction
    );
}

#[test]
fn empty_catalog_admits_no_model() {
    let client = client().with_models(Vec::new());
    assert_eq!(
        client.check_model("gpt-4o"),
        Err(CopilotError::ModelNotFound { requested_id: "gpt-4o".to_string() })
    );
}

#[test]
fn embeddings_request_has_the_fixed_model_and_size() {
    let inputs = vec!["one".to_string(), "two".to_string(), "three".to_string()];
    let request = client().get_embeddings("abc", inputs.clone()).unwrap();
    assert_eq!(request.method, Method::Post);
    assert_eq!(request.url, "https://api.githubcopilot.com/embeddings");
    assert_eq!(
        request.body,
        RequestBody::Embeddings(EmbeddingRequest {
            dimensions: 512,
            input: inputs,
            model: "text-embedding-3-small".to_string(),
        })
    );
    assert_eq!(
        client().get_embeddings("\n", Vec::new()).unwrap_err(),
        CopilotError::HeaderConstruction
    );
}

#[test]
fn client_from_a_snapshot_of_the_environment() {
    let env = Environment {
        github_token: Some("ghu_env".to_string()),
        codespaces: true,
        xdg_config_home: None,
        local_app_data: None,
        home: None,
        windows: false,
    };
    let client = CopilotClient::from_env("Neovim/0.9.0".to_string(), &env, &Vec::new()).unwrap();
    let request = client.token_request().unwrap();
    assert_eq!(header(&request, "authorization"), "Token ghu_env");
    let headers = client.get_headers("s").unwrap();
    assert_eq!(headers.get("editor-version").unwrap().as_bytes(), b"Neovim/0.9.0");
    assert!(client.check_model("anything").is_ok());
    let none = Environment { github_token: None, codespaces: false, ..env };
    assert_eq!(
        CopilotClient::from_env("e".to_string(), &none, &Vec::new()).err(),
        Some(CopilotError::ConfigDirectoryNotFound)
    );
}

#[test]
fn chat_round_trip_keeps_the_finish_reason() {
    let client = client();
    let request = client.chat_completion("abc", messages(), "gpt-4o".to_string()).unwrap();
    assert!(matches!(request.body, RequestBody::Chat(ref body) if body.messages == messages()));
    let reply = r#"{"choices":[{"message":{"role":"assistant","content":"Hi."},"finish_reason":"stop"}]}"#;
    let response = chat_from_reply(200, reply.to_string()).unwrap();
    assert_eq!(
        response.choices,
        vec![ChatChoice {
            message: Message { role: "assistant".to_string(), content: "Hi.".to_string() },
            finish_reason: Some("stop".to_string()),
            usage: None,
        }]
    );
}

#[test]
fn chat_reply_with_usage_and_several_choices() {
    let reply = r#"{"id":"x","choices":[
        {"index":0,"message":{"role":"assistant","content":"A"},"finish_reason":null,"usage":{"total_tokens":42}},
        {"message":{"content":"B","role":"assistant"},"usage":null}
    ]}"#;
    let response = decode_chat_response(reply).unwrap();
    assert_eq!(
        response.choices,
        vec![
            ChatChoice {
                message: Message { role: "assistant".to_string(), content: "A".to_string() },
                finish_reason: None,
                usage: Some(TokenUsage { total_tokens: 42 }),
            },
            ChatChoice {
                message: Message { role: "assistant".to_string(), content: "B".to_string() },
                finish_reason: None,
                usage: None,
            },
        ]
    );
    assert_eq!(decode_chat_response(r#"{"choices":[]}"#).unwrap().choices, Vec::new());
}

#[test]
fn chat_reply_of_the_wrong_shape() {
    assert_eq!(decode_chat_response("{}"), Err(decode_error("choices: expected an array")));
    assert_eq!(
        decode_chat_response(r#"{"choices":{}}"#),
        Err(decode_error("choices: expected an array"))
    );
    assert_eq!(
        decode_chat_response(r#"{"choices":[{"finish_reason":"stop"}]}"#),
        Err(decode_error("message: expected an object"))
    );
    assert_eq!(
        decode_chat_response(r#"{"choices":[{"message":{"role":"assistant"}}]}"#),
        Err(decode_error("content: expected a string"))
    );
    assert_eq!(
        decode_chat_response(r#"{"choices":[{"message":"hi"}]}"#),
        Err(decode_error("role: expected a string"))
    );
    assert_eq!(
        decode_chat_response(
            r#"{"choices":[{"message":{"role":"a","content":"b"},"finish_reason":3}]}"#
        ),
        Err(decode_error("finish_reason: expected a string or null"))
    );
    assert_eq!(
        decode_chat_response(
            r#"{"choices":[{"message":{"role":"a","content":"b"},"usage":{"total_tokens":4294967296}}]}"#
        ),
        Err(decode_error("total_tokens: expected an unsigned integer of 32 bits"))
    );
    assert_eq!(
        decode_chat_response(r#"{"choices":[{"message":{"role":"a","content":"b"},"usage":{}}]}"#),
        Err(decode_error("total_tokens: expected an unsigned integer of 32 bits"))
    );
}

#[test]
fn first_bad_choice_decides_the_error() {
    let reply = r#"{"choices":[
        {"message":{"role":"a","content":"b"}},
        {"message":{"role":"a"}},
        {"message":{"content":"c"}}
    ]}"#;
    assert_eq!(decode_chat_response(reply), Err(decode_error("content: expected a string")));
}

#[test]
fn chat_reply_with_a_failure_status() {
    let reply = r#"{"choices":[]}"#;
    assert_eq!(
        chat_from_reply(429, reply.to_string()),
        Err(CopilotError::UpstreamRequest { status: 429, body: reply.to_string() })
    );
    let cause = serde_json::from_str::<serde_json::Value>("oops").unwrap_err().to_string();
    assert_eq!(chat_from_reply(200, "oops".to_string()), Err(decode_error(&cause)));
}

#[test]
fn agents_reply() {
    let reply = r#"{"agents":[{"id":"a1","name":"Docs","description":"Reads docs"},{"id":"a2","name":"Plain"},{"id":"a3","name":"Null","description":null}]}"#;
    let expected = vec![
        Agent {
            id: "a1".to_string(),
            name: "Docs".to_string(),
            description: Some("Reads docs".to_string()),
        },
        Agent { id: "a2".to_string(), name: "Plain".to_string(), description: None },
        Agent { id: "a3".to_string(), name: "Null".to_string(), description: None },
    ];
    assert_eq!(agents_from_reply(200, reply.to_string()), Ok(expected.clone()));
    assert_eq!(decode_agents(reply).unwrap().agents, expected);
    assert_eq!(
        agents_from_reply(503, reply.to_string()),
        Err(CopilotError::UpstreamRequest { status: 503, body: reply.to_string() })
    );
    assert_eq!(
        decode_agents(r#"{"agents":[{"id":"a1"}]}"#),
        Err(decode_error("name: expected a string"))
    );
    assert_eq!(
        decode_agents(r#"{"agents":[{"id":"a1","name":"n","description":1}]}"#),
        Err(decode_error("description: expected a string or null"))
    );
    assert_eq!(decode_agents(r#"{"data":[]}"#), Err(decode_error("agents: expected an array")));
}

#[test]
fn models_reply() {
    let reply = r#"{"data":[
        {"id":"gpt-4o","name":"GPT 4o","version":"2024-05","tokenizer":"o200k","max_input_tokens":128000,"max_output_tokens":4096},
        {"id":"small","name":"Small","capabilities":{"family":"x"}}
    ]}"#;
    let expected = vec![
        Model {
            id: "gpt-4o".to_string(),
            name: "GPT 4o".to_string(),
            version: Some("2024-05".to_string()),
            tokenizer: Some("o200k".to_string()),
            max_input_tokens: Some(128000),
            max_output_tokens: Some(4096),
        },
        Model {
            id: "small".to_string(),
            name: "Small".to_string(),
            version: None,
            tokenizer: None,
            max_input_tokens: None,
            max_output_tokens: None,
        },
    ];
    assert_eq!(models_from_reply(200, reply.to_string()), Ok(expected.clone()));
    assert_eq!(decode_models(reply).unwrap().data, expected);
    assert_eq!(
        decode_models(r#"{"data":[{"id":"m","name":"n","max_input_tokens":-5}]}"#),
        Err(decode_error("max_input_tokens: expected an unsigned integer of 32 bits or null"))
    );
    assert_eq!(
        decode_models(r#"{"data":[{"id":"m","name":"n","max_output_tokens":4294967296}]}"#),
        Err(decode_error("max_output_tokens: expected an unsigned integer of 32 bits or null"))
    );
    assert_eq!(
        decode_models(r#"{"data":[{"id":"m","name":"n","max_output_tokens":4294967295}]}"#)
            .unwrap()
            .data[0]
            .max_output_tokens,
        Some(u32::MAX)
    );
    assert_eq!(
        decode_models(r#"{"data":[{"id":"m","name":"n","version":2}]}"#),
        Err(decode_error("version: expected a string or null"))
    );
}

#[test]
fn fetched_catalog_checks_models() {
    let reply = r#"{"data":[{"id":"gpt-4o","name":"GPT 4o"}]}"#;
    let client = client().with_models(models_from_reply(200, reply.to_string()).unwrap());
    assert!(client.check_model("gpt-4o").is_ok());
    assert_eq!(
        client.check_model("does-not-exist"),
        Err(CopilotError::ModelNotFound { requested_id: "does-not-exist".to_string() })
    );
}

#[test]
fn embeddings_come_back_in_input_order() {
    let inputs = vec!["one".to_string(), "two".to_string(), "three".to_string()];
    let request = client().get_embeddings("abc", inputs.clone()).unwrap();
    assert!(matches!(request.body, RequestBody::Embeddings(ref body) if body.input == inputs));
    let reply = r#"{"data":[{"index":0,"embedding":[0.5,-1.0]},{"index":1,"embedding":[2]},{"index":2,"embedding":[]}]}"#;
    let embeddings = embeddings_from_reply(200, reply.to_string()).unwrap();
    assert_eq!(
        embeddings,
        vec![
            Embedding { index: 0, embedding: vec![0.5f64.to_bits(), (-1.0f64).to_bits()] },
            Embedding { index: 1, embedding: vec![2.0f64.to_bits()] },
            Embedding { index: 2, embedding: Vec::new() },
        ]
    );
    assert_eq!(embeddings[0].embedding[0], 0x3fe0_0000_0000_0000);
    assert_eq!(f64::from_bits(embeddings[0].embedding[1]), -1.0);
    let indices: Vec<usize> = embeddings.iter().map(|e| e.index).collect();
    assert_eq!(indices, vec![0, 1, 2]);
    assert!(in_input_order(&embeddings, inputs.len()));
}

#[test]
fn embeddings_out_of_order_are_told_apart() {
    let reply = r#"{"data":[{"index":1,"embedding":[1.0]},{"index":0,"embedding":[2.0]}]}"#;
    let embeddings = decode_embeddings(reply).unwrap().data;
    assert_eq!(embeddings[0].index, 1);
    assert_eq!(embeddings[1].index, 0);
    assert!(!in_input_order(&embeddings, 2));
    let two = decode_embeddings(
        r#"{"data":[{"index":0,"embedding":[1.0]},{"index":1,"embedding":[2.0]}]}"#,
    )
    .unwrap()
    .data;
    assert!(in_input_order(&two, 2));
    assert!(!in_input_order(&two, 3));
    assert!(!in_input_order(&two, 1));
    assert!(in_input_order(&Vec::new(), 0));
}

#[test]
fn embeddings_reply_of_the_wrong_shape() {
    assert_eq!(
        decode_embeddings(r#"{"data":[{"embedding":[1.0]}]}"#),
        Err(decode_error("index: expected a position"))
    );
    assert_eq!(
        decode_embeddings(r#"{"data":[{"index":-1,"embedding":[1.0]}]}"#),
        Err(decode_error("index: expected a position"))
    );
    assert_eq!(
        decode_embeddings(r#"{"data":[{"index":0}]}"#),
        Err(decode_error("embedding: expected an array"))
    );
    assert_eq!(
        decode_embeddings(r#"{"data":[{"index":0,"embedding":[1.0,"x"]}]}"#),
        Err(decode_error("embedding: expected numbers"))
    );
    assert_eq!(decode_embeddings(r#"{"data":7}"#), Err(decode_error("data: expected an array")));
    assert_eq!(
        embeddings_from_reply(400, "bad request".to_string()),
        Err(CopilotError::UpstreamRequest { status: 400, body: "bad request".to_string() })
    );
}

#[test]
fn single_documents_decode_by_their_fields() {
    let doc = |text: &str| serde_json::from_str::<serde_json::Value>(text).unwrap();
    assert_eq!(
        decode_agent(&doc(r#"{"name":"N","id":"i","extra":true}"#)),
        Ok(Agent { id: "i".to_string(), name: "N".to_string(), description: None })
    );
    assert_eq!(decode_agent(&doc("null")), Err(decode_error("id: expected a string")));
    assert_eq!(decode_model(&doc(r#"{"id":"m","name":"M","tokenizer":null}"#)), Ok(model_named("m", "M")));
    assert_eq!(
        decode_message(&doc(r#"{"role":"user","content":""}"#)),
        Ok(Message { role: "user".to_string(), content: String::new() })
    );
    assert_eq!(decode_usage(&doc(r#"{"total_tokens":0}"#)), Ok(TokenUsage { total_tokens: 0 }));
    assert_eq!(
        decode_usage(&doc(r#"{"total_tokens":"7"}"#)),
        Err(decode_error("total_tokens: expected an unsigned integer of 32 bits"))
    );
    assert_eq!(
        decode_choice(&doc(r#"{"message":{"role":"assistant","content":"x"},"finish_reason":"length"}"#)),
        Ok(ChatChoice {
            message: Message { role: "assistant".to_string(), content: "x".to_string() },
            finish_reason: Some("length".to_string()),
            usage: None,
        })
    );
    assert_eq!(
        decode_embedding(&doc(r#"{"index":3,"embedding":[1,-2,0.25]}"#)),
        Ok(Embedding {
            index: 3,
            embedding: vec![1.0f64.to_bits(), (-2.0f64).to_bits(), 0.25f64.to_bits()],
        })
    );
}

fn model_named(id: &str, name: &str) -> Model {
    Model {
        id: id.to_string(),
        name: name.to_string(),
        version: None,
        tokenizer: None,
        max_input_tokens: None,
        max_output_tokens: None,
    }
}
