use forge_provider::backend::{BackendCapability, ChatStreamSource};
use forge_provider::client::{is_valid_base_url, BackendKind, Client, InnerClient};
use forge_provider::domain::{
    BackendError, ChatCompletionMessage, ConstructionError, Context, ErrorKind, HttpConfig, Model,
    ModelId, Provider,
};
use forge_provider::retry::{into_retry, RetryConfig};
use forge_provider::transport::HttpTransport;

struct ScriptedStream {
    items: Vec<Result<ChatCompletionMessage, BackendError>>,
}

impl ChatStreamSource for ScriptedStream {
    fn next_item(&mut self) -> Option<Result<ChatCompletionMessage, BackendError>> {
        if self.items.is_empty() {
            None
        } else {
            Some(self.items.remove(0))
        }
    }
}

/// A test double: answers `list_models` from a script of canned responses,
/// counts the calls it receives, and streams canned chat items.
struct ScriptedBackend {
    calls: u32,
    responses: Vec<Result<Vec<Model>, BackendError>>,
    stream_items: Vec<Result<ChatCompletionMessage, BackendError>>,
    chat_fails: bool,
}

impl ScriptedBackend {
    fn with_responses(responses: Vec<Result<Vec<Model>, BackendError>>) -> ScriptedBackend {
        ScriptedBackend { calls: 0, responses, stream_items: Vec::new(), chat_fails: false }
    }
}

impl BackendCapability for ScriptedBackend {
    type Stream = ScriptedStream;

    fn build(_provider: &Provider, _version: &String) -> Result<Self, String> {
        Ok(ScriptedBackend::with_responses(Vec::new()))
    }

    fn list_models(&mut self, _transport: &HttpTransport) -> Result<Vec<Model>, BackendError> {
        self.calls += 1;
        if self.responses.is_empty() {
            Err(net_err("no scripted response"))
        } else {
            self.responses.remove(0)
        }
    }

    fn chat(
        &mut self,
        _transport: &HttpTransport,
        _model: &ModelId,
        _context: &Context,
    ) -> Result<ScriptedStream, BackendError> {
        if self.chat_fails {
            Err(BackendError {
                kind: ErrorKind::Http,
                status: Some(500),
                message: "internal error".to_string(),
            })
        } else {
            Ok(ScriptedStream { items: std::mem::take(&mut self.stream_items) })
        }
    }
}

/// A backend whose initialization always fails.
struct RefusingBackend;

impl BackendCapability for RefusingBackend {
    type Stream = ScriptedStream;

    fn build(_provider: &Provider, _version: &String) -> Result<Self, String> {
        Err("backend init failed".to_string())
    }

    fn list_models(&mut self, _transport: &HttpTransport) -> Result<Vec<Model>, BackendError> {
        Err(net_err("never initialized"))
    }

    fn chat(
        &mut self,
        _transport: &HttpTransport,
        _model: &ModelId,
        _context: &Context,
    ) -> Result<ScriptedStream, BackendError> {
        Err(net_err("never initialized"))
    }
}

fn model(id: &str, ctx: u64) -> Model {
    Model {
        id: ModelId { id: id.to_string() },
        name: None,
        context_length: Some(ctx),
        tools_supported: None,
    }
}

fn model_id(id: &str) -> ModelId {
    ModelId { id: id.to_string() }
}

fn net_err(msg: &str) -> BackendError {
    BackendError { kind: ErrorKind::Network, status: None, message: msg.to_string() }
}

fn openai_provider() -> Provider {
    Provider::OpenAI {
        url: "https://api.openai.com/v1/".to_string(),
        key: Some("test-key".to_string()),
        extra_headers: None,
    }
}

fn anthropic_provider() -> Provider {
    Provider::Anthropic {
        url: "https://api.anthropic.com/".to_string(),
        key: "test-key".to_string(),
    }
}

type ScriptedClient = Client<ScriptedBackend, ScriptedBackend>;

fn scripted_client(
    responses: Vec<Result<Vec<Model>, BackendError>>,
) -> ScriptedClient {
    let backend = ScriptedBackend::with_responses(responses);
    match Client::from_backend(
        InnerClient::OpenAICompat(backend),
        RetryConfig::default(),
        &HttpConfig::default(),
    ) {
        Ok(c) => c,
        Err(_) => panic!("transport construction failed"),
    }
}

fn backend_calls(c: &ScriptedClient) -> u32 {
    match c.backend() {
        InnerClient::OpenAICompat(b) => b.calls,
        InnerClient::Anthropic(b) => b.calls,
    }
}

#[test]
fn test_copilot_client_instantiation() {
    let provider = Provider::copilot("copilot-key".to_string());
    let client = match Client::<ScriptedBackend, ScriptedBackend>::new(
        provider,
        RetryConfig::default(),
        "dev".to_string(),
        &HttpConfig::default(),
    ) {
        Ok(c) => c,
        Err(_) => panic!("construction failed"),
    };
    match client.backend() {
        InnerClient::OpenAICompat(_) => {}
        _ => panic!("Copilot should be OpenAICompat (via OpenAI variant)"),
    }
}

#[test]
fn test_cache_initialization() {
    let client = match Client::<ScriptedBackend, ScriptedBackend>::new(
        openai_provider(),
        RetryConfig::default(),
        "dev".to_string(),
        &HttpConfig::default(),
    ) {
        Ok(c) => c,
        Err(_) => panic!("construction failed"),
    };
    assert!(client.cached_count() == 0);
    assert!(client.cached_model(&model_id("any")).is_none());
}

#[test]
fn test_refresh_models_method_exists() {
    let mut client = match Client::<ScriptedBackend, ScriptedBackend>::new(
        openai_provider(),
        RetryConfig::default(),
        "dev".to_string(),
        &HttpConfig::default(),
    ) {
        Ok(c) => c,
        Err(_) => panic!("construction failed"),
    };
    // The backend built by `new` has no scripted response, so the refresh
    // fails, as it would without a reachable API.
    let result = client.refresh_models();
    assert!(result.is_err());
}

#[test]
fn test_new_selects_openai_backend() {
    let client = match Client::<ScriptedBackend, ScriptedBackend>::new(
        openai_provider(),
        RetryConfig::default(),
        "dev".to_string(),
        &HttpConfig::default(),
    ) {
        Ok(c) => c,
        Err(_) => panic!("construction failed"),
    };
    assert!(client.backend_kind() == BackendKind::OpenAICompat);
}

#[test]
fn test_new_selects_anthropic_backend() {
    let client = match Client::<ScriptedBackend, ScriptedBackend>::new(
        anthropic_provider(),
        RetryConfig::default(),
        "dev".to_string(),
        &HttpConfig::default(),
    ) {
        Ok(c) => c,
        Err(_) => panic!("construction failed"),
    };
    assert!(client.backend_kind() == BackendKind::Anthropic);
}

#[test]
fn test_new_rejects_invalid_base_url() {
    let provider = Provider::OpenAI {
        url: "not-a-url".to_string(),
        key: None,
        extra_headers: None,
    };
    let result = Client::<ScriptedBackend, ScriptedBackend>::new(
        provider,
        RetryConfig::default(),
        "dev".to_string(),
        &HttpConfig::default(),
    );
    match result {
        Err(ConstructionError::InvalidBaseUrl { url }) => assert_eq!(url, "not-a-url"),
        _ => panic!("expected an invalid-base-URL error"),
    }
}

#[test]
fn test_new_reports_backend_init_failure() {
    let result = Client::<RefusingBackend, RefusingBackend>::new(
        openai_provider(),
        RetryConfig::default(),
        "dev".to_string(),
        &HttpConfig::default(),
    );
    match result {
        Err(ConstructionError::Backend { url, message }) => {
            assert_eq!(url, "https://api.openai.com/v1/");
            assert_eq!(message, "backend init failed");
        }
        _ => panic!("expected a backend initialization error"),
    }
}

#[test]
fn test_models_populates_cache_exactly() {
    let mut client = scripted_client(vec![Ok(vec![model("gpt-x", 100), model("gpt-y", 200)])]);
    let models = match client.models() {
        Ok(ms) => ms,
        Err(_) => panic!("models failed"),
    };
    assert_eq!(models.len(), 2);
    assert_eq!(models[0].id.id, "gpt-x");
    assert_eq!(models[1].id.id, "gpt-y");
    assert_eq!(client.cached_count(), 2);
    let cached_x = client.cached_model(&model_id("gpt-x"));
    match cached_x {
        Some(m) => assert_eq!(m.context_length, Some(100)),
        None => panic!("gpt-x should be cached"),
    }
    let cached_y = client.cached_model(&model_id("gpt-y"));
    match cached_y {
        Some(m) => assert_eq!(m.context_length, Some(200)),
        None => panic!("gpt-y should be cached"),
    }
    assert!(client.cached_model(&model_id("gpt-z")).is_none());
}

#[test]
fn test_failed_refresh_leaves_cache_unchanged() {
    let mut client = scripted_client(vec![
        Ok(vec![model("stable", 64)]),
        Err(net_err("connection reset")),
    ]);
    assert!(client.models().is_ok());
    assert_eq!(client.cached_count(), 1);
    let second = client.models();
    assert!(second.is_err());
    assert_eq!(client.cached_count(), 1);
    match client.cached_model(&model_id("stable")) {
        Some(m) => assert_eq!(m.context_length, Some(64)),
        None => panic!("cache lost its prior contents"),
    }
}

#[test]
fn test_model_cache_hit_answers_without_backend_call() {
    let mut client = scripted_client(vec![Ok(vec![model("m1", 8)])]);
    assert!(client.models().is_ok());
    assert_eq!(backend_calls(&client), 1);
    let found = match client.model(&model_id("m1")) {
        Ok(r) => r,
        Err(_) => panic!("lookup failed"),
    };
    match found {
        Some(m) => assert_eq!(m.context_length, Some(8)),
        None => panic!("m1 should be cached"),
    }
    assert_eq!(backend_calls(&client), 1);
}

#[test]
fn test_model_miss_on_cold_cache_refreshes_once() {
    let mut client = scripted_client(vec![Ok(vec![model("present", 1)])]);
    let found = match client.model(&model_id("absent")) {
        Ok(r) => r,
        Err(_) => panic!("lookup failed"),
    };
    assert!(found.is_none());
    assert_eq!(backend_calls(&client), 1);
    assert_eq!(client.cached_count(), 1);
}

#[test]
fn test_model_found_after_cold_refresh() {
    let mut client = scripted_client(vec![Ok(vec![model("fresh", 42)])]);
    let found = match client.model(&model_id("fresh")) {
        Ok(r) => r,
        Err(_) => panic!("lookup failed"),
    };
    match found {
        Some(m) => assert_eq!(m.context_length, Some(42)),
        None => panic!("fresh should be found after the refresh"),
    }
    assert_eq!(backend_calls(&client), 1);
    assert_eq!(client.cached_count(), 1);
}

#[test]
fn test_models_twice_same_cache() {
    let response = vec![model("a", 1), model("b", 2)];
    let mut client = scripted_client(vec![Ok(response.clone()), Ok(response)]);
    let first = match client.models() {
        Ok(ms) => ms,
        Err(_) => panic!("first call failed"),
    };
    let count_after_first = client.cached_count();
    let second = match client.models() {
        Ok(ms) => ms,
        Err(_) => panic!("second call failed"),
    };
    assert_eq!(first.len(), second.len());
    for (f, s) in first.iter().zip(second.iter()) {
        assert_eq!(f.id.id, s.id.id);
        assert_eq!(f.context_length, s.context_length);
    }
    assert_eq!(client.cached_count(), count_after_first);
    match client.cached_model(&model_id("a")) {
        Some(m) => assert_eq!(m.context_length, Some(1)),
        None => panic!("a should be cached"),
    }
}

#[test]
fn test_duplicate_ids_later_entry_wins() {
    let mut client = scripted_client(vec![Ok(vec![model("dup", 1), model("dup", 2)])]);
    assert!(client.models().is_ok());
    assert_eq!(client.cached_count(), 1);
    match client.cached_model(&model_id("dup")) {
        Some(m) => assert_eq!(m.context_length, Some(2)),
        None => panic!("dup should be cached"),
    }
}

#[test]
fn test_end_to_end_openai_scenario() {
    let mut client = scripted_client(vec![
        Ok(vec![model("gpt-x", 10), model("gpt-y", 20)]),
        Ok(vec![model("gpt-x", 10), model("gpt-y", 20)]),
    ]);
    let models = match client.models() {
        Ok(ms) => ms,
        Err(_) => panic!("models failed"),
    };
    assert_eq!(models.len(), 2);
    assert_eq!(models[0].id.id, "gpt-x");
    assert_eq!(models[1].id.id, "gpt-y");
    assert_eq!(client.cached_count(), 2);
    assert_eq!(backend_calls(&client), 1);

    let hit = match client.model(&model_id("gpt-x")) {
        Ok(r) => r,
        Err(_) => panic!("lookup failed"),
    };
    match hit {
        Some(m) => assert_eq!(m.context_length, Some(10)),
        None => panic!("gpt-x should be cached"),
    }
    assert_eq!(backend_calls(&client), 1);

    let miss = match client.model(&model_id("gpt-z")) {
        Ok(r) => r,
        Err(_) => panic!("lookup failed"),
    };
    assert!(miss.is_none());
    assert_eq!(backend_calls(&client), 2);
}

#[test]
fn test_stream_classifies_each_item_independently() {
    let backend = ScriptedBackend {
        calls: 0,
        responses: Vec::new(),
        stream_items: vec![
            Ok(ChatCompletionMessage { content: "one".to_string(), finish_reason: None }),
            Err(net_err("connection dropped")),
            Ok(ChatCompletionMessage {
                content: "three".to_string(),
                finish_reason: Some("stop".to_string()),
            }),
        ],
        chat_fails: false,
    };
    let mut client = match Client::from_backend(
        InnerClient::<ScriptedBackend, ScriptedBackend>::OpenAICompat(backend),
        RetryConfig::default(),
        &HttpConfig::default(),
    ) {
        Ok(c) => c,
        Err(_) => panic!("transport construction failed"),
    };
    let ctx = Context { messages: Vec::new() };
    let mut stream = match client.chat(&model_id("gpt-x"), &ctx) {
        Ok(s) => s,
        Err(_) => panic!("chat setup failed"),
    };

    match stream.next_message() {
        Some(Ok(m)) => assert_eq!(m.content, "one"),
        _ => panic!("first item should arrive unmodified"),
    }
    match stream.next_message() {
        Some(Err(e)) => {
            assert!(e.retryable);
            assert!(e.cause.kind == ErrorKind::Network);
            assert_eq!(e.cause.message, "connection dropped");
        }
        _ => panic!("second item should be a classified error"),
    }
    match stream.next_message() {
        Some(Ok(m)) => {
            assert_eq!(m.content, "three");
            assert_eq!(m.finish_reason, Some("stop".to_string()));
        }
        _ => panic!("third item should still be delivered"),
    }
    assert!(stream.next_message().is_none());
}

#[test]
fn test_chat_setup_failure_is_classified() {
    let backend = ScriptedBackend {
        calls: 0,
        responses: Vec::new(),
        stream_items: Vec::new(),
        chat_fails: true,
    };
    let mut client = match Client::from_backend(
        InnerClient::<ScriptedBackend, ScriptedBackend>::OpenAICompat(backend),
        RetryConfig::default(),
        &HttpConfig::default(),
    ) {
        Ok(c) => c,
        Err(_) => panic!("transport construction failed"),
    };
    let ctx = Context { messages: Vec::new() };
    match client.chat(&model_id("gpt-x"), &ctx) {
        Err(e) => {
            assert!(e.retryable);
            assert!(e.cause.kind == ErrorKind::Http);
            assert_eq!(e.cause.status, Some(500));
            assert_eq!(e.max_attempts, 3);
        }
        Ok(_) => panic!("chat setup should have failed"),
    }
}

#[test]
fn test_network_error_is_retryable() {
    let cfg = RetryConfig::default();
    let r = into_retry(net_err("timed out"), &cfg);
    assert!(r.retryable);
    assert_eq!(r.max_attempts, 3);
    assert_eq!(r.backoff_ms, 200);
    assert_eq!(r.cause.message, "timed out");
}

#[test]
fn test_http_status_classification() {
    let cfg = RetryConfig::default();
    let retryable = into_retry(
        BackendError { kind: ErrorKind::Http, status: Some(503), message: "busy".to_string() },
        &cfg,
    );
    assert!(retryable.retryable);
    let fatal = into_retry(
        BackendError {
            kind: ErrorKind::Http,
            status: Some(400),
            message: "bad request".to_string(),
        },
        &cfg,
    );
    assert!(!fatal.retryable);
    let no_status = into_retry(
        BackendError { kind: ErrorKind::Http, status: None, message: "odd".to_string() },
        &cfg,
    );
    assert!(!no_status.retryable);
}

#[test]
fn test_fatal_and_transient_kinds() {
    let cfg = RetryConfig::default();
    let decode = into_retry(
        BackendError { kind: ErrorKind::Decode, status: None, message: "bad json".to_string() },
        &cfg,
    );
    assert!(!decode.retryable);
    let protocol = into_retry(
        BackendError {
            kind: ErrorKind::Protocol,
            status: None,
            message: "unexpected frame".to_string(),
        },
        &cfg,
    );
    assert!(!protocol.retryable);
    let timeout = into_retry(
        BackendError { kind: ErrorKind::Timeout, status: None, message: "slow".to_string() },
        &cfg,
    );
    assert!(timeout.retryable);
}

#[test]
fn test_default_configs() {
    let http = HttpConfig::default();
    assert_eq!(http.connect_timeout, 30);
    assert_eq!(http.read_timeout, 120);
    assert_eq!(http.pool_idle_timeout, 90);
    assert_eq!(http.pool_max_idle_per_host, 5);
    assert_eq!(http.max_redirects, 10);
    let retry = RetryConfig::default();
    assert_eq!(retry.max_retry_attempts, 3);
    assert_eq!(retry.initial_backoff_ms, 200);
    assert_eq!(retry.retry_status_codes, vec![429, 500, 502, 503, 504]);
}

#[test]
fn test_is_valid_base_url_cases() {
    assert!(is_valid_base_url("https://api.openai.com/v1/"));
    assert!(is_valid_base_url("http://localhost"));
    assert!(!is_valid_base_url("https://"));
    assert!(!is_valid_base_url("http://"));
    assert!(!is_valid_base_url("ftp://host"));
    assert!(!is_valid_base_url(""));
    assert!(!is_valid_base_url("not-a-url"));
}
