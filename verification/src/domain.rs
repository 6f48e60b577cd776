//! Value types shared across the facade: providers, models, chat payloads and
//! the error taxonomy.

use vstd::prelude::*;

verus! {

/// Opaque, comparable identifier of a model offered by a backend; the cache key.
pub struct ModelId {
    pub id: String,
}

impl View for ModelId {
    type V = Seq<char>;

    open spec fn view(&self) -> Seq<char> {
        self.id@
    }
}

impl ModelId {
    pub fn new(id: String) -> (r: ModelId)
        ensures
            r@ == id@,
    {
        ModelId { id }
    }
}

impl Clone for ModelId {
    fn clone(&self) -> (r: Self)
        ensures
            r == *self,
    {
        ModelId { id: self.id.clone() }
    }
}

/// Metadata describing one queryable model, immutable once fetched.
pub struct Model {
    pub id: ModelId,
    pub name: Option<String>,
    pub context_length: Option<u64>,
    pub tools_supported: Option<bool>,
}

impl Clone for Model {
    fn clone(&self) -> (r: Self)
        ensures
            r == *self,
    {
        Model {
            id: self.id.clone(),
            name: match &self.name {
                Some(n) => Some(n.clone()),
                None => None,
            },
            context_length: self.context_length,
            tools_supported: self.tools_supported,
        }
    }
}

/// Which backend a provider selects and the connection parameters it needs.
/// Exactly one provider is bound per client; it never changes afterwards.
pub enum Provider {
    OpenAI {
        url: String,
        key: Option<String>,
        extra_headers: Option<Vec<(String, String)>>,
    },
    Anthropic {
        url: String,
        key: String,
    },
}

impl Provider {
    /// The base URL the provider was configured with.
    pub open spec fn spec_base_url(&self) -> Seq<char> {
        match self {
            Provider::OpenAI { url, .. } => url@,
            Provider::Anthropic { url, .. } => url@,
        }
    }

    pub fn base_url(&self) -> (r: &String)
        ensures
            r@ == self.spec_base_url(),
    {
        match self {
            Provider::OpenAI { url, .. } => url,
            Provider::Anthropic { url, .. } => url,
        }
    }

    /// GitHub Copilot is an OpenAI-compatible provider: it is configured
    /// through the OpenAI variant with Copilot's own endpoint.
    pub fn copilot(key: String) -> (p: Provider)
        ensures
            p matches Provider::OpenAI { url, key: k, extra_headers } && url@
                == "https://api.githubcopilot.com/"@ && k == Some(key) && extra_headers is None,
    {
        Provider::OpenAI {
            url: copilot_base_url(),
            key: Some(key),
            extra_headers: None,
        }
    }
}

fn copilot_base_url() -> (r: String)
    ensures
        r@ == "https://api.githubcopilot.com/"@,
{
    String::from_str("https://api.githubcopilot.com/")
}

/// One message of a caller-supplied conversation payload.
pub struct ContextMessage {
    pub role: String,
    pub content: String,
}

/// Caller-supplied conversation payload for a chat call; never retained by
/// the facade.
pub struct Context {
    pub messages: Vec<ContextMessage>,
}

/// One unit of a streamed chat response, produced by a backend.
pub struct ChatCompletionMessage {
    pub content: String,
    pub finish_reason: Option<String>,
}

/// Settings for the shared HTTP transport.
pub struct HttpConfig {
    /// Connection timeout in seconds.
    pub connect_timeout: u64,
    /// Read timeout in seconds.
    pub read_timeout: u64,
    /// How long an idle pooled connection is kept, in seconds.
    pub pool_idle_timeout: u64,
    /// Maximum idle connections kept per host.
    pub pool_max_idle_per_host: usize,
    /// Hard cap on followed redirects; exceeding it fails the request.
    pub max_redirects: usize,
}

pub open spec fn spec_default_http_config() -> HttpConfig {
    HttpConfig {
        connect_timeout: 30,
        read_timeout: 120,
        pool_idle_timeout: 90,
        pool_max_idle_per_host: 5,
        max_redirects: 10,
    }
}

impl Default for HttpConfig {
    fn default() -> (c: Self)
        ensures
            c == spec_default_http_config(),
    {
        HttpConfig {
            connect_timeout: 30,
            read_timeout: 120,
            pool_idle_timeout: 90,
            pool_max_idle_per_host: 5,
            max_redirects: 10,
        }
    }
}

/// Broad category of a backend failure, used by the retry classifier.
#[derive(Clone, Copy, PartialEq, Eq, Structural)]
pub enum ErrorKind {
    /// The connection failed or was interrupted.
    Network,
    /// The request or a read timed out.
    Timeout,
    /// The server answered with an HTTP error status.
    Http,
    /// The exchange violated the backend's protocol.
    Protocol,
    /// The response could not be decoded.
    Decode,
}

/// A failure reported by a backend, before retry classification.
pub struct BackendError {
    pub kind: ErrorKind,
    /// HTTP status code, where the failure carries one.
    pub status: Option<u16>,
    pub message: String,
}

impl Clone for BackendError {
    fn clone(&self) -> (r: Self)
        ensures
            r == *self,
    {
        BackendError {
            kind: self.kind,
            status: self.status,
            message: self.message.clone(),
        }
    }
}

/// Why a client could not be constructed. Fatal: no retry applies.
pub enum ConstructionError {
    /// The provider's base URL is not an absolute http(s) URL.
    InvalidBaseUrl { url: String },
    /// The shared HTTP transport could not be assembled.
    Transport { message: String },
    /// The selected backend failed to initialize, tagged with the
    /// provider's base URL.
    Backend { url: String, message: String },
}

} // verus!
