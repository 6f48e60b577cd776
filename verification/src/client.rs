//! The client facade: selects one backend variant at construction, owns the
//! model cache, and routes every outbound call and every error — including
//! per-item stream errors — through the retry classifier.

use vstd::prelude::*;

use crate::backend::{BackendCapability, ChatStreamSource};
use crate::cache::{
    cache_lookup, cache_wf, lemma_models_map_len, models_map, rebuild_cache,
};
use crate::domain::{
    ChatCompletionMessage, ConstructionError, Context, HttpConfig, Model, ModelId, Provider,
};
use crate::retry::{spec_classify, RetryConfig, RetryableError};
use crate::transport::HttpTransport;

verus! {

/// The seven characters every plain-scheme base URL starts with.
pub open spec fn http_prefix() -> Seq<char> {
    seq!['h', 't', 't', 'p', ':', '/', '/']
}

/// The eight characters every TLS-scheme base URL starts with.
pub open spec fn https_prefix() -> Seq<char> {
    seq!['h', 't', 't', 'p', 's', ':', '/', '/']
}

/// A base URL a backend can be initialized with: absolute, with scheme
/// `http` or `https` and a nonempty remainder.
pub open spec fn spec_valid_base_url(s: Seq<char>) -> bool {
    ||| (s.len() > 7 && s.subrange(0, 7) == http_prefix())
    ||| (s.len() > 8 && s.subrange(0, 8) == https_prefix())
}

fn has_http_prefix(s: &str) -> (r: bool)
    ensures
        r == (s@.len() >= 7 && s@.subrange(0, 7) == http_prefix()),
{
    let n = s.unicode_len();
    if n < 7 {
        return false;
    }
    let r = s.get_char(0) == 'h' && s.get_char(1) == 't' && s.get_char(2) == 't' && s.get_char(3)
        == 'p' && s.get_char(4) == ':' && s.get_char(5) == '/' && s.get_char(6) == '/';
    proof {
        if r {
            assert(s@.subrange(0, 7) =~= http_prefix());
        } else {
            if s@.subrange(0, 7) == http_prefix() {
                assert(s@[0] == s@.subrange(0, 7)[0]);
                assert(s@[1] == s@.subrange(0, 7)[1]);
                assert(s@[2] == s@.subrange(0, 7)[2]);
                assert(s@[3] == s@.subrange(0, 7)[3]);
                assert(s@[4] == s@.subrange(0, 7)[4]);
                assert(s@[5] == s@.subrange(0, 7)[5]);
                assert(s@[6] == s@.subrange(0, 7)[6]);
            }
        }
    }
    r
}

fn has_https_prefix(s: &str) -> (r: bool)
    ensures
        r == (s@.len() >= 8 && s@.subrange(0, 8) == https_prefix()),
{
    let n = s.unicode_len();
    if n < 8 {
        return false;
    }
    let r = s.get_char(0) == 'h' && s.get_char(1) == 't' && s.get_char(2) == 't' && s.get_char(3)
        == 'p' && s.get_char(4) == 's' && s.get_char(5) == ':' && s.get_char(6) == '/'
        && s.get_char(7) == '/';
    proof {
        if r {
            assert(s@.subrange(0, 8) =~= https_prefix());
        } else {
            if s@.subrange(0, 8) == https_prefix() {
                assert(s@[0] == s@.subrange(0, 8)[0]);
                assert(s@[1] == s@.subrange(0, 8)[1]);
                assert(s@[2] == s@.subrange(0, 8)[2]);
                assert(s@[3] == s@.subrange(0, 8)[3]);
                assert(s@[4] == s@.subrange(0, 8)[4]);
                assert(s@[5] == s@.subrange(0, 8)[5]);
                assert(s@[6] == s@.subrange(0, 8)[6]);
                assert(s@[7] == s@.subrange(0, 8)[7]);
            }
        }
    }
    r
}

/// Whether a backend can be initialized with this base URL.
pub fn is_valid_base_url(url: &str) -> (r: bool)
    ensures
        r == spec_valid_base_url(url@),
{
    let n = url.unicode_len();
    if n > 7 && has_http_prefix(url) {
        return true;
    }
    if n > 8 && has_https_prefix(url) {
        return true;
    }
    false
}

/// Which backend variant a client selected.
#[derive(Clone, Copy, PartialEq, Eq, Structural)]
pub enum BackendKind {
    OpenAICompat,
    Anthropic,
}

/// The selected backend: exactly one variant per client, fixed at
/// construction and matched once per operation.
pub enum InnerClient<O, A> {
    OpenAICompat(O),
    Anthropic(A),
}

impl<O, A> InnerClient<O, A> {
    pub closed spec fn kind(&self) -> BackendKind {
        match self {
            InnerClient::OpenAICompat(_) => BackendKind::OpenAICompat,
            InnerClient::Anthropic(_) => BackendKind::Anthropic,
        }
    }
}

/// The facade. One provider is bound per client; the model cache starts
/// empty and is fully replaced by each successful refresh, never partially.
pub struct Client<O, A> {
    retry_config: RetryConfig,
    transport: HttpTransport,
    inner: InnerClient<O, A>,
    models_cache: Vec<Model>,
}

/// The raw stream one backend variant produced.
pub enum BackendStream<P, Q> {
    OpenAICompat(P),
    Anthropic(Q),
}

/// A chat stream whose items pass through the retry classifier as they are
/// pulled: a failed item surfaces as a classified error on exactly that
/// item, without affecting items already delivered or still to come.
pub struct ClassifiedStream<P, Q> {
    inner: BackendStream<P, Q>,
    retry_config: RetryConfig,
}

impl<P, Q> ClassifiedStream<P, Q> {
    /// The classification thresholds and hints this stream applies.
    pub closed spec fn config(&self) -> (u64, u64, Seq<u16>) {
        self.retry_config@
    }
}

impl<P: ChatStreamSource, Q: ChatStreamSource> ClassifiedStream<P, Q> {
    /// Pull the next message. A successful item is forwarded unchanged; a
    /// failed one is classified against this stream's configuration.
    pub fn next_message(&mut self) -> (r: Option<Result<ChatCompletionMessage, RetryableError>>)
        ensures
            final(self).config() == old(self).config(),
            match r {
                Some(Err(e)) => e == spec_classify(e.cause, old(self).config()),
                _ => true,
            },
    {
        let item = match &mut self.inner {
            BackendStream::OpenAICompat(s) => s.next_item(),
            BackendStream::Anthropic(s) => s.next_item(),
        };
        match item {
            None => None,
            Some(i) => Some(crate::retry::classify_item(i, &self.retry_config)),
        }
    }
}

impl<O: BackendCapability, A: BackendCapability> Client<O, A> {
    /// The cache representation is free of duplicate ids.
    pub closed spec fn wf(&self) -> bool {
        cache_wf(self.models_cache@)
    }

    /// The mapping from model id to cached model.
    pub closed spec fn cache(&self) -> Map<Seq<char>, Model> {
        models_map(self.models_cache@)
    }

    /// The classification configuration this client was built with.
    pub closed spec fn config(&self) -> (u64, u64, Seq<u16>) {
        self.retry_config@
    }

    /// The backend variant this client selected.
    pub closed spec fn kind(&self) -> BackendKind {
        self.inner.kind()
    }

    /// Build the shared transport from `http_config` and select exactly one
    /// backend variant by the discriminant of `provider`: an OpenAI-family
    /// provider yields the OpenAI-compatible backend, an Anthropic provider
    /// the Anthropic backend. `version` identifies the client towards the
    /// backend. No network I/O happens here; the cache starts empty. Fails
    /// on a base URL no backend accepts, on a transport that cannot be
    /// assembled, or on a backend initialization failure tagged with the
    /// provider's base URL.
    pub fn new(
        provider: Provider,
        retry_config: RetryConfig,
        version: String,
        http_config: &HttpConfig,
    ) -> (r: Result<Self, ConstructionError>)
        ensures
            match r {
                Ok(c) => {
                    &&& c.wf()
                    &&& c.cache() == Map::<Seq<char>, Model>::empty()
                    &&& c.config() == retry_config@
                    &&& spec_valid_base_url(provider.spec_base_url())
                    &&& (c.kind() == BackendKind::OpenAICompat <==> provider is OpenAI)
                    &&& (c.kind() == BackendKind::Anthropic <==> provider is Anthropic)
                },
                Err(ConstructionError::InvalidBaseUrl { url }) => {
                    &&& url@ == provider.spec_base_url()
                    &&& !spec_valid_base_url(provider.spec_base_url())
                },
                Err(ConstructionError::Transport { .. }) => spec_valid_base_url(
                    provider.spec_base_url(),
                ),
                Err(ConstructionError::Backend { url, .. }) => {
                    &&& url@ == provider.spec_base_url()
                    &&& spec_valid_base_url(provider.spec_base_url())
                },
            },
            !spec_valid_base_url(provider.spec_base_url()) ==> r matches Err(
                ConstructionError::InvalidBaseUrl { .. },
            ),
    {
        let url = provider.base_url();
        if !is_valid_base_url(url.as_str()) {
            return Err(ConstructionError::InvalidBaseUrl { url: url.clone() });
        }
        let transport = match HttpTransport::build(http_config) {
            Ok(t) => t,
            Err(message) => {
                return Err(ConstructionError::Transport { message });
            },
        };
        let inner = match &provider {
            Provider::OpenAI { .. } => match O::build(&provider, &version) {
                Ok(b) => InnerClient::OpenAICompat(b),
                Err(message) => {
                    return Err(
                        ConstructionError::Backend { url: provider.base_url().clone(), message },
                    );
                },
            },
            Provider::Anthropic { .. } => match A::build(&provider, &version) {
                Ok(b) => InnerClient::Anthropic(b),
                Err(message) => {
                    return Err(
                        ConstructionError::Backend { url: provider.base_url().clone(), message },
                    );
                },
            },
        };
        let c = Client { retry_config, transport, inner, models_cache: Vec::new() };
        proof {
            assert(c.cache() =~= Map::<Seq<char>, Model>::empty());
        }
        Ok(c)
    }

    /// Wrap an already-initialized backend: build only the shared transport
    /// and start with an empty cache. This is how a caller supplies its own
    /// capability implementation — a test double, or a backend configured
    /// outside this library.
    pub fn from_backend(
        inner: InnerClient<O, A>,
        retry_config: RetryConfig,
        http_config: &HttpConfig,
    ) -> (r: Result<Self, ConstructionError>)
        ensures
            match r {
                Ok(c) => {
                    &&& c.wf()
                    &&& c.cache() == Map::<Seq<char>, Model>::empty()
                    &&& c.config() == retry_config@
                    &&& c.kind() == inner.kind()
                },
                Err(e) => e matches ConstructionError::Transport { .. },
            },
    {
        let transport = match HttpTransport::build(http_config) {
            Ok(t) => t,
            Err(message) => {
                return Err(ConstructionError::Transport { message });
            },
        };
        let c = Client { retry_config, transport, inner, models_cache: Vec::new() };
        proof {
            assert(c.cache() =~= Map::<Seq<char>, Model>::empty());
        }
        Ok(c)
    }

    /// The selected backend, for observation.
    pub fn backend(&self) -> (r: &InnerClient<O, A>)
        ensures
            r.kind() == self.kind(),
    {
        &self.inner
    }

    /// Classify a failed result; a successful one passes through unchanged.
    fn retry<T>(&self, result: Result<T, crate::domain::BackendError>) -> (r: Result<
        T,
        RetryableError,
    >)
        ensures
            match result {
                Ok(v) => r == Ok::<T, RetryableError>(v),
                Err(e) => r == Err::<T, RetryableError>(spec_classify(e, self.config())),
            },
    {
        match result {
            Ok(v) => Ok(v),
            Err(e) => Err(crate::retry::into_retry(e, &self.retry_config)),
        }
    }

    /// Call the selected backend's model listing and classify any failure
    /// without touching the cache. On success the cache is cleared and
    /// rebuilt from the returned list in one indivisible step: afterwards it
    /// holds exactly the returned ids, each mapped to the returned model
    /// carrying it.
    pub fn refresh_models(&mut self) -> (r: Result<Vec<Model>, RetryableError>)
        requires
            old(self).wf(),
        ensures
            final(self).wf(),
            final(self).config() == old(self).config(),
            final(self).kind() == old(self).kind(),
            match r {
                Ok(models) => final(self).cache() == models_map(models@),
                Err(e) => {
                    &&& final(self).cache() == old(self).cache()
                    &&& e == spec_classify(e.cause, old(self).config())
                },
            },
    {
        let result = match &mut self.inner {
            InnerClient::OpenAICompat(p) => p.list_models(&self.transport),
            InnerClient::Anthropic(p) => p.list_models(&self.transport),
        };
        match self.retry(result) {
            Ok(models) => {
                self.models_cache = rebuild_cache(&models);
                Ok(models)
            },
            Err(e) => Err(e),
        }
    }

    /// List the models the provider offers. Always refreshes the cache in
    /// full — this call never reads it, guaranteeing freshness on request.
    pub fn models(&mut self) -> (r: Result<Vec<Model>, RetryableError>)
        requires
            old(self).wf(),
        ensures
            final(self).wf(),
            final(self).config() == old(self).config(),
            final(self).kind() == old(self).kind(),
            match r {
                Ok(models) => final(self).cache() == models_map(models@),
                Err(e) => {
                    &&& final(self).cache() == old(self).cache()
                    &&& e == spec_classify(e.cause, old(self).config())
                },
            },
    {
        self.refresh_models()
    }

    /// Cache-first lookup of one model. A hit answers from the cache with no
    /// backend call; a miss refreshes in full and then reads the freshly
    /// populated cache, returning `None` — not an error — if the id is still
    /// absent.
    pub fn model(&mut self, model: &ModelId) -> (r: Result<Option<Model>, RetryableError>)
        requires
            old(self).wf(),
        ensures
            final(self).wf(),
            final(self).config() == old(self).config(),
            final(self).kind() == old(self).kind(),
            old(self).cache().contains_key(model@) ==> *final(self) == *old(self) && r == Ok::<
                Option<Model>,
                RetryableError,
            >(Some(old(self).cache()[model@])),
            match r {
                Ok(Some(m)) => {
                    &&& final(self).cache().contains_key(model@)
                    &&& m == final(self).cache()[model@]
                },
                Ok(None) => {
                    &&& !final(self).cache().contains_key(model@)
                    &&& !old(self).cache().contains_key(model@)
                },
                Err(e) => {
                    &&& e == spec_classify(e.cause, old(self).config())
                    &&& final(self).cache() == old(self).cache()
                    &&& !old(self).cache().contains_key(model@)
                },
            },
    {
        match cache_lookup(&self.models_cache, model) {
            Some(m) => Ok(Some(m)),
            None => {
                match self.refresh_models() {
                    Ok(_) => Ok(cache_lookup(&self.models_cache, model)),
                    Err(e) => Err(e),
                }
            },
        }
    }

    /// Start a chat completion on the selected backend. A setup failure is
    /// classified before any item is produced; on success every item of the
    /// returned stream passes through the same classifier as it is pulled.
    /// The cache is not involved.
    pub fn chat(&mut self, model: &ModelId, context: &Context) -> (r: Result<
        ClassifiedStream<O::Stream, A::Stream>,
        RetryableError,
    >)
        requires
            old(self).wf(),
        ensures
            final(self).wf(),
            final(self).cache() == old(self).cache(),
            final(self).config() == old(self).config(),
            final(self).kind() == old(self).kind(),
            match r {
                Ok(stream) => stream.config() == old(self).config(),
                Err(e) => e == spec_classify(e.cause, old(self).config()),
            },
    {
        let result = match &mut self.inner {
            InnerClient::OpenAICompat(p) => match p.chat(&self.transport, model, context) {
                Ok(s) => Ok(BackendStream::OpenAICompat(s)),
                Err(e) => Err(e),
            },
            InnerClient::Anthropic(p) => match p.chat(&self.transport, model, context) {
                Ok(s) => Ok(BackendStream::Anthropic(s)),
                Err(e) => Err(e),
            },
        };
        match self.retry(result) {
            Ok(inner) => Ok(
                ClassifiedStream { inner, retry_config: self.retry_config.clone() },
            ),
            Err(e) => Err(e),
        }
    }

    /// The backend variant this client runs against.
    pub fn backend_kind(&self) -> (k: BackendKind)
        ensures
            k == self.kind(),
    {
        match &self.inner {
            InnerClient::OpenAICompat(_) => BackendKind::OpenAICompat,
            InnerClient::Anthropic(_) => BackendKind::Anthropic,
        }
    }

    /// Read one id from the cache alone: no refresh, no backend call.
    pub fn cached_model(&self, id: &ModelId) -> (r: Option<Model>)
        requires
            self.wf(),
        ensures
            match r {
                Some(m) => self.cache().contains_key(id@) && m == self.cache()[id@],
                None => !self.cache().contains_key(id@),
            },
    {
        cache_lookup(&self.models_cache, id)
    }

    /// How many models the cache currently holds.
    pub fn cached_count(&self) -> (n: usize)
        requires
            self.wf(),
        ensures
            n == self.cache().dom().len(),
    {
        proof {
            lemma_models_map_len(self.models_cache@);
        }
        self.models_cache.len()
    }
}

/// The cache a successful refresh leaves behind is a function of the
/// returned model list alone: two `models` calls whose backend responses
/// were equal leave the cache with equal contents both times.
pub proof fn lemma_refresh_idempotent(ms1: Seq<Model>, ms2: Seq<Model>)
    requires
        ms1 == ms2,
    ensures
        models_map(ms1) == models_map(ms2),
{
}

} // verus!
