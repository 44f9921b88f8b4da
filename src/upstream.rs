//! The upstream endpoint and the relay's configuration.
use vstd::prelude::*;
use vstd::string::StringExecFns;

verus! {

/// Secure WebSocket endpoint of the streaming service; the credential is
/// appended as the value of its `key` query parameter.
pub const UPSTREAM_ENDPOINT: &'static str = "wss://generativelanguage.googleapis.com/ws/google.ai.generativelanguage.v1alpha.GenerativeService.BidiGenerateContent?key=";

/// Milliseconds after which a connect attempt is abandoned, unless configured otherwise.
pub const DEFAULT_CONNECT_TIMEOUT_MS: u64 = 10000;

/// The URL that the upstream connection is opened to: the endpoint followed by the credential.
pub open spec fn spec_upstream_url(credential: Seq<char>) -> Seq<char> {
    UPSTREAM_ENDPOINT@ + credential
}

/// Builds the upstream URL for `credential`.
pub fn upstream_url(credential: &str) -> (r: String)
    ensures
        r@ == spec_upstream_url(credential@),
{
    let mut url = String::from_str(UPSTREAM_ENDPOINT);
    url.append(credential);
    url
}

/// Process-wide settings, built once at startup and only read afterwards.
pub struct RelayConfig {
    credential: String,
    connect_timeout_ms: u64,
    idle_timeout_ms: Option<u64>,
}

impl RelayConfig {
    /// Settings for `credential`: the default connect timeout, and no idle timeout.
    pub fn new(credential: String) -> (r: RelayConfig)
        ensures
            r.spec_credential() == credential@,
            r.spec_connect_timeout_ms() == DEFAULT_CONNECT_TIMEOUT_MS,
            r.spec_idle_timeout_ms() == None::<u64>,
    {
        RelayConfig { credential, connect_timeout_ms: DEFAULT_CONNECT_TIMEOUT_MS, idle_timeout_ms: None }
    }

    pub closed spec fn spec_credential(&self) -> Seq<char> {
        self.credential@
    }

    pub closed spec fn spec_connect_timeout_ms(&self) -> u64 {
        self.connect_timeout_ms
    }

    pub closed spec fn spec_idle_timeout_ms(&self) -> Option<u64> {
        self.idle_timeout_ms
    }

    /// The same settings with another connect timeout.
    pub fn with_connect_timeout_ms(self, ms: u64) -> (r: RelayConfig)
        ensures
            r.spec_credential() == self.spec_credential(),
            r.spec_connect_timeout_ms() == ms,
            r.spec_idle_timeout_ms() == self.spec_idle_timeout_ms(),
    {
        RelayConfig { connect_timeout_ms: ms, ..self }
    }

    /// The same settings with an idle timeout: a session in which no read
    /// completes for `ms` milliseconds is ended.
    pub fn with_idle_timeout_ms(self, ms: u64) -> (r: RelayConfig)
        ensures
            r.spec_credential() == self.spec_credential(),
            r.spec_connect_timeout_ms() == self.spec_connect_timeout_ms(),
            r.spec_idle_timeout_ms() == Some(ms),
    {
        RelayConfig { idle_timeout_ms: Some(ms), ..self }
    }

    pub fn connect_timeout_ms(&self) -> (r: u64)
        ensures
            r == self.spec_connect_timeout_ms(),
    {
        self.connect_timeout_ms
    }

    pub fn idle_timeout_ms(&self) -> (r: Option<u64>)
        ensures
            r == self.spec_idle_timeout_ms(),
    {
        self.idle_timeout_ms
    }

    /// The URL to open the upstream connection to, carrying this configuration's credential.
    pub fn upstream_url(&self) -> (r: String)
        ensures
            r@ == spec_upstream_url(self.spec_credential()),
    {
        upstream_url(self.credential.as_str())
    }
}

} // verus!
