//! The fronted-TLS transport: the network-visible destination is a shared,
//! hard-to-block front domain, while application-layer routing carries the
//! request to the true target.  Certificate validation stays fully enabled —
//! the client is built against the front domain's real certificate chain, and
//! no part of TLS verification is ever disabled.

use vstd::prelude::*;
use vstd::string::StrSliceExecFns;
use crate::config::Endpoint;
use crate::orchestrator::TransportError;

verus! {

/// Settings of the fronted-TLS transport.
pub struct DomainFrontingConfig {
    /// The domain an on-path observer sees.
    pub front_domain: String,
    /// The domain the request is actually routed to.
    pub target_domain: String,
    /// Whether the connection must be restricted to HTTPS.
    pub use_tls: bool,
}

/// Whether `c` may occur in a domain name.
pub open spec fn is_domain_char(c: char) -> bool {
    (48 <= c as int && c as int <= 57)  // '0' ..= '9'
     || (65 <= c as int && c as int <= 90)  // 'A' ..= 'Z'
     || (97 <= c as int && c as int <= 122)  // 'a' ..= 'z'
     || c == '-' || c == '.'
}

/// A domain name usable for fronting: nonempty, within the length a name may
/// have on the wire, made of domain characters.
pub open spec fn domain_valid(s: Seq<char>) -> bool {
    1 <= s.len() && s.len() <= 253 && (forall|i: int| 0 <= i < s.len() ==> is_domain_char(s[i]))
}

/// Checks that `s` is a well-formed domain name.
pub fn validate_domain(s: &str) -> (r: bool)
    ensures
        r == domain_valid(s@),
{
    let n = s.unicode_len();
    if n < 1 || n > 253 {
        return false;
    }
    let mut i: usize = 0;
    while i < n
        invariant
            n == s@.len(),
            1 <= n <= 253,
            i <= n,
            forall|j: int| 0 <= j < i ==> is_domain_char(s@[j]),
        decreases n - i,
    {
        let c = s.get_char(i);
        let u = c as u32;
        let ok = (48 <= u && u <= 57) || (65 <= u && u <= 90) || (97 <= u && u <= 122) || c == '-'
            || c == '.';
        if !ok {
            return false;
        }
        i = i + 1;
    }
    true
}

/// A fronting configuration is well formed when both domains are.
pub open spec fn fronting_config_valid(c: DomainFrontingConfig) -> bool {
    domain_valid(c.front_domain@) && domain_valid(c.target_domain@)
}

/// Checks a fronting configuration before any client is built.
pub fn validate_fronting_config(c: &DomainFrontingConfig) -> (r: bool)
    ensures
        r == fronting_config_valid(*c),
{
    validate_domain(c.front_domain.as_str()) && validate_domain(c.target_domain.as_str())
}

/// reqwest's HTTPS client, carried opaquely.
#[verifier::external_type_specification]
#[verifier::external_body]
pub struct ExClient(reqwest::Client);

/// reqwest's error, carried opaquely.
#[verifier::external_type_specification]
#[verifier::external_body]
pub struct ExReqwestError(reqwest::Error);

/// Relies on reqwest's `ClientBuilder::build`: builds a TLS-capable client
/// whose certificate validation is left fully enabled, restricted to HTTPS
/// when asked; it fails only when the TLS backend or the resolver
/// configuration cannot be initialized.
#[verifier::external_body]
fn build_fronted_client(https_only: bool) -> (r: Result<reqwest::Client, reqwest::Error>) {
    reqwest::Client::builder().https_only(https_only).build()
}

/// Builds the client for one fronted-TLS attempt.  A malformed configuration
/// is rejected before any side effect; otherwise the build is attempted with
/// certificate validation intact, enforcing HTTPS whenever the configuration
/// demands TLS.
pub fn create_fronted_connection(_endpoint: &Endpoint, config: &DomainFrontingConfig) -> (r: Result<
    reqwest::Client,
    TransportError,
>)
    ensures
        !fronting_config_valid(*config) ==> r == Err::<reqwest::Client, TransportError>(
            TransportError::InvalidConfig,
        ),
        fronting_config_valid(*config) ==> r is Ok || r == Err::<reqwest::Client, TransportError>(
            TransportError::InitFailed,
        ),
{
    if !validate_fronting_config(config) {
        return Err(TransportError::InvalidConfig);
    }
    match build_fronted_client(config.use_tls) {
        Ok(client) => Ok(client),
        Err(_) => Err(TransportError::InitFailed),
    }
}

} // verus!
