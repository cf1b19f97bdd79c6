//! The obfuscated transport: a pluggable-transport-style wrapper that
//! randomizes observable traffic shape, configured from a certificate
//! credential and an inter-arrival-time randomization flag.  The handshake
//! itself is performed by the pluggable-transport runtime in the surrounding
//! application; this module prepares and checks everything it is handed.

use vstd::prelude::*;
use vstd::string::StrSliceExecFns;
use crate::config::Endpoint;
use crate::config::endpoint_display;
use crate::config::is_base64_char;
use crate::orchestrator::TransportError;

verus! {

/// Settings of the obfuscated transport.
pub struct ObfsConfig {
    /// The bridge's certificate credential, as base64 text.
    pub cert: String,
    /// Whether inter-arrival times are randomized.
    pub iat_mode: bool,
}

/// A certificate credential usable by the obfuscated transport: nonempty
/// base64 text.
pub open spec fn obfs_cert_valid(s: Seq<char>) -> bool {
    s.len() >= 1 && (forall|i: int| 0 <= i < s.len() ==> is_base64_char(s[i]))
}

/// Checks that `s` is shaped like a certificate credential.
pub fn validate_obfs_cert(s: &str) -> (r: bool)
    ensures
        r == obfs_cert_valid(s@),
{
    let n = s.unicode_len();
    if n < 1 {
        return false;
    }
    let mut i: usize = 0;
    while i < n
        invariant
            n == s@.len(),
            i <= n,
            forall|j: int| 0 <= j < i ==> is_base64_char(s@[j]),
        decreases n - i,
    {
        let c = s.get_char(i);
        let u = c as u32;
        let ok = (65 <= u && u <= 90) || (97 <= u && u <= 122) || (48 <= u && u <= 57) || c == '+'
            || c == '/';
        if !ok {
            return false;
        }
        i = i + 1;
    }
    true
}

/// One prepared obfuscated-transport instance: exactly what the
/// pluggable-transport runtime is handed for the handshake.
pub struct ObfsTransport {
    /// The target endpoint, rendered as `a.b.c.d:port`.
    pub endpoint_repr: String,
    /// The certificate credential.
    pub cert: String,
    /// Whether inter-arrival times are randomized.
    pub iat_mode: bool,
}

/// Prepares one obfuscated-transport attempt.  A malformed certificate is
/// rejected before any side effect; otherwise the prepared instance carries
/// the rendered endpoint and the configuration unchanged.
pub fn create_obfs_transport(endpoint: &Endpoint, config: &ObfsConfig) -> (r: Result<
    ObfsTransport,
    TransportError,
>)
    ensures
        r is Ok <==> obfs_cert_valid(config.cert@),
        !obfs_cert_valid(config.cert@) ==> r == Err::<ObfsTransport, TransportError>(
            TransportError::InvalidConfig,
        ),
        r is Ok ==> r.unwrap().endpoint_repr@ == endpoint_display(*endpoint),
        r is Ok ==> r.unwrap().cert@ == config.cert@,
        r is Ok ==> r.unwrap().iat_mode == config.iat_mode,
{
    if !validate_obfs_cert(config.cert.as_str()) {
        return Err(TransportError::InvalidConfig);
    }
    let endpoint_repr = endpoint.to_display();
    let cert = clone_string(&config.cert);
    Ok(ObfsTransport { endpoint_repr, cert, iat_mode: config.iat_mode })
}

/// A copy of a string with the same characters.
fn clone_string(s: &String) -> (r: String)
    ensures
        r@ == s@,
{
    s.clone()
}

} // verus!
