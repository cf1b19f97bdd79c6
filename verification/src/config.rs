//! Connection configuration: endpoints, address ranges and per-transport
//! settings, with the validation that rejects malformed input before any
//! network side effect is attempted.

use vstd::prelude::*;
use vstd::string::StringExecFns;
use vstd::string::StrSliceExecFns;
use crate::decimal::dec_seq;
use crate::decimal::fmt_u32;

verus! {

/// An IPv4 socket address held as plain values.
#[derive(Clone, Copy, PartialEq, Eq, Structural, Debug)]
pub struct Endpoint {
    pub a: u8,
    pub b: u8,
    pub c: u8,
    pub d: u8,
    pub port: u16,
}

/// The textual rendering `a.b.c.d:port` of an endpoint.
pub open spec fn endpoint_display(e: Endpoint) -> Seq<char> {
    dec_seq(e.a as int) + seq!['.'] + dec_seq(e.b as int) + seq!['.'] + dec_seq(e.c as int)
        + seq!['.'] + dec_seq(e.d as int) + seq![':'] + dec_seq(e.port as int)
}

impl Endpoint {
    /// Renders the endpoint as `a.b.c.d:port`.
    pub fn to_display(&self) -> (r: String)
        ensures
            r@ == endpoint_display(*self),
    {
        let mut s = fmt_u32(self.a as u32);
        s.append(".");
        let sb = fmt_u32(self.b as u32);
        s.append(sb.as_str());
        s.append(".");
        let sc = fmt_u32(self.c as u32);
        s.append(sc.as_str());
        s.append(".");
        let sd = fmt_u32(self.d as u32);
        s.append(sd.as_str());
        s.append(":");
        let sp = fmt_u32(self.port as u32);
        s.append(sp.as_str());
        proof {
            reveal_strlit(".");
            reveal_strlit(":");
            assert(s@ =~= endpoint_display(*self));
        }
        s
    }
}

/// An IPv4 address range (network address and prefix length) as plain values.
#[derive(Clone, Copy, PartialEq, Eq, Structural, Debug)]
pub struct AddressRange {
    pub a: u8,
    pub b: u8,
    pub c: u8,
    pub d: u8,
    pub prefix: u8,
}

/// The textual rendering `a.b.c.d/prefix` of an address range.
pub open spec fn range_display(r: AddressRange) -> Seq<char> {
    dec_seq(r.a as int) + seq!['.'] + dec_seq(r.b as int) + seq!['.'] + dec_seq(r.c as int)
        + seq!['.'] + dec_seq(r.d as int) + seq!['/'] + dec_seq(r.prefix as int)
}

impl AddressRange {
    /// A range is well formed when its prefix length fits an IPv4 address.
    pub open spec fn valid(self) -> bool {
        self.prefix <= 32
    }

    /// Checks that the prefix length fits an IPv4 address.
    pub fn is_valid(&self) -> (r: bool)
        ensures
            r == self.valid(),
    {
        self.prefix <= 32
    }

    /// Renders the range as `a.b.c.d/prefix`.
    pub fn to_display(&self) -> (r: String)
        ensures
            r@ == range_display(*self),
    {
        let mut s = fmt_u32(self.a as u32);
        s.append(".");
        let sb = fmt_u32(self.b as u32);
        s.append(sb.as_str());
        s.append(".");
        let sc = fmt_u32(self.c as u32);
        s.append(sc.as_str());
        s.append(".");
        let sd = fmt_u32(self.d as u32);
        s.append(sd.as_str());
        s.append("/");
        let sp = fmt_u32(self.prefix as u32);
        s.append(sp.as_str());
        proof {
            reveal_strlit(".");
            reveal_strlit("/");
            assert(s@ =~= range_display(*self));
        }
        s
    }
}

/// Whether `c` may occur in the body of a base64 encoding.
pub open spec fn is_base64_char(c: char) -> bool {
    (65 <= c as int && c as int <= 90)  // 'A' ..= 'Z'
     || (97 <= c as int && c as int <= 122)  // 'a' ..= 'z'
     || (48 <= c as int && c as int <= 57)  // '0' ..= '9'
     || c == '+' || c == '/'
}

/// A well-formed tunnel key: the base64 encoding of 32 bytes, which is 43
/// base64 characters followed by one `=` of padding.
pub open spec fn tunnel_key_valid(s: Seq<char>) -> bool {
    s.len() == 44 && (forall|i: int| 0 <= i < 43 ==> is_base64_char(s[i])) && s[43] == '='
}

/// Checks that `s` is shaped like the base64 encoding of a 256-bit key.
pub fn validate_tunnel_key(s: &str) -> (r: bool)
    ensures
        r == tunnel_key_valid(s@),
{
    let n = s.unicode_len();
    if n != 44 {
        return false;
    }
    let mut i: usize = 0;
    while i < 43
        invariant
            s@.len() == 44,
            i <= 43,
            forall|j: int| 0 <= j < i ==> is_base64_char(s@[j]),
        decreases 43 - i,
    {
        let c = s.get_char(i);
        let u = c as u32;
        let ok = (65 <= u && u <= 90) || (97 <= u && u <= 122) || (48 <= u && u <= 57) || c == '+'
            || c == '/';
        if !ok {
            return false;
        }
        i = i + 1;
    }
    s.get_char(43) == '='
}

/// Settings of the tunnel transport: local private key, remote public key and
/// endpoint, and the address ranges routed through the tunnel.
#[derive(Clone, Debug)]
pub struct WireGuardConfig {
    pub private_key: String,
    pub public_key: String,
    pub endpoint: Endpoint,
    pub allowed_ips: Vec<AddressRange>,
}

/// A tunnel configuration is well formed when both keys are shaped like
/// encoded 256-bit keys and every routed range is well formed.
pub open spec fn wireguard_config_valid(c: WireGuardConfig) -> bool {
    tunnel_key_valid(c.private_key@) && tunnel_key_valid(c.public_key@) && (forall|i: int|
        0 <= i < c.allowed_ips@.len() ==> c.allowed_ips@[i].valid())
}

/// Checks a tunnel configuration before any interface is touched.
pub fn validate_wireguard_config(c: &WireGuardConfig) -> (r: bool)
    ensures
        r == wireguard_config_valid(*c),
{
    if !validate_tunnel_key(c.private_key.as_str()) {
        return false;
    }
    if !validate_tunnel_key(c.public_key.as_str()) {
        return false;
    }
    let mut i: usize = 0;
    while i < c.allowed_ips.len()
        invariant
            i <= c.allowed_ips@.len(),
            tunnel_key_valid(c.private_key@),
            tunnel_key_valid(c.public_key@),
            forall|j: int| 0 <= j < i ==> c.allowed_ips@[j].valid(),
        decreases c.allowed_ips@.len() - i,
    {
        if !c.allowed_ips[i].is_valid() {
            return false;
        }
        i = i + 1;
    }
    true
}

/// What the orchestrator is permitted to try for one connection attempt.
///
/// `attempt_timeout_ms` bounds every single transport attempt, so that an
/// unresponsive candidate cannot stall the whole fallback chain.
#[derive(Clone, Debug)]
pub struct ConnectionConfig {
    pub endpoint: Endpoint,
    pub use_obfs: bool,
    pub fallback_p2p: bool,
    pub wireguard_config: Option<WireGuardConfig>,
    pub attempt_timeout_ms: u64,
}

} // verus!
