//! The tunnel transport: what the platform tunnel-interface controller is
//! asked to install, checked before any interface is touched, and the
//! session discipline for bringing the interface back down.

use vstd::prelude::*;
use vstd::string::StringExecFns;
use crate::config::AddressRange;
use crate::config::WireGuardConfig;
use crate::config::validate_wireguard_config;
use crate::config::wireguard_config_valid;
use crate::orchestrator::TransportError;

verus! {

/// Everything the platform controller needs to create the virtual interface,
/// install the peer and the local key, and bring the interface up.
pub struct TunnelRequest {
    /// The name of the virtual interface to create.
    pub interface_name: String,
    /// The local private key to install.
    pub private_key: String,
    /// The remote peer's public key.
    pub public_key: String,
    /// The remote peer's endpoint, rendered as `a.b.c.d:port`.
    pub endpoint_repr: String,
    /// The address ranges routed through the tunnel.
    pub allowed_ips: Vec<AddressRange>,
}

/// Prepares one tunnel attempt.  A malformed configuration — a key not
/// shaped like an encoded 256-bit key, or an impossible address range — is
/// rejected before the controller is ever invoked; otherwise the request
/// carries the configuration unchanged, addressed to interface `wg0`.
pub fn setup_tunnel(config: &WireGuardConfig) -> (r: Result<TunnelRequest, TransportError>)
    ensures
        r is Ok <==> wireguard_config_valid(*config),
        !wireguard_config_valid(*config) ==> r == Err::<TunnelRequest, TransportError>(
            TransportError::InvalidConfig,
        ),
        r is Ok ==> r.unwrap().interface_name@ == "wg0"@,
        r is Ok ==> r.unwrap().private_key@ == config.private_key@,
        r is Ok ==> r.unwrap().public_key@ == config.public_key@,
        r is Ok ==> r.unwrap().endpoint_repr@ == crate::config::endpoint_display(config.endpoint),
        r is Ok ==> r.unwrap().allowed_ips@ == config.allowed_ips@,
{
    if !validate_wireguard_config(config) {
        return Err(TransportError::InvalidConfig);
    }
    let mut allowed_ips: Vec<AddressRange> = Vec::new();
    let mut i: usize = 0;
    while i < config.allowed_ips.len()
        invariant
            i <= config.allowed_ips@.len(),
            allowed_ips@ == config.allowed_ips@.take(i as int),
        decreases config.allowed_ips@.len() - i,
    {
        allowed_ips.push(config.allowed_ips[i]);
        proof {
            assert(allowed_ips@ =~= config.allowed_ips@.take(i + 1));
        }
        i = i + 1;
    }
    proof {
        assert(allowed_ips@ =~= config.allowed_ips@);
    }
    let interface_name = "wg0".to_owned();
    let private_key = config.private_key.clone();
    let public_key = config.public_key.clone();
    let endpoint_repr = config.endpoint.to_display();
    Ok(TunnelRequest { interface_name, private_key, public_key, endpoint_repr, allowed_ips })
}

/// A session over a successfully brought-up interface.  It must be torn down
/// exactly once: teardown demands a live session and spends it.
pub struct TunnelSession {
    active: bool,
}

impl TunnelSession {
    /// Whether the interface of this session is still up.
    pub closed spec fn spec_active(self) -> bool {
        self.active
    }

    /// The session handed out when the controller reports the interface up.
    pub fn begin() -> (r: TunnelSession)
        ensures
            r.spec_active(),
    {
        TunnelSession { active: true }
    }
}

/// Brings the session's interface down.  Demanding a live session makes a
/// second teardown of the same session impossible in verified code: exactly
/// one teardown per successfully brought-up session.
pub fn teardown_tunnel(session: &mut TunnelSession)
    requires
        old(session).spec_active(),
    ensures
        !final(session).spec_active(),
{
    session.active = false;
}

} // verus!
