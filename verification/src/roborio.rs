//! The robot-controller relay provider: a relay daemon deployed over
//! SSH bridges the controller's bus to a TCP link, served on the `CAN`
//! domain.

use vstd::prelude::*;

use crate::provider::DeviceProvider;
use crate::provider::ProviderInfo;
use crate::provider::ProviderSession;

verus! {

/// The fixed address a robot controller is reached at.
pub fn roborio_address() -> (r: &'static str)
    ensures r@ == "172.22.11.2"@,
{
    "172.22.11.2"
}

/// Reassembly sessions on the relay link are evicted after this age.
pub const CAN_REASSEMBLY_MAX_AGE_MS: u64 = 1000;
/// Payload budget of one part on the relayed bus.
pub const CAN_FRAG_BUDGET: usize = 8;

/// One relay provider: the deployment flag and its session state.
pub struct RoboRioDaemon {
    /// Whether this connection deployed the relay and must revert the
    /// remote host when it ends.
    pub deployed: bool,
    /// The connection's registry, reassembly and loop state.
    pub session: ProviderSession,
}

impl RoboRioDaemon {
    /// A disconnected relay provider.
    pub fn new() -> (r: RoboRioDaemon)
        ensures
            r.session.wf(),
            !r.deployed,
            !r.session.running,
            r.session.spec_domain_name() == "CAN"@,
            r.session.frag_budget == CAN_FRAG_BUDGET,
            r.session.reassembler.max_age_ms == CAN_REASSEMBLY_MAX_AGE_MS,
    {
        RoboRioDaemon {
            deployed: false,
            session: ProviderSession::new(
                String::from_str("CAN"), CAN_REASSEMBLY_MAX_AGE_MS, CAN_FRAG_BUDGET),
        }
    }

    /// What this provider reports about itself.
    pub fn provider_info(&self) -> (r: ProviderInfo)
        ensures
            r.description@ == "RoboRIO"@,
            r.address@ == "172.22.11.2"@,
            r.connected == self.session.running,
    {
        ProviderInfo {
            description: String::from_str("RoboRIO"),
            address: String::from_str(roborio_address()),
            connected: self.session.running,
        }
    }
}

impl DeviceProvider for RoboRioDaemon {
    fn info(&self) -> ProviderInfo {
        self.provider_info()
    }

    fn connected(&self) -> bool {
        self.session.running
    }
}

} // verus!
