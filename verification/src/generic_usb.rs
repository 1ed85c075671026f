//! The USB-serial provider: one directly attached bus device, served on
//! the `USB` domain.

use vstd::prelude::*;

use crate::provider::DeviceProvider;
use crate::provider::ProviderInfo;
use crate::provider::ProviderSession;

verus! {

/// Reassembly sessions on the USB link are evicted after this age.
pub const USB_REASSEMBLY_MAX_AGE_MS: u64 = 1000;
/// Payload budget of one part on the USB link.
pub const USB_FRAG_BUDGET: usize = 1024;

/// One USB-serial provider: its port address and its session state.
pub struct GenericUsb {
    /// The serial port this provider opens.
    pub address: String,
    /// The connection's registry, reassembly and loop state.
    pub session: ProviderSession,
}

impl GenericUsb {
    /// A disconnected provider for one serial port.
    pub fn new(address: String) -> (r: GenericUsb)
        ensures
            r.session.wf(),
            r.address == address,
            !r.session.running,
            r.session.spec_domain_name() == "USB"@,
            r.session.frag_budget == USB_FRAG_BUDGET,
            r.session.reassembler.max_age_ms == USB_REASSEMBLY_MAX_AGE_MS,
    {
        GenericUsb {
            address,
            session: ProviderSession::new(
                String::from_str("USB"), USB_REASSEMBLY_MAX_AGE_MS, USB_FRAG_BUDGET),
        }
    }

    /// What this provider reports about itself.
    pub fn provider_info(&self) -> (r: ProviderInfo)
        ensures
            r.description@ == "Grapple USB Device"@,
            r.address == self.address,
            r.connected == self.session.running,
    {
        ProviderInfo {
            description: String::from_str("Grapple USB Device"),
            address: self.address.clone(),
            connected: self.session.running,
        }
    }
}

impl DeviceProvider for GenericUsb {
    fn info(&self) -> ProviderInfo {
        self.provider_info()
    }

    fn connected(&self) -> bool {
        self.session.running
    }
}

} // verus!
