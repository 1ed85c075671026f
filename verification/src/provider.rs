//! The provider lifecycle core: the state one transport connection owns,
//! and the decisions its single-consumer event loop makes.
//!
//! The loop itself — selecting over inbound frames, outbound messages, a
//! stop signal and a periodic tick — runs outside the library, which
//! supplies one function per event.  Exactly one loop may run per
//! provider: taking the loop's exclusive hold fails loudly when it is
//! already taken, rather than silently duplicating consumption.

use vstd::prelude::*;

use crate::HookError;
use crate::device_manager::DeviceId;
use crate::device_manager::DeviceManager;
use crate::device_manager::DomainListing;
use crate::device_manager::find_domain;
use crate::device_manager::spec_registry_step;
use crate::fragment::FragmentPart;
use crate::fragment::Fragmenter;
use crate::fragment::Reassembler;
use crate::fragment::StepOutcome;
use crate::fragment::defrag_step;
use crate::fragment::fragments_of;
use crate::fragment::parts_view;
use crate::msg::TaggedMessage;
use crate::node::NodeCallOutcome;
use crate::node::NodeRequest;

verus! {

/// What a provider reports about itself.
pub struct ProviderInfo {
    /// A human-readable description of the transport.
    pub description: String,
    /// The address the transport is reached at.
    pub address: String,
    /// Whether the provider's event loop is running.
    pub connected: bool,
}

/// The capability surface every provider offers its owner.
pub trait DeviceProvider {
    /// What the provider reports about itself.
    fn info(&self) -> ProviderInfo;

    /// Whether the provider's event loop is running.
    fn connected(&self) -> bool;
}

/// The state one transport connection owns: its single domain's
/// registry, reassembly state, fragmentation state, and the loop hold.
pub struct ProviderSession {
    /// The one domain this provider serves.
    pub device_manager: DeviceManager,
    /// Reassembly sessions for inbound split messages.
    pub reassembler: Reassembler,
    /// Session numbering for outbound split messages.
    pub fragmenter: Fragmenter,
    /// How many payload bytes one outbound part may carry.
    pub frag_budget: usize,
    /// Whether the event loop is running.
    pub running: bool,
}

impl ProviderSession {
    /// The session serves exactly one domain and can always fragment.
    pub open spec fn wf(&self) -> bool {
        &&& self.device_manager.domains@.len() == 1
        &&& self.frag_budget >= 1
    }

    /// The name of the session's one domain.
    pub open spec fn spec_domain_name(&self) -> Seq<char> {
        self.device_manager.domains@[0].channel.name@
    }

    /// A fresh, stopped session for one named domain.
    pub fn new(domain: String, reassembly_max_age_ms: u64, frag_budget: usize)
        -> (r: ProviderSession)
        requires
            frag_budget >= 1,
        ensures
            r.wf(),
            r.spec_domain_name() == domain@,
            !r.running,
            r.reassembler@.len() == 0,
            r.reassembler.max_age_ms == reassembly_max_age_ms,
            r.fragmenter.next_session == 0,
            r.frag_budget == frag_budget,
            r.device_manager.domains@[0].devices@.len() == 0,
            r.device_manager.domains@[0].channel.outbound@.len() == 0,
            r.device_manager.domains@[0].channel.pending@.len() == 0,
    {
        let mut names: Vec<String> = Vec::new();
        names.push(domain);
        ProviderSession {
            device_manager: DeviceManager::new(names),
            reassembler: Reassembler::new(reassembly_max_age_ms),
            fragmenter: Fragmenter::new(),
            frag_budget,
            running: false,
        }
    }

    /// Take the loop's exclusive hold and mark the provider connected.
    /// A second concurrent start fails loudly instead of silently
    /// duplicating the loop's consumption.
    pub fn try_start(&mut self) -> (r: Result<(), HookError>)
        ensures
            old(self).running ==> ((r matches Err(e) && e is AlreadyRunning)
                && *final(self) == *old(self)),
            !old(self).running ==> (r is Ok
                && *final(self) == ProviderSession { running: true, ..*old(self) }),
    {
        if self.running {
            Err(HookError::AlreadyRunning)
        } else {
            self.running = true;
            Ok(())
        }
    }

    /// One inbound part arrived: feed it to reassembly.  A completed
    /// logical payload comes back for the caller to decode and hand to
    /// `deliver`.
    pub fn defrag_inbound(&mut self, now_ms: u64, part: FragmentPart)
        -> (r: Result<Option<Vec<u8>>, HookError>)
        ensures
            final(self).device_manager == old(self).device_manager,
            final(self).fragmenter == old(self).fragmenter,
            final(self).running == old(self).running,
            final(self).frag_budget == old(self).frag_budget,
            final(self).reassembler.max_age_ms == old(self).reassembler.max_age_ms,
            ({
                let (ss2, out) = defrag_step(old(self).reassembler@,
                    old(self).reassembler.max_age_ms, now_ms, part@);
                &&& final(self).reassembler@ == ss2
                &&& (match out {
                    StepOutcome::Pending => r matches Ok(None),
                    StepOutcome::Emitted(p) => r matches Ok(Some(v)) && v@ == p,
                    StepOutcome::OrderViolation => r matches Err(e) && e is Protocol,
                })
            }),
    {
        self.reassembler.defragment(now_ms, part)
    }

    /// One decoded logical message arrived: deliver it to the domain's
    /// waiters and registry.  The returned tokens are owed delivery of
    /// this message.
    pub fn deliver(&mut self, id_u32: u32, message: TaggedMessage, now_ms: u64)
        -> (r: Result<Vec<u128>, HookError>)
        requires
            old(self).wf(),
        ensures
            final(self).wf(),
            final(self).reassembler == old(self).reassembler,
            final(self).fragmenter == old(self).fragmenter,
            final(self).running == old(self).running,
            final(self).frag_budget == old(self).frag_budget,
            ({
                let dt0 = old(self).device_manager.domains@[0];
                let dt1 = final(self).device_manager.domains@[0];
                &&& r matches Ok(w)
                    && w@ == crate::correlation::tokens_for(dt0.channel.pending@, id_u32)
                &&& dt1.channel.name == dt0.channel.name
                &&& dt1.channel.outbound@ == dt0.channel.outbound@
                &&& dt1.channel.pending@ == crate::correlation::pending_without(
                    dt0.channel.pending@, id_u32)
                &&& spec_registry_step(dt0.devices@, dt1.devices@, message, now_ms)
            }),
    {
        let name = self.device_manager.domains[0].channel.name.clone();
        proof {
            let ds = self.device_manager.domains@;
            assert(find_domain(ds, name@) == Some(0int));
        }
        self.device_manager.on_message(&name, id_u32, message, now_ms)
    }

    /// The periodic tick: broadcast an enumeration request and evict
    /// stale devices.
    pub fn tick(&mut self, now_ms: u64)
        requires
            old(self).wf(),
        ensures
            final(self).wf(),
            final(self).reassembler == old(self).reassembler,
            final(self).fragmenter == old(self).fragmenter,
            final(self).running == old(self).running,
            final(self).frag_budget == old(self).frag_budget,
            ({
                let dt0 = old(self).device_manager.domains@[0];
                let dt1 = final(self).device_manager.domains@[0];
                &&& dt1.channel.name == dt0.channel.name
                &&& dt1.channel.pending@ == dt0.channel.pending@
                &&& dt1.channel.outbound@ == dt0.channel.outbound@
                    .push(crate::device_manager::spec_enumerate_request())
                &&& dt1.devices@ == dt0.devices@.filter(
                    |e: crate::device_manager::DeviceEntry|
                        crate::device_manager::entry_fresh(e, now_ms))
            }),
    {
        self.device_manager.on_tick(now_ms)
    }

    /// Take the next queued outbound message, oldest first.
    pub fn pop_outbound(&mut self) -> (r: Option<TaggedMessage>)
        requires
            old(self).wf(),
        ensures
            final(self).wf(),
            final(self).reassembler == old(self).reassembler,
            final(self).fragmenter == old(self).fragmenter,
            final(self).running == old(self).running,
            final(self).frag_budget == old(self).frag_budget,
            ({
                let dt0 = old(self).device_manager.domains@[0];
                let dt1 = final(self).device_manager.domains@[0];
                &&& dt1.channel.name == dt0.channel.name
                &&& dt1.channel.pending@ == dt0.channel.pending@
                &&& dt1.devices@ == dt0.devices@
                &&& (dt0.channel.outbound@.len() == 0 ==> r is None
                    && dt1.channel.outbound@ == dt0.channel.outbound@)
                &&& (dt0.channel.outbound@.len() > 0 ==> (r matches Some(m)
                    && m == dt0.channel.outbound@[0]
                    && dt1.channel.outbound@ == dt0.channel.outbound@.skip(1)))
            }),
    {
        let ghost ds = self.device_manager.domains@;
        let mut t = self.device_manager.domains.remove(0);
        let r = t.channel.pop_outbound();
        let ghost tv = t;
        self.device_manager.domains.insert(0, t);
        proof {
            assert(self.device_manager.domains@[0] == tv);
            assert(self.device_manager.domains@.len() == ds.len());
        }
        r
    }

    /// Split one outbound message's encoded payload into parts for the
    /// transport, consuming a fragmentation session if it is split.
    pub fn fragment_outgoing(&mut self, device_id: u8, payload: &Vec<u8>)
        -> (r: Vec<FragmentPart>)
        requires
            old(self).wf(),
            payload@.len() <= old(self).frag_budget * 65536,
        ensures
            final(self).wf(),
            final(self).device_manager == old(self).device_manager,
            final(self).reassembler == old(self).reassembler,
            final(self).running == old(self).running,
            final(self).frag_budget == old(self).frag_budget,
            parts_view(r@) == fragments_of(device_id, old(self).fragmenter.next_session,
                payload@, old(self).frag_budget as int),
    {
        self.fragmenter.maybe_fragment(device_id, payload, self.frag_budget)
    }

    /// The loop exited: release the hold, mark the provider
    /// disconnected, and reset the registry — all registry state is
    /// rebuilt from live enumeration traffic on the next connection.
    pub fn on_loop_exit(&mut self)
        requires
            old(self).wf(),
        ensures
            final(self).wf(),
            !final(self).running,
            final(self).reassembler == old(self).reassembler,
            final(self).fragmenter == old(self).fragmenter,
            final(self).frag_budget == old(self).frag_budget,
            final(self).device_manager.domains@[0].channel
                == old(self).device_manager.domains@[0].channel,
            final(self).device_manager.domains@[0].devices@.len() == 0,
    {
        self.running = false;
        self.device_manager.reset();
    }

    /// Route one call to one device on this provider's domain.
    pub fn call_device(&mut self, device_id: DeviceId, req: NodeRequest)
        -> (r: Result<NodeCallOutcome, HookError>)
        requires
            old(self).wf(),
        ensures
            final(self).wf(),
            final(self).reassembler == old(self).reassembler,
            final(self).fragmenter == old(self).fragmenter,
            final(self).running == old(self).running,
            final(self).frag_budget == old(self).frag_budget,
            ({
                let dt0 = old(self).device_manager.domains@[0];
                let dt1 = final(self).device_manager.domains@[0];
                &&& dt1.channel.name == dt0.channel.name
                &&& dt1.devices@ == dt0.devices@
                &&& (match crate::device_manager::find_device(dt0.devices@, device_id) {
                    None => (r matches Err(e) && e is NoSuchDevice)
                        && dt1.channel == dt0.channel,
                    Some(xi) => crate::node::spec_node_call(
                        dt0.devices@[xi].device,
                        dt0.devices@[xi].info,
                        req,
                        dt0.channel,
                        dt1.channel,
                        r),
                })
            }),
    {
        let name = self.device_manager.domains[0].channel.name.clone();
        proof {
            let ds = self.device_manager.domains@;
            assert(find_domain(ds, name@) == Some(0int));
        }
        self.device_manager.call(&name, device_id, req)
    }

    /// List this provider's devices.
    pub fn devices(&self) -> (r: Vec<DomainListing>)
        requires
            self.wf(),
        ensures
            r@.len() == 1,
            ({
                let dt = self.device_manager.domains@[0];
                let row = r@[0];
                &&& row.domain == dt.channel.name
                &&& row.devices@.len() == dt.devices@.len()
                &&& forall|j: int| 0 <= j < dt.devices@.len() ==> {
                    let e = #[trigger] dt.devices@[j];
                    &&& row.devices@[j].id == e.id
                    &&& row.devices@[j].info == e.info
                    &&& row.devices@[j].class@ == crate::device_manager::spec_class_of(e.device)
                }
            }),
    {
        self.device_manager.devices()
    }
}


} // verus!

use crate::device_manager::DeviceManagerRequest;
use crate::device_manager::DeviceManagerResponse;
use crate::device_manager::flatten_call_result;
use crate::device_manager::spec_listing_of;
use crate::device_manager::spec_routed_call;
use crate::generic_usb::GenericUsb;
use crate::roborio::RoboRioDaemon;

verus! {

/// The closed set of transports a provider can own.
pub enum ProviderKind {
    Usb(GenericUsb),
    RoboRio(RoboRioDaemon),
}

/// The session state of either transport kind.
pub open spec fn spec_kind_session(k: ProviderKind) -> ProviderSession {
    match k {
        ProviderKind::Usb(u) => u.session,
        ProviderKind::RoboRio(d) => d.session,
    }
}

/// One provider of either kind, behind a single call surface.
pub struct WrappedDeviceProvider {
    pub inner: ProviderKind,
}

impl WrappedDeviceProvider {
    /// Wrap one provider.
    pub fn new(inner: ProviderKind) -> (r: WrappedDeviceProvider)
        ensures r.inner == inner,
    {
        WrappedDeviceProvider { inner }
    }

    /// What the wrapped provider reports about itself.
    pub fn info(&self) -> (r: ProviderInfo)
        ensures
            self.inner matches ProviderKind::Usb(u) ==> (r.description@ == "Grapple USB Device"@
                && r.address == u.address
                && r.connected == u.session.running),
            self.inner matches ProviderKind::RoboRio(d) ==> (r.description@ == "RoboRIO"@
                && r.address@ == "172.22.11.2"@
                && r.connected == d.session.running),
    {
        match &self.inner {
            ProviderKind::Usb(u) => u.provider_info(),
            ProviderKind::RoboRio(d) => d.provider_info(),
        }
    }

    /// Whether the wrapped provider's event loop is running.
    pub fn connected(&self) -> (r: bool)
        ensures r == spec_kind_session(self.inner).running,
    {
        match &self.inner {
            ProviderKind::Usb(u) => u.session.running,
            ProviderKind::RoboRio(d) => d.session.running,
        }
    }

    /// The wrapped provider's session, for the event loop to drive.
    pub fn session_mut(&mut self) -> (r: &mut ProviderSession)
        ensures
            *r == spec_kind_session(old(self).inner),
            spec_kind_session(final(self).inner) == *final(r),
            (old(self).inner matches ProviderKind::Usb(u) ==> (
                final(self).inner matches ProviderKind::Usb(u2)
                && u2.address == u.address)),
            (old(self).inner matches ProviderKind::RoboRio(d) ==> (
                final(self).inner matches ProviderKind::RoboRio(d2)
                && d2.deployed == d.deployed)),
    {
        match &mut self.inner {
            ProviderKind::Usb(u) => &mut u.session,
            ProviderKind::RoboRio(d) => &mut d.session,
        }
    }

    /// Answer one registry request against the wrapped provider's
    /// domain.
    pub fn device_manager_call(&mut self, req: DeviceManagerRequest)
        -> (r: Result<DeviceManagerResponse, crate::HookError>)
        ensures
            spec_kind_session(final(self).inner).reassembler
                == spec_kind_session(old(self).inner).reassembler,
            spec_kind_session(final(self).inner).fragmenter
                == spec_kind_session(old(self).inner).fragmenter,
            spec_kind_session(final(self).inner).running
                == spec_kind_session(old(self).inner).running,
            ({
                let ds = spec_kind_session(old(self).inner).device_manager.domains@;
                let ds1 = spec_kind_session(final(self).inner).device_manager.domains@;
                match req {
                    DeviceManagerRequest::Devices => (r matches Ok(resp)
                        && resp matches DeviceManagerResponse::Devices(listing)
                        && spec_listing_of(ds, listing@))
                        && ds1 == ds,
                    DeviceManagerRequest::Call { domain, device_id, data } =>
                        spec_routed_call(ds, ds1, domain@, device_id, data,
                            flatten_call_result(r)),
                }
            }),
    {
        let session = self.session_mut();
        session.device_manager.rpc_process(req)
    }
}

} // verus!
