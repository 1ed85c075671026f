//! The per-domain device registry: discovered devices keyed by identity,
//! refreshed by periodic enumeration, evicted by staleness, and fed
//! every inbound message for domain-specific handling.

use vstd::prelude::*;

use crate::HookError;
use crate::correlation::Domain;
use crate::devices::DeviceInfo;
use crate::devices::DeviceType;
use crate::msg::BroadcastMessage;
use crate::msg::DeviceInfoMessage;
use crate::msg::DeviceMessage;
use crate::msg::ModelId;
use crate::msg::TaggedMessage;
use crate::node::DeviceNode;
use crate::node::NodeCallOutcome;
use crate::node::NodeRequest;
use crate::node::maybe_gate;
use crate::node::node_handled;
use crate::node::spec_gated;

verus! {

/// A device not re-confirmed for longer than this is evicted.
pub const DEVICE_AGE_LIMIT_MS: u64 = 4000;

/// A device's identity within one domain.
#[derive(Debug, Clone, Copy, PartialEq, Eq, Hash, Structural)]
pub enum DeviceId {
    Serial(u32),
    CanId(u8),
}

/// One discovered device: its identity, its last reported info, its
/// running instance, and when it was last seen.
#[derive(Debug)]
pub struct DeviceEntry {
    pub id: DeviceId,
    pub info: DeviceInfo,
    pub device: DeviceNode,
    pub last_seen_ms: u64,
}

/// One domain's registry: its communication channel and its devices.
#[derive(Debug)]
pub struct DomainTable {
    pub channel: Domain,
    pub devices: Vec<DeviceEntry>,
}

/// The registry across every domain.
#[derive(Debug)]
pub struct DeviceManager {
    pub domains: Vec<DomainTable>,
}

/// The position of the domain with this name, if any.
pub open spec fn find_domain(domains: Seq<DomainTable>, name: Seq<char>) -> Option<int>
    decreases domains.len(),
{
    if domains.len() == 0 {
        None
    } else if domains[0].channel.name@ == name {
        Some(0)
    } else {
        match find_domain(domains.skip(1), name) {
            None => None,
            Some(i) => Some(i + 1),
        }
    }
}

/// A found domain lies in range and carries the name looked up.
pub proof fn lemma_find_domain(domains: Seq<DomainTable>, name: Seq<char>)
    ensures
        match find_domain(domains, name) {
            None => true,
            Some(i) => 0 <= i < domains.len() && domains[i].channel.name@ == name,
        },
    decreases domains.len(),
{
    if domains.len() > 0 && domains[0].channel.name@ != name {
        lemma_find_domain(domains.skip(1), name);
    }
}

/// The position of the device with this identity, if any.
pub open spec fn find_device(devices: Seq<DeviceEntry>, id: DeviceId) -> Option<int>
    decreases devices.len(),
{
    if devices.len() == 0 {
        None
    } else if devices[0].id == id {
        Some(0)
    } else {
        match find_device(devices.skip(1), id) {
            None => None,
            Some(i) => Some(i + 1),
        }
    }
}

/// A found device lies in range and carries the identity looked up.
pub proof fn lemma_find_device(devices: Seq<DeviceEntry>, id: DeviceId)
    ensures
        match find_device(devices, id) {
            None => true,
            Some(i) => 0 <= i < devices.len() && devices[i].id == id,
        },
    decreases devices.len(),
{
    if devices.len() > 0 && devices[0].id != id {
        lemma_find_device(devices.skip(1), id);
    }
}

/// The identity fields of an enumeration reply, if the message is one.
pub open spec fn spec_enumerate_fields(msg: TaggedMessage) -> Option<(ModelId, u32)> {
    match msg.msg {
        DeviceMessage::Broadcast(BroadcastMessage::DeviceInfo(
            DeviceInfoMessage::EnumerateResponse { model_id, serial, .. })) => {
            Some((model_id, serial))
        },
        _ => None,
    }
}

/// The info an enumeration reply reports, rebuilt wholesale on every
/// reply for the device.
pub open spec fn spec_info_of_enumerate(msg: TaggedMessage) -> DeviceInfo {
    match msg.msg {
        DeviceMessage::Broadcast(BroadcastMessage::DeviceInfo(
            DeviceInfoMessage::EnumerateResponse {
                model_id, serial, is_dfu, is_dfu_in_progress, version, name,
            })) => {
            DeviceInfo {
                device_type: DeviceType::Grapple(model_id),
                firmware_version: Some(version),
                serial: Some(serial),
                is_dfu,
                is_dfu_in_progress,
                name: Some(name),
                device_id: Some(msg.device_id),
            }
        },
        _ => DeviceInfo {
            device_type: DeviceType::Unknown,
            firmware_version: None,
            serial: None,
            is_dfu: false,
            is_dfu_in_progress: false,
            name: None,
            device_id: None,
        },
    }
}

/// Every entry after the message was dispatched to every device.
pub open spec fn spec_dispatched(devices: Seq<DeviceEntry>, msg: TaggedMessage)
    -> Seq<DeviceEntry> {
    devices.map_values(|e: DeviceEntry| DeviceEntry {
        device: node_handled(e.device, e.info, msg),
        ..e
    })
}

/// How one inbound message transforms a domain's device table: an
/// enumeration reply for an unseen identity appends an entry built by
/// the version-gate factory; one for a known identity replaces its info
/// wholesale and resets its seen time; then, either way, the message is
/// dispatched to every device for domain-specific handling.
pub open spec fn spec_registry_step(
    old_d: Seq<DeviceEntry>,
    new_d: Seq<DeviceEntry>,
    msg: TaggedMessage,
    now_ms: u64,
) -> bool {
    match spec_enumerate_fields(msg) {
        None => new_d == spec_dispatched(old_d, msg),
        Some((model, serial)) => {
            if model is SpiderLan {
                new_d == spec_dispatched(old_d, msg)
            } else {
                match find_device(old_d, DeviceId::Serial(serial)) {
                    Some(i) => new_d == spec_dispatched(
                        old_d.update(i, DeviceEntry {
                            id: old_d[i].id,
                            info: spec_info_of_enumerate(msg),
                            device: old_d[i].device,
                            last_seen_ms: now_ms,
                        }), msg),
                    None => {
                        &&& new_d.len() == old_d.len() + 1
                        &&& new_d.take(old_d.len() as int) == spec_dispatched(old_d, msg)
                        &&& new_d.last().id == DeviceId::Serial(serial)
                        &&& new_d.last().info == spec_info_of_enumerate(msg)
                        &&& new_d.last().last_seen_ms == now_ms
                        &&& spec_gated(new_d.last().device, model,
                            spec_info_of_enumerate(msg).firmware_version)
                    },
                }
            }
        },
    }
}

impl DeviceManager {
    /// A registry with one empty domain per name, each with a fresh
    /// channel.
    pub fn new(domain_names: Vec<String>) -> (r: DeviceManager)
        ensures
            r.domains@.len() == domain_names@.len(),
            forall|i: int| 0 <= i < r.domains@.len() ==> {
                &&& (#[trigger] r.domains@[i]).channel.name == domain_names@[i]
                &&& r.domains@[i].channel.outbound@.len() == 0
                &&& r.domains@[i].channel.pending@.len() == 0
                &&& r.domains@[i].devices@.len() == 0
            },
    {
        let mut domains: Vec<DomainTable> = Vec::new();
        let mut i: usize = 0;
        while i < domain_names.len()
            invariant
                i <= domain_names@.len(),
                domains@.len() == i,
                forall|j: int| 0 <= j < i as int ==> {
                    &&& (#[trigger] domains@[j]).channel.name == domain_names@[j]
                    &&& domains@[j].channel.outbound@.len() == 0
                    &&& domains@[j].channel.pending@.len() == 0
                    &&& domains@[j].devices@.len() == 0
                },
            decreases domain_names@.len() - i,
        {
            let name = domain_names[i].clone();
            domains.push(DomainTable { channel: Domain::new(name), devices: Vec::new() });
            i += 1;
        }
        DeviceManager { domains }
    }

    /// Forget every discovered device, on every domain; the channels
    /// themselves are kept.
    pub fn reset(&mut self)
        ensures
            final(self).domains@.len() == old(self).domains@.len(),
            forall|i: int| 0 <= i < old(self).domains@.len() ==> {
                &&& (#[trigger] final(self).domains@[i]).channel
                    == old(self).domains@[i].channel
                &&& final(self).domains@[i].devices@.len() == 0
            },
    {
        let n = self.domains.len();
        let mut i: usize = 0;
        while i < n
            invariant
                n == self.domains@.len(),
                i <= n,
                self.domains@.len() == old(self).domains@.len(),
                forall|j: int| 0 <= j < i as int ==> {
                    &&& (#[trigger] self.domains@[j]).channel == old(self).domains@[j].channel
                    &&& self.domains@[j].devices@.len() == 0
                },
                forall|j: int| i as int <= j < n as int
                    ==> #[trigger] self.domains@[j] == old(self).domains@[j],
            decreases n - i,
        {
            let ghost prev = self.domains@;
            let mut t = self.domains.remove(i);
            t.devices = Vec::new();
            self.domains.insert(i, t);
            proof {
                assert(forall|j: int| 0 <= j < n as int && j != i as int
                    ==> #[trigger] self.domains@[j] == prev[j]);
            }
            i += 1;
        }
    }
}


impl Clone for DeviceEntry {
    /// An exact copy of the entry.
    fn clone(&self) -> (r: DeviceEntry)
        ensures r == *self,
    {
        DeviceEntry {
            id: self.id,
            info: self.info.clone(),
            device: self.device.clone(),
            last_seen_ms: self.last_seen_ms,
        }
    }
}

/// Whether an entry was re-confirmed recently enough to stay listed.
pub open spec fn entry_fresh(e: DeviceEntry, now_ms: u64) -> bool {
    now_ms <= e.last_seen_ms + DEVICE_AGE_LIMIT_MS
}

/// The enumeration request every domain broadcasts on a tick.
pub open spec fn spec_enumerate_request() -> TaggedMessage {
    TaggedMessage {
        device_id: crate::msg::DEVICE_ID_BROADCAST,
        msg: DeviceMessage::Broadcast(BroadcastMessage::DeviceInfo(
            DeviceInfoMessage::EnumerateRequest)),
    }
}

impl DeviceManager {
    /// One periodic tick: broadcast an enumeration request on every
    /// domain's outbound channel, then evict every device whose age
    /// exceeds the limit — a device re-confirmed within the limit stays.
    pub fn on_tick(&mut self, now_ms: u64)
        ensures
            final(self).domains@.len() == old(self).domains@.len(),
            forall|i: int| 0 <= i < old(self).domains@.len() ==> {
                let dt0 = #[trigger] old(self).domains@[i];
                let dt1 = final(self).domains@[i];
                &&& dt1.channel.name == dt0.channel.name
                &&& dt1.channel.pending@ == dt0.channel.pending@
                &&& dt1.channel.outbound@ == dt0.channel.outbound@
                    .push(spec_enumerate_request())
                &&& dt1.devices@ == dt0.devices@.filter(
                    |e: DeviceEntry| entry_fresh(e, now_ms))
            },
    {
        let n = self.domains.len();
        let mut i: usize = 0;
        while i < n
            invariant
                n == self.domains@.len(),
                self.domains@.len() == old(self).domains@.len(),
                i <= n,
                forall|j: int| 0 <= j < i as int ==> {
                    let dt0 = #[trigger] old(self).domains@[j];
                    let dt1 = self.domains@[j];
                    &&& dt1.channel.name == dt0.channel.name
                    &&& dt1.channel.pending@ == dt0.channel.pending@
                    &&& dt1.channel.outbound@ == dt0.channel.outbound@
                        .push(spec_enumerate_request())
                    &&& dt1.devices@ == dt0.devices@.filter(
                        |e: DeviceEntry| entry_fresh(e, now_ms))
                },
                forall|j: int| i as int <= j < n as int
                    ==> #[trigger] self.domains@[j] == old(self).domains@[j],
            decreases n - i,
        {
            let ghost prev = self.domains@;
            let mut t = self.domains.remove(i);
            let sent = crate::correlation::send_broadcast(&mut t.channel,
                DeviceMessage::Broadcast(BroadcastMessage::DeviceInfo(
                    DeviceInfoMessage::EnumerateRequest)));
            proof {
                assert(sent is Ok);
            }
            let ghost old_devices = t.devices@;
            let mut kept: Vec<DeviceEntry> = Vec::new();
            let mut k: usize = 0;
            proof {
                assert(old_devices.take(0) =~= Seq::<DeviceEntry>::empty());
                reveal(Seq::filter);
            }
            while k < t.devices.len()
                invariant
                    t.devices@ == old_devices,
                    k <= old_devices.len(),
                    kept@ == old_devices.take(k as int).filter(
                        |e: DeviceEntry| entry_fresh(e, now_ms)),
                decreases old_devices.len() - k,
            {
                let e = &t.devices[k];
                let fresh = if now_ms >= e.last_seen_ms {
                    now_ms - e.last_seen_ms <= DEVICE_AGE_LIMIT_MS
                } else {
                    true
                };
                let ghost prev_kept = kept@;
                if fresh {
                    kept.push(e.clone());
                }
                proof {
                    reveal(Seq::filter);
                    assert(old_devices.take(k + 1).drop_last() =~= old_devices.take(k as int));
                    assert(old_devices.take(k + 1).last() == old_devices[k as int]);
                    if fresh {
                        assert(kept@ =~= prev_kept.push(old_devices[k as int]));
                    } else {
                        assert(!entry_fresh(old_devices[k as int], now_ms));
                    }
                }
                k += 1;
            }
            proof {
                assert(old_devices.take(old_devices.len() as int) =~= old_devices);
            }
            t.devices = kept;
            self.domains.insert(i, t);
            proof {
                assert(forall|j: int| 0 <= j < n as int && j != i as int
                    ==> #[trigger] self.domains@[j] == prev[j]);
            }
            i += 1;
        }
    }

    /// One inbound logical message for a domain.  Every waiter
    /// registered under the message's identifier is taken out and owed
    /// delivery of this message; an enumeration reply creates or
    /// refreshes its device's entry; and the message is dispatched to
    /// every device on the domain.
    pub fn on_message(&mut self, domain: &String, id_u32: u32, message: TaggedMessage,
        now_ms: u64) -> (r: Result<Vec<u128>, HookError>)
        ensures
            ({
                let ds = old(self).domains@;
                match find_domain(ds, domain@) {
                    None => (r matches Err(e) && e is NoSuchDevice)
                        && final(self).domains@ == ds,
                    Some(di) => {
                        &&& r matches Ok(w) && w@ == crate::correlation::tokens_for(
                            ds[di].channel.pending@, id_u32)
                        &&& final(self).domains@.len() == ds.len()
                        &&& (forall|j: int| 0 <= j < ds.len() && j != di
                            ==> #[trigger] final(self).domains@[j] == ds[j])
                        &&& final(self).domains@[di].channel.name == ds[di].channel.name
                        &&& final(self).domains@[di].channel.outbound@
                            == ds[di].channel.outbound@
                        &&& final(self).domains@[di].channel.pending@
                            == crate::correlation::pending_without(
                                ds[di].channel.pending@, id_u32)
                        &&& spec_registry_step(ds[di].devices@,
                            final(self).domains@[di].devices@, message, now_ms)
                    },
                }
            }),
    {
        let ghost ds = self.domains@;
        // Find the domain.
        let mut found: Option<usize> = None;
        let mut i: usize = 0;
        proof {
            assert(ds.skip(0) =~= ds);
        }
        while found.is_none() && i < self.domains.len()
            invariant
                self.domains@ == ds,
                i <= ds.len(),
                found matches Some(x) ==> find_domain(ds, domain@) == Some(x as int),
                found is None ==> find_domain(ds, domain@)
                    == (match find_domain(ds.skip(i as int), domain@) {
                        None => None::<int>,
                        Some(j) => Some(j + i),
                    }),
            decreases ds.len() - i,
        {
            proof {
                assert(ds.skip(i as int)[0] == ds[i as int]);
                assert(ds.skip(i as int).skip(1) =~= ds.skip(i + 1));
            }
            if self.domains[i].channel.name == *domain {
                found = Some(i);
            }
            i += 1;
        }
        let di = match found {
            Some(di) => di,
            None => {
                proof {
                    assert(ds.skip(ds.len() as int) =~= Seq::<DomainTable>::empty());
                }
                return Err(HookError::NoSuchDevice);
            },
        };
        proof {
            lemma_find_domain(ds, domain@);
        }
        let ghost prev = self.domains@;
        let mut t = self.domains.remove(di);

        // Deliver to every registered waiter under this identifier.
        let waiters = t.channel.take_waiters(id_u32);
        let ghost ch1 = t.channel;

        // An enumeration reply creates or refreshes its device's entry.
        let enumerate: Option<(ModelId, u32, DeviceInfo)> = match &message.msg {
            DeviceMessage::Broadcast(BroadcastMessage::DeviceInfo(
                DeviceInfoMessage::EnumerateResponse {
                    model_id, serial, is_dfu, is_dfu_in_progress, version, name,
                })) => {
                Some((*model_id, *serial, DeviceInfo {
                    device_type: DeviceType::Grapple(*model_id),
                    firmware_version: Some(version.clone()),
                    serial: Some(*serial),
                    is_dfu: *is_dfu,
                    is_dfu_in_progress: *is_dfu_in_progress,
                    name: Some(name.clone()),
                    device_id: Some(message.device_id),
                }))
            },
            _ => None,
        };
        let ghost devices0 = t.devices@;
        match enumerate {
            Some((model, serial, info)) => {
                if !matches!(model, ModelId::SpiderLan) {
                    proof {
                        assert(info == spec_info_of_enumerate(message));
                    }
                    // Find the device entry by its serial identity.
                    let mut dfound: Option<usize> = None;
                    let mut k: usize = 0;
                    proof {
                        assert(devices0.skip(0) =~= devices0);
                    }
                    while dfound.is_none() && k < t.devices.len()
                        invariant
                            t.channel == ch1,
                            t.devices@ == devices0,
                            k <= devices0.len(),
                            dfound matches Some(x) ==> find_device(
                                devices0, DeviceId::Serial(serial)) == Some(x as int),
                            dfound is None ==> find_device(devices0, DeviceId::Serial(serial))
                                == (match find_device(devices0.skip(k as int),
                                        DeviceId::Serial(serial)) {
                                    None => None::<int>,
                                    Some(j) => Some(j + k),
                                }),
                        decreases devices0.len() - k,
                    {
                        proof {
                            assert(devices0.skip(k as int)[0] == devices0[k as int]);
                            assert(devices0.skip(k as int).skip(1) =~= devices0.skip(k + 1));
                        }
                        let matches_id = match t.devices[k].id {
                            DeviceId::Serial(s) => s == serial,
                            DeviceId::CanId(_) => false,
                        };
                        if matches_id {
                            dfound = Some(k);
                        }
                        k += 1;
                    }
                    match dfound {
                        Some(idx) => {
                            proof {
                                lemma_find_device(devices0, DeviceId::Serial(serial));
                            }
                            let ghost before = t.devices@;
                            let mut e = t.devices.remove(idx);
                            e.info = info;
                            e.last_seen_ms = now_ms;
                            t.devices.insert(idx, e);
                            proof {
                                assert(t.devices@ =~= before.update(idx as int, DeviceEntry {
                                    id: before[idx as int].id,
                                    info: spec_info_of_enumerate(message),
                                    device: before[idx as int].device,
                                    last_seen_ms: now_ms,
                                }));
                            }
                        },
                        None => {
                            proof {
                                assert(devices0.skip(devices0.len() as int)
                                    =~= Seq::<DeviceEntry>::empty());
                            }
                            let node = maybe_gate(model, &info.firmware_version);
                            t.devices.push(DeviceEntry {
                                id: DeviceId::Serial(serial),
                                info,
                                device: node,
                                last_seen_ms: now_ms,
                            });
                        },
                    }
                }
            },
            None => {},
        }

        // Dispatch the message to every device on the domain.
        let ghost mid = t.devices@;
        let n = t.devices.len();
        let mut k: usize = 0;
        while k < n
            invariant
                t.channel == ch1,
                n == t.devices@.len(),
                t.devices@.len() == mid.len(),
                k <= n,
                forall|j: int| 0 <= j < k as int ==> #[trigger] t.devices@[j] == (DeviceEntry {
                    device: node_handled(mid[j].device, mid[j].info, message),
                    ..mid[j]
                }),
                forall|j: int| k as int <= j < n as int
                    ==> #[trigger] t.devices@[j] == mid[j],
            decreases n - k,
        {
            let ghost before = t.devices@;
            let mut e = t.devices.remove(k);
            e.device.handle(&e.info, &message);
            t.devices.insert(k, e);
            proof {
                assert(forall|j: int| 0 <= j < n as int && j != k as int
                    ==> #[trigger] t.devices@[j] == before[j]);
            }
            k += 1;
        }
        proof {
            assert(t.devices@ =~= spec_dispatched(mid, message));
        }
        let ghost tv = t;
        self.domains.insert(di, t);
        proof {
            assert(self.domains@[di as int] == tv);
            assert(forall|j: int| 0 <= j < ds.len() && j != di as int
                ==> #[trigger] self.domains@[j] == ds[j]);
            assert(self.domains@[di as int].devices@ == spec_dispatched(mid, message));
            match spec_enumerate_fields(message) {
                Some((model, serial)) => {
                    if !(model is SpiderLan)
                        && find_device(devices0, DeviceId::Serial(serial)) is None {
                        assert(spec_dispatched(mid, message).take(devices0.len() as int)
                            =~= spec_dispatched(devices0, message));
                        let last = spec_dispatched(mid, message).last();
                        assert(last.device == node_handled(
                            mid.last().device, mid.last().info, message));
                        assert(node_handled(mid.last().device, mid.last().info, message)
                            == mid.last().device);
                    }
                },
                None => {},
            }
        }
        Ok(waiters)
    }

    /// Route one opaque call to one device's dispatch interface, failing
    /// with "no such device" if the domain or device is absent.
    pub fn call(&mut self, domain: &String, device_id: DeviceId, req: NodeRequest)
        -> (r: Result<NodeCallOutcome, HookError>)
        ensures
            ({
                let ds = old(self).domains@;
                match find_domain(ds, domain@) {
                    None => (r matches Err(e) && e is NoSuchDevice)
                        && final(self).domains@ == ds,
                    Some(di) => {
                        &&& final(self).domains@.len() == ds.len()
                        &&& (forall|j: int| 0 <= j < ds.len() && j != di
                            ==> #[trigger] final(self).domains@[j] == ds[j])
                        &&& final(self).domains@[di].channel.name == ds[di].channel.name
                        &&& final(self).domains@[di].devices@ == ds[di].devices@
                        &&& (match find_device(ds[di].devices@, device_id) {
                            None => (r matches Err(e) && e is NoSuchDevice)
                                && final(self).domains@[di].channel
                                    == ds[di].channel,
                            Some(xi) => crate::node::spec_node_call(
                                ds[di].devices@[xi].device,
                                ds[di].devices@[xi].info,
                                req,
                                ds[di].channel,
                                final(self).domains@[di].channel,
                                r),
                        })
                    },
                }
            }),
    {
        let ghost ds = self.domains@;
        let mut found: Option<usize> = None;
        let mut i: usize = 0;
        proof {
            assert(ds.skip(0) =~= ds);
        }
        while found.is_none() && i < self.domains.len()
            invariant
                self.domains@ == ds,
                i <= ds.len(),
                found matches Some(x) ==> find_domain(ds, domain@) == Some(x as int),
                found is None ==> find_domain(ds, domain@)
                    == (match find_domain(ds.skip(i as int), domain@) {
                        None => None::<int>,
                        Some(j) => Some(j + i),
                    }),
            decreases ds.len() - i,
        {
            proof {
                assert(ds.skip(i as int)[0] == ds[i as int]);
                assert(ds.skip(i as int).skip(1) =~= ds.skip(i + 1));
            }
            if self.domains[i].channel.name == *domain {
                found = Some(i);
            }
            i += 1;
        }
        let di = match found {
            Some(di) => di,
            None => {
                proof {
                    assert(ds.skip(ds.len() as int) =~= Seq::<DomainTable>::empty());
                }
                return Err(HookError::NoSuchDevice);
            },
        };
        proof {
            lemma_find_domain(ds, domain@);
        }
        let ghost prev = self.domains@;
        let mut t = self.domains.remove(di);
        let ghost devices0 = t.devices@;
        let ghost ch0 = t.channel;

        let mut dfound: Option<usize> = None;
        let mut k: usize = 0;
        proof {
            assert(devices0.skip(0) =~= devices0);
        }
        while dfound.is_none() && k < t.devices.len()
            invariant
                t.channel == ch0,
                t.devices@ == devices0,
                k <= devices0.len(),
                dfound matches Some(x) ==> find_device(devices0, device_id) == Some(x as int),
                dfound is None ==> find_device(devices0, device_id)
                    == (match find_device(devices0.skip(k as int), device_id) {
                        None => None::<int>,
                        Some(j) => Some(j + k),
                    }),
            decreases devices0.len() - k,
        {
            proof {
                assert(devices0.skip(k as int)[0] == devices0[k as int]);
                assert(devices0.skip(k as int).skip(1) =~= devices0.skip(k + 1));
            }
            if device_id_eq(&t.devices[k].id, &device_id) {
                dfound = Some(k);
            }
            k += 1;
        }
        let outcome = match dfound {
            Some(xi) => {
                proof {
                    lemma_find_device(devices0, device_id);
                }
                let e = &t.devices[xi];
                e.device.call(&mut t.channel, &e.info, req)
            },
            None => {
                proof {
                    assert(devices0.skip(devices0.len() as int)
                        =~= Seq::<DeviceEntry>::empty());
                }
                Err(HookError::NoSuchDevice)
            },
        };
        let ghost tv = t;
        self.domains.insert(di, t);
        proof {
            assert(self.domains@[di as int] == tv);
            assert(forall|j: int| 0 <= j < ds.len() && j != di as int
                ==> #[trigger] self.domains@[j] == ds[j]);
        }
        outcome
    }
}

/// Whether two device identities are the same.
pub fn device_id_eq(a: &DeviceId, b: &DeviceId) -> (r: bool)
    ensures r == (a == b),
{
    match (a, b) {
        (DeviceId::Serial(x), DeviceId::Serial(y)) => x == y,
        (DeviceId::CanId(x), DeviceId::CanId(y)) => x == y,
        _ => false,
    }
}

/// One device's row in a listing: its identity, last reported info, and
/// class name.
pub struct DeviceListing {
    pub id: DeviceId,
    pub info: DeviceInfo,
    pub class: String,
}

/// One domain's rows in a listing.
pub struct DomainListing {
    pub domain: String,
    pub devices: Vec<DeviceListing>,
}

/// The class name a device instance shows in listings.
pub open spec fn spec_class_of(n: DeviceNode) -> Seq<char> {
    match n {
        DeviceNode::LaserCan(_) => "LaserCAN"@,
        DeviceNode::FlexiCan(_) => "FlexiCAN"@,
        DeviceNode::Mitocandria(_) => "MitoCANdria"@,
        DeviceNode::OldVersion(_) => "OldVersionDevice"@,
    }
}

impl DeviceManager {
    /// List every known device, per domain: identity, last reported
    /// info, and class name, exactly as the registry holds them.
    pub fn devices(&self) -> (r: Vec<DomainListing>)
        ensures
            r@.len() == self.domains@.len(),
            forall|i: int| 0 <= i < self.domains@.len() ==> {
                let dt = #[trigger] self.domains@[i];
                let row = r@[i];
                &&& row.domain == dt.channel.name
                &&& row.devices@.len() == dt.devices@.len()
                &&& forall|j: int| 0 <= j < dt.devices@.len() ==> {
                    let e = #[trigger] dt.devices@[j];
                    &&& row.devices@[j].id == e.id
                    &&& row.devices@[j].info == e.info
                    &&& row.devices@[j].class@ == spec_class_of(e.device)
                }
            },
    {
        let mut out: Vec<DomainListing> = Vec::new();
        let mut i: usize = 0;
        while i < self.domains.len()
            invariant
                i <= self.domains@.len(),
                out@.len() == i,
                forall|a: int| 0 <= a < i as int ==> {
                    let dt = #[trigger] self.domains@[a];
                    let row = out@[a];
                    &&& row.domain == dt.channel.name
                    &&& row.devices@.len() == dt.devices@.len()
                    &&& forall|j: int| 0 <= j < dt.devices@.len() ==> {
                        let e = #[trigger] dt.devices@[j];
                        &&& row.devices@[j].id == e.id
                        &&& row.devices@[j].info == e.info
                        &&& row.devices@[j].class@ == spec_class_of(e.device)
                    }
                },
            decreases self.domains@.len() - i,
        {
            let t = &self.domains[i];
            let mut rows: Vec<DeviceListing> = Vec::new();
            let mut j: usize = 0;
            while j < t.devices.len()
                invariant
                    j <= t.devices@.len(),
                    rows@.len() == j,
                    forall|b: int| 0 <= b < j as int ==> {
                        let e = #[trigger] t.devices@[b];
                        &&& rows@[b].id == e.id
                        &&& rows@[b].info == e.info
                        &&& rows@[b].class@ == spec_class_of(e.device)
                    },
                decreases t.devices@.len() - j,
            {
                let e = &t.devices[j];
                rows.push(DeviceListing {
                    id: e.id,
                    info: e.info.clone(),
                    class: e.device.class_name().to_owned(),
                });
                j += 1;
            }
            out.push(DomainListing {
                domain: t.channel.name.clone(),
                devices: rows,
            });
            i += 1;
        }
        out
    }
}


/// A request to one domain's registry surface.
#[derive(Debug)]
pub enum DeviceManagerRequest {
    /// Route an opaque call to one device's dispatch interface.
    Call { domain: String, device_id: DeviceId, data: NodeRequest },
    /// List every known device, per domain.
    Devices,
}

/// An answer from the registry surface.
pub enum DeviceManagerResponse {
    Call(NodeCallOutcome),
    Devices(Vec<DomainListing>),
}

/// A listing reports exactly what the registry holds: identity, last
/// reported info and class name, per domain.
pub open spec fn spec_listing_of(domains: Seq<DomainTable>, r: Seq<DomainListing>) -> bool {
    &&& r.len() == domains.len()
    &&& forall|i: int| 0 <= i < domains.len() ==> {
        let dt = #[trigger] domains[i];
        let row = r[i];
        &&& row.domain == dt.channel.name
        &&& row.devices@.len() == dt.devices@.len()
        &&& forall|j: int| 0 <= j < dt.devices@.len() ==> {
            let e = #[trigger] dt.devices@[j];
            &&& row.devices@[j].id == e.id
            &&& row.devices@[j].info == e.info
            &&& row.devices@[j].class@ == spec_class_of(e.device)
        }
    }
}

/// What routing one opaque call through the registry does: absent
/// domains and devices fail with "no such device" and change nothing;
/// a found device answers per its own call contract, on its own
/// domain's channel alone.
pub open spec fn spec_routed_call(
    ds: Seq<DomainTable>,
    ds1: Seq<DomainTable>,
    domain: Seq<char>,
    device_id: DeviceId,
    req: NodeRequest,
    r: Result<NodeCallOutcome, crate::HookError>,
) -> bool {
    match find_domain(ds, domain) {
        None => (r matches Err(e) && e is NoSuchDevice) && ds1 == ds,
        Some(di) => {
            &&& ds1.len() == ds.len()
            &&& (forall|j: int| 0 <= j < ds.len() && j != di ==> #[trigger] ds1[j] == ds[j])
            &&& ds1[di].channel.name == ds[di].channel.name
            &&& ds1[di].devices@ == ds[di].devices@
            &&& (match find_device(ds[di].devices@, device_id) {
                None => (r matches Err(e) && e is NoSuchDevice)
                    && ds1[di].channel == ds[di].channel,
                Some(xi) => crate::node::spec_node_call(
                    ds[di].devices@[xi].device,
                    ds[di].devices@[xi].info,
                    req,
                    ds[di].channel,
                    ds1[di].channel,
                    r),
            })
        },
    }
}

impl DeviceManager {
    /// Answer one registry request: route a call, or list the devices.
    pub fn rpc_process(&mut self, req: DeviceManagerRequest)
        -> (r: Result<DeviceManagerResponse, crate::HookError>)
        ensures
            ({
                let ds = old(self).domains@;
                match req {
                    DeviceManagerRequest::Devices => (r matches Ok(resp)
                        && resp matches DeviceManagerResponse::Devices(listing)
                        && spec_listing_of(ds, listing@))
                        && final(self).domains@ == ds,
                    DeviceManagerRequest::Call { domain, device_id, data } => {
                        &&& (r matches Ok(resp) ==> resp is Call)
                        &&& spec_routed_call(ds, final(self).domains@, domain@,
                            device_id, data, flatten_call_result(r))
                    },
                }
            }),
    {
        match req {
            DeviceManagerRequest::Devices => {
                let listing = self.devices();
                Ok(DeviceManagerResponse::Devices(listing))
            },
            DeviceManagerRequest::Call { domain, device_id, data } => {
                match self.call(&domain, device_id, data) {
                    Ok(outcome) => Ok(DeviceManagerResponse::Call(outcome)),
                    Err(e) => Err(e),
                }
            },
        }
    }
}

/// The call outcome inside a registry answer, as the routed-call
/// contract speaks of it.
pub open spec fn flatten_call_result(r: Result<DeviceManagerResponse, crate::HookError>)
    -> Result<NodeCallOutcome, crate::HookError> {
    match r {
        Ok(DeviceManagerResponse::Call(o)) => Ok(o),
        Ok(DeviceManagerResponse::Devices(_)) => Err(crate::HookError::Protocol),
        Err(e) => Err(e),
    }
}

} // verus!
