//! The provider table: the fixed relay provider, USB providers found by
//! autodetection, and the aging rule that drops detections that are not
//! re-confirmed.

use vstd::prelude::*;

use crate::HookError;
use crate::device_manager::DeviceManagerRequest;
use crate::device_manager::DeviceManagerResponse;
use crate::device_manager::flatten_call_result;
use crate::device_manager::spec_listing_of;
use crate::device_manager::spec_routed_call;
use crate::generic_usb::GenericUsb;
use crate::provider::ProviderInfo;
use crate::provider::ProviderKind;
use crate::provider::WrappedDeviceProvider;
use crate::provider::spec_kind_session;
use crate::roborio::RoboRioDaemon;

verus! {

/// The USB vendor id autodetection matches.
pub const DETECT_VID: u16 = 0x16c0;
/// The USB product id autodetection matches.
pub const DETECT_PID: u16 = 0x27dd;
/// An autodetected provider not re-confirmed within this many
/// milliseconds is dropped, unless it is connected.
pub const AUTODETECT_AGE_LIMIT_MS: u64 = 2000;

/// One provider with its discovery bookkeeping.
pub struct ProviderContainer {
    /// The provider itself.
    pub provider: WrappedDeviceProvider,
    /// Whether autodetection created it — only those age off.
    pub is_autodetect: bool,
    /// When autodetection last re-confirmed it.
    pub last_autodetect_ms: u64,
}

/// One table row: the provider under its address.
pub struct ProviderEntry {
    pub address: String,
    pub container: ProviderContainer,
}

/// The provider table, keyed by address.
pub struct ProviderManager {
    pub providers: Vec<ProviderEntry>,
}

/// The position of the entry with this address, if any.
pub open spec fn find_provider(entries: Seq<ProviderEntry>, address: Seq<char>) -> Option<int>
    decreases entries.len(),
{
    if entries.len() == 0 {
        None
    } else if entries[0].address@ == address {
        Some(0)
    } else {
        match find_provider(entries.skip(1), address) {
            None => None,
            Some(i) => Some(i + 1),
        }
    }
}

/// A found entry lies in range and carries the address looked up.
pub proof fn lemma_find_provider(entries: Seq<ProviderEntry>, address: Seq<char>)
    ensures
        match find_provider(entries, address) {
            None => true,
            Some(i) => 0 <= i < entries.len() && entries[i].address@ == address,
        },
    decreases entries.len(),
{
    if entries.len() > 0 && entries[0].address@ != address {
        lemma_find_provider(entries.skip(1), address);
    }
}

/// Whether a provider survives one aging pass: it is connected, or it
/// was configured manually, or autodetection re-confirmed it recently.
pub open spec fn provider_kept(e: ProviderEntry, now_ms: u64) -> bool {
    ||| spec_kind_session(e.container.provider.inner).running
    ||| !e.container.is_autodetect
    ||| now_ms <= e.container.last_autodetect_ms + AUTODETECT_AGE_LIMIT_MS
}

impl ProviderManager {
    /// A table holding only the fixed relay provider, configured
    /// manually so it never ages off.
    pub fn new(now_ms: u64) -> (r: ProviderManager)
        ensures
            r.providers@.len() == 1,
            r.providers@[0].address@ == "172.22.11.2"@,
            !r.providers@[0].container.is_autodetect,
            r.providers@[0].container.provider.inner is RoboRio,
    {
        let rr = RoboRioDaemon::new();
        let info = rr.provider_info();
        let mut providers: Vec<ProviderEntry> = Vec::new();
        providers.push(ProviderEntry {
            address: info.address,
            container: ProviderContainer {
                provider: WrappedDeviceProvider::new(ProviderKind::RoboRio(rr)),
                is_autodetect: false,
                last_autodetect_ms: now_ms,
            },
        });
        ProviderManager { providers }
    }

    /// One detected serial port: a matching vendor/product pair creates
    /// a USB provider under the port's address if it is unseen, or
    /// re-confirms the existing entry; anything else changes nothing.
    pub fn apply_detected_port(&mut self, address: String, vid: u16, pid: u16, now_ms: u64)
        ensures
            !(vid == DETECT_VID && pid == DETECT_PID)
                ==> final(self).providers@ == old(self).providers@,
            (vid == DETECT_VID && pid == DETECT_PID) ==> (
                match find_provider(old(self).providers@, address@) {
                    None => {
                        &&& final(self).providers@.len() == old(self).providers@.len() + 1
                        &&& final(self).providers@.take(old(self).providers@.len() as int)
                            == old(self).providers@
                        &&& final(self).providers@.last().address == address
                        &&& final(self).providers@.last().container.is_autodetect
                        &&& final(self).providers@.last().container.last_autodetect_ms == now_ms
                        &&& (final(self).providers@.last().container.provider.inner
                            matches ProviderKind::Usb(u) && u.address == address
                            && !u.session.running)
                    },
                    Some(i) => final(self).providers@ == old(self).providers@.update(i,
                        ProviderEntry {
                            address: old(self).providers@[i].address,
                            container: ProviderContainer {
                                provider: old(self).providers@[i].container.provider,
                                is_autodetect: old(self).providers@[i].container.is_autodetect,
                                last_autodetect_ms: now_ms,
                            },
                        }),
                }),
    {
        if !(vid == DETECT_VID && pid == DETECT_PID) {
            return;
        }
        let ghost entries = self.providers@;
        let mut found: Option<usize> = None;
        let mut i: usize = 0;
        proof {
            assert(entries.skip(0) =~= entries);
        }
        while found.is_none() && i < self.providers.len()
            invariant
                self.providers@ == entries,
                i <= entries.len(),
                found matches Some(x) ==> find_provider(entries, address@) == Some(x as int),
                found is None ==> find_provider(entries, address@)
                    == (match find_provider(entries.skip(i as int), address@) {
                        None => None::<int>,
                        Some(j) => Some(j + i),
                    }),
            decreases entries.len() - i,
        {
            proof {
                assert(entries.skip(i as int)[0] == entries[i as int]);
                assert(entries.skip(i as int).skip(1) =~= entries.skip(i + 1));
            }
            if self.providers[i].address == address {
                found = Some(i);
            }
            i += 1;
        }
        match found {
            Some(idx) => {
                proof {
                    lemma_find_provider(entries, address@);
                }
                let ghost before = self.providers@;
                let mut e = self.providers.remove(idx);
                e.container.last_autodetect_ms = now_ms;
                let ghost ev = e;
                self.providers.insert(idx, e);
                proof {
                    assert(self.providers@ =~= before.update(idx as int, ev));
                }
            },
            None => {
                proof {
                    assert(entries.skip(entries.len() as int) =~= Seq::<ProviderEntry>::empty());
                }
                let usb = GenericUsb::new(address.clone());
                self.providers.push(ProviderEntry {
                    address,
                    container: ProviderContainer {
                        provider: WrappedDeviceProvider::new(ProviderKind::Usb(usb)),
                        is_autodetect: true,
                        last_autodetect_ms: now_ms,
                    },
                });
                proof {
                    assert(self.providers@.take(entries.len() as int) =~= entries);
                }
            },
        }
    }

    /// One aging pass: keep every provider that is connected, manually
    /// configured, or re-confirmed within the limit; drop the rest.
    pub fn age_off(&mut self, now_ms: u64)
        ensures
            final(self).providers@ == old(self).providers@
                .filter(|e: ProviderEntry| provider_kept(e, now_ms)),
    {
        let ghost entries = self.providers@;
        let mut kept: Vec<ProviderEntry> = Vec::new();
        let ghost i: int = 0;
        proof {
            assert(entries.take(0) =~= Seq::<ProviderEntry>::empty());
            assert(entries.skip(0) =~= entries);
            reveal(Seq::filter);
        }
        while self.providers.len() > 0
            invariant
                0 <= i <= entries.len(),
                self.providers@ == entries.skip(i),
                kept@ == entries.take(i).filter(|e: ProviderEntry| provider_kept(e, now_ms)),
            decreases self.providers@.len(),
        {
            let e = self.providers.remove(0);
            proof {
                assert(e == entries[i]);
                assert(entries.skip(i).skip(1) =~= entries.skip(i + 1));
            }
            let connected = e.container.provider.connected();
            let fresh = if now_ms >= e.container.last_autodetect_ms {
                now_ms - e.container.last_autodetect_ms <= AUTODETECT_AGE_LIMIT_MS
            } else {
                true
            };
            let ghost prev_kept = kept@;
            let keep = connected || !e.container.is_autodetect || fresh;
            if keep {
                kept.push(e);
            }
            proof {
                reveal(Seq::filter);
                assert(entries.take(i + 1).drop_last() =~= entries.take(i));
                assert(entries.take(i + 1).last() == entries[i]);
                if keep {
                    assert(kept@ =~= prev_kept.push(entries[i]));
                } else {
                    assert(!provider_kept(entries[i], now_ms));
                }
            }
            proof {
                i = i + 1;
            }
        }
        proof {
            assert(entries.take(entries.len() as int) =~= entries);
        }
        self.providers = kept;
    }
}


impl ProviderManager {
    /// Remove one provider by address; reports whether the removed
    /// provider's loop was still running, so the caller can signal it
    /// to stop.  Removing an unknown address changes nothing.
    pub fn delete(&mut self, address: &String) -> (r: Option<bool>)
        ensures
            ({
                match find_provider(old(self).providers@, address@) {
                    None => r is None && final(self).providers@ == old(self).providers@,
                    Some(i) => (r matches Some(was_connected)
                        && was_connected == spec_kind_session(
                            old(self).providers@[i].container.provider.inner).running)
                        && final(self).providers@ == old(self).providers@.remove(i),
                }
            }),
    {
        let ghost entries = self.providers@;
        let mut found: Option<usize> = None;
        let mut i: usize = 0;
        proof {
            assert(entries.skip(0) =~= entries);
        }
        while found.is_none() && i < self.providers.len()
            invariant
                self.providers@ == entries,
                i <= entries.len(),
                found matches Some(x) ==> find_provider(entries, address@) == Some(x as int),
                found is None ==> find_provider(entries, address@)
                    == (match find_provider(entries.skip(i as int), address@) {
                        None => None::<int>,
                        Some(j) => Some(j + i),
                    }),
            decreases entries.len() - i,
        {
            proof {
                assert(entries.skip(i as int)[0] == entries[i as int]);
                assert(entries.skip(i as int).skip(1) =~= entries.skip(i + 1));
            }
            if self.providers[i].address == *address {
                found = Some(i);
            }
            i += 1;
        }
        match found {
            Some(idx) => {
                proof {
                    lemma_find_provider(entries, address@);
                }
                let e = self.providers.remove(idx);
                Some(e.container.provider.connected())
            },
            None => {
                proof {
                    assert(entries.skip(entries.len() as int) =~= Seq::<ProviderEntry>::empty());
                }
                None
            },
        }
    }

    /// What every provider in the table reports about itself, in table
    /// order, under its address.
    pub fn providers(&self) -> (r: Vec<(String, ProviderInfo)>)
        ensures
            r@.len() == self.providers@.len(),
            forall|i: int| 0 <= i < self.providers@.len() ==> {
                let e = #[trigger] self.providers@[i];
                &&& r@[i].0 == e.address
                &&& r@[i].1.connected == spec_kind_session(e.container.provider.inner).running
            },
    {
        let mut out: Vec<(String, ProviderInfo)> = Vec::new();
        let mut i: usize = 0;
        while i < self.providers.len()
            invariant
                i <= self.providers@.len(),
                out@.len() == i,
                forall|j: int| 0 <= j < i as int ==> {
                    let e = #[trigger] self.providers@[j];
                    &&& out@[j].0 == e.address
                    &&& out@[j].1.connected
                        == spec_kind_session(e.container.provider.inner).running
                },
            decreases self.providers@.len() - i,
        {
            let e = &self.providers[i];
            out.push((e.address.clone(), e.container.provider.info()));
            i += 1;
        }
        out
    }

    /// Route one registry request to the provider at an address.
    pub fn provider(&mut self, address: &String, req: DeviceManagerRequest)
        -> (r: Result<DeviceManagerResponse, HookError>)
        ensures
            ({
                match find_provider(old(self).providers@, address@) {
                    None => (r matches Err(e) && e is NoSuchDevice)
                        && final(self).providers@ == old(self).providers@,
                    Some(i) => {
                        let ds = spec_kind_session(
                            old(self).providers@[i].container.provider.inner)
                            .device_manager.domains@;
                        let ds1 = spec_kind_session(
                            final(self).providers@[i].container.provider.inner)
                            .device_manager.domains@;
                        &&& final(self).providers@.len() == old(self).providers@.len()
                        &&& (forall|j: int| 0 <= j < old(self).providers@.len() && j != i
                            ==> #[trigger] final(self).providers@[j]
                                == old(self).providers@[j])
                        &&& final(self).providers@[i].address
                            == old(self).providers@[i].address
                        &&& (match req {
                            DeviceManagerRequest::Devices => ((r matches Ok(resp)
                                && resp matches DeviceManagerResponse::Devices(listing)
                                && spec_listing_of(ds, listing@))
                                && ds1 == ds),
                            DeviceManagerRequest::Call { domain, device_id, data } =>
                                spec_routed_call(ds, ds1, domain@, device_id, data,
                                    flatten_call_result(r)),
                        })
                    },
                }
            }),
    {
        let ghost entries = self.providers@;
        let mut found: Option<usize> = None;
        let mut i: usize = 0;
        proof {
            assert(entries.skip(0) =~= entries);
        }
        while found.is_none() && i < self.providers.len()
            invariant
                self.providers@ == entries,
                i <= entries.len(),
                found matches Some(x) ==> find_provider(entries, address@) == Some(x as int),
                found is None ==> find_provider(entries, address@)
                    == (match find_provider(entries.skip(i as int), address@) {
                        None => None::<int>,
                        Some(j) => Some(j + i),
                    }),
            decreases entries.len() - i,
        {
            proof {
                assert(entries.skip(i as int)[0] == entries[i as int]);
                assert(entries.skip(i as int).skip(1) =~= entries.skip(i + 1));
            }
            if self.providers[i].address == *address {
                found = Some(i);
            }
            i += 1;
        }
        let idx = match found {
            Some(idx) => idx,
            None => {
                proof {
                    assert(entries.skip(entries.len() as int) =~= Seq::<ProviderEntry>::empty());
                }
                return Err(HookError::NoSuchDevice);
            },
        };
        proof {
            lemma_find_provider(entries, address@);
        }
        let mut e = self.providers.remove(idx);
        let outcome = e.container.provider.device_manager_call(req);
        let ghost ev = e;
        self.providers.insert(idx, e);
        proof {
            assert(self.providers@[idx as int] == ev);
            assert(forall|j: int| 0 <= j < entries.len() && j != idx as int
                ==> #[trigger] self.providers@[j] == entries[j]);
        }
        outcome
    }
}

} // verus!
