//! The closed set of device variants a registry entry can hold, and the
//! version-gate factory that is the only way to construct one.

use vstd::prelude::*;

use crate::HookError;
use crate::correlation::Domain;
use crate::devices::DeviceInfo;
use crate::devices::GrappleDeviceRequest;
use crate::devices::GrappleDeviceResponse;
use crate::devices::OldVersionDevice;
use crate::devices::RootDevice;
use crate::flexican::FlexiCan;
use crate::flexican::FlexiCanRequest;
use crate::flexican::FlexiCanResponse;
use crate::lasercan::LaserCan;
use crate::lasercan::LaserCanCallOutcome;
use crate::lasercan::LaserCanPendingCall;
use crate::lasercan::LaserCanRequest;
use crate::lasercan::LaserCanResponse;
use crate::mitocandria::Mitocandria;
use crate::mitocandria::MitocandriaCallOutcome;
use crate::mitocandria::MitocandriaPendingCall;
use crate::mitocandria::MitocandriaRequest;
use crate::mitocandria::MitocandriaResponse;
use crate::correlation::RequestTicket;
use crate::msg::ModelId;
use crate::msg::TaggedMessage;

verus! {

/// A request to the diagnostic stand-in.
#[derive(Debug, Clone)]
pub enum OldVersionDeviceRequest {
    StartFieldUpgrade,
    GetError,
    GetFirmwareUrl,
    Grapple(GrappleDeviceRequest),
}

/// An answer from the diagnostic stand-in.
#[derive(Debug)]
pub enum OldVersionDeviceResponse {
    StartFieldUpgrade,
    GetError(String),
    GetFirmwareUrl(Option<String>),
    Grapple(GrappleDeviceResponse),
}

/// One running device instance: a concrete variant, or the diagnostic
/// stand-in.  Constructed only through `maybe_gate`, so the version
/// check cannot be bypassed.
#[derive(Debug)]
pub enum DeviceNode {
    LaserCan(LaserCan),
    FlexiCan(FlexiCan),
    Mitocandria(Mitocandria),
    OldVersion(OldVersionDevice),
}

/// How one inbound message changes a device instance.  The stand-in
/// carries no message-driven state.
pub open spec fn node_handled(n: DeviceNode, info: DeviceInfo, msg: TaggedMessage) -> DeviceNode {
    match n {
        DeviceNode::LaserCan(d) => DeviceNode::LaserCan(d.handled(info, msg)),
        DeviceNode::FlexiCan(d) => DeviceNode::FlexiCan(d.handled(info, msg)),
        DeviceNode::Mitocandria(d) => DeviceNode::Mitocandria(d.handled(info, msg)),
        DeviceNode::OldVersion(_) => n,
    }
}

impl DeviceNode {
    /// The class name shown for this instance in listings.
    pub fn class_name(&self) -> (r: &'static str)
        ensures
            self is LaserCan ==> r@ == "LaserCAN"@,
            self is FlexiCan ==> r@ == "FlexiCAN"@,
            self is Mitocandria ==> r@ == "MitoCANdria"@,
            self is OldVersion ==> r@ == "OldVersionDevice"@,
    {
        match self {
            DeviceNode::LaserCan(d) => "LaserCAN",
            DeviceNode::FlexiCan(d) => "FlexiCAN",
            DeviceNode::Mitocandria(d) => "MitoCANdria",
            DeviceNode::OldVersion(d) => "OldVersionDevice",
        }
    }

    /// Apply one inbound message to this instance.
    pub fn handle(&mut self, info: &DeviceInfo, msg: &TaggedMessage)
        ensures
            *final(self) == node_handled(*old(self), *info, *msg),
    {
        match self {
            DeviceNode::LaserCan(d) => d.handle(info, msg),
            DeviceNode::FlexiCan(d) => d.handle(info, msg),
            DeviceNode::Mitocandria(d) => d.handle(info, msg),
            DeviceNode::OldVersion(_) => {},
        }
    }
}

impl Clone for DeviceNode {
    /// An exact copy of the instance.
    fn clone(&self) -> (r: DeviceNode)
        ensures r == *self,
    {
        match self {
            DeviceNode::LaserCan(d) => DeviceNode::LaserCan(*d),
            DeviceNode::FlexiCan(d) => DeviceNode::FlexiCan(*d),
            DeviceNode::Mitocandria(d) => DeviceNode::Mitocandria(*d),
            DeviceNode::OldVersion(d) => DeviceNode::OldVersion(d.clone()),
        }
    }
}

impl RootDevice for DeviceNode {
    fn device_class(&self) -> &'static str {
        self.class_name()
    }
}

/// Whether the version gate admits this reported version for this model.
/// A missing version is admitted (the permissive default); the bridge
/// variant admits everything.
pub open spec fn spec_gate_accepts(model: ModelId, version: Option<String>) -> bool {
    match model {
        ModelId::LaserCan => crate::version::version_acceptable(
            version, ">= 2024.2.0, < 2024.3.0"@),
        ModelId::FlexiCan => true,
        ModelId::MitoCandria => crate::version::version_acceptable(
            version, ">= 2025.0.0, < 2025.1.0"@),
        ModelId::SpiderLan => false,
    }
}

/// The firmware-update location the stand-in exposes for this model.
pub open spec fn spec_gate_url(model: ModelId, url: Option<String>) -> bool {
    match model {
        ModelId::LaserCan => url matches Some(u)
            && u@ == "https://api.github.com/repos/GrappleRobotics/LaserCAN/releases"@,
        ModelId::MitoCandria => url matches Some(u)
            && u@ == "https://github.com/GrappleRobotics/Binaries/releases"@,
        ModelId::FlexiCan => url is None,
        ModelId::SpiderLan => url is None,
    }
}

/// What the version-gate factory built: an admitted version gets the
/// model's real, freshly constructed variant; a rejected one gets the
/// stand-in, carrying a non-empty mismatch description and the model's
/// firmware-update location.
pub open spec fn spec_gated(node: DeviceNode, model: ModelId, version: Option<String>) -> bool {
    if spec_gate_accepts(model, version) {
        match model {
            ModelId::LaserCan => node == DeviceNode::LaserCan(LaserCan {
                status: crate::lasercan::LaserCanStatus { last_update: None },
            }),
            ModelId::FlexiCan => node == DeviceNode::FlexiCan(FlexiCan {
                status: crate::flexican::FlexiCanStatus {},
            }),
            ModelId::MitoCandria => node == DeviceNode::Mitocandria(Mitocandria {
                status: crate::mitocandria::MitocandriaStatus { last_update: None },
            }),
            ModelId::SpiderLan => false,
        }
    } else {
        &&& node matches DeviceNode::OldVersion(o)
        &&& o.error@.len() > 0
        &&& (version is Some ==> o.error@ == crate::version::mismatch_description(
            version->Some_0@,
            match model {
                ModelId::LaserCan => ">= 2024.2.0, < 2024.3.0"@,
                ModelId::MitoCandria => ">= 2025.0.0, < 2025.1.0"@,
                ModelId::FlexiCan => ""@,
                ModelId::SpiderLan => ""@,
            }))
        &&& spec_gate_url(model, (node->OldVersion_0).firmware_url)
    }
}

/// The version-gate factory: validate the reported version for the
/// model, and construct either the real variant or the stand-in.  No
/// other path constructs a device instance.
pub fn maybe_gate(model: ModelId, version: &Option<String>) -> (r: DeviceNode)
    requires
        !(model is SpiderLan),
    ensures
        spec_gated(r, model, *version),
{
    let outcome = match model {
        ModelId::LaserCan => crate::lasercan::validate_version(version),
        ModelId::FlexiCan => crate::flexican::validate_version(version),
        ModelId::MitoCandria => crate::mitocandria::validate_version(version),
        ModelId::SpiderLan => Err(HookError::FirmwareValidation),
    };
    match outcome {
        Ok(()) => {
            match model {
                ModelId::LaserCan => DeviceNode::LaserCan(LaserCan::new()),
                ModelId::FlexiCan => DeviceNode::FlexiCan(FlexiCan::new()),
                ModelId::MitoCandria => DeviceNode::Mitocandria(Mitocandria::new()),
                ModelId::SpiderLan => DeviceNode::FlexiCan(FlexiCan::new()),
            }
        },
        Err(e) => {
            let url = match model {
                ModelId::LaserCan => crate::lasercan::firmware_url(),
                ModelId::MitoCandria => crate::mitocandria::firmware_url(),
                ModelId::FlexiCan => None,
                ModelId::SpiderLan => None,
            };
            proof {
                crate::version::lemma_mismatch_description_nonempty(
                    version->Some_0@,
                    match model {
                        ModelId::LaserCan => ">= 2024.2.0, < 2024.3.0"@,
                        ModelId::MitoCandria => ">= 2025.0.0, < 2025.1.0"@,
                        ModelId::FlexiCan => ""@,
                        ModelId::SpiderLan => ""@,
                    });
            }
            DeviceNode::OldVersion(OldVersionDevice::new(e.message(), url))
        },
    }
}

/// A request routed to one device instance.
#[derive(Debug, Clone)]
pub enum NodeRequest {
    LaserCan(LaserCanRequest),
    FlexiCan(FlexiCanRequest),
    Mitocandria(MitocandriaRequest),
    OldVersion(OldVersionDeviceRequest),
}

/// An answer from one device instance.
#[derive(Debug)]
pub enum NodeResponse {
    LaserCan(LaserCanResponse),
    FlexiCan(FlexiCanResponse),
    Mitocandria(MitocandriaResponse),
    OldVersion(OldVersionDeviceResponse),
}

/// The outcome of one routed call: answered on the spot, or waiting on
/// a correlated reply that the caller drives to completion with the
/// named continuation.
pub enum NodeCallOutcome {
    Done(NodeResponse),
    AwaitLaserCan(RequestTicket, LaserCanPendingCall),
    AwaitMitocandria(RequestTicket, MitocandriaPendingCall),
}


/// The common shape of a successful hand-off into a correlated wait:
/// the request was queued, its slot registered, and the ticket carries
/// the right reply identifier and retry budget.
pub open spec fn spec_node_await(
    t: RequestTicket,
    dom0: Domain,
    dom1: Domain,
    msg: TaggedMessage,
) -> bool {
    &&& t.msg@ == msg
    &&& t.complement == crate::msg::spec_complement_u32(msg.device_id, msg.msg)
    &&& t.timeout_ms == crate::lasercan::CONFIG_TIMEOUT_MS
    &&& t.retries_left == crate::lasercan::CONFIG_RETRIES
    &&& t.attempts == 1
    &&& dom1.outbound@ == dom0.outbound@.push(msg)
    &&& dom1.pending_view() == dom0.pending_view().push((t.complement, t.token))
}

/// The domain saw no change.
pub open spec fn spec_dom_same(dom0: Domain, dom1: Domain) -> bool {
    &&& dom1.outbound@ == dom0.outbound@
    &&& dom1.pending_view() == dom0.pending_view()
}

/// The field-upgrade entry broadcast for a serial was queued and the
/// pending table untouched.
pub open spec fn spec_queued_start_upgrade(dom0: Domain, dom1: Domain, serial: u32) -> bool {
    &&& dom1.outbound@ == dom0.outbound@.push(TaggedMessage {
        device_id: crate::msg::DEVICE_ID_BROADCAST,
        msg: crate::msg::DeviceMessage::FirmwareUpdate(
            crate::msg::FirmwareMessage::StartFieldUpgrade { serial }),
    })
    &&& dom1.pending_view() == dom0.pending_view()
}

/// An identity broadcast was queued and the pending table untouched.
pub open spec fn spec_queued_identity(
    dom0: Domain,
    dom1: Domain,
    g: GrappleDeviceRequest,
    serial: u32,
) -> bool {
    &&& dom1.outbound@ == dom0.outbound@.push(
        crate::devices::spec_identity_broadcast(g, serial))
    &&& dom1.pending_view() == dom0.pending_view()
}

/// Exactly what routing one request to one device instance does, for
/// every instance and request: reads answer from the instance's state
/// and leave the domain untouched; identity and upgrade-entry requests
/// queue their broadcast under the device's serial; configuration
/// requests hand off into a correlated wait; a missing serial, missing
/// bus address, invalid region or mismatched class is rejected with its
/// own error and nothing changes.
pub open spec fn spec_node_call(
    node: DeviceNode,
    info: DeviceInfo,
    req: NodeRequest,
    dom0: Domain,
    dom1: Domain,
    r: Result<NodeCallOutcome, HookError>,
) -> bool {
    if !class_matches(node, req) {
        (r matches Err(e) && e is NoSuchDevice) && spec_dom_same(dom0, dom1)
    } else {
        match (node, req) {
            (DeviceNode::LaserCan(d), NodeRequest::LaserCan(q)) => match q {
                LaserCanRequest::Status => (r matches Ok(o)
                    && o == NodeCallOutcome::Done(NodeResponse::LaserCan(
                        LaserCanResponse::Status(d.status))))
                    && spec_dom_same(dom0, dom1),
                LaserCanRequest::StartFieldUpgrade => match info.serial {
                    Some(serial) => (r matches Ok(o)
                        && o == NodeCallOutcome::Done(NodeResponse::LaserCan(
                            LaserCanResponse::StartFieldUpgrade)))
                        && spec_queued_start_upgrade(dom0, dom1, serial),
                    None => (r matches Err(e) && e is NoSerial) && spec_dom_same(dom0, dom1),
                },
                LaserCanRequest::Grapple(g) => match info.serial {
                    Some(serial) => (r matches Ok(o) && o == NodeCallOutcome::Done(
                        NodeResponse::LaserCan(LaserCanResponse::Grapple(
                            crate::devices::spec_identity_response(g)))))
                        && spec_queued_identity(dom0, dom1, g, serial),
                    None => (r matches Err(e) && e is NoSerial) && spec_dom_same(dom0, dom1),
                },
                LaserCanRequest::SetRange(mode) => match info.device_id {
                    Some(did) => r matches Ok(o) && o matches NodeCallOutcome::AwaitLaserCan(t, c)
                        && c is SetRange
                        && spec_node_await(t, dom0, dom1, TaggedMessage {
                            device_id: did,
                            msg: crate::msg::DeviceMessage::DistanceSensor(
                                crate::msg::DistanceSensorMessage::SetRange(mode)),
                        }),
                    None => (r matches Err(e) && e is NoDeviceId) && spec_dom_same(dom0, dom1),
                },
                LaserCanRequest::SetTimingBudget(b) => match info.device_id {
                    Some(did) => r matches Ok(o) && o matches NodeCallOutcome::AwaitLaserCan(t, c)
                        && c is SetTimingBudget
                        && spec_node_await(t, dom0, dom1, TaggedMessage {
                            device_id: did,
                            msg: crate::msg::DeviceMessage::DistanceSensor(
                                crate::msg::DistanceSensorMessage::SetTimingBudget(b)),
                        }),
                    None => (r matches Err(e) && e is NoDeviceId) && spec_dom_same(dom0, dom1),
                },
                LaserCanRequest::SetRoi(roi) => match info.device_id {
                    Some(did) => {
                        if crate::msg::roi_valid(roi) {
                            r matches Ok(o) && o matches NodeCallOutcome::AwaitLaserCan(t, c)
                                && c is SetRoi
                                && spec_node_await(t, dom0, dom1, TaggedMessage {
                                    device_id: did,
                                    msg: crate::msg::DeviceMessage::DistanceSensor(
                                        crate::msg::DistanceSensorMessage::SetRoi(roi)),
                                })
                        } else {
                            (r matches Err(e) && e is InvalidMessage) && spec_dom_same(dom0, dom1)
                        }
                    },
                    None => (r matches Err(e) && e is NoDeviceId) && spec_dom_same(dom0, dom1),
                },
            },
            (DeviceNode::FlexiCan(d), NodeRequest::FlexiCan(q)) => match q {
                FlexiCanRequest::Status => (r matches Ok(o)
                    && o == NodeCallOutcome::Done(NodeResponse::FlexiCan(
                        FlexiCanResponse::Status(d.status))))
                    && spec_dom_same(dom0, dom1),
                FlexiCanRequest::StartFieldUpgrade => match info.serial {
                    Some(serial) => (r matches Ok(o)
                        && o == NodeCallOutcome::Done(NodeResponse::FlexiCan(
                            FlexiCanResponse::StartFieldUpgrade)))
                        && spec_queued_start_upgrade(dom0, dom1, serial),
                    None => (r matches Err(e) && e is NoSerial) && spec_dom_same(dom0, dom1),
                },
                FlexiCanRequest::Grapple(g) => match info.serial {
                    Some(serial) => (r matches Ok(o) && o == NodeCallOutcome::Done(
                        NodeResponse::FlexiCan(FlexiCanResponse::Grapple(
                            crate::devices::spec_identity_response(g)))))
                        && spec_queued_identity(dom0, dom1, g, serial),
                    None => (r matches Err(e) && e is NoSerial) && spec_dom_same(dom0, dom1),
                },
            },
            (DeviceNode::Mitocandria(d), NodeRequest::Mitocandria(q)) => match q {
                MitocandriaRequest::Status => (r matches Ok(o)
                    && o == NodeCallOutcome::Done(NodeResponse::Mitocandria(
                        MitocandriaResponse::Status(d.status))))
                    && spec_dom_same(dom0, dom1),
                MitocandriaRequest::StartFieldUpgrade => match info.serial {
                    Some(serial) => (r matches Ok(o)
                        && o == NodeCallOutcome::Done(NodeResponse::Mitocandria(
                            MitocandriaResponse::StartFieldUpgrade)))
                        && spec_queued_start_upgrade(dom0, dom1, serial),
                    None => (r matches Err(e) && e is NoSerial) && spec_dom_same(dom0, dom1),
                },
                MitocandriaRequest::Grapple(g) => match info.serial {
                    Some(serial) => (r matches Ok(o) && o == NodeCallOutcome::Done(
                        NodeResponse::Mitocandria(MitocandriaResponse::Grapple(
                            crate::devices::spec_identity_response(g)))))
                        && spec_queued_identity(dom0, dom1, g, serial),
                    None => (r matches Err(e) && e is NoSerial) && spec_dom_same(dom0, dom1),
                },
                MitocandriaRequest::SetSwitchableChannel { channel, enabled } => {
                    match info.device_id {
                        Some(did) => r matches Ok(o)
                            && o matches NodeCallOutcome::AwaitMitocandria(t, c)
                            && c is SetSwitchableChannel
                            && spec_node_await(t, dom0, dom1, TaggedMessage {
                                device_id: did,
                                msg: crate::msg::DeviceMessage::PowerDistributionModule(
                                    crate::msg::PowerMessage::SetSwitchableChannel {
                                        channel, enabled,
                                    }),
                            }),
                        None => (r matches Err(e) && e is NoDeviceId)
                            && spec_dom_same(dom0, dom1),
                    }
                },
                MitocandriaRequest::SetAdjustableChannel { channel, voltage_mv } => {
                    match info.device_id {
                        Some(did) => r matches Ok(o)
                            && o matches NodeCallOutcome::AwaitMitocandria(t, c)
                            && c is SetAdjustableChannel
                            && spec_node_await(t, dom0, dom1, TaggedMessage {
                                device_id: did,
                                msg: crate::msg::DeviceMessage::PowerDistributionModule(
                                    crate::msg::PowerMessage::SetAdjustableChannel {
                                        channel, voltage_mv,
                                    }),
                            }),
                        None => (r matches Err(e) && e is NoDeviceId)
                            && spec_dom_same(dom0, dom1),
                    }
                },
            },
            (DeviceNode::OldVersion(d), NodeRequest::OldVersion(q)) => match q {
                OldVersionDeviceRequest::GetError => (r matches Ok(o)
                    && o matches NodeCallOutcome::Done(NodeResponse::OldVersion(
                        OldVersionDeviceResponse::GetError(e))) && e == d.error)
                    && spec_dom_same(dom0, dom1),
                OldVersionDeviceRequest::GetFirmwareUrl => (r matches Ok(o)
                    && o matches NodeCallOutcome::Done(NodeResponse::OldVersion(
                        OldVersionDeviceResponse::GetFirmwareUrl(u))) && u == d.firmware_url)
                    && spec_dom_same(dom0, dom1),
                OldVersionDeviceRequest::StartFieldUpgrade => match info.serial {
                    Some(serial) => (r matches Ok(o)
                        && o matches NodeCallOutcome::Done(NodeResponse::OldVersion(
                            OldVersionDeviceResponse::StartFieldUpgrade)))
                        && spec_queued_start_upgrade(dom0, dom1, serial),
                    None => (r matches Err(e) && e is NoSerial) && spec_dom_same(dom0, dom1),
                },
                OldVersionDeviceRequest::Grapple(g) => match info.serial {
                    Some(serial) => (r matches Ok(o) && o == NodeCallOutcome::Done(
                        NodeResponse::OldVersion(OldVersionDeviceResponse::Grapple(
                            crate::devices::spec_identity_response(g)))))
                        && spec_queued_identity(dom0, dom1, g, serial),
                    None => (r matches Err(e) && e is NoSerial) && spec_dom_same(dom0, dom1),
                },
            },
            _ => false,
        }
    }
}

impl DeviceNode {
    /// Route one request to this instance.  A request for another class
    /// than the instance's is rejected without touching anything.
    pub fn call(&self, dom: &mut Domain, info: &DeviceInfo, req: NodeRequest)
        -> (r: Result<NodeCallOutcome, HookError>)
        ensures
            spec_node_call(*self, *info, req, *old(dom), *final(dom), r),
            final(dom).name == old(dom).name,
    {
        match (self, req) {
            (DeviceNode::LaserCan(d), NodeRequest::LaserCan(q)) => {
                match d.call(dom, info, q) {
                    Ok(LaserCanCallOutcome::Done(resp)) => {
                        Ok(NodeCallOutcome::Done(NodeResponse::LaserCan(resp)))
                    },
                    Ok(LaserCanCallOutcome::Await(t, c)) => {
                        Ok(NodeCallOutcome::AwaitLaserCan(t, c))
                    },
                    Err(e) => Err(e),
                }
            },
            (DeviceNode::FlexiCan(d), NodeRequest::FlexiCan(q)) => {
                match d.call(dom, info, q) {
                    Ok(resp) => Ok(NodeCallOutcome::Done(NodeResponse::FlexiCan(resp))),
                    Err(e) => Err(e),
                }
            },
            (DeviceNode::Mitocandria(d), NodeRequest::Mitocandria(q)) => {
                match d.call(dom, info, q) {
                    Ok(MitocandriaCallOutcome::Done(resp)) => {
                        Ok(NodeCallOutcome::Done(NodeResponse::Mitocandria(resp)))
                    },
                    Ok(MitocandriaCallOutcome::Await(t, c)) => {
                        Ok(NodeCallOutcome::AwaitMitocandria(t, c))
                    },
                    Err(e) => Err(e),
                }
            },
            (DeviceNode::OldVersion(d), NodeRequest::OldVersion(q)) => {
                match q {
                    OldVersionDeviceRequest::StartFieldUpgrade => {
                        match d.start_field_upgrade(dom, info) {
                            Ok(()) => Ok(NodeCallOutcome::Done(NodeResponse::OldVersion(
                                OldVersionDeviceResponse::StartFieldUpgrade))),
                            Err(e) => Err(e),
                        }
                    },
                    OldVersionDeviceRequest::GetError => {
                        Ok(NodeCallOutcome::Done(NodeResponse::OldVersion(
                            OldVersionDeviceResponse::GetError(d.get_error()))))
                    },
                    OldVersionDeviceRequest::GetFirmwareUrl => {
                        Ok(NodeCallOutcome::Done(NodeResponse::OldVersion(
                            OldVersionDeviceResponse::GetFirmwareUrl(d.get_firmware_url()))))
                    },
                    OldVersionDeviceRequest::Grapple(g) => {
                        match d.grapple(dom, info, g) {
                            Ok(resp) => Ok(NodeCallOutcome::Done(NodeResponse::OldVersion(
                                OldVersionDeviceResponse::Grapple(resp)))),
                            Err(e) => Err(e),
                        }
                    },
                }
            },
            _ => Err(HookError::NoSuchDevice),
        }
    }
}

/// Whether a routed request names the class the instance has.
pub open spec fn class_matches(node: DeviceNode, req: NodeRequest) -> bool {
    match (node, req) {
        (DeviceNode::LaserCan(_), NodeRequest::LaserCan(_)) => true,
        (DeviceNode::FlexiCan(_), NodeRequest::FlexiCan(_)) => true,
        (DeviceNode::Mitocandria(_), NodeRequest::Mitocandria(_)) => true,
        (DeviceNode::OldVersion(_), NodeRequest::OldVersion(_)) => true,
        _ => false,
    }
}

} // verus!
