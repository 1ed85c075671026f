//! The distance-sensor device variant: streamed measurements, ranging
//! configuration over correlated requests, and its firmware rules.

use vstd::prelude::*;

use crate::HookError;
use crate::correlation::Domain;
use crate::correlation::RequestTicket;
use crate::correlation::begin_request;
use crate::devices::DeviceInfo;
use crate::devices::GrappleDeviceRequest;
use crate::devices::GrappleDeviceResponse;
use crate::devices::RootDevice;
use crate::devices::grapple_rpc;
use crate::devices::spec_identity_broadcast;
use crate::msg::DEVICE_ID_BROADCAST;
use crate::msg::DeviceMessage;
use crate::msg::DistanceSensorMessage;
use crate::msg::Measurement;
use crate::msg::RangingMode;
use crate::msg::Roi;
use crate::msg::TaggedMessage;
use crate::msg::TimingBudget;
use crate::msg::spec_complement_u32;

verus! {

/// How long one configuration request may wait for its reply.
pub const CONFIG_TIMEOUT_MS: u64 = 300;
/// How many times a configuration request is retried.
pub const CONFIG_RETRIES: u32 = 5;

/// The latest streamed state of one distance sensor.
#[derive(Debug, Clone, Copy, PartialEq, Eq, Structural)]
pub struct LaserCanStatus {
    pub last_update: Option<Measurement>,
}

/// One distance sensor's running instance.
#[derive(Debug, Clone, Copy, PartialEq, Eq, Structural)]
pub struct LaserCan {
    pub status: LaserCanStatus,
}

/// Whether a message is addressed to the device this info describes:
/// a broadcast, or its own bus address.
pub open spec fn addressed_to(info: DeviceInfo, msg: TaggedMessage) -> bool {
    msg.device_id == DEVICE_ID_BROADCAST || info.device_id == Some(msg.device_id)
}

impl LaserCan {
    /// A fresh instance with no measurement seen yet.
    pub fn new() -> (r: LaserCan)
        ensures r.status.last_update is None,
    {
        LaserCan { status: LaserCanStatus { last_update: None } }
    }

    /// How one inbound message changes this device: a measurement
    /// addressed to it replaces the last reading; everything else
    /// leaves it unchanged.
    pub open spec fn handled(self, info: DeviceInfo, msg: TaggedMessage) -> LaserCan {
        if addressed_to(info, msg) {
            match msg.msg {
                DeviceMessage::DistanceSensor(DistanceSensorMessage::Measurement(m)) => {
                    LaserCan { status: LaserCanStatus { last_update: Some(m) } }
                },
                _ => self,
            }
        } else {
            self
        }
    }

    /// Apply one inbound message.
    pub fn handle(&mut self, info: &DeviceInfo, msg: &TaggedMessage)
        ensures
            *final(self) == old(self).handled(*info, *msg),
    {
        let to_us = msg.device_id == DEVICE_ID_BROADCAST
            || match info.device_id {
                Some(d) => d == msg.device_id,
                None => false,
            };
        if to_us {
            match &msg.msg {
                DeviceMessage::DistanceSensor(DistanceSensorMessage::Measurement(m)) => {
                    self.status.last_update = Some(*m);
                },
                _ => {},
            }
        }
    }

    /// The latest streamed state.
    pub fn status(&self) -> (r: LaserCanStatus)
        ensures r == self.status,
    {
        self.status
    }
}

impl crate::devices::HasFirmwareUpdateURLDevice for LaserCan {
    fn firmware_url() -> Option<String> {
        firmware_url()
    }
}

impl RootDevice for LaserCan {
    fn device_class(&self) -> &'static str {
        "LaserCAN"
    }
}

/// The firmware range this variant supports.
pub fn lasercan_version_req() -> (r: &'static str)
    ensures r@ == ">= 2024.2.0, < 2024.3.0"@,
{
    ">= 2024.2.0, < 2024.3.0"
}

/// Hold a reported version against this variant's supported range.
pub fn validate_version(version: &Option<String>) -> (r: Result<(), HookError>)
    ensures
        crate::version::version_acceptable(*version, ">= 2024.2.0, < 2024.3.0"@) <==> r is Ok,
        !crate::version::version_acceptable(*version, ">= 2024.2.0, < 2024.3.0"@)
            ==> (r matches Err(e) && e matches HookError::VersionMismatch(d)
                && d@ == crate::version::mismatch_description(
                    version->Some_0@, ">= 2024.2.0, < 2024.3.0"@)),
{
    crate::version::require_version(version, lasercan_version_req())
}

/// Where newer firmware for this variant is published.
pub fn firmware_url() -> (r: Option<String>)
    ensures
        r matches Some(u)
            && u@ == "https://api.github.com/repos/GrappleRobotics/LaserCAN/releases"@,
{
    Some(String::from_str("https://api.github.com/repos/GrappleRobotics/LaserCAN/releases"))
}

/// A valid firmware image for this variant: the fixed magic bytes at
/// their fixed offset, and the variant's model byte.
pub open spec fn firmware_valid(buf: Seq<u8>) -> bool {
    &&& buf.len() > 0x15c
    &&& buf[0x150] == 0xbe
    &&& buf[0x151] == 0xba
    &&& buf[0x152] == 0xfe
    &&& buf[0x153] == 0xca
    &&& buf[0x15c] == 0x10
}

/// Check an image's magic bytes and model byte before any transfer.
pub fn validate_firmware(_info: &DeviceInfo, buf: &Vec<u8>) -> (r: Result<(), HookError>)
    ensures
        firmware_valid(buf@) <==> r is Ok,
        !firmware_valid(buf@) ==> (r matches Err(e) && e is FirmwareValidation),
{
    if buf.len() > 0x15c
        && buf[0x150] == 0xbe && buf[0x151] == 0xba
        && buf[0x152] == 0xfe && buf[0x153] == 0xca
        && buf[0x15c] == 0x10 {
        Ok(())
    } else {
        Err(HookError::FirmwareValidation)
    }
}

/// A request this device answers.
#[derive(Debug, Clone)]
pub enum LaserCanRequest {
    StartFieldUpgrade,
    SetRange(RangingMode),
    SetRoi(Roi),
    SetTimingBudget(TimingBudget),
    Grapple(GrappleDeviceRequest),
    Status,
}

/// An answer from this device.
#[derive(Debug, Clone, Copy, PartialEq, Eq, Structural)]
pub enum LaserCanResponse {
    StartFieldUpgrade,
    SetRange,
    SetRoi,
    SetTimingBudget,
    Grapple(GrappleDeviceResponse),
    Status(LaserCanStatus),
}

/// A configuration exchange still waiting for its acknowledgement.
#[derive(Debug, Clone, Copy, PartialEq, Eq, Structural)]
pub enum LaserCanPendingCall {
    SetRange,
    SetRoi,
    SetTimingBudget,
}

/// The outcome of one call: either answered on the spot, or waiting on
/// a correlated reply the caller must drive to completion.
pub enum LaserCanCallOutcome {
    Done(LaserCanResponse),
    Await(RequestTicket, LaserCanPendingCall),
}

impl LaserCan {
    /// Answer one request.  Local requests complete on the spot;
    /// configuration requests are sent as correlated requests addressed
    /// to the device and the caller awaits their acknowledgement.  An
    /// invalid region of interest is rejected before anything is sent.
    pub fn call(&self, dom: &mut Domain, info: &DeviceInfo, req: LaserCanRequest)
        -> (r: Result<LaserCanCallOutcome, HookError>)
        ensures
            req is Status ==> (r matches Ok(o) && o matches LaserCanCallOutcome::Done(
                LaserCanResponse::Status(st)) && st == self.status)
                && final(dom).outbound@ == old(dom).outbound@
                && final(dom).pending@ == old(dom).pending@,
            req is StartFieldUpgrade ==> (info.serial matches Some(serial) ==> (
                r matches Ok(o) && o matches LaserCanCallOutcome::Done(
                    LaserCanResponse::StartFieldUpgrade)
                && final(dom).outbound@ == old(dom).outbound@.push(TaggedMessage {
                    device_id: DEVICE_ID_BROADCAST,
                    msg: DeviceMessage::FirmwareUpdate(
                        crate::msg::FirmwareMessage::StartFieldUpgrade { serial }),
                }))),
            (req is StartFieldUpgrade && info.serial is None) ==> (r matches Err(e)
                && e is NoSerial && final(dom).outbound@ == old(dom).outbound@),
            req matches LaserCanRequest::Grapple(g) ==> (info.serial matches Some(serial) ==> (
                r matches Ok(o) && o == LaserCanCallOutcome::Done(
                    LaserCanResponse::Grapple(crate::devices::spec_identity_response(g)))
                && final(dom).outbound@ == old(dom).outbound@
                    .push(spec_identity_broadcast(g, serial)))),
            (req is Grapple && info.serial is None) ==> (
                r matches Err(e) && e is NoSerial
                && final(dom).outbound@ == old(dom).outbound@),
            req matches LaserCanRequest::SetRange(mode) ==> (info.device_id matches Some(did)
                ==> spec_await_ok(r, *old(dom), *final(dom), TaggedMessage {
                    device_id: did,
                    msg: DeviceMessage::DistanceSensor(DistanceSensorMessage::SetRange(mode)),
                }, LaserCanPendingCall::SetRange)),
            req matches LaserCanRequest::SetTimingBudget(b) ==> (
                info.device_id matches Some(did)
                ==> spec_await_ok(r, *old(dom), *final(dom), TaggedMessage {
                    device_id: did,
                    msg: DeviceMessage::DistanceSensor(
                        DistanceSensorMessage::SetTimingBudget(b)),
                }, LaserCanPendingCall::SetTimingBudget)),
            req matches LaserCanRequest::SetRoi(roi) ==> (crate::msg::roi_valid(roi)
                ==> (info.device_id matches Some(did)
                    ==> spec_await_ok(r, *old(dom), *final(dom), TaggedMessage {
                        device_id: did,
                        msg: DeviceMessage::DistanceSensor(DistanceSensorMessage::SetRoi(roi)),
                    }, LaserCanPendingCall::SetRoi))),
            req matches LaserCanRequest::SetRoi(roi) ==> (!crate::msg::roi_valid(roi)
                && info.device_id is Some ==> (r matches Err(e) && e is InvalidMessage
                && final(dom).outbound@ == old(dom).outbound@
                && final(dom).pending_view() == old(dom).pending_view())),
            ((req is SetRange || req is SetRoi || req is SetTimingBudget)
                && info.device_id is None) ==> (r matches Err(e) && e is NoDeviceId
                && final(dom).outbound@ == old(dom).outbound@
                && final(dom).pending_view() == old(dom).pending_view()),
            (req is Status || req is StartFieldUpgrade || req is Grapple)
                ==> final(dom).pending@ == old(dom).pending@,
            final(dom).name == old(dom).name,
    {
        match req {
            LaserCanRequest::Status => {
                Ok(LaserCanCallOutcome::Done(LaserCanResponse::Status(self.status)))
            },
            LaserCanRequest::StartFieldUpgrade => {
                let serial = match info.require_serial() {
                    Ok(s) => s,
                    Err(e) => {
                        return Err(e);
                    },
                };
                match crate::devices::start_field_upgrade(dom, serial) {
                    Ok(()) => Ok(LaserCanCallOutcome::Done(LaserCanResponse::StartFieldUpgrade)),
                    Err(e) => Err(e),
                }
            },
            LaserCanRequest::Grapple(g) => {
                match grapple_rpc(dom, info, g) {
                    Ok(resp) => Ok(LaserCanCallOutcome::Done(LaserCanResponse::Grapple(resp))),
                    Err(e) => Err(e),
                }
            },
            LaserCanRequest::SetRange(mode) => {
                let did = match info.require_device_id() {
                    Ok(d) => d,
                    Err(e) => {
                        return Err(e);
                    },
                };
                let msg = TaggedMessage::new(
                    did, DeviceMessage::DistanceSensor(DistanceSensorMessage::SetRange(mode)));
                match begin_request(dom, msg, CONFIG_TIMEOUT_MS, CONFIG_RETRIES) {
                    Ok(t) => Ok(LaserCanCallOutcome::Await(t, LaserCanPendingCall::SetRange)),
                    Err(e) => Err(e),
                }
            },
            LaserCanRequest::SetRoi(roi) => {
                let did = match info.require_device_id() {
                    Ok(d) => d,
                    Err(e) => {
                        return Err(e);
                    },
                };
                let msg = TaggedMessage::new(
                    did, DeviceMessage::DistanceSensor(DistanceSensorMessage::SetRoi(roi)));
                match begin_request(dom, msg, CONFIG_TIMEOUT_MS, CONFIG_RETRIES) {
                    Ok(t) => Ok(LaserCanCallOutcome::Await(t, LaserCanPendingCall::SetRoi)),
                    Err(e) => Err(e),
                }
            },
            LaserCanRequest::SetTimingBudget(b) => {
                let did = match info.require_device_id() {
                    Ok(d) => d,
                    Err(e) => {
                        return Err(e);
                    },
                };
                let msg = TaggedMessage::new(
                    did,
                    DeviceMessage::DistanceSensor(DistanceSensorMessage::SetTimingBudget(b)));
                match begin_request(dom, msg, CONFIG_TIMEOUT_MS, CONFIG_RETRIES) {
                    Ok(t) => Ok(LaserCanCallOutcome::Await(
                        t, LaserCanPendingCall::SetTimingBudget)),
                    Err(e) => Err(e),
                }
            },
        }
    }
}

/// A successful hand-off into a correlated wait: the request was queued,
/// its slot registered, and the ticket returned with the right reply
/// identifier, retry budget and continuation.
pub open spec fn spec_await_ok(
    r: Result<LaserCanCallOutcome, HookError>,
    dom0: Domain,
    dom1: Domain,
    msg: TaggedMessage,
    call: LaserCanPendingCall,
) -> bool {
    &&& r matches Ok(o)
    &&& o matches LaserCanCallOutcome::Await(t, c)
    &&& c == call
    &&& t.msg@ == msg
    &&& t.complement == spec_complement_u32(msg.device_id, msg.msg)
    &&& t.timeout_ms == CONFIG_TIMEOUT_MS
    &&& t.retries_left == CONFIG_RETRIES
    &&& t.attempts == 1
    &&& dom1.outbound@ == dom0.outbound@.push(msg)
    &&& dom1.pending_view() == dom0.pending_view().push((t.complement, t.token))
}

/// Complete a pending configuration call from the reply that arrived:
/// the matching acknowledgement completes it, anything else is a
/// protocol error.
pub fn finish_call(call: LaserCanPendingCall, reply: &TaggedMessage)
    -> (r: Result<LaserCanResponse, HookError>)
    ensures
        (match call {
            LaserCanPendingCall::SetRange => reply.msg matches DeviceMessage::DistanceSensor(
                DistanceSensorMessage::SetRangeAck),
            LaserCanPendingCall::SetRoi => reply.msg matches DeviceMessage::DistanceSensor(
                DistanceSensorMessage::SetRoiAck),
            LaserCanPendingCall::SetTimingBudget => reply.msg matches
                DeviceMessage::DistanceSensor(DistanceSensorMessage::SetTimingBudgetAck),
        }) ==> (r matches Ok(resp) && resp == (match call {
            LaserCanPendingCall::SetRange => LaserCanResponse::SetRange,
            LaserCanPendingCall::SetRoi => LaserCanResponse::SetRoi,
            LaserCanPendingCall::SetTimingBudget => LaserCanResponse::SetTimingBudget,
        })),
        !(match call {
            LaserCanPendingCall::SetRange => reply.msg matches DeviceMessage::DistanceSensor(
                DistanceSensorMessage::SetRangeAck),
            LaserCanPendingCall::SetRoi => reply.msg matches DeviceMessage::DistanceSensor(
                DistanceSensorMessage::SetRoiAck),
            LaserCanPendingCall::SetTimingBudget => reply.msg matches
                DeviceMessage::DistanceSensor(DistanceSensorMessage::SetTimingBudgetAck),
        }) ==> (r matches Err(e) && e is Protocol),
{
    match (call, &reply.msg) {
        (LaserCanPendingCall::SetRange,
            DeviceMessage::DistanceSensor(DistanceSensorMessage::SetRangeAck)) => {
            Ok(LaserCanResponse::SetRange)
        },
        (LaserCanPendingCall::SetRoi,
            DeviceMessage::DistanceSensor(DistanceSensorMessage::SetRoiAck)) => {
            Ok(LaserCanResponse::SetRoi)
        },
        (LaserCanPendingCall::SetTimingBudget,
            DeviceMessage::DistanceSensor(DistanceSensorMessage::SetTimingBudgetAck)) => {
            Ok(LaserCanResponse::SetTimingBudget)
        },
        _ => Err(HookError::Protocol),
    }
}

} // verus!
