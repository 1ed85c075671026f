//! The power-distribution-module device variant: streamed status frames,
//! channel control over correlated requests, and its firmware rules.

use vstd::prelude::*;

use crate::HookError;
use crate::correlation::Domain;
use crate::correlation::RequestTicket;
use crate::correlation::begin_request;
use crate::devices::DeviceInfo;
use crate::devices::GrappleDeviceRequest;
use crate::devices::GrappleDeviceResponse;
use crate::devices::RootDevice;
use crate::devices::grapple_rpc;
use crate::devices::spec_identity_broadcast;
use crate::lasercan::CONFIG_RETRIES;
use crate::lasercan::CONFIG_TIMEOUT_MS;
use crate::lasercan::addressed_to;
use crate::msg::DEVICE_ID_BROADCAST;
use crate::msg::DeviceMessage;
use crate::msg::PowerMessage;
use crate::msg::PowerStatusFrame;
use crate::msg::TaggedMessage;
use crate::msg::spec_complement_u32;

verus! {

/// The latest streamed state of one power-distribution module.
#[derive(Debug, Clone, Copy, PartialEq, Eq, Structural)]
pub struct MitocandriaStatus {
    pub last_update: Option<PowerStatusFrame>,
}

/// One power-distribution module's running instance.
#[derive(Debug, Clone, Copy, PartialEq, Eq, Structural)]
pub struct Mitocandria {
    pub status: MitocandriaStatus,
}

impl Mitocandria {
    /// A fresh instance with no status frame seen yet.
    pub fn new() -> (r: Mitocandria)
        ensures r.status.last_update is None,
    {
        Mitocandria { status: MitocandriaStatus { last_update: None } }
    }

    /// How one inbound message changes this device: a status frame
    /// addressed to it replaces the last one; everything else leaves it
    /// unchanged.
    pub open spec fn handled(self, info: DeviceInfo, msg: TaggedMessage) -> Mitocandria {
        if addressed_to(info, msg) {
            match msg.msg {
                DeviceMessage::PowerDistributionModule(PowerMessage::StatusFrame(f)) => {
                    Mitocandria { status: MitocandriaStatus { last_update: Some(f) } }
                },
                _ => self,
            }
        } else {
            self
        }
    }

    /// Apply one inbound message.
    pub fn handle(&mut self, info: &DeviceInfo, msg: &TaggedMessage)
        ensures *final(self) == old(self).handled(*info, *msg),
    {
        let to_us = msg.device_id == DEVICE_ID_BROADCAST
            || match info.device_id {
                Some(d) => d == msg.device_id,
                None => false,
            };
        if to_us {
            match &msg.msg {
                DeviceMessage::PowerDistributionModule(PowerMessage::StatusFrame(f)) => {
                    self.status.last_update = Some(*f);
                },
                _ => {},
            }
        }
    }

    /// The latest streamed state.
    pub fn status(&self) -> (r: MitocandriaStatus)
        ensures r == self.status,
    {
        self.status
    }
}

impl crate::devices::HasFirmwareUpdateURLDevice for Mitocandria {
    fn firmware_url() -> Option<String> {
        firmware_url()
    }
}

impl RootDevice for Mitocandria {
    fn device_class(&self) -> &'static str {
        "MitoCANdria"
    }
}

/// The firmware range this variant supports.
pub fn mitocandria_version_req() -> (r: &'static str)
    ensures r@ == ">= 2025.0.0, < 2025.1.0"@,
{
    ">= 2025.0.0, < 2025.1.0"
}

/// Hold a reported version against this variant's supported range.
pub fn validate_version(version: &Option<String>) -> (r: Result<(), HookError>)
    ensures
        crate::version::version_acceptable(*version, ">= 2025.0.0, < 2025.1.0"@) <==> r is Ok,
        !crate::version::version_acceptable(*version, ">= 2025.0.0, < 2025.1.0"@)
            ==> (r matches Err(e) && e matches HookError::VersionMismatch(d)
                && d@ == crate::version::mismatch_description(
                    version->Some_0@, ">= 2025.0.0, < 2025.1.0"@)),
{
    crate::version::require_version(version, mitocandria_version_req())
}

/// Where newer firmware for this variant is published.
pub fn firmware_url() -> (r: Option<String>)
    ensures
        r matches Some(u)
            && u@ == "https://github.com/GrappleRobotics/Binaries/releases"@,
{
    Some(String::from_str("https://github.com/GrappleRobotics/Binaries/releases"))
}

/// A valid firmware image for this variant: the fixed magic bytes at
/// their fixed offset, and the variant's model byte.
pub open spec fn firmware_valid(buf: Seq<u8>) -> bool {
    &&& buf.len() > 0x20c
    &&& buf[0x200] == 0xbe
    &&& buf[0x201] == 0xba
    &&& buf[0x202] == 0xfe
    &&& buf[0x203] == 0xca
    &&& buf[0x20c] == 0x40
}

/// Check an image's magic bytes and model byte before any transfer.
pub fn validate_firmware(_info: &DeviceInfo, buf: &Vec<u8>) -> (r: Result<(), HookError>)
    ensures
        firmware_valid(buf@) <==> r is Ok,
        !firmware_valid(buf@) ==> (r matches Err(e) && e is FirmwareValidation),
{
    if buf.len() > 0x20c
        && buf[0x200] == 0xbe && buf[0x201] == 0xba
        && buf[0x202] == 0xfe && buf[0x203] == 0xca
        && buf[0x20c] == 0x40 {
        Ok(())
    } else {
        Err(HookError::FirmwareValidation)
    }
}

/// A request this device answers.
#[derive(Debug, Clone)]
pub enum MitocandriaRequest {
    StartFieldUpgrade,
    SetSwitchableChannel { channel: u8, enabled: bool },
    SetAdjustableChannel { channel: u8, voltage_mv: u16 },
    Grapple(GrappleDeviceRequest),
    Status,
}

/// An answer from this device.
#[derive(Debug, Clone, Copy, PartialEq, Eq, Structural)]
pub enum MitocandriaResponse {
    StartFieldUpgrade,
    SetSwitchableChannel,
    SetAdjustableChannel,
    Grapple(GrappleDeviceResponse),
    Status(MitocandriaStatus),
}

/// A channel exchange still waiting for its acknowledgement.
#[derive(Debug, Clone, Copy, PartialEq, Eq, Structural)]
pub enum MitocandriaPendingCall {
    SetSwitchableChannel,
    SetAdjustableChannel,
}

/// The outcome of one call: either answered on the spot, or waiting on
/// a correlated reply the caller must drive to completion.
pub enum MitocandriaCallOutcome {
    Done(MitocandriaResponse),
    Await(RequestTicket, MitocandriaPendingCall),
}

/// A successful hand-off into a correlated wait for a channel request.
pub open spec fn spec_await_ok(
    r: Result<MitocandriaCallOutcome, HookError>,
    dom0: Domain,
    dom1: Domain,
    msg: TaggedMessage,
    call: MitocandriaPendingCall,
) -> bool {
    &&& r matches Ok(o)
    &&& o matches MitocandriaCallOutcome::Await(t, c)
    &&& c == call
    &&& t.msg@ == msg
    &&& t.complement == spec_complement_u32(msg.device_id, msg.msg)
    &&& t.timeout_ms == CONFIG_TIMEOUT_MS
    &&& t.retries_left == CONFIG_RETRIES
    &&& t.attempts == 1
    &&& dom1.outbound@ == dom0.outbound@.push(msg)
    &&& dom1.pending_view() == dom0.pending_view().push((t.complement, t.token))
}

impl Mitocandria {
    /// Answer one request.  Local requests complete on the spot; channel
    /// requests are sent as correlated requests addressed to the device
    /// and the caller awaits their acknowledgement.
    pub fn call(&self, dom: &mut Domain, info: &DeviceInfo, req: MitocandriaRequest)
        -> (r: Result<MitocandriaCallOutcome, HookError>)
        ensures
            req is Status ==> (r matches Ok(o) && o matches MitocandriaCallOutcome::Done(
                MitocandriaResponse::Status(st)) && st == self.status)
                && final(dom).outbound@ == old(dom).outbound@
                && final(dom).pending@ == old(dom).pending@,
            req is StartFieldUpgrade ==> (info.serial matches Some(serial) ==> (
                r matches Ok(o) && o matches MitocandriaCallOutcome::Done(
                    MitocandriaResponse::StartFieldUpgrade)
                && final(dom).outbound@ == old(dom).outbound@.push(TaggedMessage {
                    device_id: DEVICE_ID_BROADCAST,
                    msg: DeviceMessage::FirmwareUpdate(
                        crate::msg::FirmwareMessage::StartFieldUpgrade { serial }),
                }))),
            req matches MitocandriaRequest::Grapple(g) ==> (
                info.serial matches Some(serial) ==> (
                    r matches Ok(o) && o == MitocandriaCallOutcome::Done(
                        MitocandriaResponse::Grapple(
                            crate::devices::spec_identity_response(g)))
                    && final(dom).outbound@ == old(dom).outbound@
                        .push(spec_identity_broadcast(g, serial)))),
            ((req is StartFieldUpgrade || req is Grapple) && info.serial is None) ==> (
                r matches Err(e) && e is NoSerial
                && final(dom).outbound@ == old(dom).outbound@),
            req matches MitocandriaRequest::SetSwitchableChannel { channel, enabled } ==> (
                info.device_id matches Some(did)
                ==> spec_await_ok(r, *old(dom), *final(dom), TaggedMessage {
                    device_id: did,
                    msg: DeviceMessage::PowerDistributionModule(
                        PowerMessage::SetSwitchableChannel { channel, enabled }),
                }, MitocandriaPendingCall::SetSwitchableChannel)),
            req matches MitocandriaRequest::SetAdjustableChannel { channel, voltage_mv } ==> (
                info.device_id matches Some(did)
                ==> spec_await_ok(r, *old(dom), *final(dom), TaggedMessage {
                    device_id: did,
                    msg: DeviceMessage::PowerDistributionModule(
                        PowerMessage::SetAdjustableChannel { channel, voltage_mv }),
                }, MitocandriaPendingCall::SetAdjustableChannel)),
            ((req is SetSwitchableChannel || req is SetAdjustableChannel)
                && info.device_id is None) ==> (r matches Err(e) && e is NoDeviceId
                && final(dom).outbound@ == old(dom).outbound@
                && final(dom).pending_view() == old(dom).pending_view()),
            (req is Status || req is StartFieldUpgrade || req is Grapple)
                ==> final(dom).pending@ == old(dom).pending@,
            final(dom).name == old(dom).name,
    {
        match req {
            MitocandriaRequest::Status => {
                Ok(MitocandriaCallOutcome::Done(MitocandriaResponse::Status(self.status)))
            },
            MitocandriaRequest::StartFieldUpgrade => {
                let serial = match info.require_serial() {
                    Ok(s) => s,
                    Err(e) => {
                        return Err(e);
                    },
                };
                match crate::devices::start_field_upgrade(dom, serial) {
                    Ok(()) => Ok(MitocandriaCallOutcome::Done(
                        MitocandriaResponse::StartFieldUpgrade)),
                    Err(e) => Err(e),
                }
            },
            MitocandriaRequest::Grapple(g) => {
                match grapple_rpc(dom, info, g) {
                    Ok(resp) => Ok(MitocandriaCallOutcome::Done(
                        MitocandriaResponse::Grapple(resp))),
                    Err(e) => Err(e),
                }
            },
            MitocandriaRequest::SetSwitchableChannel { channel, enabled } => {
                let did = match info.require_device_id() {
                    Ok(d) => d,
                    Err(e) => {
                        return Err(e);
                    },
                };
                let msg = TaggedMessage::new(did, DeviceMessage::PowerDistributionModule(
                    PowerMessage::SetSwitchableChannel { channel, enabled }));
                match begin_request(dom, msg, CONFIG_TIMEOUT_MS, CONFIG_RETRIES) {
                    Ok(t) => Ok(MitocandriaCallOutcome::Await(
                        t, MitocandriaPendingCall::SetSwitchableChannel)),
                    Err(e) => Err(e),
                }
            },
            MitocandriaRequest::SetAdjustableChannel { channel, voltage_mv } => {
                let did = match info.require_device_id() {
                    Ok(d) => d,
                    Err(e) => {
                        return Err(e);
                    },
                };
                let msg = TaggedMessage::new(did, DeviceMessage::PowerDistributionModule(
                    PowerMessage::SetAdjustableChannel { channel, voltage_mv }));
                match begin_request(dom, msg, CONFIG_TIMEOUT_MS, CONFIG_RETRIES) {
                    Ok(t) => Ok(MitocandriaCallOutcome::Await(
                        t, MitocandriaPendingCall::SetAdjustableChannel)),
                    Err(e) => Err(e),
                }
            },
        }
    }
}

/// Complete a pending channel call from the reply that arrived: the
/// matching acknowledgement completes it, anything else is a protocol
/// error.
pub fn finish_call(call: MitocandriaPendingCall, reply: &TaggedMessage)
    -> (r: Result<MitocandriaResponse, HookError>)
    ensures
        (match call {
            MitocandriaPendingCall::SetSwitchableChannel => reply.msg matches
                DeviceMessage::PowerDistributionModule(PowerMessage::SetSwitchableChannelAck),
            MitocandriaPendingCall::SetAdjustableChannel => reply.msg matches
                DeviceMessage::PowerDistributionModule(PowerMessage::SetAdjustableChannelAck),
        }) ==> (r matches Ok(resp) && resp == (match call {
            MitocandriaPendingCall::SetSwitchableChannel =>
                MitocandriaResponse::SetSwitchableChannel,
            MitocandriaPendingCall::SetAdjustableChannel =>
                MitocandriaResponse::SetAdjustableChannel,
        })),
        !(match call {
            MitocandriaPendingCall::SetSwitchableChannel => reply.msg matches
                DeviceMessage::PowerDistributionModule(PowerMessage::SetSwitchableChannelAck),
            MitocandriaPendingCall::SetAdjustableChannel => reply.msg matches
                DeviceMessage::PowerDistributionModule(PowerMessage::SetAdjustableChannelAck),
        }) ==> (r matches Err(e) && e is Protocol),
{
    match (call, &reply.msg) {
        (MitocandriaPendingCall::SetSwitchableChannel,
            DeviceMessage::PowerDistributionModule(PowerMessage::SetSwitchableChannelAck)) => {
            Ok(MitocandriaResponse::SetSwitchableChannel)
        },
        (MitocandriaPendingCall::SetAdjustableChannel,
            DeviceMessage::PowerDistributionModule(PowerMessage::SetAdjustableChannelAck)) => {
            Ok(MitocandriaResponse::SetAdjustableChannel)
        },
        _ => Err(HookError::Protocol),
    }
}

} // verus!
