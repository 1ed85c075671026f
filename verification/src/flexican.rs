//! The CAN-to-host bridge device variant: identity operations and its
//! firmware rules.  Its version gate is permissive, and it publishes no
//! firmware-update location.

use vstd::prelude::*;

use crate::HookError;
use crate::correlation::Domain;
use crate::devices::DeviceInfo;
use crate::devices::GrappleDeviceRequest;
use crate::devices::GrappleDeviceResponse;
use crate::devices::RootDevice;
use crate::devices::grapple_rpc;
use crate::devices::spec_identity_broadcast;
use crate::msg::DEVICE_ID_BROADCAST;
use crate::msg::DeviceMessage;
use crate::msg::TaggedMessage;

verus! {

/// The bridge's status surface; it reports nothing beyond its identity.
#[derive(Debug, Clone, Copy, PartialEq, Eq, Structural)]
pub struct FlexiCanStatus {}

/// One CAN bridge's running instance.
#[derive(Debug, Clone, Copy, PartialEq, Eq, Structural)]
pub struct FlexiCan {
    pub status: FlexiCanStatus,
}

impl FlexiCan {
    /// A fresh instance.
    pub fn new() -> (r: FlexiCan)
        ensures r == (FlexiCan { status: FlexiCanStatus {} }),
    {
        FlexiCan { status: FlexiCanStatus {} }
    }

    /// Inbound messages carry no state for this variant.
    pub open spec fn handled(self, info: DeviceInfo, msg: TaggedMessage) -> FlexiCan {
        self
    }

    /// Apply one inbound message; nothing changes.
    pub fn handle(&mut self, info: &DeviceInfo, msg: &TaggedMessage)
        ensures *final(self) == old(self).handled(*info, *msg),
    {
    }

    /// The (empty) status surface.
    pub fn status(&self) -> (r: FlexiCanStatus)
        ensures r == self.status,
    {
        self.status
    }
}

impl crate::devices::HasFirmwareUpdateURLDevice for FlexiCan {
    fn firmware_url() -> Option<String> {
        firmware_url()
    }
}

impl RootDevice for FlexiCan {
    fn device_class(&self) -> &'static str {
        "FlexiCAN"
    }
}

/// Every reported version is accepted for this variant.
pub fn validate_version(version: &Option<String>) -> (r: Result<(), HookError>)
    ensures r is Ok,
{
    Ok(())
}

/// This variant publishes no firmware-update location.
pub fn firmware_url() -> (r: Option<String>)
    ensures r is None,
{
    None
}

/// A valid firmware image for this variant: the fixed magic bytes at
/// their fixed offset, and the variant's model byte.
pub open spec fn firmware_valid(buf: Seq<u8>) -> bool {
    &&& buf.len() > 0x20c
    &&& buf[0x200] == 0xbe
    &&& buf[0x201] == 0xba
    &&& buf[0x202] == 0xfe
    &&& buf[0x203] == 0xca
    &&& buf[0x20c] == 0x30
}

/// Check an image's magic bytes and model byte before any transfer.
pub fn validate_firmware(_info: &DeviceInfo, buf: &Vec<u8>) -> (r: Result<(), HookError>)
    ensures
        firmware_valid(buf@) <==> r is Ok,
        !firmware_valid(buf@) ==> (r matches Err(e) && e is FirmwareValidation),
{
    if buf.len() > 0x20c
        && buf[0x200] == 0xbe && buf[0x201] == 0xba
        && buf[0x202] == 0xfe && buf[0x203] == 0xca
        && buf[0x20c] == 0x30 {
        Ok(())
    } else {
        Err(HookError::FirmwareValidation)
    }
}

/// A request this device answers.
#[derive(Debug, Clone)]
pub enum FlexiCanRequest {
    StartFieldUpgrade,
    Grapple(GrappleDeviceRequest),
    Status,
}

/// An answer from this device.
#[derive(Debug, Clone, Copy, PartialEq, Eq, Structural)]
pub enum FlexiCanResponse {
    StartFieldUpgrade,
    Grapple(GrappleDeviceResponse),
    Status(FlexiCanStatus),
}

impl FlexiCan {
    /// Answer one request; every request this variant takes completes
    /// on the spot.
    pub fn call(&self, dom: &mut Domain, info: &DeviceInfo, req: FlexiCanRequest)
        -> (r: Result<FlexiCanResponse, HookError>)
        ensures
            req is Status ==> (r matches Ok(resp)
                && resp == FlexiCanResponse::Status(self.status))
                && final(dom).outbound@ == old(dom).outbound@,
            req is StartFieldUpgrade ==> (info.serial matches Some(serial) ==> (
                r matches Ok(resp) && resp is StartFieldUpgrade
                && final(dom).outbound@ == old(dom).outbound@.push(TaggedMessage {
                    device_id: DEVICE_ID_BROADCAST,
                    msg: DeviceMessage::FirmwareUpdate(
                        crate::msg::FirmwareMessage::StartFieldUpgrade { serial }),
                }))),
            req matches FlexiCanRequest::Grapple(g) ==> (info.serial matches Some(serial) ==> (
                r matches Ok(resp) && resp == FlexiCanResponse::Grapple(
                    crate::devices::spec_identity_response(g))
                && final(dom).outbound@ == old(dom).outbound@
                    .push(spec_identity_broadcast(g, serial)))),
            (!(req is Status) && info.serial is None) ==> (r matches Err(e) && e is NoSerial
                && final(dom).outbound@ == old(dom).outbound@),
            final(dom).pending@ == old(dom).pending@,
            final(dom).name == old(dom).name,
    {
        match req {
            FlexiCanRequest::Status => Ok(FlexiCanResponse::Status(self.status)),
            FlexiCanRequest::StartFieldUpgrade => {
                let serial = match info.require_serial() {
                    Ok(s) => s,
                    Err(e) => {
                        return Err(e);
                    },
                };
                match crate::devices::start_field_upgrade(dom, serial) {
                    Ok(()) => Ok(FlexiCanResponse::StartFieldUpgrade),
                    Err(e) => Err(e),
                }
            },
            FlexiCanRequest::Grapple(g) => {
                match grapple_rpc(dom, info, g) {
                    Ok(resp) => Ok(FlexiCanResponse::Grapple(resp)),
                    Err(e) => Err(e),
                }
            },
        }
    }
}

} // verus!
