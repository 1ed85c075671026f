//! Device identity and the capability surface shared by every device:
//! the generic identity operations, and the diagnostic stand-in that the
//! version gate substitutes for an incompatible device.

use vstd::prelude::*;

use crate::HookError;
use crate::correlation::Domain;
use crate::msg::BroadcastMessage;
use crate::msg::DEVICE_ID_BROADCAST;
use crate::msg::DeviceInfoMessage;
use crate::msg::DeviceMessage;
use crate::msg::ModelId;
use crate::msg::TaggedMessage;

verus! {

/// What kind of device an entry holds.
#[derive(Debug, Clone, Copy, PartialEq, Eq, Structural)]
pub enum DeviceType {
    Grapple(ModelId),
    RoboRio,
    Unknown,
}

/// A device's identity and status, as the last enumeration reply
/// reported it.
#[derive(Debug)]
pub struct DeviceInfo {
    pub device_type: DeviceType,
    pub firmware_version: Option<String>,
    pub serial: Option<u32>,
    pub is_dfu: bool,
    pub is_dfu_in_progress: bool,
    pub name: Option<String>,
    pub device_id: Option<u8>,
}

impl Clone for DeviceInfo {
    /// An exact copy of the reported identity.
    fn clone(&self) -> (r: DeviceInfo)
        ensures r == *self,
    {
        DeviceInfo {
            device_type: self.device_type,
            firmware_version: match &self.firmware_version {
                Some(v) => Some(v.clone()),
                None => None,
            },
            serial: self.serial,
            is_dfu: self.is_dfu,
            is_dfu_in_progress: self.is_dfu_in_progress,
            name: match &self.name {
                Some(n) => Some(n.clone()),
                None => None,
            },
            device_id: self.device_id,
        }
    }
}

impl DeviceInfo {
    /// The device's serial number, owed whenever one was reported.
    pub fn require_serial(&self) -> (r: Result<u32, HookError>)
        ensures
            self.serial matches Some(s) ==> r == Result::<u32, HookError>::Ok(s),
            self.serial is None ==> (r matches Err(e) && e is NoSerial),
    {
        match self.serial {
            Some(s) => Ok(s),
            None => Err(HookError::NoSerial),
        }
    }

    /// The device's bus address, owed whenever one was reported.
    pub fn require_device_id(&self) -> (r: Result<u8, HookError>)
        ensures
            self.device_id matches Some(d) ==> r == Result::<u8, HookError>::Ok(d),
            self.device_id is None ==> (r matches Err(e) && e is NoDeviceId),
    {
        match self.device_id {
            Some(d) => Ok(d),
            None => Err(HookError::NoDeviceId),
        }
    }
}

/// Every concrete device answers for a class name, shown in listings.
pub trait RootDevice {
    /// The class name of this device kind.
    fn device_class(&self) -> &'static str;
}

/// A device variant that publishes a firmware-update location.
pub trait HasFirmwareUpdateURLDevice {
    /// Where newer firmware for the variant is published, if anywhere.
    fn firmware_url() -> Option<String>;
}

/// The generic identity request every device answers.
#[derive(Debug, Clone)]
pub enum GrappleDeviceRequest {
    Blink,
    SetId { id: u8 },
    SetName { name: String },
    CommitToEeprom,
}

/// The outcome of a generic identity request.
#[derive(Debug, Clone, Copy, PartialEq, Eq, Structural)]
pub enum GrappleDeviceResponse {
    Blink,
    SetId,
    SetName,
    CommitToEeprom,
}

/// The answer each identity request is owed once its broadcast is
/// queued.
pub open spec fn spec_identity_response(req: GrappleDeviceRequest) -> GrappleDeviceResponse {
    match req {
        GrappleDeviceRequest::Blink => GrappleDeviceResponse::Blink,
        GrappleDeviceRequest::SetId { .. } => GrappleDeviceResponse::SetId,
        GrappleDeviceRequest::SetName { .. } => GrappleDeviceResponse::SetName,
        GrappleDeviceRequest::CommitToEeprom => GrappleDeviceResponse::CommitToEeprom,
    }
}

/// The identity broadcast one generic request queues, addressed by the
/// device's serial number.
pub open spec fn spec_identity_broadcast(req: GrappleDeviceRequest, serial: u32) -> TaggedMessage {
    TaggedMessage {
        device_id: DEVICE_ID_BROADCAST,
        msg: DeviceMessage::Broadcast(BroadcastMessage::DeviceInfo(match req {
            GrappleDeviceRequest::Blink => DeviceInfoMessage::Blink { serial },
            GrappleDeviceRequest::SetId { id } => DeviceInfoMessage::SetId { serial, new_id: id },
            GrappleDeviceRequest::SetName { name } => DeviceInfoMessage::SetName { serial, name },
            GrappleDeviceRequest::CommitToEeprom => DeviceInfoMessage::CommitConfig { serial },
        })),
    }
}

/// Carry out one generic identity operation — blink, rename, readdress,
/// or persist — by broadcasting it under the device's serial number.
/// Without a reported serial the request is rejected and nothing is sent.
pub fn grapple_rpc(dom: &mut Domain, info: &DeviceInfo, req: GrappleDeviceRequest)
    -> (r: Result<GrappleDeviceResponse, HookError>)
    ensures
        info.serial is None ==> (r matches Err(e) && e is NoSerial)
            && final(dom).outbound@ == old(dom).outbound@,
        info.serial matches Some(serial) ==> (r matches Ok(resp)
            && resp == spec_identity_response(req)
            && final(dom).outbound@ == old(dom).outbound@
                .push(spec_identity_broadcast(req, serial))),
        final(dom).pending@ == old(dom).pending@,
        final(dom).name == old(dom).name,
{
    let serial = match info.require_serial() {
        Ok(s) => s,
        Err(e) => {
            return Err(e);
        },
    };
    let (payload, response): (DeviceInfoMessage, GrappleDeviceResponse) = match req {
        GrappleDeviceRequest::Blink => (
            DeviceInfoMessage::Blink { serial },
            GrappleDeviceResponse::Blink,
        ),
        GrappleDeviceRequest::SetId { id } => (
            DeviceInfoMessage::SetId { serial, new_id: id },
            GrappleDeviceResponse::SetId,
        ),
        GrappleDeviceRequest::SetName { name } => (
            DeviceInfoMessage::SetName { serial, name },
            GrappleDeviceResponse::SetName,
        ),
        GrappleDeviceRequest::CommitToEeprom => (
            DeviceInfoMessage::CommitConfig { serial },
            GrappleDeviceResponse::CommitToEeprom,
        ),
    };
    let msg = TaggedMessage::new(
        DEVICE_ID_BROADCAST,
        DeviceMessage::Broadcast(BroadcastMessage::DeviceInfo(payload)),
    );
    let sent = dom.send(msg);
    proof {
        assert(sent is Ok);
    }
    Ok(response)
}

/// Ask the device with this serial to enter field-upgrade mode.
pub fn start_field_upgrade(dom: &mut Domain, serial: u32) -> (r: Result<(), HookError>)
    ensures
        r is Ok,
        final(dom).outbound@ == old(dom).outbound@.push(TaggedMessage {
            device_id: DEVICE_ID_BROADCAST,
            msg: DeviceMessage::FirmwareUpdate(
                crate::msg::FirmwareMessage::StartFieldUpgrade { serial }),
        }),
        final(dom).pending@ == old(dom).pending@,
        final(dom).name == old(dom).name,
{
    let sent = dom.send(TaggedMessage::new(
        DEVICE_ID_BROADCAST,
        DeviceMessage::FirmwareUpdate(crate::msg::FirmwareMessage::StartFieldUpgrade { serial }),
    ));
    proof {
        assert(sent is Ok);
    }
    Ok(())
}

/// The diagnostic stand-in substituted for a device whose firmware
/// version is outside the supported range.  It exposes only the mismatch
/// description, the variant's firmware-update location, the generic
/// identity operations, and the entry into field upgrade.
#[derive(Debug)]
pub struct OldVersionDevice {
    /// Why the real device was not exposed.
    pub error: String,
    /// Where newer firmware for the variant can be found, if anywhere.
    pub firmware_url: Option<String>,
}

impl OldVersionDevice {
    /// A stand-in carrying the mismatch description and the variant's
    /// firmware location.
    pub fn new(error: String, firmware_url: Option<String>) -> (r: OldVersionDevice)
        ensures
            r.error == error,
            r.firmware_url == firmware_url,
    {
        OldVersionDevice { error, firmware_url }
    }

    /// The mismatch description this stand-in was built with.
    pub fn get_error(&self) -> (r: String)
        ensures r == self.error,
    {
        self.error.clone()
    }

    /// The variant's firmware-update location, if it has one.
    pub fn get_firmware_url(&self) -> (r: Option<String>)
        ensures r == self.firmware_url,
    {
        match &self.firmware_url {
            Some(u) => Some(u.clone()),
            None => None,
        }
    }

    /// Enter field-upgrade mode, so an incompatible device can still be
    /// updated.
    pub fn start_field_upgrade(&self, dom: &mut Domain, info: &DeviceInfo)
        -> (r: Result<(), HookError>)
        ensures
            info.serial is None ==> (r matches Err(e) && e is NoSerial)
                && final(dom).outbound@ == old(dom).outbound@,
            info.serial matches Some(serial) ==> r is Ok
                && final(dom).outbound@ == old(dom).outbound@.push(TaggedMessage {
                    device_id: DEVICE_ID_BROADCAST,
                    msg: DeviceMessage::FirmwareUpdate(
                        crate::msg::FirmwareMessage::StartFieldUpgrade { serial }),
                }),
            final(dom).pending@ == old(dom).pending@,
            final(dom).name == old(dom).name,
    {
        let serial = match info.require_serial() {
            Ok(s) => s,
            Err(e) => {
                return Err(e);
            },
        };
        start_field_upgrade(dom, serial)
    }

    /// Pass a generic identity operation through to the device.
    pub fn grapple(&self, dom: &mut Domain, info: &DeviceInfo, req: GrappleDeviceRequest)
        -> (r: Result<GrappleDeviceResponse, HookError>)
        ensures
            info.serial is None ==> (r matches Err(e) && e is NoSerial)
                && final(dom).outbound@ == old(dom).outbound@,
            info.serial matches Some(serial) ==> (r matches Ok(resp)
                && resp == spec_identity_response(req)
                && final(dom).outbound@ == old(dom).outbound@
                    .push(spec_identity_broadcast(req, serial))),
            final(dom).pending@ == old(dom).pending@,
            final(dom).name == old(dom).name,
    {
        grapple_rpc(dom, info, req)
    }
}

impl Clone for OldVersionDevice {
    /// An exact copy of the stand-in.
    fn clone(&self) -> (r: OldVersionDevice)
        ensures r == *self,
    {
        OldVersionDevice {
            error: self.error.clone(),
            firmware_url: match &self.firmware_url {
                Some(u) => Some(u.clone()),
                None => None,
            },
        }
    }
}

impl RootDevice for OldVersionDevice {
    fn device_class(&self) -> &'static str {
        "OldVersionDevice"
    }
}

} // verus!
