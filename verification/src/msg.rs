//! The logical device-message model the core routes, correlates and
//! fragments.
//!
//! The exact bit layout of application payloads is owned by the external
//! binary-marshalling layer at the transport edge; the core works on these
//! plain values.  Message identifiers keep the 29-bit bus-identifier shape:
//! a device-type family, an API class and index, an acknowledgement flag and
//! a fragment flag, plus the 6-bit bus address of the device concerned.

use vstd::prelude::*;

verus! {

/// The bus address that addresses every device on a domain at once.
pub const DEVICE_ID_BROADCAST: u8 = 0x3F;

/// Message-family code for broadcast (enumeration/identity) traffic.
pub const DEVICE_TYPE_BROADCAST: u8 = 0;
/// Message-family code for distance-sensor traffic.
pub const DEVICE_TYPE_DISTANCE_SENSOR: u8 = 6;
/// Message-family code for power-distribution-module traffic.
pub const DEVICE_TYPE_POWER_DISTRIBUTION_MODULE: u8 = 8;
/// Message-family code for firmware-upgrade traffic.
pub const DEVICE_TYPE_FIRMWARE_UPGRADE: u8 = 31;
/// Manufacturer code carried by every identifier this core emits.
pub const MANUFACTURER_CODE: u8 = 6;

/// A structured bus-message identifier.
///
/// A reply carries the identifier of its request with `ack_flag` set: that
/// is the complementary identifier the correlation layer waits for.
#[derive(Debug, Clone, Copy, PartialEq, Eq, Structural)]
pub struct BusId {
    pub device_type: u8,
    pub fragment_flag: bool,
    pub ack_flag: bool,
    pub api_class: u8,
    pub api_index: u8,
    pub device_id: u8,
}

/// The packed 29-bit form of an identifier, used as the key of the
/// pending-replies table.
pub open spec fn spec_bus_id_u32(id: BusId) -> u32 {
    ((id.device_id & 0x3f) as u32)
        | (((id.api_index & 0x0f) as u32) << 6)
        | ((((id.api_class & 0x0f)
            | (if id.ack_flag { 0x10u8 } else { 0u8 })
            | (if id.fragment_flag { 0x20u8 } else { 0u8 })) as u32) << 10)
        | ((MANUFACTURER_CODE as u32) << 16)
        | (((id.device_type & 0x1f) as u32) << 24)
}

impl BusId {
    /// A fresh identifier addressed to one device, before the message
    /// assigns its family and class.
    pub fn new(device_id: u8) -> (r: BusId)
        ensures
            r == (BusId {
                device_type: 0,
                fragment_flag: false,
                ack_flag: false,
                api_class: 0,
                api_index: 0,
                device_id,
            }),
    {
        BusId {
            device_type: 0,
            fragment_flag: false,
            ack_flag: false,
            api_class: 0,
            api_index: 0,
            device_id,
        }
    }

    /// Pack the identifier into its 29-bit numeric form.
    pub fn as_u32(&self) -> (r: u32)
        ensures r == spec_bus_id_u32(*self),
    {
        ((self.device_id & 0x3f) as u32)
            | (((self.api_index & 0x0f) as u32) << 6)
            | ((((self.api_class & 0x0f)
                | (if self.ack_flag { 0x10u8 } else { 0u8 })
                | (if self.fragment_flag { 0x20u8 } else { 0u8 })) as u32) << 10)
            | ((MANUFACTURER_CODE as u32) << 16)
            | (((self.device_type & 0x1f) as u32) << 24)
    }

    /// The identifier a reply to this message must carry: the same
    /// identifier with the acknowledgement marker set.
    pub fn complement(&self) -> (r: BusId)
        ensures r == (BusId { ack_flag: true, ..*self }),
    {
        BusId { ack_flag: true, ..*self }
    }
}

/// The device models this tool manages.
#[derive(Debug, Clone, Copy, PartialEq, Eq, Structural)]
pub enum ModelId {
    LaserCan,
    SpiderLan,
    FlexiCan,
    MitoCandria,
}

impl ModelId {
    /// The model's numeric code, as devices report it.
    pub fn code(&self) -> (r: u8)
        ensures
            *self is LaserCan ==> r == 0x10,
            *self is SpiderLan ==> r == 0x20,
            *self is FlexiCan ==> r == 0x30,
            *self is MitoCandria ==> r == 0x40,
    {
        match self {
            ModelId::LaserCan => 0x10,
            ModelId::SpiderLan => 0x20,
            ModelId::FlexiCan => 0x30,
            ModelId::MitoCandria => 0x40,
        }
    }
}

/// Identity and enumeration traffic, broadcast on a whole domain.
#[derive(Debug, Clone)]
pub enum DeviceInfoMessage {
    /// Ask every device on the domain to report itself.
    EnumerateRequest,
    /// One device reporting its identity and status.
    EnumerateResponse {
        model_id: ModelId,
        serial: u32,
        is_dfu: bool,
        is_dfu_in_progress: bool,
        version: String,
        name: String,
    },
    /// Ask the device with this serial to blink its indicator.
    Blink { serial: u32 },
    /// Rename the device with this serial.
    SetName { serial: u32, name: String },
    /// Persist the configuration of the device with this serial.
    CommitConfig { serial: u32 },
    /// Assign a new bus address to the device with this serial.
    SetId { serial: u32, new_id: u8 },
}

/// Broadcast-family messages.
#[derive(Debug, Clone)]
pub enum BroadcastMessage {
    DeviceInfo(DeviceInfoMessage),
}

/// Firmware-upgrade transfer traffic.
#[derive(Debug, Clone)]
pub enum FirmwareMessage {
    /// Put the device with this serial into field-upgrade mode.
    StartFieldUpgrade { serial: u32 },
    /// One chunk of the firmware image.
    UpdatePart(Vec<u8>),
    /// The device acknowledging one chunk.
    UpdatePartAck,
    /// The whole image has been sent.
    UpdateDone,
}

/// Ranging mode of a distance sensor.
#[derive(Debug, Clone, Copy, PartialEq, Eq, Structural)]
pub enum RangingMode {
    Short,
    Long,
}

/// Timing budget of a distance sensor, in milliseconds.
#[derive(Debug, Clone, Copy, PartialEq, Eq, Structural)]
pub enum TimingBudget {
    Tb20ms,
    Tb33ms,
    Tb50ms,
    Tb100ms,
}

/// A distance sensor's region of interest on its 16x16 sensing grid.
/// Coordinates are the centre; width and height must be even and the
/// region must lie fully on the grid.
#[derive(Debug, Clone, Copy, PartialEq, Eq, Structural)]
pub struct Roi {
    pub x: u8,
    pub y: u8,
    pub w: u8,
    pub h: u8,
}

/// Structural validity of a region of interest: even extents, fully on
/// the 16x16 grid.
pub open spec fn roi_valid(roi: Roi) -> bool {
    &&& roi.w % 2 == 0
    &&& roi.h % 2 == 0
    &&& roi.x >= roi.w / 2
    &&& roi.x + roi.w / 2 <= 16
    &&& roi.y >= roi.h / 2
    &&& roi.y + roi.h / 2 <= 16
}

/// One distance measurement as a sensor streams them.
#[derive(Debug, Clone, Copy, PartialEq, Eq, Structural)]
pub struct Measurement {
    pub status: u8,
    pub distance_mm: u16,
    pub ambient: u16,
    pub mode: RangingMode,
}

/// Distance-sensor traffic.  Request operations have a paired
/// acknowledgement variant carrying the same class with the
/// acknowledgement marker.
#[derive(Debug, Clone)]
pub enum DistanceSensorMessage {
    Measurement(Measurement),
    SetRange(RangingMode),
    SetRangeAck,
    SetRoi(Roi),
    SetRoiAck,
    SetTimingBudget(TimingBudget),
    SetTimingBudgetAck,
}

/// A power-distribution module's periodic status report.
#[derive(Debug, Clone, Copy, PartialEq, Eq, Structural)]
pub struct PowerStatusFrame {
    pub voltage_mv: u32,
    pub current_ma: u32,
}

/// Power-distribution-module traffic.
#[derive(Debug, Clone)]
pub enum PowerMessage {
    StatusFrame(PowerStatusFrame),
    SetSwitchableChannel { channel: u8, enabled: bool },
    SetSwitchableChannelAck,
    SetAdjustableChannel { channel: u8, voltage_mv: u16 },
    SetAdjustableChannelAck,
}

/// One logical device message, the unit the core routes.
#[derive(Debug, Clone)]
pub enum DeviceMessage {
    Broadcast(BroadcastMessage),
    FirmwareUpdate(FirmwareMessage),
    DistanceSensor(DistanceSensorMessage),
    PowerDistributionModule(PowerMessage),
}

/// A logical message tagged with the bus address it is for or from.
#[derive(Debug, Clone)]
pub struct TaggedMessage {
    pub device_id: u8,
    pub msg: DeviceMessage,
}

impl TaggedMessage {
    /// Tag a message with its bus address.
    pub fn new(device_id: u8, msg: DeviceMessage) -> (r: TaggedMessage)
        ensures r.device_id == device_id, r.msg == msg,
    {
        TaggedMessage { device_id, msg }
    }
}

/// Structural validity of a message, checked before it is sent.
/// Only a region of interest carries a constraint; everything else is
/// valid by shape.
pub open spec fn message_valid(m: DeviceMessage) -> bool {
    match m {
        DeviceMessage::DistanceSensor(DistanceSensorMessage::SetRoi(roi)) => roi_valid(roi),
        _ => true,
    }
}

/// Check a message's structural validity.
pub fn validate_message(m: &DeviceMessage) -> (r: bool)
    ensures r == message_valid(*m),
{
    match m {
        DeviceMessage::DistanceSensor(DistanceSensorMessage::SetRoi(roi)) => {
            roi.w % 2 == 0 && roi.h % 2 == 0
                && roi.x >= roi.w / 2 && (roi.x as u16) + (roi.w as u16) / 2 <= 16
                && roi.y >= roi.h / 2 && (roi.y as u16) + (roi.h as u16) / 2 <= 16
        },
        _ => true,
    }
}

/// The identifier a message is sent under: the device-type family of its
/// variant, an API class and index per operation, and the acknowledgement
/// marker on acknowledgement variants.
pub open spec fn spec_message_id(device_id: u8, m: DeviceMessage) -> BusId {
    let base = BusId {
        device_type: 0,
        fragment_flag: false,
        ack_flag: false,
        api_class: 0,
        api_index: 0,
        device_id,
    };
    match m {
        DeviceMessage::Broadcast(BroadcastMessage::DeviceInfo(di)) => {
            let idx: u8 = match di {
                DeviceInfoMessage::EnumerateRequest => 0,
                DeviceInfoMessage::EnumerateResponse { .. } => 1,
                DeviceInfoMessage::Blink { .. } => 2,
                DeviceInfoMessage::SetName { .. } => 3,
                DeviceInfoMessage::CommitConfig { .. } => 4,
                DeviceInfoMessage::SetId { .. } => 5,
            };
            BusId { device_type: DEVICE_TYPE_BROADCAST, api_index: idx, ..base }
        },
        DeviceMessage::FirmwareUpdate(fw) => {
            let (idx, ack): (u8, bool) = match fw {
                FirmwareMessage::StartFieldUpgrade { .. } => (0, false),
                FirmwareMessage::UpdatePart(_) => (1, false),
                FirmwareMessage::UpdatePartAck => (1, true),
                FirmwareMessage::UpdateDone => (2, false),
            };
            BusId { device_type: DEVICE_TYPE_FIRMWARE_UPGRADE, api_index: idx, ack_flag: ack, ..base }
        },
        DeviceMessage::DistanceSensor(ds) => {
            let (cls, ack): (u8, bool) = match ds {
                DistanceSensorMessage::Measurement(_) => (0, false),
                DistanceSensorMessage::SetRange(_) => (1, false),
                DistanceSensorMessage::SetRangeAck => (1, true),
                DistanceSensorMessage::SetRoi(_) => (2, false),
                DistanceSensorMessage::SetRoiAck => (2, true),
                DistanceSensorMessage::SetTimingBudget(_) => (3, false),
                DistanceSensorMessage::SetTimingBudgetAck => (3, true),
            };
            BusId { device_type: DEVICE_TYPE_DISTANCE_SENSOR, api_class: cls, ack_flag: ack, ..base }
        },
        DeviceMessage::PowerDistributionModule(pm) => {
            let (cls, ack): (u8, bool) = match pm {
                PowerMessage::StatusFrame(_) => (0, false),
                PowerMessage::SetSwitchableChannel { .. } => (1, false),
                PowerMessage::SetSwitchableChannelAck => (1, true),
                PowerMessage::SetAdjustableChannel { .. } => (2, false),
                PowerMessage::SetAdjustableChannelAck => (2, true),
            };
            BusId { device_type: DEVICE_TYPE_POWER_DISTRIBUTION_MODULE, api_class: cls, ack_flag: ack, ..base }
        },
    }
}

/// Compute the identifier a message is sent under.
pub fn message_id_of(device_id: u8, m: &DeviceMessage) -> (r: BusId)
    ensures r == spec_message_id(device_id, *m),
{
    let mut id = BusId::new(device_id);
    match m {
        DeviceMessage::Broadcast(BroadcastMessage::DeviceInfo(di)) => {
            id.device_type = DEVICE_TYPE_BROADCAST;
            id.api_index = match di {
                DeviceInfoMessage::EnumerateRequest => 0,
                DeviceInfoMessage::EnumerateResponse { .. } => 1,
                DeviceInfoMessage::Blink { .. } => 2,
                DeviceInfoMessage::SetName { .. } => 3,
                DeviceInfoMessage::CommitConfig { .. } => 4,
                DeviceInfoMessage::SetId { .. } => 5,
            };
        },
        DeviceMessage::FirmwareUpdate(fw) => {
            id.device_type = DEVICE_TYPE_FIRMWARE_UPGRADE;
            match fw {
                FirmwareMessage::StartFieldUpgrade { .. } => { id.api_index = 0; },
                FirmwareMessage::UpdatePart(_) => { id.api_index = 1; },
                FirmwareMessage::UpdatePartAck => { id.api_index = 1; id.ack_flag = true; },
                FirmwareMessage::UpdateDone => { id.api_index = 2; },
            }
        },
        DeviceMessage::DistanceSensor(ds) => {
            id.device_type = DEVICE_TYPE_DISTANCE_SENSOR;
            match ds {
                DistanceSensorMessage::Measurement(_) => { id.api_class = 0; },
                DistanceSensorMessage::SetRange(_) => { id.api_class = 1; },
                DistanceSensorMessage::SetRangeAck => { id.api_class = 1; id.ack_flag = true; },
                DistanceSensorMessage::SetRoi(_) => { id.api_class = 2; },
                DistanceSensorMessage::SetRoiAck => { id.api_class = 2; id.ack_flag = true; },
                DistanceSensorMessage::SetTimingBudget(_) => { id.api_class = 3; },
                DistanceSensorMessage::SetTimingBudgetAck => { id.api_class = 3; id.ack_flag = true; },
            }
        },
        DeviceMessage::PowerDistributionModule(pm) => {
            id.device_type = DEVICE_TYPE_POWER_DISTRIBUTION_MODULE;
            match pm {
                PowerMessage::StatusFrame(_) => { id.api_class = 0; },
                PowerMessage::SetSwitchableChannel { .. } => { id.api_class = 1; },
                PowerMessage::SetSwitchableChannelAck => { id.api_class = 1; id.ack_flag = true; },
                PowerMessage::SetAdjustableChannel { .. } => { id.api_class = 2; },
                PowerMessage::SetAdjustableChannelAck => { id.api_class = 2; id.ack_flag = true; },
            }
        },
    }
    id
}

/// The packed complementary identifier a reply to this message must carry.
pub open spec fn spec_complement_u32(device_id: u8, m: DeviceMessage) -> u32 {
    spec_bus_id_u32(BusId { ack_flag: true, ..spec_message_id(device_id, m) })
}

/// Compute the packed complementary identifier for a request.
pub fn complement_id_of(device_id: u8, m: &DeviceMessage) -> (r: u32)
    ensures r == spec_complement_u32(device_id, *m),
{
    message_id_of(device_id, m).complement().as_u32()
}

} // verus!
