//! Device communication and lifecycle core for small embedded bus devices.
//!
//! The crate covers byte-stream framing, fragmentation and reassembly of
//! oversized messages, request/reply correlation with timeout and retry,
//! device discovery and staleness eviction, firmware-version gating, and the
//! chunked firmware-upgrade transfer protocol.  Transport I/O (serial ports,
//! TCP links, SSH deployment) lives outside the library: callers feed bytes,
//! timestamps and events in, and carry the produced frames and actions out.

use vstd::prelude::*;

pub mod codecs;
pub mod correlation;
pub mod device_manager;
pub mod devices;
pub mod firmware;
pub mod flexican;
pub mod fragment;
pub mod frame;
pub mod generic_usb;
pub mod lasercan;
pub mod mitocandria;
pub mod msg;
pub mod node;
pub mod provider;
pub mod provider_manager;
pub mod roborio;
pub mod ssh;
pub mod updates;
pub mod version;

verus! {

/// Failure taxonomy of the communication core.
///
/// `Transport` ends a provider session; `Protocol` drops one frame or
/// fragment session; `Timeout` is a correlated request giving up after its
/// retries; the rest reject one call without touching other state.
#[derive(Debug, Clone)]
pub enum HookError {
    /// I/O or connection failure; recoverable only by reconnecting.
    Transport,
    /// Malformed frame or out-of-order fragment; the affected session is dropped.
    Protocol,
    /// No reply arrived within the budget, across all permitted retries.
    Timeout,
    /// A message failed its structural validation before sending.
    InvalidMessage,
    /// The addressed device is not in the registry.
    NoSuchDevice,
    /// The device has not reported a serial number.
    NoSerial,
    /// The device has not reported a bus address.
    NoDeviceId,
    /// The device has not reported a firmware version.
    NoVersion,
    /// The reported firmware version is outside the supported range.
    VersionMismatch(String),
    /// The supplied image is not a valid firmware file for this device.
    FirmwareValidation,
    /// An upgrade transfer is already running.
    UpgradeBusy,
    /// The event loop for this provider is already running.
    AlreadyRunning,
}

impl HookError {
    /// A human-readable description of the failure.
    pub fn message(&self) -> (r: String)
        ensures self is VersionMismatch ==> r@ == self->VersionMismatch_0@,
    {
        match self {
            HookError::Transport => "Transport failure".to_owned(),
            HookError::Protocol => "Protocol error".to_owned(),
            HookError::Timeout => "Timed out waiting for response".to_owned(),
            HookError::InvalidMessage => "Invalid message".to_owned(),
            HookError::NoSuchDevice => "No device with that ID".to_owned(),
            HookError::NoSerial => "No Serial Number for Device!".to_owned(),
            HookError::NoDeviceId => "No Device ID for Device!".to_owned(),
            HookError::NoVersion => "Can't check for new releases - device has no version".to_owned(),
            HookError::VersionMismatch(s) => s.clone(),
            HookError::FirmwareValidation => "Not a valid firmware file".to_owned(),
            HookError::UpgradeBusy => "A firmware upgrade is already in progress".to_owned(),
            HookError::AlreadyRunning => "This RootDevice is already running!".to_owned(),
        }
    }
}

} // verus!
