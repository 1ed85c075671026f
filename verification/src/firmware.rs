//! The chunked firmware-upgrade engine: image unpacking and validation,
//! and the acknowledgement-paced transfer of the image to a device.
//!
//! A transfer sends the image in fixed-size chunks, one "update part"
//! message per chunk, and waits for the device's acknowledgement of each
//! before the next is sent.  After the final chunk's acknowledgement the
//! progress stands at exactly one hundred percent; an explicit "update
//! done" marker then closes the transfer and the engine returns to idle.
//! A missed acknowledgement aborts the transfer, leaving the progress at
//! its last value.

use std::io::Read;

use vstd::prelude::*;

use crate::HookError;
use crate::correlation::Domain;
use crate::devices::DeviceInfo;
use crate::devices::RootDevice;
use crate::msg::DeviceMessage;
use crate::msg::FirmwareMessage;
use crate::msg::ModelId;
use crate::msg::TaggedMessage;

verus! {

/// The bytes stored under a named entry of a zip archive, if the bytes
/// form an archive holding that entry.  A function of the bytes and the
/// name alone.
pub uninterp spec fn archive_entry_of(data: Seq<u8>, name: Seq<char>) -> Option<Seq<u8>>;

/// Relies on `zip::ZipArchive::new`, `ZipArchive::by_name` and
/// `Read::read_to_end` over an in-memory archive: which bytes a named
/// entry holds is determined by the archive bytes and the name.
#[verifier::external_body]
fn read_archive_entry(data: &Vec<u8>, name: &str) -> (r: Option<Vec<u8>>)
    ensures
        r is Some <==> archive_entry_of(data@, name@) is Some,
        r matches Some(v) ==> archive_entry_of(data@, name@) == Some(v@),
{
    let mut archive = zip::ZipArchive::new(std::io::Cursor::new(&data[..])).ok()?;
    let mut f = archive.by_name(name).ok()?;
    let mut v = Vec::new();
    f.read_to_end(&mut v).ok()?;
    Some(v)
}

/// The string stored under a key of a JSON object, if the bytes parse as
/// one and the key holds a string.  A function of the bytes and the key
/// alone.
pub uninterp spec fn json_string_field_of(text: Seq<u8>, key: Seq<char>) -> Option<Seq<char>>;

/// Relies on `serde_json::from_slice`, `Value::get` and `Value::as_str`:
/// which string a key holds is determined by the document bytes and the
/// key.
#[verifier::external_body]
fn json_string_field(text: &Vec<u8>, key: &str) -> (r: Option<String>)
    ensures
        r is Some <==> json_string_field_of(text@, key@) is Some,
        r matches Some(s) ==> json_string_field_of(text@, key@) == Some(s@),
{
    let v: serde_json::Value = serde_json::from_slice(&text[..]).ok()?;
    let s = v.get(key)?.as_str()?;
    Some(s.to_owned())
}

/// The firmware binary inside a packaged image: the archive's `index`
/// entry names the firmware entry under `firmware_update_bin`, and that
/// entry's bytes are the binary.  Absent at any missing step.
pub open spec fn unpacked_firmware(data: Seq<u8>) -> Option<Seq<u8>> {
    match archive_entry_of(data, "index"@) {
        None => None,
        Some(idx) => match json_string_field_of(idx, "firmware_update_bin"@) {
            None => None,
            Some(name) => archive_entry_of(data, name),
        },
    }
}

/// Unpack a packaged firmware image, if the input is one.
pub fn maybe_unpack_firmware(data: &Vec<u8>) -> (r: Option<Vec<u8>>)
    ensures
        r is Some <==> unpacked_firmware(data@) is Some,
        r matches Some(v) ==> unpacked_firmware(data@) == Some(v@),
{
    match read_archive_entry(data, "index") {
        None => None,
        Some(idx) => match json_string_field(&idx, "firmware_update_bin") {
            None => None,
            Some(name) => read_archive_entry(data, name.as_str()),
        },
    }
}

/// A valid firmware image for the given device model.
pub open spec fn spec_firmware_valid(model: ModelId, buf: Seq<u8>) -> bool {
    match model {
        ModelId::LaserCan => crate::lasercan::firmware_valid(buf),
        ModelId::FlexiCan => crate::flexican::firmware_valid(buf),
        ModelId::MitoCandria => crate::mitocandria::firmware_valid(buf),
        ModelId::SpiderLan => false,
    }
}

/// Check an image against the model's magic bytes and model byte.
pub fn validate_firmware(model: ModelId, info: &DeviceInfo, buf: &Vec<u8>)
    -> (r: Result<(), HookError>)
    ensures
        spec_firmware_valid(model, buf@) <==> r is Ok,
        !spec_firmware_valid(model, buf@) ==> (r matches Err(e) && e is FirmwareValidation),
{
    match model {
        ModelId::LaserCan => crate::lasercan::validate_firmware(info, buf),
        ModelId::FlexiCan => crate::flexican::validate_firmware(info, buf),
        ModelId::MitoCandria => crate::mitocandria::validate_firmware(info, buf),
        ModelId::SpiderLan => Err(HookError::FirmwareValidation),
    }
}

/// Resolve what a caller handed in into the firmware binary to send:
/// a packaged image is unpacked first; either way, the binary must
/// carry the model's markers before it is accepted — no bytes of an
/// invalid image are ever transferred.
pub fn prepare_upgrade_image(model: ModelId, info: &DeviceInfo, data: Vec<u8>)
    -> (r: Result<Vec<u8>, HookError>)
    ensures
        unpacked_firmware(data@) matches Some(img) ==> (
            (spec_firmware_valid(model, img) ==> (r matches Ok(v) && v@ == img))
            && (!spec_firmware_valid(model, img)
                ==> (r matches Err(e) && e is FirmwareValidation))),
        (unpacked_firmware(data@) is None && spec_firmware_valid(model, data@))
            ==> r == Result::<Vec<u8>, HookError>::Ok(data),
        (unpacked_firmware(data@) is None && !spec_firmware_valid(model, data@))
            ==> (r matches Err(e) && e is FirmwareValidation),
{
    match maybe_unpack_firmware(&data) {
        Some(img) => {
            match validate_firmware(model, info, &img) {
                Ok(()) => Ok(img),
                Err(e) => Err(e),
            }
        },
        None => {
            match validate_firmware(model, info, &data) {
                Ok(()) => Ok(data),
                Err(e) => Err(e),
            }
        },
    }
}

/// How many chunks of this size a byte count splits into.
pub open spec fn spec_n_chunks(len: int, size: int) -> int
    decreases len,
{
    if size < 1 || len <= 0 {
        0
    } else if len <= size {
        1
    } else {
        1 + spec_n_chunks(len - size, size)
    }
}

/// The chunks an image splits into: full `size`-byte slices, then
/// whatever remains.
pub open spec fn spec_chunks(data: Seq<u8>, size: int) -> Seq<Seq<u8>>
    decreases data.len(),
{
    if size < 1 || data.len() == 0 {
        Seq::empty()
    } else if data.len() <= size {
        seq![data]
    } else {
        seq![data.take(size)] + spec_chunks(data.skip(size), size)
    }
}

/// A byte count splits into as many chunks as `spec_n_chunks` counts.
pub proof fn lemma_chunks_len(data: Seq<u8>, size: int)
    ensures
        spec_chunks(data, size).len() == spec_n_chunks(data.len() as int, size),
    decreases data.len(),
{
    if !(size < 1 || data.len() == 0 || data.len() <= size) {
        lemma_chunks_len(data.skip(size), size);
    }
}

/// Chunk shape: every chunk but the last is exactly `size` bytes, the
/// last is non-empty and at most `size` bytes, and the chunks
/// concatenate back to the image.
pub proof fn lemma_chunks_shape(data: Seq<u8>, size: int)
    requires
        size >= 1,
        data.len() > 0,
    ensures
        ({
            let cs = spec_chunks(data, size);
            &&& cs.len() >= 1
            &&& forall|i: int| 0 <= i < cs.len() - 1 ==> (#[trigger] cs[i]).len() == size
            &&& cs.last().len() >= 1
            &&& cs.last().len() <= size
            &&& cs.flatten() == data
        }),
    decreases data.len(),
{
    let cs = spec_chunks(data, size);
    if data.len() <= size {
        assert(cs == seq![data]);
        assert(cs.flatten() =~= data) by {
            reveal_with_fuel(Seq::<Seq<u8>>::flatten, 3);
        }
    } else {
        lemma_chunks_shape(data.skip(size), size);
        let rest = spec_chunks(data.skip(size), size);
        assert(cs == seq![data.take(size)] + rest);
        assert forall|i: int| 0 <= i < cs.len() - 1 implies (#[trigger] cs[i]).len() == size by {
            if i > 0 {
                assert(cs[i] == rest[i - 1]);
            }
        }
        assert(cs.last() == rest.last());
        assert(cs.flatten() =~= data) by {
            reveal_with_fuel(Seq::<Seq<u8>>::flatten, 2);
            assert((seq![data.take(size)] + rest).drop_first() =~= rest);
            assert((seq![data.take(size)] + rest).first() == data.take(size));
            assert(data.take(size) + data.skip(size) =~= data);
        }
    }
}

/// One chunk's count never exceeds the byte count it covers.
pub proof fn lemma_n_chunks_le_len(len: int, size: int)
    requires
        size >= 1,
    ensures
        spec_n_chunks(len, size) <= (if len > 0 { len } else { 0 }),
        spec_n_chunks(len, size) >= 0,
    decreases len,
{
    if !(len <= 0 || len <= size) {
        lemma_n_chunks_le_len(len - size, size);
    }
}

/// Split off the first chunk of a byte buffer: the chunk, and the rest.
fn split_chunk(v: &Vec<u8>, size: usize) -> (r: (Vec<u8>, Vec<u8>))
    requires
        size >= 1,
        v@.len() > 0,
    ensures
        r.0@ == spec_chunks(v@, size as int)[0],
        r.0@ == v@.take(if v@.len() <= size { v@.len() as int } else { size as int }),
        r.1@ == v@.skip(if v@.len() <= size { v@.len() as int } else { size as int }),
{
    let take = if v.len() <= size { v.len() } else { size };
    let mut head: Vec<u8> = Vec::new();
    let mut j: usize = 0;
    while j < take
        invariant
            j <= take,
            take <= v@.len(),
            head@ == v@.subrange(0, j as int),
        decreases take - j,
    {
        head.push(v[j]);
        proof {
            assert(head@ =~= v@.subrange(0, j + 1));
        }
        j += 1;
    }
    let mut rest: Vec<u8> = Vec::new();
    let mut k: usize = take;
    while k < v.len()
        invariant
            take <= k <= v@.len(),
            rest@ == v@.subrange(take as int, k as int),
        decreases v@.len() - k,
    {
        rest.push(v[k]);
        proof {
            assert(rest@ =~= v@.subrange(take as int, k + 1));
        }
        k += 1;
    }
    proof {
        assert(head@ =~= v@.take(if v@.len() <= size { v@.len() as int } else { size as int }));
        assert(rest@ =~= v@.skip(if v@.len() <= size { v@.len() as int } else { size as int }));
        if v@.len() > size {
            assert(spec_chunks(v@, size as int)[0] == v@.take(size as int));
        }
        assert(head@ =~= spec_chunks(v@, size as int)[0]);
    }
    (head, rest)
}

/// How many chunks of this size a byte count splits into.
fn count_chunks(len: usize, size: usize) -> (r: usize)
    requires
        size >= 1,
    ensures
        r == spec_n_chunks(len as int, size as int),
{
    let mut rem: usize = len;
    let mut n: usize = 0;
    while rem > size
        invariant
            size >= 1,
            n + (if rem > 0 { rem } else { 0 }) <= len,
            spec_n_chunks(len as int, size as int)
                == n + spec_n_chunks(rem as int, size as int),
        decreases rem,
    {
        rem = rem - size;
        n = n + 1;
    }
    if rem > 0 { n + 1 } else { n }
}

/// The outbound queue grew by exactly one "update part" message to the
/// device, carrying the given chunk bytes.
pub open spec fn spec_part_sent(
    old_out: Seq<TaggedMessage>,
    new_out: Seq<TaggedMessage>,
    did: u8,
    chunk: Seq<u8>,
) -> bool {
    &&& new_out.len() == old_out.len() + 1
    &&& new_out == old_out.push(new_out.last())
    &&& new_out.last().device_id == did
    &&& (new_out.last().msg matches DeviceMessage::FirmwareUpdate(
        FirmwareMessage::UpdatePart(c)) && c@ == chunk)
}

/// One in-progress transfer.
pub struct UpgradeSession {
    /// Image bytes not yet sent, in order.
    pub unsent: Vec<u8>,
    /// Chunks the device has acknowledged.
    pub acked: usize,
    /// Total chunks of the whole image.
    pub total: usize,
    /// Whether one sent chunk still awaits its acknowledgement.
    pub inflight: bool,
    /// Whether a missed acknowledgement ended the transfer.
    pub aborted: bool,
}

/// The firmware-upgrade surface of one device: at most one transfer at
/// a time, paced by the device's per-chunk acknowledgements.
pub struct FirmwareUpgradeDevice {
    /// How many bytes each "update part" message carries.
    pub chunk_size: usize,
    /// The running transfer, if any.
    pub session: Option<UpgradeSession>,
}

impl RootDevice for FirmwareUpgradeDevice {
    fn device_class(&self) -> &'static str {
        "GrappleFirmwareUpgrade"
    }
}

/// The step an acknowledgement produced.
#[derive(Debug, Clone, Copy, PartialEq, Eq, Structural)]
pub enum UpgradeStep {
    /// A further chunk was sent and awaits its acknowledgement.
    Continuing,
    /// Every chunk is acknowledged; the transfer awaits its closing
    /// "update done" marker.
    ChunksDone,
}

/// A session's books are straight: the chunk total accounts for what is
/// acknowledged, what is in flight, and what is still unsent.
pub open spec fn session_wf(s: UpgradeSession, chunk_size: int) -> bool {
    &&& s.total == s.acked + (if s.inflight { 1int } else { 0int })
        + spec_n_chunks(s.unsent@.len() as int, chunk_size)
    &&& s.total >= 1
    &&& s.total <= 0x1000000
    &&& s.acked <= s.total
    &&& ((!s.inflight && !s.aborted) ==> s.unsent@.len() == 0)
}

/// The transfer's progress as the engine reports it: nothing while
/// idle, else the percentage of acknowledged chunks.
pub open spec fn spec_progress(e: FirmwareUpgradeDevice) -> Option<u64> {
    match e.session {
        None => None,
        Some(s) => Some(((s.acked as int) * 100 / (s.total as int)) as u64),
    }
}

/// Ordering on reported progress: progress never moves backwards while
/// a transfer runs, and only completion clears it.
pub open spec fn progress_geq(a: Option<u64>, b: Option<u64>) -> bool {
    match (a, b) {
        (Some(x), Some(y)) => x >= y,
        (None, Some(_)) => false,
        _ => true,
    }
}

impl FirmwareUpgradeDevice {
    /// The engine's well-formedness: any running session keeps straight
    /// books against the engine's chunk size.
    pub open spec fn wf(&self) -> bool {
        &&& self.chunk_size >= 1
        &&& (self.session matches Some(s) ==> session_wf(s, self.chunk_size as int))
    }

    /// An idle engine sending chunks of the given size.
    pub fn new(chunk_size: usize) -> (r: FirmwareUpgradeDevice)
        requires
            chunk_size >= 1,
        ensures
            r.wf(),
            r.session is None,
            r.chunk_size == chunk_size,
    {
        FirmwareUpgradeDevice { chunk_size, session: None }
    }

    /// The transfer's progress: nothing while idle, else the percentage
    /// of acknowledged chunks — exactly one hundred once every chunk is
    /// acknowledged.
    pub fn progress(&self) -> (r: Option<u64>)
        requires
            self.wf(),
        ensures
            r == spec_progress(*self),
    {
        match &self.session {
            None => None,
            Some(s) => Some(((s.acked as u64) * 100) / (s.total as u64)),
        }
    }

    /// Whether a message is this device's chunk acknowledgement: the
    /// caller reports it to `on_ack` to pace the transfer.
    pub fn is_ack(&self, info: &DeviceInfo, msg: &TaggedMessage) -> (r: bool)
        ensures
            r == (crate::lasercan::addressed_to(*info, *msg)
                && msg.msg matches DeviceMessage::FirmwareUpdate(
                    FirmwareMessage::UpdatePartAck)),
    {
        let to_us = msg.device_id == crate::msg::DEVICE_ID_BROADCAST
            || match info.device_id {
                Some(d) => d == msg.device_id,
                None => false,
            };
        to_us && match &msg.msg {
            DeviceMessage::FirmwareUpdate(FirmwareMessage::UpdatePartAck) => true,
            _ => false,
        }
    }

    /// Begin a transfer: the image's first chunk is sent at once and
    /// the engine waits for its acknowledgement.  Only one transfer may
    /// run at a time, and the device must have reported a bus address.
    pub fn start(&mut self, dom: &mut Domain, info: &DeviceInfo, image: Vec<u8>)
        -> (r: Result<(), HookError>)
        requires
            old(self).wf(),
            image@.len() > 0,
            image@.len() <= 0x1000000,
        ensures
            final(self).wf(),
            final(self).chunk_size == old(self).chunk_size,
            old(self).session is Some ==> ((r matches Err(e) && e is UpgradeBusy)
                && final(self).session == old(self).session
                && final(dom).outbound@ == old(dom).outbound@),
            (old(self).session is None && info.device_id is None) ==> (
                (r matches Err(e) && e is NoDeviceId)
                && final(self).session is None
                && final(dom).outbound@ == old(dom).outbound@),
            old(self).session is None ==> (info.device_id matches Some(did) ==> (
                r is Ok
                && (final(self).session matches Some(s)
                    && s.acked == 0
                    && s.inflight
                    && !s.aborted
                    && s.total == spec_n_chunks(image@.len() as int, old(self).chunk_size as int)
                    && s.unsent@ == image@.skip(
                        if image@.len() <= old(self).chunk_size { image@.len() as int }
                        else { old(self).chunk_size as int }))
                && spec_progress(*final(self)) == Some(0u64)
                && spec_part_sent(old(dom).outbound@, final(dom).outbound@, did,
                    spec_chunks(image@, old(self).chunk_size as int)[0]))),
            final(dom).pending@ == old(dom).pending@,
            final(dom).name == old(dom).name,
    {
        if self.session.is_some() {
            return Err(HookError::UpgradeBusy);
        }
        let did = match info.require_device_id() {
            Ok(d) => d,
            Err(e) => {
                return Err(e);
            },
        };
        let total = count_chunks(image.len(), self.chunk_size);
        let (first, unsent) = split_chunk(&image, self.chunk_size);
        let sent = dom.send(TaggedMessage::new(
            did, DeviceMessage::FirmwareUpdate(FirmwareMessage::UpdatePart(first))));
        proof {
            assert(sent is Ok);
            lemma_n_chunks_le_len(image@.len() as int, self.chunk_size as int);
            lemma_n_chunks_le_len(unsent@.len() as int, self.chunk_size as int);
            vstd::arithmetic::div_mod::lemma_div_basics(total as int);
        }
        self.session = Some(UpgradeSession {
            unsent,
            acked: 0,
            total,
            inflight: true,
            aborted: false,
        });
        Ok(())
    }

    /// The device acknowledged the chunk in flight: progress advances,
    /// and either the next chunk goes out, or — after the final chunk —
    /// the transfer stands complete at exactly one hundred percent,
    /// waiting only for its closing marker.  Progress never decreases.
    pub fn on_ack(&mut self, dom: &mut Domain, info: &DeviceInfo)
        -> (r: Result<UpgradeStep, HookError>)
        requires
            old(self).wf(),
        ensures
            final(self).wf(),
            final(self).chunk_size == old(self).chunk_size,
            !(old(self).session matches Some(s) && s.inflight && !s.aborted) ==> (
                (r matches Err(e) && e is Protocol)
                && final(self).session == old(self).session
                && final(dom).outbound@ == old(dom).outbound@),
            old(self).session matches Some(s) ==> (s.inflight && !s.aborted
                ==> (info.device_id matches Some(did) ==> (
                (s.unsent@.len() > 0 ==> (
                    r == Result::<UpgradeStep, HookError>::Ok(UpgradeStep::Continuing)
                    && (final(self).session matches Some(s2)
                        && s2.acked == s.acked + 1
                        && s2.inflight
                        && !s2.aborted
                        && s2.total == s.total
                        && s2.unsent@ == s.unsent@.skip(
                            if s.unsent@.len() <= old(self).chunk_size { s.unsent@.len() as int }
                            else { old(self).chunk_size as int }))
                    && spec_part_sent(old(dom).outbound@, final(dom).outbound@, did,
                        spec_chunks(s.unsent@, old(self).chunk_size as int)[0])))
                && (s.unsent@.len() == 0 ==> (
                    r == Result::<UpgradeStep, HookError>::Ok(UpgradeStep::ChunksDone)
                    && (final(self).session matches Some(s2)
                        && s2.acked == s.acked + 1
                        && s2.acked == s2.total
                        && !s2.inflight
                        && !s2.aborted
                        && s2.total == s.total)
                    && spec_progress(*final(self)) == Some(100u64)
                    && final(dom).outbound@ == old(dom).outbound@))))),
            old(self).session matches Some(s) ==> ((s.inflight && !s.aborted
                && info.device_id is None) ==> (
                (r matches Err(e) && e is NoDeviceId)
                && final(self).session == old(self).session
                && final(dom).outbound@ == old(dom).outbound@)),
            progress_geq(spec_progress(*final(self)), spec_progress(*old(self))),
            final(dom).pending@ == old(dom).pending@,
            final(dom).name == old(dom).name,
    {
        let active = match &self.session {
            Some(s) => s.inflight && !s.aborted,
            None => false,
        };
        if !active {
            return Err(HookError::Protocol);
        }
        let did = match info.require_device_id() {
            Ok(d) => d,
            Err(e) => {
                return Err(e);
            },
        };
        let (acked0, total0, unsent_empty) = match &self.session {
            Some(s) => (s.acked, s.total, s.unsent.len() == 0),
            None => {
                return Err(HookError::Protocol);
            },
        };
        proof {
            let s0 = old(self).session->Some_0;
            lemma_n_chunks_le_len(s0.unsent@.len() as int, self.chunk_size as int);
            assert(acked0 < total0);
        }
        if unsent_empty {
            self.session = Some(UpgradeSession {
                unsent: Vec::new(),
                acked: acked0 + 1,
                total: total0,
                inflight: false,
                aborted: false,
            });
            proof {
                assert(acked0 + 1 == total0);
                vstd::arithmetic::div_mod::lemma_div_by_multiple(1, total0 as int);
                assert((total0 as int) * 100 / (total0 as int) == 100) by {
                    vstd::arithmetic::div_mod::lemma_div_by_multiple(100, total0 as int);
                }
                vstd::arithmetic::div_mod::lemma_div_is_ordered(
                    (acked0 as int) * 100, (total0 as int) * 100, total0 as int);
            }
            return Ok(UpgradeStep::ChunksDone);
        }
        let (next, rest) = match &self.session {
            Some(s) => split_chunk(&s.unsent, self.chunk_size),
            None => {
                return Err(HookError::Protocol);
            },
        };
        let sent = dom.send(TaggedMessage::new(
            did, DeviceMessage::FirmwareUpdate(FirmwareMessage::UpdatePart(next))));
        proof {
            assert(sent is Ok);
        }
        self.session = Some(UpgradeSession {
            unsent: rest,
            acked: acked0 + 1,
            total: total0,
            inflight: true,
            aborted: false,
        });
        proof {
            let s2 = self.session->Some_0;
            lemma_n_chunks_le_len(s2.unsent@.len() as int, self.chunk_size as int);
            vstd::arithmetic::div_mod::lemma_div_is_ordered(
                (acked0 as int) * 100, (acked0 + 1) * 100, total0 as int);
        }
        Ok(UpgradeStep::Continuing)
    }

    /// A chunk's acknowledgement did not arrive in time: the transfer
    /// aborts.  No failure is reported outward — the progress stays at
    /// its last value and no further chunk is ever sent.
    pub fn on_ack_timeout(&mut self)
        requires
            old(self).wf(),
        ensures
            final(self).wf(),
            final(self).chunk_size == old(self).chunk_size,
            old(self).session matches Some(s) ==> (final(self).session matches Some(s2)
                && s2.unsent@ == s.unsent@
                && s2.acked == s.acked
                && s2.total == s.total
                && s2.inflight == s.inflight
                && s2.aborted),
            old(self).session is None ==> final(self).session is None,
            spec_progress(*final(self)) == spec_progress(*old(self)),
    {
        let updated = match &self.session {
            Some(s) => Some(UpgradeSession {
                unsent: crate::fragment::clone_bytes(&s.unsent),
                acked: s.acked,
                total: s.total,
                inflight: s.inflight,
                aborted: true,
            }),
            None => None,
        };
        match updated {
            Some(s) => {
                proof {
                    let s0 = self.session->Some_0;
                    assert(s.unsent@ =~= s0.unsent@);
                }
                let ghost s0 = self.session->Some_0;
                self.session = Some(s);
                proof {
                    assert(final(self).session->Some_0.unsent@ == s0.unsent@);
                }
            },
            None => {},
        }
    }

    /// Every chunk stands acknowledged: send the explicit "update done"
    /// marker and return to idle — the progress reads as nothing again.
    pub fn finish(&mut self, dom: &mut Domain, info: &DeviceInfo)
        -> (r: Result<(), HookError>)
        requires
            old(self).wf(),
        ensures
            final(self).wf(),
            final(self).chunk_size == old(self).chunk_size,
            !(old(self).session matches Some(s) && !s.inflight && !s.aborted) ==> (
                (r matches Err(e) && e is Protocol)
                && final(self).session == old(self).session
                && final(dom).outbound@ == old(dom).outbound@),
            old(self).session matches Some(s) ==> (!s.inflight && !s.aborted
                ==> (info.device_id matches Some(did) ==> (
                r is Ok
                && final(self).session is None
                && spec_progress(*final(self)) is None
                && final(dom).outbound@ == old(dom).outbound@.push(TaggedMessage {
                    device_id: did,
                    msg: DeviceMessage::FirmwareUpdate(FirmwareMessage::UpdateDone),
                })))),
            old(self).session matches Some(s) ==> ((!s.inflight && !s.aborted
                && info.device_id is None) ==> (
                (r matches Err(e) && e is NoDeviceId)
                && final(self).session == old(self).session
                && final(dom).outbound@ == old(dom).outbound@)),
            final(dom).pending@ == old(dom).pending@,
            final(dom).name == old(dom).name,
    {
        let ready = match &self.session {
            Some(s) => !s.inflight && !s.aborted,
            None => false,
        };
        if !ready {
            return Err(HookError::Protocol);
        }
        let did = match info.require_device_id() {
            Ok(d) => d,
            Err(e) => {
                return Err(e);
            },
        };
        let sent = dom.send(TaggedMessage::new(
            did, DeviceMessage::FirmwareUpdate(FirmwareMessage::UpdateDone)));
        proof {
            assert(sent is Ok);
        }
        self.session = None;
        Ok(())
    }
}

} // verus!
