//! Device-related struct translations.
//!
//! The heart of this module is the PCI-info pair [`PciInfo::try_from`] and
//! [`PciInfo::try_into_c`]: the former reads a fixed-size byte buffer up to
//! its NUL terminator and validates it as UTF-8, the latter writes a string
//! back into such a buffer, rejecting interior NUL bytes and oversized
//! strings rather than truncating, and zero-fills the remainder.  The two
//! directions compose to the identity, proved in [`lemma_pci_round_trip`].

use vstd::prelude::*;
use vstd::utf8::decode_utf8;
use vstd::utf8::encode_utf8;
use vstd::utf8::encode_utf8_decode_utf8;
use vstd::utf8::encode_utf8_valid_utf8;
use vstd::utf8::valid_utf8;
use vstd::string::StrSliceExecFns;

use crate::enum_wrappers::device::BridgeChip;
use crate::enum_wrappers::device::EncoderType;
use crate::enum_wrappers::device::SampleValueType;
use crate::enums::device::FirmwareVersion;
use crate::enums::device::SampleValue;
use crate::enums::device::UsedGpuMemory;
use crate::error::NvmlError;
use crate::raw::RawAccountingStats;
use crate::raw::RawBar1Memory;
use crate::raw::RawBridgeChipHierarchy;
use crate::raw::RawBridgeChipInfo;
use crate::raw::RawEccErrorCounts;
use crate::raw::RawEncoderSessionInfo;
use crate::raw::RawMemory;
use crate::raw::RawPciInfo;
use crate::raw::RawProcessInfo;
use crate::raw::RawSample;
use crate::raw::RawUtilization;
use crate::raw::RawViolationTime;
use crate::raw::NVML_DEVICE_PCI_BUS_ID_BUFFER_SIZE;
use crate::raw::NVML_DEVICE_PCI_BUS_ID_BUFFER_V2_SIZE;
use crate::raw::NVML_MAX_PHYSICAL_BRIDGE;
use crate::raw::NVML_VALUE_NOT_AVAILABLE_U32;
use crate::raw::NVML_VALUE_NOT_AVAILABLE_U64;

verus! {

broadcast use vstd::array::group_array_axioms;

/// The index of the first NUL byte in a buffer, or the buffer's length when
/// it holds none.
pub open spec fn first_nul_index(buf: Seq<u8>) -> int
    decreases buf.len(),
{
    if buf.len() == 0 {
        0
    } else if buf[0] == 0 {
        0
    } else {
        1 + first_nul_index(buf.drop_first())
    }
}

/// The bytes of a buffer before its NUL terminator: the whole buffer when it
/// holds no NUL byte.
pub open spec fn nul_terminated_bytes(buf: Seq<u8>) -> Seq<u8> {
    buf.take(first_nul_index(buf))
}

/// The first-NUL index is the unique position with no NUL before it that is
/// either a NUL or the end of the buffer.
proof fn lemma_first_nul_index_is(buf: Seq<u8>, k: int)
    requires
        0 <= k <= buf.len(),
        forall|j: int| 0 <= j < k ==> buf[j] != 0,
        k < buf.len() ==> buf[k] == 0,
    ensures
        first_nul_index(buf) == k,
    decreases buf.len(),
{
    if buf.len() == 0 {
    } else if buf[0] == 0 {
        assert(k == 0);
    } else {
        assert(k >= 1);
        let rest = buf.drop_first();
        assert(forall|j: int| 0 <= j < k - 1 ==> rest[j] == buf[j + 1] && rest[j] != 0);
        assert(k - 1 < rest.len() ==> rest[k - 1] == buf[k] && rest[k - 1] == 0);
        lemma_first_nul_index_is(rest, k - 1);
    }
}

/// Reads a fixed-size buffer up to its NUL terminator, or whole when no
/// terminator is present, so that no read ever leaves the buffer.
fn read_nul_terminated<const N: usize>(buf: &[u8; N]) -> (r: Vec<u8>)
    ensures
        r@ == nul_terminated_bytes(buf@),
{
    let mut end: usize = 0;
    while end < N && buf[end] != 0
        invariant
            end <= N,
            buf@.len() == N,
            forall|j: int| 0 <= j < end ==> buf@[j] != 0,
        decreases N - end,
    {
        end += 1;
    }
    proof {
        lemma_first_nul_index_is(buf@, end as int);
    }
    let mut r: Vec<u8> = Vec::new();
    let mut i: usize = 0;
    while i < end
        invariant
            i <= end <= N,
            buf@.len() == N,
            r@ == buf@.take(i as int),
        decreases end - i,
    {
        r.push(buf[i]);
        i += 1;
    }
    r
}

/// Relies on `String::from_utf8`: it returns `Ok` exactly when the bytes are
/// a valid UTF-8 encoding, and the returned string then wraps those very
/// bytes, so its characters are their decoding.
#[verifier::external_body]
fn string_from_utf8(bytes: Vec<u8>) -> (r: Option<String>)
    ensures
        r is Some <==> valid_utf8(bytes@),
        r matches Some(s) ==> s@ == decode_utf8(bytes@),
{
    String::from_utf8(bytes).ok()
}

/// PCI information about a device.
#[derive(Debug, Clone, PartialEq, Eq, Hash)]
pub struct PciInfo {
    /// The bus on which the device resides, 0 to 0xff.
    pub bus: u32,
    /// The PCI identifier.
    pub bus_id: String,
    /// The device's id on the bus, 0 to 31.
    pub device: u32,
    /// The PCI domain on which the device's bus resides, 0 to 0xffff.
    pub domain: u32,
    /// The combined 16-bit device id and 16-bit vendor id.
    pub pci_device_id: u32,
    /// The 32-bit sub-system device id; `None` when the query that produced
    /// this value leaves the raw field indeterminate.
    pub pci_sub_system_id: Option<u32>,
}

/// The mathematical value of a [`PciInfo`]: the same fields with the bus id
/// as its character sequence.
pub struct PciInfoView {
    pub bus: u32,
    pub bus_id: Seq<char>,
    pub device: u32,
    pub domain: u32,
    pub pci_device_id: u32,
    pub pci_sub_system_id: Option<u32>,
}

impl View for PciInfo {
    type V = PciInfoView;

    open spec fn view(&self) -> PciInfoView {
        PciInfoView {
            bus: self.bus,
            bus_id: self.bus_id@,
            device: self.device,
            domain: self.domain,
            pci_device_id: self.pci_device_id,
            pci_sub_system_id: self.pci_sub_system_id,
        }
    }
}

/// The safe value a raw PCI struct translates to: the selected bus-id buffer
/// is read up to its NUL terminator and decoded as UTF-8, failing with a
/// decoding error when the bytes are invalid; the sub-system id is kept
/// exactly when the caller vouches for it.
pub open spec fn spec_pci_from_raw(
    struct_: RawPciInfo,
    sub_sys_id_present: bool,
    use_legacy_bus_id: bool,
) -> Result<PciInfoView, NvmlError> {
    let bytes = nul_terminated_bytes(
        if use_legacy_bus_id {
            struct_.bus_id_legacy@
        } else {
            struct_.bus_id@
        },
    );
    if valid_utf8(bytes) {
        Ok(
            PciInfoView {
                bus: struct_.bus,
                bus_id: decode_utf8(bytes),
                device: struct_.device,
                domain: struct_.domain,
                pci_device_id: struct_.pci_device_id,
                pci_sub_system_id: if sub_sys_id_present {
                    Some(struct_.pci_sub_system_id)
                } else {
                    None
                },
            },
        )
    } else {
        Err(NvmlError::Utf8Error)
    }
}

/// The error, if any, that writing a PCI value back into its raw form must
/// raise: an interior NUL byte first, then a bus id whose encoding does not
/// leave room for the NUL terminator.  The length error carries the buffer
/// size, terminator slot included, and the byte length of the encoded bus id
/// before the terminator.
pub open spec fn spec_pci_to_raw_error(v: PciInfoView) -> Option<NvmlError> {
    let bytes = encode_utf8(v.bus_id);
    if bytes.contains(0u8) {
        Some(NvmlError::NulError)
    } else if bytes.len() + 1 > NVML_DEVICE_PCI_BUS_ID_BUFFER_SIZE {
        Some(
            NvmlError::StringTooLong {
                max_len: NVML_DEVICE_PCI_BUS_ID_BUFFER_SIZE,
                actual_len: bytes.len() as usize,
            },
        )
    } else {
        None
    }
}

/// True when a raw PCI struct is exactly what writing the given value must
/// produce: fields copied, an absent sub-system id written as zero, the
/// modern buffer holding the encoded bus id followed by NUL padding to its
/// end, and the legacy buffer zero-filled.
pub open spec fn pci_raw_encodes(v: PciInfoView, raw: RawPciInfo) -> bool {
    let bytes = encode_utf8(v.bus_id);
    &&& raw.domain == v.domain
    &&& raw.bus == v.bus
    &&& raw.device == v.device
    &&& raw.pci_device_id == v.pci_device_id
    &&& raw.pci_sub_system_id == (match v.pci_sub_system_id {
        Some(id) => id,
        None => 0u32,
    })
    &&& forall|j: int|
        0 <= j < NVML_DEVICE_PCI_BUS_ID_BUFFER_V2_SIZE ==> raw.bus_id_legacy@[j] == 0u8
    &&& bytes.len() < NVML_DEVICE_PCI_BUS_ID_BUFFER_SIZE
    &&& raw.bus_id@.take(bytes.len() as int) == bytes
    &&& forall|j: int|
        bytes.len() <= j < NVML_DEVICE_PCI_BUS_ID_BUFFER_SIZE ==> raw.bus_id@[j] == 0u8
}

impl PciInfo {
    /// Translates a raw PCI struct into a safe value, as
    /// [`spec_pci_from_raw`] states: the result is `Ok` exactly when the
    /// selected bus-id buffer holds valid UTF-8 before its NUL terminator,
    /// and an `Err` carrying the decoding error otherwise.
    ///
    /// Passing `false` for `sub_sys_id_present` sets the sub-system id to
    /// `None`, for queries that leave the raw field indeterminate.  Passing
    /// `true` for `use_legacy_bus_id` reads the legacy buffer instead of the
    /// modern one.
    pub fn try_from(
        struct_: RawPciInfo,
        sub_sys_id_present: bool,
        use_legacy_bus_id: bool,
    ) -> (r: Result<Self, NvmlError>)
        ensures
            r matches Ok(p) ==> Ok::<PciInfoView, NvmlError>(p@) == spec_pci_from_raw(
                struct_,
                sub_sys_id_present,
                use_legacy_bus_id,
            ),
            r matches Err(e) ==> Err::<PciInfoView, NvmlError>(e) == spec_pci_from_raw(
                struct_,
                sub_sys_id_present,
                use_legacy_bus_id,
            ),
    {
        let bytes = if use_legacy_bus_id {
            read_nul_terminated(&struct_.bus_id_legacy)
        } else {
            read_nul_terminated(&struct_.bus_id)
        };
        match string_from_utf8(bytes) {
            Some(bus_id) => Ok(
                Self {
                    bus: struct_.bus,
                    bus_id,
                    device: struct_.device,
                    domain: struct_.domain,
                    pci_device_id: struct_.pci_device_id,
                    pci_sub_system_id: if sub_sys_id_present {
                        Some(struct_.pci_sub_system_id)
                    } else {
                        None
                    },
                },
            ),
            None => Err(NvmlError::Utf8Error),
        }
    }

    /// Translates this value back into the raw struct, as
    /// [`spec_pci_to_raw_error`] and [`pci_raw_encodes`] state: a bus id
    /// with an interior NUL byte fails with a NUL error, one whose encoding
    /// leaves no room for the terminator fails with a length error rather
    /// than truncating, and otherwise the buffer is filled and
    /// deterministically zero-padded.
    pub fn try_into_c(self) -> (r: Result<RawPciInfo, NvmlError>)
        ensures
            r is Ok <==> spec_pci_to_raw_error(self@) is None,
            r matches Ok(raw) ==> pci_raw_encodes(self@, raw),
            r matches Err(e) ==> Some(e) == spec_pci_to_raw_error(self@),
    {
        let bytes = self.bus_id.as_str().as_bytes_vec();
        let mut i: usize = 0;
        while i < bytes.len()
            invariant
                i <= bytes@.len(),
                bytes@ == encode_utf8(self@.bus_id),
                forall|j: int| 0 <= j < i ==> bytes@[j] != 0,
            decreases bytes@.len() - i,
        {
            if bytes[i] == 0 {
                return Err(NvmlError::NulError);
            }
            i += 1;
        }
        if bytes.len() >= NVML_DEVICE_PCI_BUS_ID_BUFFER_SIZE {
            return Err(
                NvmlError::StringTooLong {
                    max_len: NVML_DEVICE_PCI_BUS_ID_BUFFER_SIZE,
                    actual_len: bytes.len(),
                },
            );
        }
        let mut bus_id_c: [u8; NVML_DEVICE_PCI_BUS_ID_BUFFER_SIZE] = [0;
            NVML_DEVICE_PCI_BUS_ID_BUFFER_SIZE];
        let mut k: usize = 0;
        while k < bytes.len()
            invariant
                k <= bytes@.len(),
                bytes@.len() < NVML_DEVICE_PCI_BUS_ID_BUFFER_SIZE,
                bus_id_c@.len() == NVML_DEVICE_PCI_BUS_ID_BUFFER_SIZE,
                forall|j: int| 0 <= j < k ==> bus_id_c@[j] == bytes@[j],
                forall|j: int|
                    k <= j < NVML_DEVICE_PCI_BUS_ID_BUFFER_SIZE ==> bus_id_c@[j] == 0u8,
            decreases bytes@.len() - k,
        {
            bus_id_c[k] = bytes[k];
            k += 1;
        }
        proof {
            assert(bus_id_c@.take(bytes@.len() as int) =~= bytes@);
        }
        Ok(
            RawPciInfo {
                bus_id_legacy: [0; NVML_DEVICE_PCI_BUS_ID_BUFFER_V2_SIZE],
                domain: self.domain,
                bus: self.bus,
                device: self.device,
                pci_device_id: self.pci_device_id,
                pci_sub_system_id: match self.pci_sub_system_id {
                    Some(id) => id,
                    None => 0,
                },
                bus_id: bus_id_c,
            },
        )
    }
}

/// Round trip: for every PCI value whose bus id fits the fixed buffer, and
/// every raw struct that writing it produces, reading that raw struct back
/// (with the sub-system id marked present exactly when it was, and the
/// modern bus id selected) yields the original value.
pub proof fn lemma_pci_round_trip(v: PciInfoView, raw: RawPciInfo)
    requires
        spec_pci_to_raw_error(v) is None,
        pci_raw_encodes(v, raw),
    ensures
        spec_pci_from_raw(raw, v.pci_sub_system_id is Some, false) == Ok::<
            PciInfoView,
            NvmlError,
        >(v),
{
    let bytes = encode_utf8(v.bus_id);
    assert forall|j: int| 0 <= j < bytes.len() implies raw.bus_id@[j] != 0 by {
        assert(raw.bus_id@.take(bytes.len() as int)[j] == raw.bus_id@[j]);
        if raw.bus_id@[j] == 0 {
            assert(bytes[j] == 0u8);
            assert(bytes.contains(0u8));
        }
    }
    lemma_first_nul_index_is(raw.bus_id@, bytes.len() as int);
    assert(nul_terminated_bytes(raw.bus_id@) == bytes);
    encode_utf8_valid_utf8(v.bus_id);
    encode_utf8_decode_utf8(v.bus_id);
}

/// BAR1 memory allocation information for a device, in bytes.
#[derive(Debug, Clone, Copy, PartialEq, Eq, Hash)]
pub struct BAR1MemoryInfo {
    /// Unallocated.
    pub free: u64,
    /// Total memory.
    pub total: u64,
    /// Allocated.
    pub used: u64,
}

impl BAR1MemoryInfo {
    /// Copies the raw BAR1 counters, field for field.
    pub fn from(struct_: RawBar1Memory) -> (r: Self)
        ensures
            r.free == struct_.bar1_free,
            r.total == struct_.bar1_total,
            r.used == struct_.bar1_used,
    {
        Self { free: struct_.bar1_free, total: struct_.bar1_total, used: struct_.bar1_used }
    }
}

/// Information about a bridge chip.
#[derive(Debug, Clone, Copy, PartialEq, Eq, Hash)]
pub struct BridgeChipInfo {
    pub fw_version: FirmwareVersion,
    pub chip_type: BridgeChip,
}

/// The safe value a raw bridge-chip entry translates to: the firmware word
/// through its zero sentinel, the chip type through its closed code set.
pub open spec fn spec_bridge_chip_from(struct_: RawBridgeChipInfo) -> Result<
    BridgeChipInfo,
    NvmlError,
> {
    match BridgeChip::spec_try_from(struct_.chip_type) {
        Ok(chip_type) => Ok(
            BridgeChipInfo { fw_version: FirmwareVersion::spec_from(struct_.fw_version), chip_type },
        ),
        Err(e) => Err(e),
    }
}

impl BridgeChipInfo {
    /// Translates a raw bridge-chip entry, as [`spec_bridge_chip_from`]
    /// states: an undocumented chip-type code fails with the error carrying
    /// the raw value.
    pub fn try_from(struct_: RawBridgeChipInfo) -> (r: Result<Self, NvmlError>)
        ensures
            r == spec_bridge_chip_from(struct_),
    {
        let fw_version = FirmwareVersion::from(struct_.fw_version);
        match BridgeChip::try_from(struct_.chip_type) {
            Ok(chip_type) => Ok(Self { fw_version, chip_type }),
            Err(e) => Err(e),
        }
    }
}

/// The complete hierarchy of bridge chips on a board.  The immediate bridge
/// is at the first index of `chips_hierarchy`, its parent at the next, and
/// so forth.
#[derive(Debug, Clone, PartialEq, Eq, Hash)]
pub struct BridgeChipHierarchy {
    /// Hierarchy of bridge chips on the board.
    pub chips_hierarchy: Vec<BridgeChipInfo>,
    /// Number of bridge chips on the board.
    pub chip_count: u8,
}

impl BridgeChipHierarchy {
    /// Translates the raw hierarchy entry by entry: `Ok` exactly when every
    /// entry of the fixed-size array translates, with the entries in order;
    /// otherwise the error of the first entry that does not.
    pub fn try_from(struct_: RawBridgeChipHierarchy) -> (r: Result<Self, NvmlError>)
        ensures
            r is Ok <==> (forall|i: int|
                0 <= i < NVML_MAX_PHYSICAL_BRIDGE ==> spec_bridge_chip_from(
                    struct_.bridge_chip_info@[i],
                ) is Ok),
            r matches Ok(h) ==> {
                &&& h.chip_count == struct_.bridge_count
                &&& h.chips_hierarchy@.len() == NVML_MAX_PHYSICAL_BRIDGE
                &&& forall|i: int|
                    0 <= i < NVML_MAX_PHYSICAL_BRIDGE ==> Ok::<BridgeChipInfo, NvmlError>(
                        h.chips_hierarchy@[i],
                    ) == spec_bridge_chip_from(struct_.bridge_chip_info@[i])
            },
            r matches Err(e) ==> exists|i: int|
                {
                    &&& 0 <= i < NVML_MAX_PHYSICAL_BRIDGE
                    &&& (forall|j: int|
                        0 <= j < i ==> spec_bridge_chip_from(struct_.bridge_chip_info@[j]) is Ok)
                    &&& Err::<BridgeChipInfo, NvmlError>(e) == spec_bridge_chip_from(
                        struct_.bridge_chip_info@[i],
                    )
                },
    {
        let mut chips_hierarchy: Vec<BridgeChipInfo> = Vec::new();
        let mut i: usize = 0;
        while i < NVML_MAX_PHYSICAL_BRIDGE
            invariant
                i <= NVML_MAX_PHYSICAL_BRIDGE,
                struct_.bridge_chip_info@.len() == NVML_MAX_PHYSICAL_BRIDGE,
                chips_hierarchy@.len() == i,
                forall|j: int|
                    0 <= j < i ==> Ok::<BridgeChipInfo, NvmlError>(chips_hierarchy@[j])
                        == spec_bridge_chip_from(struct_.bridge_chip_info@[j]),
            decreases NVML_MAX_PHYSICAL_BRIDGE - i,
        {
            match BridgeChipInfo::try_from(struct_.bridge_chip_info[i]) {
                Ok(chip) => chips_hierarchy.push(chip),
                Err(e) => {
                    proof {
                        let w = i as int;
                        assert forall|j: int| 0 <= j < w implies spec_bridge_chip_from(
                            struct_.bridge_chip_info@[j],
                        ) is Ok by {
                            assert(Ok::<BridgeChipInfo, NvmlError>(chips_hierarchy@[j])
                                == spec_bridge_chip_from(struct_.bridge_chip_info@[j]));
                        }
                        assert((forall|j: int|
                            0 <= j < w ==> spec_bridge_chip_from(struct_.bridge_chip_info@[j]) is Ok)
                            && Err::<BridgeChipInfo, NvmlError>(e) == spec_bridge_chip_from(
                            struct_.bridge_chip_info@[w],
                        ));
                    }
                    return Err(e);
                },
            }
            i += 1;
        }
        proof {
            assert forall|w: int| 0 <= w < NVML_MAX_PHYSICAL_BRIDGE implies spec_bridge_chip_from(
                struct_.bridge_chip_info@[w],
            ) is Ok by {
                assert(Ok::<BridgeChipInfo, NvmlError>(chips_hierarchy@[w])
                    == spec_bridge_chip_from(struct_.bridge_chip_info@[w]));
            }
        }
        Ok(Self { chips_hierarchy, chip_count: struct_.bridge_count })
    }
}

/// Information about a compute process running on the device.
#[derive(Debug, Clone, Copy, PartialEq, Eq, Hash)]
pub struct ProcessInfo {
    /// Process id.
    pub pid: u32,
    /// Amount of used device memory in bytes.
    pub used_gpu_memory: UsedGpuMemory,
}

impl ProcessInfo {
    /// Copies the process id and translates the memory amount through its
    /// not-available sentinel.
    pub fn from(struct_: RawProcessInfo) -> (r: Self)
        ensures
            r.pid == struct_.pid,
            r.used_gpu_memory == UsedGpuMemory::spec_from(struct_.used_gpu_memory),
    {
        Self { pid: struct_.pid, used_gpu_memory: UsedGpuMemory::from(struct_.used_gpu_memory) }
    }
}

/// Detailed ECC error counts for a device.
#[derive(Debug, Clone, Copy, PartialEq, Eq, Hash)]
pub struct EccErrorCounts {
    pub device_memory: u64,
    pub l1_cache: u64,
    pub l2_cache: u64,
    pub register_file: u64,
}

impl EccErrorCounts {
    /// Copies the raw ECC counters, field for field.
    pub fn from(struct_: RawEccErrorCounts) -> (r: Self)
        ensures
            r.device_memory == struct_.device_memory,
            r.l1_cache == struct_.l1_cache,
            r.l2_cache == struct_.l2_cache,
            r.register_file == struct_.register_file,
    {
        Self {
            device_memory: struct_.device_memory,
            l1_cache: struct_.l1_cache,
            l2_cache: struct_.l2_cache,
            register_file: struct_.register_file,
        }
    }
}

/// Memory allocation information for a device, in bytes.
#[derive(Debug, Clone, Copy, PartialEq, Eq, Hash)]
pub struct MemoryInfo {
    /// Unallocated frame-buffer memory.
    pub free: u64,
    /// Total installed frame-buffer memory.
    pub total: u64,
    /// Allocated frame-buffer memory; the driver always sets a small amount
    /// aside for bookkeeping.
    pub used: u64,
}

impl MemoryInfo {
    /// Copies the raw memory counters, field for field.
    pub fn from(struct_: RawMemory) -> (r: Self)
        ensures
            r.free == struct_.free,
            r.total == struct_.total,
            r.used == struct_.used,
    {
        Self { free: struct_.free, total: struct_.total, used: struct_.used }
    }
}

/// Utilization information for a device over the last sample period.
#[derive(Debug, Clone, Copy, PartialEq, Eq, Hash)]
pub struct Utilization {
    /// Percent of time one or more kernels was executing on the device.
    pub gpu: u32,
    /// Percent of time device memory was being read or written.
    pub memory: u32,
}

impl Utilization {
    /// Copies the raw utilization percentages, field for field.
    pub fn from(struct_: RawUtilization) -> (r: Self)
        ensures
            r.gpu == struct_.gpu,
            r.memory == struct_.memory,
    {
        Self { gpu: struct_.gpu, memory: struct_.memory }
    }
}

/// Performance-policy violation status data.
#[derive(Debug, Clone, Copy, PartialEq, Eq, Hash)]
pub struct ViolationTime {
    /// CPU timestamp in microseconds.
    pub reference_time: u64,
    /// Violation time in nanoseconds.
    pub violation_time: u64,
}

impl ViolationTime {
    /// Copies the raw violation data, field for field.
    pub fn from(struct_: RawViolationTime) -> (r: Self)
        ensures
            r.reference_time == struct_.reference_time,
            r.violation_time == struct_.violation_time,
    {
        Self {
            reference_time: struct_.reference_time,
            violation_time: struct_.violation_time,
        }
    }
}

/// Accounting statistics for a process.
///
/// The raw struct also carries a field the vendor reserves for future use;
/// it carries no information today and is dropped here.
#[derive(Debug, Clone, Copy, PartialEq, Eq, Hash)]
pub struct AccountingStats {
    /// Percent of time over the process's lifetime one or more kernels was
    /// executing on the device; `None` when utilization queries are
    /// unsupported.
    pub gpu_utilization: Option<u32>,
    /// Whether the process is running.
    pub is_running: bool,
    /// Peak total memory in bytes allocated by the process; `None` when
    /// memory queries are unsupported.
    pub max_memory_usage: Option<u64>,
    /// Percent of time over the process's lifetime device memory was being
    /// read or written; `None` when utilization queries are unsupported.
    pub memory_utilization: Option<u32>,
    /// CPU timestamp of the process's start, in microseconds.
    pub start_time: u64,
    /// Time in milliseconds the compute context was active; zero while the
    /// process is not terminated.
    pub time: u64,
}

impl AccountingStats {
    /// Translates the raw statistics: each sentinel-bearing field maps its
    /// not-available sentinel to `None` and every other value, zero
    /// included, to `Some` of that value; the running flag reads any
    /// non-zero raw value as true.
    pub fn from(struct_: RawAccountingStats) -> (r: Self)
        ensures
            r.gpu_utilization == (if struct_.gpu_utilization == NVML_VALUE_NOT_AVAILABLE_U32 {
                None::<u32>
            } else {
                Some(struct_.gpu_utilization)
            }),
            r.is_running == (struct_.is_running != 0),
            r.max_memory_usage == (if struct_.max_memory_usage == NVML_VALUE_NOT_AVAILABLE_U64 {
                None::<u64>
            } else {
                Some(struct_.max_memory_usage)
            }),
            r.memory_utilization == (if struct_.memory_utilization == NVML_VALUE_NOT_AVAILABLE_U32 {
                None::<u32>
            } else {
                Some(struct_.memory_utilization)
            }),
            r.start_time == struct_.start_time,
            r.time == struct_.time,
    {
        Self {
            gpu_utilization: if struct_.gpu_utilization == NVML_VALUE_NOT_AVAILABLE_U32 {
                None
            } else {
                Some(struct_.gpu_utilization)
            },
            is_running: struct_.is_running != 0,
            max_memory_usage: if struct_.max_memory_usage == NVML_VALUE_NOT_AVAILABLE_U64 {
                None
            } else {
                Some(struct_.max_memory_usage)
            },
            memory_utilization: if struct_.memory_utilization == NVML_VALUE_NOT_AVAILABLE_U32 {
                None
            } else {
                Some(struct_.memory_utilization)
            },
            start_time: struct_.start_time,
            time: struct_.time,
        }
    }
}

/// Holds encoder session information.
#[derive(Debug, Clone, Copy, PartialEq, Eq, Hash)]
pub struct EncoderSessionInfo {
    /// Unique id for this session.
    pub session_id: u32,
    /// The id of the process that owns this session.
    pub pid: u32,
    /// The id of the vGPU instance that owns this session, when applicable.
    pub vgpu_instance: Option<u32>,
    pub codec_type: EncoderType,
    /// Current horizontal encoding resolution.
    pub hres: u32,
    /// Current vertical encoding resolution.
    pub vres: u32,
    /// Moving average encode frames per second.
    pub average_fps: u32,
    /// Moving average encode latency in microseconds.
    pub average_latency: u32,
}

/// The safe value a raw encoder-session struct translates to: the vGPU
/// instance through its zero sentinel, the codec through its closed code
/// set, everything else copied.
pub open spec fn spec_encoder_session_from(struct_: RawEncoderSessionInfo) -> Result<
    EncoderSessionInfo,
    NvmlError,
> {
    match EncoderType::spec_try_from(struct_.codec_type) {
        Ok(codec_type) => Ok(
            EncoderSessionInfo {
                session_id: struct_.session_id,
                pid: struct_.pid,
                vgpu_instance: if struct_.vgpu_instance == 0 {
                    None
                } else {
                    Some(struct_.vgpu_instance)
                },
                codec_type,
                hres: struct_.h_resolution,
                vres: struct_.v_resolution,
                average_fps: struct_.average_fps,
                average_latency: struct_.average_latency,
            },
        ),
        Err(e) => Err(e),
    }
}

impl EncoderSessionInfo {
    /// Translates a raw encoder-session struct, as
    /// [`spec_encoder_session_from`] states: an undocumented codec code
    /// fails with the error carrying the raw value.
    pub fn try_from(struct_: RawEncoderSessionInfo) -> (r: Result<Self, NvmlError>)
        ensures
            r == spec_encoder_session_from(struct_),
    {
        match EncoderType::try_from(struct_.codec_type) {
            Ok(codec_type) => Ok(
                Self {
                    session_id: struct_.session_id,
                    pid: struct_.pid,
                    vgpu_instance: match struct_.vgpu_instance {
                        0 => None,
                        other => Some(other),
                    },
                    codec_type,
                    hres: struct_.h_resolution,
                    vres: struct_.v_resolution,
                    average_fps: struct_.average_fps,
                    average_latency: struct_.average_latency,
                },
            ),
            Err(e) => Err(e),
        }
    }
}

/// Sample info: a timestamp and a tag-interpreted value.
#[derive(Debug, Clone, Copy, PartialEq, Eq, Hash)]
pub struct Sample {
    /// CPU timestamp in microseconds.
    pub timestamp: u64,
    pub value: SampleValue,
}

impl Sample {
    /// Given a tag and a raw sample holding the untagged union, returns the
    /// sample with the union member matching the tag, for every tag value in
    /// the supported set.
    pub fn from_tag_and_struct(tag: &SampleValueType, struct_: RawSample) -> (r: Self)
        ensures
            r.timestamp == struct_.time_stamp,
            r.value == SampleValue::spec_from_tag_and_union(*tag, struct_.sample_value),
    {
        Self {
            timestamp: struct_.time_stamp,
            value: SampleValue::from_tag_and_union(tag, struct_.sample_value),
        }
    }
}

} // verus!
