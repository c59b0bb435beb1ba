//! Plain-data models of the vendor library's output structures.
//!
//! Each struct here carries, field for field, what the corresponding C
//! structure of the vendor header carries, with byte buffers as fixed-size
//! `u8` arrays and the one untagged union as its raw bit pattern.  Values of
//! these types are produced by the caller from the vendor's own structures
//! and handed to the translation functions of this crate.

use vstd::prelude::*;

verus! {

/// Size in bytes of the PCI bus-id buffer, NUL terminator included.
pub const NVML_DEVICE_PCI_BUS_ID_BUFFER_SIZE: usize = 32;

/// Size in bytes of the legacy PCI bus-id buffer, NUL terminator included.
pub const NVML_DEVICE_PCI_BUS_ID_BUFFER_V2_SIZE: usize = 16;

/// Number of entries in the bridge-chip hierarchy array.
pub const NVML_MAX_PHYSICAL_BRIDGE: usize = 128;

/// The sentinel the vendor writes into 64-bit fields whose value is not
/// available (the all-ones pattern, a signed minus one).
pub const NVML_VALUE_NOT_AVAILABLE_U64: u64 = 0xFFFF_FFFF_FFFF_FFFF;

/// The sentinel the vendor writes into 32-bit fields whose value is not
/// available (the all-ones pattern, a signed minus one).
pub const NVML_VALUE_NOT_AVAILABLE_U32: u32 = 0xFFFF_FFFF;

/// PCI information as the native library returns it: a modern and a legacy
/// bus-id buffer, both NUL-terminated within their fixed size, and the plain
/// integer identifiers.
#[derive(Debug, Clone, Copy, PartialEq, Eq)]
pub struct RawPciInfo {
    /// The legacy ASCII bus id, NUL-terminated.
    pub bus_id_legacy: [u8; NVML_DEVICE_PCI_BUS_ID_BUFFER_V2_SIZE],
    /// The PCI domain the device's bus resides on.
    pub domain: u32,
    /// The bus the device resides on.
    pub bus: u32,
    /// The device's id on the bus.
    pub device: u32,
    /// The combined device id and vendor id.
    pub pci_device_id: u32,
    /// The sub-system id; indeterminate for some queries.
    pub pci_sub_system_id: u32,
    /// The ASCII bus id, NUL-terminated.
    pub bus_id: [u8; NVML_DEVICE_PCI_BUS_ID_BUFFER_SIZE],
}

/// BAR1 memory counters in bytes.
#[derive(Debug, Clone, Copy, PartialEq, Eq)]
pub struct RawBar1Memory {
    pub bar1_total: u64,
    pub bar1_free: u64,
    pub bar1_used: u64,
}

/// A bridge chip's type code and firmware version word.
#[derive(Debug, Clone, Copy, PartialEq, Eq)]
pub struct RawBridgeChipInfo {
    /// The integer-encoded bridge chip type.
    pub chip_type: u32,
    /// The firmware version word; zero when unknown.
    pub fw_version: u32,
}

/// The full bridge-chip hierarchy of a board: a count and a fixed-size array
/// of bridge-chip entries.
#[derive(Debug, Clone, Copy, PartialEq, Eq)]
pub struct RawBridgeChipHierarchy {
    /// Number of bridge chips on the board.
    pub bridge_count: u8,
    /// The hierarchy, immediate bridge first.
    pub bridge_chip_info: [RawBridgeChipInfo; NVML_MAX_PHYSICAL_BRIDGE],
}

/// A compute process's id and memory use.
#[derive(Debug, Clone, Copy, PartialEq, Eq)]
pub struct RawProcessInfo {
    pub pid: u32,
    /// Bytes of device memory used; the 64-bit sentinel when not available.
    pub used_gpu_memory: u64,
}

/// Detailed ECC error counters.
#[derive(Debug, Clone, Copy, PartialEq, Eq)]
pub struct RawEccErrorCounts {
    pub l1_cache: u64,
    pub l2_cache: u64,
    pub device_memory: u64,
    pub register_file: u64,
}

/// Frame-buffer memory counters in bytes.
#[derive(Debug, Clone, Copy, PartialEq, Eq)]
pub struct RawMemory {
    pub total: u64,
    pub free: u64,
    pub used: u64,
}

/// Utilization percentages over the last sample period.
#[derive(Debug, Clone, Copy, PartialEq, Eq)]
pub struct RawUtilization {
    pub gpu: u32,
    pub memory: u32,
}

/// Performance-policy violation status data.
#[derive(Debug, Clone, Copy, PartialEq, Eq)]
pub struct RawViolationTime {
    pub reference_time: u64,
    pub violation_time: u64,
}

/// Accounting statistics for a process; the utilization and peak-memory
/// fields carry the vendor's not-available sentinel when unsupported.
#[derive(Debug, Clone, Copy, PartialEq, Eq)]
pub struct RawAccountingStats {
    pub gpu_utilization: u32,
    pub memory_utilization: u32,
    pub max_memory_usage: u64,
    pub time: u64,
    pub start_time: u64,
    /// Non-zero when the process is running.
    pub is_running: u32,
    /// Reserved by the vendor for future use.
    pub reserved: [u32; 5],
}

/// An encoder session's counters; the vGPU instance field is zero when not
/// applicable and the codec type is integer-encoded.
#[derive(Debug, Clone, Copy, PartialEq, Eq)]
pub struct RawEncoderSessionInfo {
    pub session_id: u32,
    pub pid: u32,
    pub vgpu_instance: u32,
    pub codec_type: u32,
    pub h_resolution: u32,
    pub v_resolution: u32,
    pub average_fps: u32,
    pub average_latency: u32,
}

/// The native library's untagged value union, eight bytes wide, modelled by
/// its raw bit pattern in the machine's (little-endian) byte order.  Which
/// member is active is decided by a tag obtained from a separate call; the
/// translation layer slices these bits accordingly.
#[derive(Debug, Clone, Copy, PartialEq, Eq)]
pub struct RawValue {
    pub bits: u64,
}

/// A sample: a CPU timestamp and the untagged value union.
#[derive(Debug, Clone, Copy, PartialEq, Eq)]
pub struct RawSample {
    /// CPU timestamp in microseconds.
    pub time_stamp: u64,
    pub sample_value: RawValue,
}

/// Utilization counter control for a link: an integer-encoded counting unit
/// and a packet-type filter bitmask.
#[derive(Debug, Clone, Copy, PartialEq, Eq)]
pub struct RawUtilizationControl {
    /// The integer-encoded counting unit.
    pub units: u32,
    /// The packet-filter bitmask.
    pub pktfilter: u32,
}

} // verus!
