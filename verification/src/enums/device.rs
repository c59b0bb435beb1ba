//! Device-related value enums: sentinel-bearing numeric fields and the
//! tag-directed interpretation of the vendor's untagged value union.

use vstd::prelude::*;

use crate::enum_wrappers::device::SampleValueType;
use crate::raw::RawValue;
use crate::raw::NVML_VALUE_NOT_AVAILABLE_U64;

verus! {

/// Memory used by a process, or the marker that the amount is unavailable.
///
/// The native library reports "not available" through an out-of-band
/// sentinel (the all-ones pattern) rather than through zero: zero is a real
/// measurement and translates to `Used(0)`.
#[derive(Debug, Clone, Copy, PartialEq, Eq, Hash)]
pub enum UsedGpuMemory {
    /// The amount is not available.
    Unavailable,
    /// The amount in bytes.
    Used(u64),
}

impl UsedGpuMemory {
    /// The translation of a raw memory amount: the sentinel and nothing else
    /// becomes `Unavailable`.
    pub open spec fn spec_from(value: u64) -> Self {
        if value == NVML_VALUE_NOT_AVAILABLE_U64 {
            UsedGpuMemory::Unavailable
        } else {
            UsedGpuMemory::Used(value)
        }
    }

    /// Maps exactly the not-available sentinel to `Unavailable`, and every
    /// other value, zero included, to `Used` of that value.
    pub fn from(value: u64) -> (r: Self)
        ensures
            r == Self::spec_from(value),
    {
        if value == NVML_VALUE_NOT_AVAILABLE_U64 {
            UsedGpuMemory::Unavailable
        } else {
            UsedGpuMemory::Used(value)
        }
    }
}

/// A bridge chip's firmware version, or the marker that it is unknown.
///
/// For this field the vendor's sentinel is zero itself, so zero maps to
/// `Unknown` and every non-zero word to `Version` of that word.
#[derive(Debug, Clone, Copy, PartialEq, Eq, Hash)]
pub enum FirmwareVersion {
    /// The version is unknown.
    Unknown,
    /// The version word.
    Version(u32),
}

impl FirmwareVersion {
    /// The translation of a raw firmware version word.
    pub open spec fn spec_from(value: u32) -> Self {
        if value == 0 {
            FirmwareVersion::Unknown
        } else {
            FirmwareVersion::Version(value)
        }
    }

    /// Maps exactly the zero sentinel to `Unknown`, and every other value to
    /// `Version` of that value.
    pub fn from(value: u32) -> (r: Self)
        ensures
            r == Self::spec_from(value),
    {
        if value == 0 {
            FirmwareVersion::Unknown
        } else {
            FirmwareVersion::Version(value)
        }
    }
}

/// A sampled value, one variant per member of the vendor's untagged union.
///
/// The double-precision member is carried as its raw bit pattern: this crate
/// translates but does not interpret floating-point data.
#[derive(Debug, Clone, Copy, PartialEq, Eq, Hash)]
pub enum SampleValue {
    /// The bit pattern of the union's double-precision member.
    Double(u64),
    /// The union's 32-bit unsigned member.
    UnsignedInt(u32),
    /// The union's long unsigned member.
    UnsignedLong(u64),
    /// The union's 64-bit unsigned member.
    UnsignedLongLong(u64),
}

impl SampleValue {
    /// The branch selected by each tag: the 32-bit member reads the union's
    /// low four bytes (little-endian), the wider members read all eight.
    pub open spec fn spec_from_tag_and_union(tag: SampleValueType, union_: RawValue) -> Self {
        match tag {
            SampleValueType::Double => SampleValue::Double(union_.bits),
            SampleValueType::UnsignedInt => SampleValue::UnsignedInt(
                (union_.bits & 0xFFFF_FFFF) as u32,
            ),
            SampleValueType::UnsignedLong => SampleValue::UnsignedLong(union_.bits),
            SampleValueType::UnsignedLongLong => SampleValue::UnsignedLongLong(union_.bits),
        }
    }

    /// Given a tag and the untagged union, selects the union member matching
    /// the tag, for every tag value in the supported set.
    pub fn from_tag_and_union(tag: &SampleValueType, union_: RawValue) -> (r: Self)
        ensures
            r == Self::spec_from_tag_and_union(*tag, union_),
    {
        match tag {
            SampleValueType::Double => SampleValue::Double(union_.bits),
            SampleValueType::UnsignedInt => SampleValue::UnsignedInt(
                (union_.bits & 0xFFFF_FFFF) as u32,
            ),
            SampleValueType::UnsignedLong => SampleValue::UnsignedLong(union_.bits),
            SampleValueType::UnsignedLongLong => SampleValue::UnsignedLongLong(union_.bits),
        }
    }
}

} // verus!
