//! Device-related mirrors of the vendor's integer-constant enums.

use vstd::prelude::*;

use crate::error::NvmlError;

verus! {

/// The type of a bridge chip.
#[derive(Debug, Clone, Copy, PartialEq, Eq, Hash)]
pub enum BridgeChip {
    Plx,
    Bro04,
}

impl BridgeChip {
    /// The vendor's integer code for this chip type.
    pub open spec fn spec_as_c(&self) -> u32 {
        match self {
            BridgeChip::Plx => 0,
            BridgeChip::Bro04 => 1,
        }
    }

    /// The translation of a raw chip-type code: one variant per documented
    /// code, an error carrying the raw value for anything else.
    pub open spec fn spec_try_from(value: u32) -> Result<Self, NvmlError> {
        if value == 0 {
            Ok(BridgeChip::Plx)
        } else if value == 1 {
            Ok(BridgeChip::Bro04)
        } else {
            Err(NvmlError::UnexpectedVariant(value))
        }
    }

    /// Returns the vendor's integer code for this chip type.
    pub fn as_c(&self) -> (r: u32)
        ensures
            r == self.spec_as_c(),
    {
        match self {
            BridgeChip::Plx => 0,
            BridgeChip::Bro04 => 1,
        }
    }

    /// Translates a raw chip-type code, totally and without panicking.
    pub fn try_from(value: u32) -> (r: Result<Self, NvmlError>)
        ensures
            r == Self::spec_try_from(value),
    {
        match value {
            0 => Ok(BridgeChip::Plx),
            1 => Ok(BridgeChip::Bro04),
            other => Err(NvmlError::UnexpectedVariant(other)),
        }
    }
}

/// Which member of the vendor's untagged value union a sample carries.
#[derive(Debug, Clone, Copy, PartialEq, Eq, Hash)]
pub enum SampleValueType {
    Double,
    UnsignedInt,
    UnsignedLong,
    UnsignedLongLong,
}

impl SampleValueType {
    /// The vendor's integer code for this value type.
    pub open spec fn spec_as_c(&self) -> u32 {
        match self {
            SampleValueType::Double => 0,
            SampleValueType::UnsignedInt => 1,
            SampleValueType::UnsignedLong => 2,
            SampleValueType::UnsignedLongLong => 3,
        }
    }

    /// The translation of a raw value-type code.
    pub open spec fn spec_try_from(value: u32) -> Result<Self, NvmlError> {
        if value == 0 {
            Ok(SampleValueType::Double)
        } else if value == 1 {
            Ok(SampleValueType::UnsignedInt)
        } else if value == 2 {
            Ok(SampleValueType::UnsignedLong)
        } else if value == 3 {
            Ok(SampleValueType::UnsignedLongLong)
        } else {
            Err(NvmlError::UnexpectedVariant(value))
        }
    }

    /// Returns the vendor's integer code for this value type.
    pub fn as_c(&self) -> (r: u32)
        ensures
            r == self.spec_as_c(),
    {
        match self {
            SampleValueType::Double => 0,
            SampleValueType::UnsignedInt => 1,
            SampleValueType::UnsignedLong => 2,
            SampleValueType::UnsignedLongLong => 3,
        }
    }

    /// Translates a raw value-type code, totally and without panicking.
    pub fn try_from(value: u32) -> (r: Result<Self, NvmlError>)
        ensures
            r == Self::spec_try_from(value),
    {
        match value {
            0 => Ok(SampleValueType::Double),
            1 => Ok(SampleValueType::UnsignedInt),
            2 => Ok(SampleValueType::UnsignedLong),
            3 => Ok(SampleValueType::UnsignedLongLong),
            other => Err(NvmlError::UnexpectedVariant(other)),
        }
    }
}

/// The codec an encoder session uses.
#[derive(Debug, Clone, Copy, PartialEq, Eq, Hash)]
pub enum EncoderType {
    H264,
    Hevc,
}

impl EncoderType {
    /// The vendor's integer code for this codec.
    pub open spec fn spec_as_c(&self) -> u32 {
        match self {
            EncoderType::H264 => 0,
            EncoderType::Hevc => 1,
        }
    }

    /// The translation of a raw codec code.
    pub open spec fn spec_try_from(value: u32) -> Result<Self, NvmlError> {
        if value == 0 {
            Ok(EncoderType::H264)
        } else if value == 1 {
            Ok(EncoderType::Hevc)
        } else {
            Err(NvmlError::UnexpectedVariant(value))
        }
    }

    /// Returns the vendor's integer code for this codec.
    pub fn as_c(&self) -> (r: u32)
        ensures
            r == self.spec_as_c(),
    {
        match self {
            EncoderType::H264 => 0,
            EncoderType::Hevc => 1,
        }
    }

    /// Translates a raw codec code, totally and without panicking.
    pub fn try_from(value: u32) -> (r: Result<Self, NvmlError>)
        ensures
            r == Self::spec_try_from(value),
    {
        match value {
            0 => Ok(EncoderType::H264),
            1 => Ok(EncoderType::Hevc),
            other => Err(NvmlError::UnexpectedVariant(other)),
        }
    }
}

} // verus!
