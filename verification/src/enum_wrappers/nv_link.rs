//! Link-related mirrors of the vendor's integer-constant enums.

use vstd::prelude::*;

use crate::error::NvmlError;

verus! {

/// An error counter a link keeps.
#[derive(Debug, Clone, Copy, PartialEq, Eq, Hash)]
pub enum ErrorCounter {
    DlReplay,
    DlRecovery,
    DlCrcFlit,
    DlCrcData,
}

impl ErrorCounter {
    /// The vendor's integer code for this counter.
    pub open spec fn spec_as_c(&self) -> u32 {
        match self {
            ErrorCounter::DlReplay => 0,
            ErrorCounter::DlRecovery => 1,
            ErrorCounter::DlCrcFlit => 2,
            ErrorCounter::DlCrcData => 3,
        }
    }

    /// The translation of a raw counter code.
    pub open spec fn spec_try_from(value: u32) -> Result<Self, NvmlError> {
        if value == 0 {
            Ok(ErrorCounter::DlReplay)
        } else if value == 1 {
            Ok(ErrorCounter::DlRecovery)
        } else if value == 2 {
            Ok(ErrorCounter::DlCrcFlit)
        } else if value == 3 {
            Ok(ErrorCounter::DlCrcData)
        } else {
            Err(NvmlError::UnexpectedVariant(value))
        }
    }

    /// Returns the vendor's integer code for this counter.
    pub fn as_c(&self) -> (r: u32)
        ensures
            r == self.spec_as_c(),
    {
        match self {
            ErrorCounter::DlReplay => 0,
            ErrorCounter::DlRecovery => 1,
            ErrorCounter::DlCrcFlit => 2,
            ErrorCounter::DlCrcData => 3,
        }
    }

    /// Translates a raw counter code, totally and without panicking.
    pub fn try_from(value: u32) -> (r: Result<Self, NvmlError>)
        ensures
            r == Self::spec_try_from(value),
    {
        match value {
            0 => Ok(ErrorCounter::DlReplay),
            1 => Ok(ErrorCounter::DlRecovery),
            2 => Ok(ErrorCounter::DlCrcFlit),
            3 => Ok(ErrorCounter::DlCrcData),
            other => Err(NvmlError::UnexpectedVariant(other)),
        }
    }
}

/// A capability a link may have.
#[derive(Debug, Clone, Copy, PartialEq, Eq, Hash)]
pub enum Capability {
    P2p,
    SysMemAccess,
    P2pAtomics,
    SysMemAtomics,
    SliBridge,
    ValidLink,
}

impl Capability {
    /// The vendor's integer code for this capability.
    pub open spec fn spec_as_c(&self) -> u32 {
        match self {
            Capability::P2p => 0,
            Capability::SysMemAccess => 1,
            Capability::P2pAtomics => 2,
            Capability::SysMemAtomics => 3,
            Capability::SliBridge => 4,
            Capability::ValidLink => 5,
        }
    }

    /// The translation of a raw capability code.
    pub open spec fn spec_try_from(value: u32) -> Result<Self, NvmlError> {
        if value == 0 {
            Ok(Capability::P2p)
        } else if value == 1 {
            Ok(Capability::SysMemAccess)
        } else if value == 2 {
            Ok(Capability::P2pAtomics)
        } else if value == 3 {
            Ok(Capability::SysMemAtomics)
        } else if value == 4 {
            Ok(Capability::SliBridge)
        } else if value == 5 {
            Ok(Capability::ValidLink)
        } else {
            Err(NvmlError::UnexpectedVariant(value))
        }
    }

    /// Returns the vendor's integer code for this capability.
    pub fn as_c(&self) -> (r: u32)
        ensures
            r == self.spec_as_c(),
    {
        match self {
            Capability::P2p => 0,
            Capability::SysMemAccess => 1,
            Capability::P2pAtomics => 2,
            Capability::SysMemAtomics => 3,
            Capability::SliBridge => 4,
            Capability::ValidLink => 5,
        }
    }

    /// Translates a raw capability code, totally and without panicking.
    pub fn try_from(value: u32) -> (r: Result<Self, NvmlError>)
        ensures
            r == Self::spec_try_from(value),
    {
        match value {
            0 => Ok(Capability::P2p),
            1 => Ok(Capability::SysMemAccess),
            2 => Ok(Capability::P2pAtomics),
            3 => Ok(Capability::SysMemAtomics),
            4 => Ok(Capability::SliBridge),
            5 => Ok(Capability::ValidLink),
            other => Err(NvmlError::UnexpectedVariant(other)),
        }
    }
}

/// The unit a link's utilization counter counts in.
#[derive(Debug, Clone, Copy, PartialEq, Eq, Hash)]
pub enum UtilizationCountUnit {
    Cycles,
    Packets,
    Bytes,
}

impl UtilizationCountUnit {
    /// The vendor's integer code for this unit.
    pub open spec fn spec_as_c(&self) -> u32 {
        match self {
            UtilizationCountUnit::Cycles => 0,
            UtilizationCountUnit::Packets => 1,
            UtilizationCountUnit::Bytes => 2,
        }
    }

    /// The translation of a raw unit code.
    pub open spec fn spec_try_from(value: u32) -> Result<Self, NvmlError> {
        if value == 0 {
            Ok(UtilizationCountUnit::Cycles)
        } else if value == 1 {
            Ok(UtilizationCountUnit::Packets)
        } else if value == 2 {
            Ok(UtilizationCountUnit::Bytes)
        } else {
            Err(NvmlError::UnexpectedVariant(value))
        }
    }

    /// Returns the vendor's integer code for this unit.
    pub fn as_c(&self) -> (r: u32)
        ensures
            r == self.spec_as_c(),
    {
        match self {
            UtilizationCountUnit::Cycles => 0,
            UtilizationCountUnit::Packets => 1,
            UtilizationCountUnit::Bytes => 2,
        }
    }

    /// Translates a raw unit code, totally and without panicking.
    pub fn try_from(value: u32) -> (r: Result<Self, NvmlError>)
        ensures
            r == Self::spec_try_from(value),
    {
        match value {
            0 => Ok(UtilizationCountUnit::Cycles),
            1 => Ok(UtilizationCountUnit::Packets),
            2 => Ok(UtilizationCountUnit::Bytes),
            other => Err(NvmlError::UnexpectedVariant(other)),
        }
    }
}

} // verus!
