//! Link-related struct translations.

use vstd::prelude::*;

use crate::bitmasks::PacketTypes;
use crate::bitmasks::PACKETS_ALL;
use crate::enum_wrappers::nv_link::UtilizationCountUnit;
use crate::error::NvmlError;
use crate::raw::RawUtilizationControl;

verus! {

/// Utilization counter control for a link: the unit counted in and the
/// packet-type filter.
#[derive(Debug, Clone, Copy, PartialEq, Eq, Hash)]
pub struct UtilizationControl {
    pub units: UtilizationCountUnit,
    pub packet_filter: PacketTypes,
}

/// The safe value a raw control struct translates to: the unit code through
/// its closed set first, then the packet filter, which must hold no bits
/// outside the documented mask.
pub open spec fn spec_utilization_control_from(struct_: RawUtilizationControl) -> Result<
    UtilizationControl,
    NvmlError,
> {
    match UtilizationCountUnit::spec_try_from(struct_.units) {
        Ok(units) => if struct_.pktfilter <= PACKETS_ALL {
            Ok(UtilizationControl { units, packet_filter: PacketTypes { bits: struct_.pktfilter } })
        } else {
            Err(NvmlError::IncorrectBits(struct_.pktfilter))
        },
        Err(e) => Err(e),
    }
}

impl UtilizationControl {
    /// Translates a raw control struct, as
    /// [`spec_utilization_control_from`] states: an undocumented unit code
    /// or an undocumented filter bit fails with the error carrying the raw
    /// value.
    pub fn try_from(struct_: RawUtilizationControl) -> (r: Result<Self, NvmlError>)
        ensures
            r == spec_utilization_control_from(struct_),
    {
        match UtilizationCountUnit::try_from(struct_.units) {
            Ok(units) => match PacketTypes::from_bits(struct_.pktfilter) {
                Some(packet_filter) => Ok(Self { units, packet_filter }),
                None => Err(NvmlError::IncorrectBits(struct_.pktfilter)),
            },
            Err(e) => Err(e),
        }
    }

    /// Writes this control back into its raw form; when the filter holds
    /// only documented bits, reading that form back yields this very value.
    pub fn as_c(&self) -> (r: RawUtilizationControl)
        ensures
            r.units == self.units.spec_as_c(),
            r.pktfilter == self.packet_filter.bits,
            self.packet_filter.valid() ==> spec_utilization_control_from(r) == Ok::<
                UtilizationControl,
                NvmlError,
            >(*self),
    {
        RawUtilizationControl { units: self.units.as_c(), pktfilter: self.packet_filter.bits() }
    }
}

} // verus!
