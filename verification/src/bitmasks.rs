//! Bitmask types replacing the vendor's flag constants.

use vstd::prelude::*;

verus! {

/// No-operation packets.
pub const PACKETS_NO_OP: u32 = 0x1;

/// Read packets.
pub const PACKETS_READ: u32 = 0x2;

/// Write packets.
pub const PACKETS_WRITE: u32 = 0x4;

/// Reduction atomic request packets.
pub const PACKETS_RATOM: u32 = 0x8;

/// Non-reduction atomic request packets.
pub const PACKETS_NRATOM: u32 = 0x10;

/// Flush packets.
pub const PACKETS_FLUSH: u32 = 0x20;

/// Responses with data.
pub const PACKETS_WITH_DATA: u32 = 0x40;

/// Responses without data.
pub const PACKETS_RESP: u32 = 0x80;

/// All documented packet-type bits together.
pub const PACKETS_ALL: u32 = 0xFF;

/// A set of link packet types, as a bitmask over the documented bits.
#[derive(Debug, Clone, Copy, PartialEq, Eq, Hash)]
pub struct PacketTypes {
    /// The raw mask; well-formed values hold no bit outside
    /// [`PACKETS_ALL`].
    pub bits: u32,
}

impl PacketTypes {
    /// True when the mask holds no bit outside the documented set.
    pub open spec fn valid(&self) -> bool {
        self.bits <= PACKETS_ALL
    }

    /// Builds a mask from raw bits: `Some` exactly when every set bit is
    /// documented, `None` otherwise.
    pub fn from_bits(bits: u32) -> (r: Option<Self>)
        ensures
            r == if bits <= PACKETS_ALL {
                Some(PacketTypes { bits })
            } else {
                None::<PacketTypes>
            },
            r matches Some(p) ==> p.valid(),
    {
        if bits <= PACKETS_ALL {
            Some(PacketTypes { bits })
        } else {
            None
        }
    }

    /// Returns the raw mask.
    pub fn bits(&self) -> (r: u32)
        ensures
            r == self.bits,
    {
        self.bits
    }
}

} // verus!
