//! Safe value enums that replace raw integers with out-of-band meanings.

pub mod device;
pub mod nv_link;
