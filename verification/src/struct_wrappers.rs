//! Safe owned structs replacing the vendor's raw output structures, with
//! verified translations to and from the raw shapes.

pub mod device;
pub mod nv_link;
