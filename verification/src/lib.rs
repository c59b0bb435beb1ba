//! Safe, verified translation layer for a vendor GPU-management library.
//!
//! The vendor library speaks in raw C shapes: integer status codes, structs
//! with fixed-size NUL-terminated byte buffers, out-of-band sentinel values,
//! untagged unions, and integer-encoded enums and booleans.  This crate holds
//! the translation between those shapes and safe Rust values, with the
//! translation rules stated as contracts and proved:
//!
//! * every status code maps totally to a closed error taxonomy, with a
//!   catch-all variant carrying any undocumented raw code;
//! * fixed-size byte buffers are read up to their NUL terminator and
//!   validated as UTF-8, and written back with a length check, a NUL
//!   terminator and deterministic zero padding;
//! * sentinel values map to absent values and every other input, zero
//!   included, maps to a present value equal to the input;
//! * untagged unions are interpreted by a caller-supplied tag, one branch
//!   per tag value.
//!
//! The raw foreign calls themselves are not here: callers obtain the raw
//! structs and codes from the vendor library and hand them to this crate.

pub mod bitmasks;
pub mod enum_wrappers;
pub mod enums;
pub mod error;
pub mod raw;
pub mod struct_wrappers;
pub mod structs;
