//! The error taxonomy and the total mapping of raw status codes into it.
//!
//! Every native call returns an integer status code.  The design rule here is
//! to never trust the native library to return only documented values: the
//! translation is total and panic-free, and a code outside the documented set
//! maps to [`NvmlError::UnexpectedVariant`] carrying the offending raw value.

use vstd::prelude::*;

verus! {

/// An error returned by the translation layer.
///
/// The first group of variants mirrors the vendor's documented status codes,
/// one variant per code (see [`spec_status_error`] for the exact mapping).
/// The remaining variants are raised by this crate itself when data coming
/// from, or going to, the native library cannot be translated; they are kept
/// distinct so that callers can tell "the library said no" apart from "the
/// data could not be parsed".
#[derive(Debug, Clone, Copy, PartialEq, Eq, Hash)]
pub enum NvmlError {
    /// The library has not been successfully initialized.
    Uninitialized,
    /// A supplied argument was invalid.
    InvalidArgument,
    /// The requested operation is not available on the target device.
    NotSupported,
    /// The current user has no permission for the operation.
    NoPermission,
    /// The library was already initialized.
    AlreadyInitialized,
    /// A query to find an object was unsuccessful.
    NotFound,
    /// An input argument is not large enough.
    InsufficientSize,
    /// The device's external power cables are not properly attached.
    InsufficientPower,
    /// The driver is not loaded.
    DriverNotLoaded,
    /// A user-provided timeout passed.
    Timeout,
    /// The kernel detected an interrupt issue with the device.
    IrqIssue,
    /// A shared library could not be found or loaded.
    LibraryNotFound,
    /// A function could not be found in a shared library.
    FunctionNotFound,
    /// The device's infoROM is corrupted.
    CorruptedInfoROM,
    /// The device has fallen off the bus or become inaccessible.
    GpuIsLost,
    /// The device requires a reset before it can be used again.
    ResetRequired,
    /// Device control has been blocked by the operating system.
    OperatingSystemError,
    /// A driver/library version mismatch was detected.
    LibRmVersionMismatch,
    /// The operation cannot be performed because the device is in use.
    InUse,
    /// A memory error occurred.
    MemoryError,
    /// No data is available.
    NoData,
    /// The requested vGPU operation is unavailable because ECC is enabled.
    VgpuEccNotSupported,
    /// The library ran out of critical resources.
    InsufficientMemory,
    /// An unspecified internal error occurred.
    Unknown,
    /// A value outside the documented set came back from the native library;
    /// carries the offending raw value.
    UnexpectedVariant(u32),
    /// Bytes read from the native library were not valid UTF-8.
    Utf8Error,
    /// A string held an interior NUL byte, so it cannot fill a C buffer.
    NulError,
    /// A string, NUL terminator included, was longer than the fixed-size
    /// buffer it had to fill.
    StringTooLong { max_len: usize, actual_len: usize },
    /// A bitmask held bits outside the documented set; carries the raw mask.
    IncorrectBits(u32),
}

/// True for the status codes the vendor documents: the contiguous block of
/// error codes, the success code, and the distinguished "unknown error" code.
pub open spec fn is_known_status(code: u32) -> bool {
    code <= 23 || code == 999
}

/// The taxonomy member for a non-zero raw status code.
pub open spec fn spec_status_error(code: u32) -> NvmlError {
    if code == 1 {
        NvmlError::Uninitialized
    } else if code == 2 {
        NvmlError::InvalidArgument
    } else if code == 3 {
        NvmlError::NotSupported
    } else if code == 4 {
        NvmlError::NoPermission
    } else if code == 5 {
        NvmlError::AlreadyInitialized
    } else if code == 6 {
        NvmlError::NotFound
    } else if code == 7 {
        NvmlError::InsufficientSize
    } else if code == 8 {
        NvmlError::InsufficientPower
    } else if code == 9 {
        NvmlError::DriverNotLoaded
    } else if code == 10 {
        NvmlError::Timeout
    } else if code == 11 {
        NvmlError::IrqIssue
    } else if code == 12 {
        NvmlError::LibraryNotFound
    } else if code == 13 {
        NvmlError::FunctionNotFound
    } else if code == 14 {
        NvmlError::CorruptedInfoROM
    } else if code == 15 {
        NvmlError::GpuIsLost
    } else if code == 16 {
        NvmlError::ResetRequired
    } else if code == 17 {
        NvmlError::OperatingSystemError
    } else if code == 18 {
        NvmlError::LibRmVersionMismatch
    } else if code == 19 {
        NvmlError::InUse
    } else if code == 20 {
        NvmlError::MemoryError
    } else if code == 21 {
        NvmlError::NoData
    } else if code == 22 {
        NvmlError::VgpuEccNotSupported
    } else if code == 23 {
        NvmlError::InsufficientMemory
    } else if code == 999 {
        NvmlError::Unknown
    } else {
        NvmlError::UnexpectedVariant(code)
    }
}

/// Translates a raw status code into a result: the success code becomes `Ok`,
/// every other code becomes the error given by [`spec_status_error`].  The
/// mapping is total; no code panics.
pub fn nvml_try(code: u32) -> (r: Result<(), NvmlError>)
    ensures
        r is Ok <==> code == 0,
        code != 0 ==> r == Result::<(), NvmlError>::Err(spec_status_error(code)),
{
    match code {
        0 => Ok(()),
        1 => Err(NvmlError::Uninitialized),
        2 => Err(NvmlError::InvalidArgument),
        3 => Err(NvmlError::NotSupported),
        4 => Err(NvmlError::NoPermission),
        5 => Err(NvmlError::AlreadyInitialized),
        6 => Err(NvmlError::NotFound),
        7 => Err(NvmlError::InsufficientSize),
        8 => Err(NvmlError::InsufficientPower),
        9 => Err(NvmlError::DriverNotLoaded),
        10 => Err(NvmlError::Timeout),
        11 => Err(NvmlError::IrqIssue),
        12 => Err(NvmlError::LibraryNotFound),
        13 => Err(NvmlError::FunctionNotFound),
        14 => Err(NvmlError::CorruptedInfoROM),
        15 => Err(NvmlError::GpuIsLost),
        16 => Err(NvmlError::ResetRequired),
        17 => Err(NvmlError::OperatingSystemError),
        18 => Err(NvmlError::LibRmVersionMismatch),
        19 => Err(NvmlError::InUse),
        20 => Err(NvmlError::MemoryError),
        21 => Err(NvmlError::NoData),
        22 => Err(NvmlError::VgpuEccNotSupported),
        23 => Err(NvmlError::InsufficientMemory),
        999 => Err(NvmlError::Unknown),
        other => Err(NvmlError::UnexpectedVariant(other)),
    }
}

/// Every status code in the documented set translates to its own taxonomy
/// member, and every code outside that set translates to the catch-all
/// variant carrying the raw code.
pub proof fn lemma_status_translation_total(code: u32)
    ensures
        is_known_status(code) && code != 0 ==> !(spec_status_error(code) is UnexpectedVariant),
        !is_known_status(code) ==> spec_status_error(code) == NvmlError::UnexpectedVariant(code),
{
}

} // verus!
