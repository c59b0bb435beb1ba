//! Status-code translation: every documented code maps to its taxonomy
//! member, and every other code maps to the catch-all carrying the raw
//! value.

use nvml_wrapper::error::{nvml_try, NvmlError};

#[test]
fn success_code_is_ok() {
    assert_eq!(nvml_try(0), Ok(()));
}

#[test]
fn known_codes_map_to_taxonomy() {
    assert_eq!(nvml_try(1), Err(NvmlError::Uninitialized));
    assert_eq!(nvml_try(2), Err(NvmlError::InvalidArgument));
    assert_eq!(nvml_try(3), Err(NvmlError::NotSupported));
    assert_eq!(nvml_try(4), Err(NvmlError::NoPermission));
    assert_eq!(nvml_try(5), Err(NvmlError::AlreadyInitialized));
    assert_eq!(nvml_try(6), Err(NvmlError::NotFound));
    assert_eq!(nvml_try(7), Err(NvmlError::InsufficientSize));
    assert_eq!(nvml_try(8), Err(NvmlError::InsufficientPower));
    assert_eq!(nvml_try(9), Err(NvmlError::DriverNotLoaded));
    assert_eq!(nvml_try(10), Err(NvmlError::Timeout));
    assert_eq!(nvml_try(11), Err(NvmlError::IrqIssue));
    assert_eq!(nvml_try(12), Err(NvmlError::LibraryNotFound));
    assert_eq!(nvml_try(13), Err(NvmlError::FunctionNotFound));
    assert_eq!(nvml_try(14), Err(NvmlError::CorruptedInfoROM));
    assert_eq!(nvml_try(15), Err(NvmlError::GpuIsLost));
    assert_eq!(nvml_try(16), Err(NvmlError::ResetRequired));
    assert_eq!(nvml_try(17), Err(NvmlError::OperatingSystemError));
    assert_eq!(nvml_try(18), Err(NvmlError::LibRmVersionMismatch));
    assert_eq!(nvml_try(19), Err(NvmlError::InUse));
    assert_eq!(nvml_try(20), Err(NvmlError::MemoryError));
    assert_eq!(nvml_try(21), Err(NvmlError::NoData));
    assert_eq!(nvml_try(22), Err(NvmlError::VgpuEccNotSupported));
    assert_eq!(nvml_try(23), Err(NvmlError::InsufficientMemory));
    assert_eq!(nvml_try(999), Err(NvmlError::Unknown));
}

#[test]
fn unknown_codes_carry_raw_value() {
    for code in [24u32, 100, 500, 998, 1000, u32::MAX] {
        assert_eq!(nvml_try(code), Err(NvmlError::UnexpectedVariant(code)));
    }
}
