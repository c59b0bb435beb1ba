//! Struct translation: the PCI round trip, the buffer error cases, the
//! sentinel-bearing fields and the plain field copies.

use nvml_wrapper::enum_wrappers::device::{BridgeChip, EncoderType};
use nvml_wrapper::enums::device::{FirmwareVersion, UsedGpuMemory};
use nvml_wrapper::error::NvmlError;
use nvml_wrapper::raw::{
    RawAccountingStats, RawBar1Memory, RawBridgeChipHierarchy, RawBridgeChipInfo,
    RawEccErrorCounts, RawEncoderSessionInfo, RawMemory, RawPciInfo, RawProcessInfo,
    RawUtilization, RawViolationTime, NVML_DEVICE_PCI_BUS_ID_BUFFER_SIZE,
};
use nvml_wrapper::struct_wrappers::device::{
    AccountingStats, BAR1MemoryInfo, BridgeChipHierarchy, BridgeChipInfo, EccErrorCounts,
    EncoderSessionInfo, MemoryInfo, PciInfo, ProcessInfo, Utilization, ViolationTime,
};

fn sample_pci_info() -> PciInfo {
    PciInfo {
        bus: 0x2a,
        bus_id: String::from("00000000:2A:00.0"),
        device: 0,
        domain: 0,
        pci_device_id: 0x1b06_10de,
        pci_sub_system_id: Some(0x1212_10de),
    }
}

fn raw_bus_id(text: &str) -> [u8; NVML_DEVICE_PCI_BUS_ID_BUFFER_SIZE] {
    let mut buf = [0u8; NVML_DEVICE_PCI_BUS_ID_BUFFER_SIZE];
    for (i, b) in text.bytes().enumerate() {
        buf[i] = b;
    }
    buf
}

#[test]
fn pci_info_from_to_c() {
    let wrapped = sample_pci_info();
    let converted = wrapped.clone().try_into_c().expect("converted c pci info");

    let raw = RawPciInfo {
        bus_id_legacy: [0; 16],
        domain: 0,
        bus: 0x2a,
        device: 0,
        pci_device_id: 0x1b06_10de,
        pci_sub_system_id: 0x1212_10de,
        bus_id: raw_bus_id("00000000:2A:00.0"),
    };

    assert_eq!(converted.bus_id, raw.bus_id);
    assert_eq!(converted.domain, raw.domain);
    assert_eq!(converted.bus, raw.bus);
    assert_eq!(converted.device, raw.device);
    assert_eq!(converted.pci_device_id, raw.pci_device_id);
    assert_eq!(converted.pci_sub_system_id, raw.pci_sub_system_id);

    let back = PciInfo::try_from(converted, true, false).expect("wrapped pci info");
    assert_eq!(back, wrapped);
}

#[test]
fn pci_round_trip_without_sub_system_id() {
    let wrapped = PciInfo {
        bus: 3,
        bus_id: String::from("0000:03:00.0"),
        device: 0,
        domain: 0,
        pci_device_id: 7,
        pci_sub_system_id: None,
    };
    let converted = wrapped.clone().try_into_c().expect("converted c pci info");
    assert_eq!(converted.pci_sub_system_id, 0);
    let back = PciInfo::try_from(converted, false, false).expect("wrapped pci info");
    assert_eq!(back, wrapped);
}

#[test]
fn pci_round_trip_multibyte_bus_id() {
    // A bus id is ASCII in practice, but the buffer translation handles any
    // UTF-8 text that fits, multibyte characters included.
    let wrapped = PciInfo {
        bus: 1,
        bus_id: String::from("bus\u{e9}\u{2713}id"),
        device: 2,
        domain: 3,
        pci_device_id: 4,
        pci_sub_system_id: Some(5),
    };
    let converted = wrapped.clone().try_into_c().expect("converted c pci info");
    let back = PciInfo::try_from(converted, true, false).expect("wrapped pci info");
    assert_eq!(back, wrapped);
}

#[test]
fn pci_bus_id_too_long_fails() {
    let mut info = sample_pci_info();
    // Thirty-two bytes fill the buffer and leave no room for the terminator.
    info.bus_id = "x".repeat(32);
    assert_eq!(
        info.try_into_c(),
        Err(NvmlError::StringTooLong { max_len: 32, actual_len: 32 })
    );

    let mut info = sample_pci_info();
    info.bus_id = "y".repeat(100);
    assert_eq!(
        info.try_into_c(),
        Err(NvmlError::StringTooLong { max_len: 32, actual_len: 100 })
    );

    // Thirty-one bytes plus the terminator fit exactly.
    let mut info = sample_pci_info();
    info.bus_id = "z".repeat(31);
    assert!(info.try_into_c().is_ok());
}

#[test]
fn pci_bus_id_interior_nul_fails() {
    let mut info = sample_pci_info();
    info.bus_id = String::from("00:2A\0:00");
    assert_eq!(info.try_into_c(), Err(NvmlError::NulError));
}

#[test]
fn pci_invalid_utf8_fails() {
    let mut bus_id = raw_bus_id("0000");
    bus_id[2] = 0xFF;
    let raw = RawPciInfo {
        bus_id_legacy: [0; 16],
        domain: 0,
        bus: 0,
        device: 0,
        pci_device_id: 0,
        pci_sub_system_id: 0,
        bus_id,
    };
    assert_eq!(PciInfo::try_from(raw, true, false), Err(NvmlError::Utf8Error));
}

#[test]
fn pci_buffer_without_terminator_reads_whole() {
    let raw = RawPciInfo {
        bus_id_legacy: [0; 16],
        domain: 0,
        bus: 0,
        device: 0,
        pci_device_id: 0,
        pci_sub_system_id: 0,
        bus_id: [b'a'; NVML_DEVICE_PCI_BUS_ID_BUFFER_SIZE],
    };
    let info = PciInfo::try_from(raw, true, false).expect("wrapped pci info");
    assert_eq!(info.bus_id, "a".repeat(32));
}

#[test]
fn pci_legacy_bus_id_selected() {
    let mut bus_id_legacy = [0u8; 16];
    for (i, b) in "old:id".bytes().enumerate() {
        bus_id_legacy[i] = b;
    }
    let raw = RawPciInfo {
        bus_id_legacy,
        domain: 1,
        bus: 2,
        device: 3,
        pci_device_id: 4,
        pci_sub_system_id: 5,
        bus_id: raw_bus_id("new:id"),
    };
    let modern = PciInfo::try_from(raw, true, false).expect("wrapped pci info");
    assert_eq!(modern.bus_id, "new:id");
    let legacy = PciInfo::try_from(raw, true, true).expect("wrapped pci info");
    assert_eq!(legacy.bus_id, "old:id");
    assert_eq!(legacy.pci_sub_system_id, Some(5));
}

#[test]
fn bar1_memory_copies_fields() {
    let info = BAR1MemoryInfo::from(RawBar1Memory { bar1_total: 10, bar1_free: 4, bar1_used: 6 });
    assert_eq!(info, BAR1MemoryInfo { free: 4, total: 10, used: 6 });
}

#[test]
fn memory_info_copies_fields() {
    let info = MemoryInfo::from(RawMemory { total: 100, free: 70, used: 30 });
    assert_eq!(info, MemoryInfo { free: 70, total: 100, used: 30 });
}

#[test]
fn ecc_error_counts_copies_fields() {
    let counts = EccErrorCounts::from(RawEccErrorCounts {
        l1_cache: 1,
        l2_cache: 2,
        device_memory: 3,
        register_file: 4,
    });
    assert_eq!(
        counts,
        EccErrorCounts { device_memory: 3, l1_cache: 1, l2_cache: 2, register_file: 4 }
    );
}

#[test]
fn utilization_copies_fields() {
    let util = Utilization::from(RawUtilization { gpu: 55, memory: 44 });
    assert_eq!(util, Utilization { gpu: 55, memory: 44 });
}

#[test]
fn violation_time_copies_fields() {
    let v = ViolationTime::from(RawViolationTime { reference_time: 9, violation_time: 8 });
    assert_eq!(v, ViolationTime { reference_time: 9, violation_time: 8 });
}

#[test]
fn process_info_memory_sentinel() {
    let absent = ProcessInfo::from(RawProcessInfo { pid: 1, used_gpu_memory: u64::MAX });
    assert_eq!(absent.used_gpu_memory, UsedGpuMemory::Unavailable);

    let zero = ProcessInfo::from(RawProcessInfo { pid: 2, used_gpu_memory: 0 });
    assert_eq!(zero.used_gpu_memory, UsedGpuMemory::Used(0));

    let present = ProcessInfo::from(RawProcessInfo { pid: 3, used_gpu_memory: 4096 });
    assert_eq!(present.pid, 3);
    assert_eq!(present.used_gpu_memory, UsedGpuMemory::Used(4096));
}

#[test]
fn accounting_stats_sentinels() {
    let raw = RawAccountingStats {
        gpu_utilization: u32::MAX,
        memory_utilization: 0,
        max_memory_usage: u64::MAX,
        time: 12,
        start_time: 34,
        is_running: 3,
        reserved: [0; 5],
    };
    let stats = AccountingStats::from(raw);
    assert_eq!(stats.gpu_utilization, None);
    assert_eq!(stats.memory_utilization, Some(0));
    assert_eq!(stats.max_memory_usage, None);
    assert!(stats.is_running);
    assert_eq!(stats.time, 12);
    assert_eq!(stats.start_time, 34);

    let raw = RawAccountingStats {
        gpu_utilization: 80,
        memory_utilization: u32::MAX,
        max_memory_usage: 0,
        time: 0,
        start_time: 0,
        is_running: 0,
        reserved: [0; 5],
    };
    let stats = AccountingStats::from(raw);
    assert_eq!(stats.gpu_utilization, Some(80));
    assert_eq!(stats.memory_utilization, None);
    assert_eq!(stats.max_memory_usage, Some(0));
    assert!(!stats.is_running);
}

#[test]
fn bridge_chip_info_translation() {
    let plx = BridgeChipInfo::try_from(RawBridgeChipInfo { chip_type: 0, fw_version: 0 })
        .expect("bridge chip info");
    assert_eq!(plx.chip_type, BridgeChip::Plx);
    assert_eq!(plx.fw_version, FirmwareVersion::Unknown);

    let bro = BridgeChipInfo::try_from(RawBridgeChipInfo { chip_type: 1, fw_version: 0x0101 })
        .expect("bridge chip info");
    assert_eq!(bro.chip_type, BridgeChip::Bro04);
    assert_eq!(bro.fw_version, FirmwareVersion::Version(0x0101));

    assert_eq!(
        BridgeChipInfo::try_from(RawBridgeChipInfo { chip_type: 9, fw_version: 0 }),
        Err(NvmlError::UnexpectedVariant(9))
    );
}

#[test]
fn bridge_chip_hierarchy_translation() {
    let mut entries = [RawBridgeChipInfo { chip_type: 0, fw_version: 0 }; 128];
    entries[0] = RawBridgeChipInfo { chip_type: 1, fw_version: 7 };
    let hierarchy = BridgeChipHierarchy::try_from(RawBridgeChipHierarchy {
        bridge_count: 2,
        bridge_chip_info: entries,
    })
    .expect("bridge chip hierarchy");
    assert_eq!(hierarchy.chip_count, 2);
    assert_eq!(hierarchy.chips_hierarchy.len(), 128);
    assert_eq!(
        hierarchy.chips_hierarchy[0],
        BridgeChipInfo { fw_version: FirmwareVersion::Version(7), chip_type: BridgeChip::Bro04 }
    );
    assert_eq!(
        hierarchy.chips_hierarchy[1],
        BridgeChipInfo { fw_version: FirmwareVersion::Unknown, chip_type: BridgeChip::Plx }
    );

    let mut entries = [RawBridgeChipInfo { chip_type: 0, fw_version: 0 }; 128];
    entries[5] = RawBridgeChipInfo { chip_type: 4, fw_version: 0 };
    assert_eq!(
        BridgeChipHierarchy::try_from(RawBridgeChipHierarchy {
            bridge_count: 1,
            bridge_chip_info: entries,
        }),
        Err(NvmlError::UnexpectedVariant(4))
    );
}

#[test]
fn encoder_session_translation() {
    let raw = RawEncoderSessionInfo {
        session_id: 11,
        pid: 22,
        vgpu_instance: 0,
        codec_type: 1,
        h_resolution: 1920,
        v_resolution: 1080,
        average_fps: 60,
        average_latency: 5,
    };
    let session = EncoderSessionInfo::try_from(raw).expect("encoder session info");
    assert_eq!(session.session_id, 11);
    assert_eq!(session.pid, 22);
    assert_eq!(session.vgpu_instance, None);
    assert_eq!(session.codec_type, EncoderType::Hevc);
    assert_eq!(session.hres, 1920);
    assert_eq!(session.vres, 1080);
    assert_eq!(session.average_fps, 60);
    assert_eq!(session.average_latency, 5);

    let with_vgpu = RawEncoderSessionInfo { vgpu_instance: 9, codec_type: 0, ..raw };
    let session = EncoderSessionInfo::try_from(with_vgpu).expect("encoder session info");
    assert_eq!(session.vgpu_instance, Some(9));
    assert_eq!(session.codec_type, EncoderType::H264);

    let bad_codec = RawEncoderSessionInfo { codec_type: 2, ..raw };
    assert_eq!(
        EncoderSessionInfo::try_from(bad_codec),
        Err(NvmlError::UnexpectedVariant(2))
    );
}

#[test]
fn firmware_version_zero_sentinel() {
    assert_eq!(FirmwareVersion::from(0), FirmwareVersion::Unknown);
    assert_eq!(FirmwareVersion::from(1), FirmwareVersion::Version(1));
    assert_eq!(FirmwareVersion::from(u32::MAX), FirmwareVersion::Version(u32::MAX));
}

#[test]
fn used_gpu_memory_sentinel() {
    assert_eq!(UsedGpuMemory::from(u64::MAX), UsedGpuMemory::Unavailable);
    assert_eq!(UsedGpuMemory::from(u64::MAX - 1), UsedGpuMemory::Used(u64::MAX - 1));
    assert_eq!(UsedGpuMemory::from(0), UsedGpuMemory::Used(0));
}
