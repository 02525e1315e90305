use cwe::ata::ata_identify_block;
use cwe::bytes::CommandReply;
use cwe::device::{Device, DeviceType};
use cwe::probe::{
    check_firmware_sanitize, probe_command, CapabilityReport, ProbeCommand, ProbeError, ProbeReply,
};

fn device(path: &str, kind: DeviceType) -> Device {
    Device::new(path, Some("model"), Some("serial"), Some("vendor"), kind, "salt")
}

fn ata_sector(word82: u16, word89: u16) -> Vec<u8> {
    let mut sector = vec![0u8; 512];
    sector[164..166].copy_from_slice(&word82.to_le_bytes());
    sector[178..180].copy_from_slice(&word89.to_le_bytes());
    sector
}

fn nvme_data(sanicap: u16) -> Vec<u8> {
    let mut data = vec![0u8; 4096];
    data[536..538].copy_from_slice(&sanicap.to_le_bytes());
    data
}

fn answered(data: Vec<u8>) -> ProbeReply {
    ProbeReply::Sent { reply: CommandReply::Accepted, data }
}

#[test]
fn probe_command_by_protocol() {
    match probe_command(&device("/dev/sda", DeviceType::Sata)) {
        ProbeCommand::AtaIdentify { block } => assert_eq!(block, ata_identify_block()),
        other => panic!("unexpected command {:?}", other),
    }
    match probe_command(&device("/dev/nvme0n1", DeviceType::Nvme)) {
        ProbeCommand::NvmeIdentify { data_len } => assert_eq!(data_len, 4096),
        other => panic!("unexpected command {:?}", other),
    }
    assert!(matches!(
        probe_command(&device("/dev/vda", DeviceType::Unknown)),
        ProbeCommand::Nothing
    ));
}

#[test]
fn ata_probe_with_both_bits_clear_leaves_flag_false() {
    let mut dev = device("/dev/sda", DeviceType::Sata);
    let result = check_firmware_sanitize(&mut dev, &answered(ata_sector(!0x0002, !0x2000)));
    assert_eq!(result, Ok(CapabilityReport { firmware_sanitize: false }));
    assert!(!dev.firmsan);
}

#[test]
fn ata_probe_sets_flag_on_either_bit() {
    let mut dev = device("/dev/sda", DeviceType::Sata);
    let result = check_firmware_sanitize(&mut dev, &answered(ata_sector(0x0002, 0)));
    assert_eq!(result, Ok(CapabilityReport { firmware_sanitize: true }));
    assert!(dev.firmsan);
    let mut dev = device("/dev/sdb", DeviceType::Sata);
    let result = check_firmware_sanitize(&mut dev, &answered(ata_sector(0, 0x2000)));
    assert_eq!(result, Ok(CapabilityReport { firmware_sanitize: true }));
    assert!(dev.firmsan);
}

#[test]
fn nvme_probe_reads_sanitize_capabilities() {
    let mut dev = device("/dev/nvme0n1", DeviceType::Nvme);
    let result = check_firmware_sanitize(&mut dev, &answered(nvme_data(0)));
    assert_eq!(result, Ok(CapabilityReport { firmware_sanitize: false }));
    assert!(!dev.firmsan);
    let result = check_firmware_sanitize(&mut dev, &answered(nvme_data(0x0007)));
    assert_eq!(result, Ok(CapabilityReport { firmware_sanitize: true }));
    assert!(dev.firmsan);
}

#[test]
fn nvme_probe_does_not_read_ata_words() {
    let mut dev = device("/dev/nvme0n1", DeviceType::Nvme);
    let mut data = vec![0u8; 4096];
    data[164] = 0x02;
    data[179] = 0x20;
    let result = check_firmware_sanitize(&mut dev, &answered(data));
    assert_eq!(result, Ok(CapabilityReport { firmware_sanitize: false }));
    assert!(!dev.firmsan);
}

#[test]
fn unknown_protocol_probe_is_a_no_op() {
    let mut dev = device("/dev/vda", DeviceType::Unknown);
    let mut data = vec![0xffu8; 4096];
    data[0] = 1;
    assert_eq!(
        check_firmware_sanitize(&mut dev, &answered(data)),
        Ok(CapabilityReport { firmware_sanitize: false })
    );
    assert!(!dev.firmsan);
    assert_eq!(
        check_firmware_sanitize(&mut dev, &ProbeReply::OpenFailed),
        Ok(CapabilityReport { firmware_sanitize: false })
    );
    assert!(!dev.firmsan);
}

#[test]
fn probe_open_failure_is_io_error() {
    let mut dev = device("/dev/sda", DeviceType::Sata);
    assert_eq!(check_firmware_sanitize(&mut dev, &ProbeReply::OpenFailed), Err(ProbeError::Io));
    assert!(!dev.firmsan);
}

#[test]
fn probe_rejected_command_carries_error_code() {
    let mut dev = device("/dev/nvme0n1", DeviceType::Nvme);
    let reply =
        ProbeReply::Sent { reply: CommandReply::Rejected { errno: 25 }, data: nvme_data(0xffff) };
    assert_eq!(
        check_firmware_sanitize(&mut dev, &reply),
        Err(ProbeError::CommandRejected { errno: 25 })
    );
    assert!(!dev.firmsan);
}

#[test]
fn probe_never_resets_the_flag() {
    let mut dev = device("/dev/sda", DeviceType::Sata);
    dev.firmsan = true;
    let result = check_firmware_sanitize(&mut dev, &answered(ata_sector(0, 0)));
    assert_eq!(result, Ok(CapabilityReport { firmware_sanitize: false }));
    assert!(dev.firmsan);
    assert_eq!(check_firmware_sanitize(&mut dev, &ProbeReply::OpenFailed), Err(ProbeError::Io));
    assert!(dev.firmsan);
}

#[test]
fn probe_changes_nothing_but_the_flag() {
    let mut dev = device("/dev/sda", DeviceType::Sata);
    let before = dev.clone();
    check_firmware_sanitize(&mut dev, &answered(ata_sector(0x0002, 0x2000))).unwrap();
    assert_eq!(dev.id, before.id);
    assert_eq!(dev.dev_path, before.dev_path);
    assert_eq!(dev.model, before.model);
    assert_eq!(dev.serial, before.serial);
    assert_eq!(dev.vendor, before.vendor);
    assert_eq!(dev.bus, before.bus);
    assert_eq!(dev.media, before.media);
    assert_eq!(dev.size_bytes, before.size_bytes);
    assert_eq!(dev.devtype, before.devtype);
}
