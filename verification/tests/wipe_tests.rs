use cwe::bytes::CommandReply;
use cwe::device::{Device, DeviceType};
use cwe::evidence::{Timestamp, WipeEvidence};
use cwe::overwrite::{
    chunk_at, disk_clean, ChunkWrite, IoReply, OverwriteAction, OverwriteError, OverwriteEvent,
    OVERWRITE_CHUNK_LEN,
};
use cwe::poll::PollError;
use cwe::wipe::{
    ata_tier_outcome, erase_password, firmware_erase, nvme_tier_outcome, overwrite_tier_outcome,
    tier_device_path, try_crypto_purge, wipe_device, CryptoPurge, TierDriver, TierOutcome,
    WipeState,
};

fn device(path: &str, kind: DeviceType, firmsan: bool) -> Device {
    let mut d = Device::new(path, None, Some("serial"), None, kind, "salt");
    d.firmsan = firmsan;
    d
}

fn evidence(dev: &Device) -> WipeEvidence {
    WipeEvidence::new_at(
        "id".to_string(),
        Timestamp { secs: 1, nanos: 0 },
        &dev.id,
        &dev.dev_path,
        "tiered",
        "purge",
    )
}

fn run(dev: &Device, firmware: TierOutcome, crypto: TierOutcome, overwrite: TierOutcome)
    -> (Vec<WipeState>, WipeEvidence) {
    let mut ev = evidence(dev);
    let mut visited = Vec::new();
    let mut state = wipe_device(dev, WipeState::Start, TierOutcome::Failure, &mut ev);
    loop {
        visited.push(state);
        let outcome = match state {
            WipeState::TryFirmwareSanitize => firmware,
            WipeState::TryCryptoPurge => crypto,
            WipeState::SoftwareOverwrite => overwrite,
            _ => break,
        };
        state = wipe_device(dev, state, outcome, &mut ev);
    }
    (visited, ev)
}

const OK: TierOutcome = TierOutcome::Success;
const BAD: TierOutcome = TierOutcome::Failure;

#[test]
fn unknown_protocol_goes_straight_to_overwrite() {
    for firmsan in [false, true] {
        let dev = device("/dev/vda", DeviceType::Unknown, firmsan);
        let (visited, ev) = run(&dev, OK, OK, OK);
        assert_eq!(visited, vec![WipeState::SoftwareOverwrite, WipeState::Succeeded]);
        assert_eq!(
            ev.logs,
            vec![
                "Starting software overwrite on /dev/vda".to_string(),
                "Software overwrite completed on /dev/vda".to_string(),
            ]
        );
    }
}

#[test]
fn unknown_protocol_fails_only_with_the_overwrite() {
    let dev = device("/dev/vda", DeviceType::Unknown, false);
    let (visited, ev) = run(&dev, OK, OK, BAD);
    assert_eq!(visited, vec![WipeState::SoftwareOverwrite, WipeState::Failed]);
    assert_eq!(ev.logs.last().unwrap(), "Software overwrite failed on /dev/vda");
}

#[test]
fn firmware_sanitize_success_stops_the_engine() {
    let dev = device("/dev/nvme0n1", DeviceType::Nvme, true);
    let (visited, ev) = run(&dev, OK, BAD, BAD);
    assert_eq!(visited, vec![WipeState::TryFirmwareSanitize, WipeState::Succeeded]);
    assert_eq!(
        ev.logs,
        vec![
            "Attempting firmware sanitize on /dev/nvme0n1".to_string(),
            "Firmware sanitize completed on /dev/nvme0n1".to_string(),
        ]
    );
}

#[test]
fn firmware_tier_is_skipped_without_the_flag() {
    let dev = device("/dev/nvme0n1", DeviceType::Nvme, false);
    let (visited, ev) = run(&dev, OK, OK, OK);
    assert_eq!(visited, vec![WipeState::TryCryptoPurge, WipeState::Succeeded]);
    assert_eq!(
        ev.logs,
        vec![
            "Attempting NVMe crypto erase on /dev/nvme0n1".to_string(),
            "Crypto purge completed on /dev/nvme0n1".to_string(),
        ]
    );
}

#[test]
fn nvme_crypto_purge_is_reported_as_success_whatever_came() {
    let dev = device("/dev/nvme0n1", DeviceType::Nvme, true);
    let (visited, ev) = run(&dev, BAD, BAD, BAD);
    assert_eq!(
        visited,
        vec![WipeState::TryFirmwareSanitize, WipeState::TryCryptoPurge, WipeState::Succeeded]
    );
    assert_eq!(
        ev.logs,
        vec![
            "Attempting firmware sanitize on /dev/nvme0n1".to_string(),
            "Firmware sanitize failed on /dev/nvme0n1. Falling back.".to_string(),
            "Attempting NVMe crypto erase on /dev/nvme0n1".to_string(),
            "NVMe purge failed on /dev/nvme0n1; crypto purge is reported as completed."
                .to_string(),
        ]
    );
}

#[test]
fn ata_always_falls_through_to_overwrite() {
    let dev = device("/dev/sda", DeviceType::Sata, true);
    let (visited, ev) = run(&dev, BAD, OK, OK);
    assert_eq!(
        visited,
        vec![
            WipeState::TryFirmwareSanitize,
            WipeState::TryCryptoPurge,
            WipeState::SoftwareOverwrite,
            WipeState::Succeeded,
        ]
    );
    assert_eq!(
        ev.logs,
        vec![
            "Attempting firmware sanitize on /dev/sda".to_string(),
            "Firmware sanitize failed on /dev/sda. Falling back.".to_string(),
            "Attempting ATA crypto purge on /dev/sda".to_string(),
            "ATA secure erase triggered on /dev/sda; not confirmed. Falling back.".to_string(),
            "Starting software overwrite on /dev/sda".to_string(),
            "Software overwrite completed on /dev/sda".to_string(),
        ]
    );
}

#[test]
fn ata_without_firmware_support_fails_when_overwrite_fails() {
    let dev = device("/dev/sda", DeviceType::Sata, false);
    let (visited, ev) = run(&dev, OK, BAD, BAD);
    assert_eq!(
        visited,
        vec![WipeState::TryCryptoPurge, WipeState::SoftwareOverwrite, WipeState::Failed]
    );
    assert_eq!(
        ev.logs,
        vec![
            "Attempting ATA crypto purge on /dev/sda".to_string(),
            "ATA purge failed on /dev/sda. Falling back.".to_string(),
            "Starting software overwrite on /dev/sda".to_string(),
            "Software overwrite failed on /dev/sda".to_string(),
        ]
    );
}

#[test]
fn finished_attempt_stays_where_it_is() {
    let dev = device("/dev/sda", DeviceType::Sata, true);
    let mut ev = evidence(&dev);
    for outcome in [OK, BAD] {
        assert_eq!(wipe_device(&dev, WipeState::Succeeded, outcome, &mut ev), WipeState::Succeeded);
        assert_eq!(wipe_device(&dev, WipeState::Failed, outcome, &mut ev), WipeState::Failed);
    }
    assert!(ev.logs.is_empty());
}

#[test]
fn closed_certificate_takes_no_engine_lines() {
    let dev = device("/dev/sda", DeviceType::Sata, true);
    let mut ev = evidence(&dev);
    ev.finish_at(Timestamp { secs: 2, nanos: 0 });
    let next = wipe_device(&dev, WipeState::Start, OK, &mut ev);
    assert_eq!(next, WipeState::TryFirmwareSanitize);
    assert!(ev.logs.is_empty());
}

#[test]
fn unknown_device_in_a_hardware_tier_falls_to_overwrite() {
    let dev = device("/dev/vda", DeviceType::Unknown, true);
    let mut ev = evidence(&dev);
    assert_eq!(
        wipe_device(&dev, WipeState::TryFirmwareSanitize, BAD, &mut ev),
        WipeState::SoftwareOverwrite
    );
    assert_eq!(
        wipe_device(&dev, WipeState::TryCryptoPurge, OK, &mut ev),
        WipeState::SoftwareOverwrite
    );
    assert_eq!(ev.logs[2], "Crypto purge is not available on /dev/vda. Falling back.");
}

#[test]
fn tier_drivers_by_protocol() {
    assert_eq!(firmware_erase(&device("/dev/sda", DeviceType::Sata, true)), TierDriver::AtaSecureErase);
    assert_eq!(
        firmware_erase(&device("/dev/nvme0n1", DeviceType::Nvme, true)),
        TierDriver::NvmeCryptoPurge
    );
    assert_eq!(firmware_erase(&device("/dev/vda", DeviceType::Unknown, true)), TierDriver::Nothing);
    assert_eq!(
        try_crypto_purge(&device("/dev/sda", DeviceType::Sata, false)),
        CryptoPurge { driver: TierDriver::AtaCryptoPurge, confirmed: false }
    );
    assert_eq!(
        try_crypto_purge(&device("/dev/nvme0n1", DeviceType::Nvme, false)),
        CryptoPurge { driver: TierDriver::NvmeCryptoPurge, confirmed: true }
    );
    assert_eq!(
        try_crypto_purge(&device("/dev/vda", DeviceType::Unknown, false)),
        CryptoPurge { driver: TierDriver::Nothing, confirmed: false }
    );
}

#[test]
fn tier_outcomes_of_driver_results() {
    assert_eq!(erase_password(), "ERASEPWD");
    assert_eq!(ata_tier_outcome(CommandReply::Accepted), OK);
    assert_eq!(ata_tier_outcome(CommandReply::Rejected { errno: 1 }), BAD);
    assert_eq!(nvme_tier_outcome(Ok(())), OK);
    assert_eq!(nvme_tier_outcome(Err(PollError::Timeout)), BAD);
    assert_eq!(nvme_tier_outcome(Err(PollError::SanitizeFailed { status: 2 })), BAD);
    assert_eq!(nvme_tier_outcome(Err(PollError::CommandRejected { errno: 5 })), BAD);
}

fn overwrite(size: usize, chunk: usize) -> (Vec<ChunkWrite>, Vec<u32>) {
    let (writes, touched, result) = overwrite_until(size, chunk, usize::MAX);
    assert_eq!(result, Ok(()));
    (writes, touched)
}

/// Runs the overwrite on a simulated device whose write number `fail_at`
/// fails with error 5.
fn overwrite_until(size: usize, chunk: usize, fail_at: usize)
    -> (Vec<ChunkWrite>, Vec<u32>, Result<(), OverwriteError>) {
    let mut touched = vec![0u32; size];
    let mut writes = Vec::new();
    let mut buf = vec![0u8; chunk];
    let mut event = OverwriteEvent::Opened;
    let mut flushed = false;
    loop {
        match disk_clean(event, size as u64, &mut buf) {
            OverwriteAction::Write(w) => {
                assert!(!flushed);
                assert_eq!(buf.len(), chunk);
                let reply = if writes.len() == fail_at {
                    IoReply::Failed { errno: 5 }
                } else {
                    for i in 0..w.len {
                        touched[w.offset as usize + i] += 1;
                    }
                    IoReply::Done
                };
                writes.push(w);
                event = OverwriteEvent::Wrote { write: w, reply };
            }
            OverwriteAction::Flush => {
                assert!(!flushed);
                flushed = true;
                event = OverwriteEvent::Flushed { reply: IoReply::Done };
            }
            OverwriteAction::Finish(result) => {
                assert_eq!(flushed, result.is_ok());
                return (writes, touched, result);
            }
        }
    }
}

#[test]
fn overwrite_covers_device_in_whole_chunks() {
    let (writes, touched) = overwrite(12, 4);
    assert_eq!(
        writes,
        vec![
            ChunkWrite { offset: 0, len: 4, next: 4 },
            ChunkWrite { offset: 4, len: 4, next: 8 },
            ChunkWrite { offset: 8, len: 4, next: 12 },
        ]
    );
    assert!(touched.iter().all(|n| *n == 1));
}

#[test]
fn overwrite_cuts_the_last_chunk_at_the_end() {
    let (writes, touched) = overwrite(10, 4);
    assert_eq!(
        writes,
        vec![
            ChunkWrite { offset: 0, len: 4, next: 4 },
            ChunkWrite { offset: 4, len: 4, next: 8 },
            ChunkWrite { offset: 8, len: 2, next: 10 },
        ]
    );
    assert!(touched.iter().all(|n| *n == 1));
    assert_eq!(writes.iter().map(|w| w.len).sum::<usize>(), 10);
}

#[test]
fn overwrite_edge_sizes() {
    assert_eq!(overwrite(0, 4).0, Vec::new());
    assert_eq!(overwrite(1, 4).0, vec![ChunkWrite { offset: 0, len: 1, next: 1 }]);
    assert_eq!(overwrite(4, 4).0, vec![ChunkWrite { offset: 0, len: 4, next: 4 }]);
    assert_eq!(overwrite(3, 1).0.len(), 3);
    for size in 0..40 {
        for chunk in 1..9 {
            let (writes, touched) = overwrite(size, chunk);
            assert_eq!(writes.len(), (size + chunk - 1) / chunk);
            assert!(touched.iter().all(|n| *n == 1));
        }
    }
}

#[test]
fn chunk_at_and_beyond_the_end() {
    let mut buf = vec![0u8; 8];
    assert_eq!(chunk_at(100, 100, &mut buf), None);
    assert_eq!(chunk_at(100, 101, &mut buf), None);
    assert_eq!(chunk_at(0, 0, &mut buf), None);
    assert_eq!(chunk_at(100, 96, &mut buf), Some(ChunkWrite { offset: 96, len: 4, next: 100 }));
    assert_eq!(
        chunk_at(u64::MAX, u64::MAX - 3, &mut buf),
        Some(ChunkWrite { offset: u64::MAX - 3, len: 3, next: u64::MAX })
    );
}

#[test]
fn overwrite_fills_the_buffer_with_fresh_bytes() {
    assert_eq!(OVERWRITE_CHUNK_LEN, 1024 * 1024);
    let mut buf = vec![0u8; 4096];
    chunk_at(1 << 20, 0, &mut buf).unwrap();
    let first = buf.clone();
    assert!(first.iter().any(|b| *b != 0));
    let next = disk_clean(OverwriteEvent::Opened, 1 << 20, &mut buf);
    assert_eq!(next, OverwriteAction::Write(ChunkWrite { offset: 0, len: 4096, next: 4096 }));
    assert_ne!(first, buf);
}

#[test]
fn overwrite_of_unopened_device_writes_nothing() {
    let mut buf = vec![0u8; 8];
    assert_eq!(
        disk_clean(OverwriteEvent::OpenFailed { errno: 13 }, 100, &mut buf),
        OverwriteAction::Finish(Err(OverwriteError::NoAccess { errno: 13 }))
    );
    assert_eq!(buf, vec![0u8; 8]);
}

#[test]
fn overwrite_stops_at_the_first_failed_write() {
    for fail_at in 0..3 {
        let (writes, touched, result) = overwrite_until(10, 4, fail_at);
        assert_eq!(writes.len(), fail_at + 1);
        assert_eq!(
            result,
            Err(OverwriteError::WriteFailed { offset: 4 * fail_at as u64, errno: 5 })
        );
        for (byte, n) in touched.iter().enumerate() {
            assert_eq!(*n, if byte < 4 * fail_at { 1 } else { 0 });
        }
        for (k, w) in writes.iter().enumerate() {
            assert_eq!(w.offset, 4 * k as u64);
        }
    }
}

#[test]
fn overwrite_steps_one_by_one() {
    let mut buf = vec![0u8; 4];
    let first = ChunkWrite { offset: 0, len: 4, next: 4 };
    let last = ChunkWrite { offset: 8, len: 2, next: 10 };
    assert_eq!(disk_clean(OverwriteEvent::Opened, 10, &mut buf), OverwriteAction::Write(first));
    assert_eq!(disk_clean(OverwriteEvent::Opened, 0, &mut buf), OverwriteAction::Flush);
    let done = OverwriteEvent::Wrote { write: first, reply: IoReply::Done };
    assert_eq!(
        disk_clean(done, 10, &mut buf),
        OverwriteAction::Write(ChunkWrite { offset: 4, len: 4, next: 8 })
    );
    let done = OverwriteEvent::Wrote { write: last, reply: IoReply::Done };
    assert_eq!(disk_clean(done, 10, &mut buf), OverwriteAction::Flush);
    let failed = OverwriteEvent::Wrote { write: last, reply: IoReply::Failed { errno: 28 } };
    assert_eq!(
        disk_clean(failed, 10, &mut buf),
        OverwriteAction::Finish(Err(OverwriteError::WriteFailed { offset: 8, errno: 28 }))
    );
    assert_eq!(
        disk_clean(OverwriteEvent::Flushed { reply: IoReply::Done }, 10, &mut buf),
        OverwriteAction::Finish(Ok(()))
    );
    assert_eq!(
        disk_clean(OverwriteEvent::Flushed { reply: IoReply::Failed { errno: 5 } }, 10, &mut buf),
        OverwriteAction::Finish(Err(OverwriteError::FlushFailed { errno: 5 }))
    );
}

const DENIED: TierOutcome = TierOutcome::NoAccess;

#[test]
fn access_error_aborts_the_attempt_in_every_tier() {
    for kind in [DeviceType::Nvme, DeviceType::Sata, DeviceType::Unknown] {
        for firmsan in [false, true] {
            let dev = device("/dev/gone", kind, firmsan);
            for tier in [
                WipeState::TryFirmwareSanitize,
                WipeState::TryCryptoPurge,
                WipeState::SoftwareOverwrite,
            ] {
                let mut ev = evidence(&dev);
                assert_eq!(wipe_device(&dev, tier, DENIED, &mut ev), WipeState::Failed);
                assert_eq!(ev.logs, vec!["Cannot open /dev/gone; the attempt is abandoned."]);
            }
        }
    }
}

#[test]
fn unopenable_nvme_drive_is_not_reported_as_wiped() {
    let dev = device("/dev/nvme9n1", DeviceType::Nvme, false);
    let (visited, ev) = run(&dev, DENIED, DENIED, DENIED);
    assert_eq!(visited, vec![WipeState::TryCryptoPurge, WipeState::Failed]);
    assert_eq!(
        ev.logs,
        vec![
            "Attempting NVMe crypto erase on /dev/nvme9n1".to_string(),
            "Cannot open /dev/nvme9n1; the attempt is abandoned.".to_string(),
        ]
    );
    let dev = device("/dev/nvme9n1", DeviceType::Nvme, true);
    let (visited, _) = run(&dev, DENIED, OK, OK);
    assert_eq!(visited, vec![WipeState::TryFirmwareSanitize, WipeState::Failed]);
    let dev = device("/dev/sda", DeviceType::Sata, true);
    let (visited, _) = run(&dev, BAD, BAD, DENIED);
    assert_eq!(visited.last(), Some(&WipeState::Failed));
}

#[test]
fn access_error_plays_no_part_outside_the_tiers() {
    let dev = device("/dev/sda", DeviceType::Sata, true);
    let mut ev = evidence(&dev);
    assert_eq!(wipe_device(&dev, WipeState::Start, DENIED, &mut ev), WipeState::TryFirmwareSanitize);
    assert_eq!(wipe_device(&dev, WipeState::Succeeded, DENIED, &mut ev), WipeState::Succeeded);
    assert_eq!(wipe_device(&dev, WipeState::Failed, DENIED, &mut ev), WipeState::Failed);
    assert_eq!(ev.logs, vec!["Attempting firmware sanitize on /dev/sda"]);
}

#[test]
fn overwrite_tier_outcomes() {
    assert_eq!(overwrite_tier_outcome(Ok(())), OK);
    assert_eq!(overwrite_tier_outcome(Err(OverwriteError::NoAccess { errno: 13 })), DENIED);
    assert_eq!(
        overwrite_tier_outcome(Err(OverwriteError::WriteFailed { offset: 0, errno: 5 })),
        BAD
    );
    assert_eq!(overwrite_tier_outcome(Err(OverwriteError::FlushFailed { errno: 5 })), BAD);
}

#[test]
fn tier_device_path_by_driver() {
    let nvme = device("/dev/nvme0n1", DeviceType::Nvme, true);
    assert_eq!(tier_device_path(&nvme, TierDriver::NvmeCryptoPurge), "/dev/nvme0");
    assert_eq!(tier_device_path(&nvme, TierDriver::AtaSecureErase), "/dev/nvme0n1");
    assert_eq!(tier_device_path(&nvme, TierDriver::AtaCryptoPurge), "/dev/nvme0n1");
    assert_eq!(tier_device_path(&nvme, TierDriver::Nothing), "/dev/nvme0n1");
    let ata = device("/dev/sda", DeviceType::Sata, false);
    assert_eq!(tier_device_path(&ata, firmware_erase(&ata)), "/dev/sda");
    assert_eq!(tier_device_path(&ata, try_crypto_purge(&ata).driver), "/dev/sda");
    assert_eq!(tier_device_path(&ata, TierDriver::NvmeCryptoPurge), "/dev/sda");
    assert_eq!(tier_device_path(&nvme, try_crypto_purge(&nvme).driver), "/dev/nvme0");
}
