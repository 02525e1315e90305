//! Capability probing: which identify command a drive is asked, and what its
//! answer says about erasing by firmware.

use crate::ata::{ata_erase_supported, ata_identify_block, check_ata_secure_erase, drive_cmd_block};
use crate::bytes::CommandReply;
use crate::device::{Device, DeviceType};
use crate::nvme::{check_nvme_sanitize, nvme_sanitize_supported};
use vstd::prelude::*;

verus! {

/// What a probe found out about one drive.
#[derive(Debug, Clone, Copy, PartialEq, Eq, Structural)]
pub struct CapabilityReport {
    /// The drive offers sanitize or secure erase by firmware.
    pub firmware_sanitize: bool,
}

/// Why a probe gave no report.
#[derive(Debug, Clone, Copy, PartialEq, Eq, Structural)]
pub enum ProbeError {
    /// The device could not be opened.
    Io,
    /// The kernel or the drive refused the identify command.
    CommandRejected { errno: i32 },
}

/// The identify command by which a drive is probed.
#[derive(Debug, Clone)]
pub enum ProbeCommand {
    /// Nothing is sent: the protocol of the drive is not known.
    Nothing,
    /// Send `block` through the drive-command I/O control; the answer is the
    /// sector of the block.
    AtaIdentify { block: Vec<u8> },
    /// Send Identify Controller with a buffer of `data_len` bytes; the answer
    /// is that buffer.
    NvmeIdentify { data_len: u32 },
}

/// A probe command with its block as a sequence of bytes.
pub enum ProbeCommandView {
    Nothing,
    AtaIdentify { block: Seq<u8> },
    NvmeIdentify { data_len: u32 },
}

impl View for ProbeCommand {
    type V = ProbeCommandView;

    open spec fn view(&self) -> ProbeCommandView {
        match *self {
            ProbeCommand::Nothing => ProbeCommandView::Nothing,
            ProbeCommand::AtaIdentify { block } => ProbeCommandView::AtaIdentify { block: block@ },
            ProbeCommand::NvmeIdentify { data_len } => ProbeCommandView::NvmeIdentify { data_len },
        }
    }
}

/// What came of the identify command.
#[derive(Debug, Clone)]
pub enum ProbeReply {
    /// The device could not be opened.
    OpenFailed,
    /// The command was sent, with this reply; `data` is what the drive wrote:
    /// the sector for ATA, the controller data structure for NVMe.
    Sent { reply: CommandReply, data: Vec<u8> },
}

/// The command for a drive of the given protocol.
pub open spec fn probe_command_of(devtype: DeviceType) -> ProbeCommandView {
    match devtype {
        DeviceType::Sata => ProbeCommandView::AtaIdentify {
            block: drive_cmd_block(0xEC, Seq::<u8>::empty()),
        },
        DeviceType::Nvme => ProbeCommandView::NvmeIdentify { data_len: 4096 },
        DeviceType::Unknown => ProbeCommandView::Nothing,
    }
}

/// The identify command by which `dev` is probed.
pub fn probe_command(dev: &Device) -> (command: ProbeCommand)
    ensures
        command@ == probe_command_of(dev.devtype),
{
    match dev.devtype {
        DeviceType::Sata => ProbeCommand::AtaIdentify { block: ata_identify_block() },
        DeviceType::Nvme => ProbeCommand::NvmeIdentify { data_len: crate::nvme::NVME_IDENTIFY_LEN },
        DeviceType::Unknown => ProbeCommand::Nothing,
    }
}

/// Whether identify data of a drive of the given protocol announces a way to
/// erase by firmware. A drive of unknown protocol announces nothing.
pub open spec fn announces_sanitize(devtype: DeviceType, data: Seq<u8>) -> bool {
    match devtype {
        DeviceType::Sata => ata_erase_supported(data),
        DeviceType::Nvme => nvme_sanitize_supported(data),
        DeviceType::Unknown => false,
    }
}

/// The result of a probe. For a drive of unknown protocol probing does
/// nothing and reports no support. Otherwise a device that could not be
/// opened and a rejected command are errors, and an answered command is
/// decoded.
pub open spec fn probe_result(devtype: DeviceType, reply: ProbeReply) -> Result<
    CapabilityReport,
    ProbeError,
> {
    if devtype == DeviceType::Unknown {
        Ok(CapabilityReport { firmware_sanitize: false })
    } else {
        match reply {
            ProbeReply::OpenFailed => Err(ProbeError::Io),
            ProbeReply::Sent { reply: CommandReply::Rejected { errno }, data } => Err(
                ProbeError::CommandRejected { errno },
            ),
            ProbeReply::Sent { reply: CommandReply::Accepted, data } => Ok(
                CapabilityReport { firmware_sanitize: announces_sanitize(devtype, data@) },
            ),
        }
    }
}

/// Whether a probe with this result found support.
pub open spec fn found_support(result: Result<CapabilityReport, ProbeError>) -> bool {
    result matches Ok(report) && report.firmware_sanitize
}

/// Evaluates the answer to the identify command of `dev` and records support
/// for erasing by firmware in `dev`. The flag is set where the answer
/// announces support and is otherwise left as it was; nothing else in `dev`
/// changes.
pub fn check_firmware_sanitize(dev: &mut Device, reply: &ProbeReply) -> (result: Result<
    CapabilityReport,
    ProbeError,
>)
    ensures
        result == probe_result(old(dev).devtype, *reply),
        final(dev).firmsan == (old(dev).firmsan || found_support(result)),
        *final(dev) == (Device { firmsan: final(dev).firmsan, ..*old(dev) }),
{
    match dev.devtype {
        DeviceType::Unknown => {
            return Ok(CapabilityReport { firmware_sanitize: false });
        },
        _ => {},
    }
    match reply {
        ProbeReply::OpenFailed => Err(ProbeError::Io),
        ProbeReply::Sent { reply, data } => match reply {
            CommandReply::Rejected { errno } => Err(ProbeError::CommandRejected { errno: *errno }),
            CommandReply::Accepted => {
                let supported = match dev.devtype {
                    DeviceType::Sata => check_ata_secure_erase(data.as_slice()),
                    DeviceType::Nvme => check_nvme_sanitize(data.as_slice()),
                    DeviceType::Unknown => false,
                };
                if supported {
                    dev.firmsan = true;
                }
                Ok(CapabilityReport { firmware_sanitize: supported })
            },
        },
    }
}

} // verus!
