//! ATA commands as the kernel's drive-command I/O control takes them, and the
//! decoding of IDENTIFY DEVICE.

use crate::bytes::{le16_at, read_le16, CommandReply};
use vstd::prelude::*;
use vstd::slice::slice_subrange;
use vstd::string::*;

verus! {

/// Request code of the drive-command I/O control.
pub const HDIO_DRIVE_CMD: u64 = 0x031f;

/// ATA command IDENTIFY DEVICE.
pub const ATA_IDENTIFY_DEVICE: u8 = 0xEC;

/// ATA command SECURITY SET PASSWORD.
pub const ATA_SECURITY_SET_PASSWORD: u8 = 0xF1;

/// ATA command SECURITY ERASE UNIT.
pub const ATA_SECURITY_ERASE_UNIT: u8 = 0xF4;

/// Bytes of header at the start of a drive-command block.
pub const ATA_HEADER_LEN: usize = 4;

/// Bytes of data that follow the header: one sector.
pub const ATA_SECTOR_LEN: usize = 512;

/// Bytes of a password that SECURITY SET PASSWORD carries.
pub const ATA_PASSWORD_LEN: usize = 32;

/// A drive-command block: four bytes of header, of which the first is the
/// command and the others are zero, then one sector that begins with
/// `payload` and is zero after it.
pub open spec fn drive_cmd_block(command: u8, payload: Seq<u8>) -> Seq<u8> {
    Seq::new(
        516,
        |i: int|
            if i == 0 {
                command
            } else if 4 <= i < 4 + payload.len() {
                payload[i - 4]
            } else {
                0u8
            },
    )
}

/// Builds the block for `command` with `payload` at the start of its sector.
pub fn new_drive_cmd_block(command: u8, payload: &[u8]) -> (block: Vec<u8>)
    requires
        payload@.len() <= 512,
    ensures
        block@ == drive_cmd_block(command, payload@),
{
    let mut block: Vec<u8> = vec![0u8; 516];
    block.set(0, command);
    let mut k: usize = 0;
    while k < payload.len()
        invariant
            payload@.len() <= 512,
            k <= payload@.len(),
            block@.len() == 516,
            block@[0] == command,
            forall|i: int| 4 <= i < 4 + k ==> block@[i] == payload@[i - 4],
            forall|i: int| (1 <= i < 4 || 4 + k <= i < 516) ==> block@[i] == 0,
        decreases payload@.len() - k,
    {
        block.set(ATA_HEADER_LEN + k, payload[k]);
        k = k + 1;
    }
    assert(block@ =~= drive_cmd_block(command, payload@));
    block
}

/// The block that asks a drive to identify itself. The drive's answer comes
/// back in the sector of the same block.
pub fn ata_identify_block() -> (block: Vec<u8>)
    ensures
        block@ == drive_cmd_block(0xEC, Seq::<u8>::empty()),
{
    let none: Vec<u8> = Vec::new();
    new_drive_cmd_block(ATA_IDENTIFY_DEVICE, none.as_slice())
}

/// Whether an IDENTIFY DEVICE sector announces a way to erase by firmware:
/// bit 1 of word 82 (Security feature set) or bit 13 of word 89 (Sanitize
/// Device) is set.
pub open spec fn ata_erase_supported(identify: Seq<u8>) -> bool {
    (le16_at(identify, 164) / 2) % 2 == 1 || (le16_at(identify, 178) / 8192) % 2 == 1
}

/// Decodes the erase capabilities of an IDENTIFY DEVICE sector, that is of the
/// 512 bytes that follow the header of the answered block.
pub fn check_ata_secure_erase(identify: &[u8]) -> (supported: bool)
    ensures
        supported == ata_erase_supported(identify@),
{
    let word82: u16 = read_le16(identify, 82 * 2);
    let word89: u16 = read_le16(identify, 89 * 2);
    assert(((word82 & (1u16 << 1)) != 0) == ((word82 / 2) % 2 == 1)) by (bit_vector);
    assert(((word89 & (1u16 << 13)) != 0) == ((word89 / 8192) % 2 == 1)) by (bit_vector);
    let security_supported = (word82 & (1u16 << 1)) != 0;
    let sanitize_supported = (word89 & (1u16 << 13)) != 0;
    security_supported || sanitize_supported
}

/// The two commands of an ATA erase, in the order in which they are sent.
#[derive(Debug, Clone, Copy, PartialEq, Eq, Structural)]
pub enum AtaCommand {
    SetPassword,
    EraseUnit,
}

/// What has just happened in an ATA erase.
#[derive(Debug, Clone, Copy, PartialEq, Eq, Structural)]
pub enum AtaEvent {
    /// The device has been opened; nothing has been sent yet.
    Started,
    /// The command `to` has been sent, with this reply.
    Replied { to: AtaCommand, reply: CommandReply },
}

/// What is to be done next in an ATA erase.
#[derive(Debug, Clone)]
pub enum AtaAction {
    /// Send `block` through the drive-command I/O control.
    Send { command: AtaCommand, block: Vec<u8> },
    /// The erase is over: both commands were accepted, or `outcome` is the
    /// first rejection. An accepted SECURITY ERASE UNIT means that the drive
    /// has taken the command, not that it has finished erasing.
    Finish { outcome: CommandReply },
}

/// An action with its block as a sequence of bytes.
pub enum AtaActionView {
    Send { command: AtaCommand, block: Seq<u8> },
    Finish { outcome: CommandReply },
}

impl View for AtaAction {
    type V = AtaActionView;

    open spec fn view(&self) -> AtaActionView {
        match *self {
            AtaAction::Send { command, block } => AtaActionView::Send { command, block: block@ },
            AtaAction::Finish { outcome } => AtaActionView::Finish { outcome },
        }
    }
}

/// The next action of an ATA erase with the password bytes `payload`:
/// SECURITY SET PASSWORD first, SECURITY ERASE UNIT once that is accepted;
/// the first rejection ends the erase, and so does the reply to the second
/// command.
pub open spec fn ata_erase_action(event: AtaEvent, payload: Seq<u8>) -> AtaActionView {
    match event {
        AtaEvent::Started => AtaActionView::Send {
            command: AtaCommand::SetPassword,
            block: drive_cmd_block(0xF1, payload),
        },
        AtaEvent::Replied { to: AtaCommand::SetPassword, reply: CommandReply::Accepted } =>
            AtaActionView::Send {
            command: AtaCommand::EraseUnit,
            block: drive_cmd_block(0xF4, Seq::<u8>::empty()),
        },
        AtaEvent::Replied { to, reply } => AtaActionView::Finish { outcome: reply },
    }
}

fn ata_erase_step(event: AtaEvent, payload: &[u8]) -> (action: AtaAction)
    requires
        payload@.len() <= 512,
    ensures
        action@ == ata_erase_action(event, payload@),
{
    match event {
        AtaEvent::Started => AtaAction::Send {
            command: AtaCommand::SetPassword,
            block: new_drive_cmd_block(ATA_SECURITY_SET_PASSWORD, payload),
        },
        AtaEvent::Replied { to, reply } => {
            if to == AtaCommand::SetPassword && reply == CommandReply::Accepted {
                let none: Vec<u8> = Vec::new();
                AtaAction::Send {
                    command: AtaCommand::EraseUnit,
                    block: new_drive_cmd_block(ATA_SECURITY_ERASE_UNIT, none.as_slice()),
                }
            } else {
                AtaAction::Finish { outcome: reply }
            }
        },
    }
}

/// Decides the next action of an ATA secure erase from what has just
/// happened. The whole password goes into the sector of SECURITY SET
/// PASSWORD, so it must fit there.
pub fn ata_secure_erase(event: AtaEvent, password: &str) -> (action: AtaAction)
    requires
        password.spec_bytes().len() <= 512,
    ensures
        action@ == ata_erase_action(event, password.spec_bytes()),
{
    ata_erase_step(event, password.as_bytes())
}

/// The first `limit` elements of `bytes`, or all of them where there are
/// fewer.
pub open spec fn first_bytes(bytes: Seq<u8>, limit: int) -> Seq<u8> {
    if bytes.len() <= limit {
        bytes
    } else {
        bytes.subrange(0, limit)
    }
}

/// Decides the next action of an ATA cryptographic purge from what has just
/// happened: the same two commands as a secure erase, with the password cut
/// to the 32 bytes of the ATA password field.
pub fn ata_crypto_purge(event: AtaEvent, password: &str) -> (action: AtaAction)
    ensures
        action@ == ata_erase_action(event, first_bytes(password.spec_bytes(), 32)),
{
    let bytes = password.as_bytes();
    if bytes.len() <= ATA_PASSWORD_LEN {
        ata_erase_step(event, bytes)
    } else {
        ata_erase_step(event, slice_subrange(bytes, 0, ATA_PASSWORD_LEN))
    }
}

} // verus!
