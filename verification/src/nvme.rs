//! NVMe admin commands as the kernel's pass-through interface takes them, and
//! the decoding of what the controller answers.

use crate::bytes::{le16_at, read_le16, CommandReply};
use crate::poll::{poll_decision, poll_step, PollError, PollStep};
use crate::text::{chars_of, has_prefix, starts_with};
use vstd::prelude::*;
use vstd::string::*;

verus! {

/// Request code of the NVMe admin pass-through I/O control.
pub const NVME_IOCTL_ADMIN_CMD: u64 = 0xC0484E41;

/// Admin opcode of Get Log Page.
pub const NVME_OPCODE_GET_LOG_PAGE: u8 = 0x02;

/// Admin opcode of Identify.
pub const NVME_OPCODE_IDENTIFY: u8 = 0x06;

/// Admin opcode of Sanitize.
pub const NVME_OPCODE_SANITIZE: u8 = 0x84;

/// The sanitize action code that is sent for a cryptographic erase.
pub const NVME_SANITIZE_CRYPTO_ERASE: u32 = 3;

/// Identifier of the Sanitize Status log page.
pub const NVME_LOG_SANITIZE_STATUS: u32 = 0x81;

/// Length in bytes of the Identify Controller data structure.
pub const NVME_IDENTIFY_LEN: u32 = 4096;

/// Length in bytes that is fetched of the Sanitize Status log page.
pub const NVME_SANITIZE_LOG_LEN: u32 = 512;

/// Namespace identifier that addresses the controller as a whole.
pub const NVME_NSID_ALL: u32 = 0xffff_ffff;

/// One admin command, field for field as the pass-through interface lays it
/// out.
#[allow(non_camel_case_types)]
#[derive(Debug, Clone, Copy)]
pub struct nvme_admin_cmd {
    pub opcode: u8,
    pub flags: u8,
    pub rsvd1: u16,
    pub nsid: u32,
    pub cdw2: u32,
    pub cdw3: u32,
    pub metadata: u64,
    pub addr: u64,
    pub metadata_len: u32,
    pub data_len: u32,
    pub cdw10: u32,
    pub cdw11: u32,
    pub cdw12: u32,
    pub cdw13: u32,
    pub cdw14: u32,
    pub cdw15: u32,
    pub timeout_ms: u32,
    pub result: u32,
}

/// A command with the given opcode, namespace, data buffer and tenth command
/// word, and zero in every other field.
pub open spec fn admin_cmd(opcode: u8, nsid: u32, addr: u64, data_len: u32, cdw10: u32)
    -> nvme_admin_cmd {
    nvme_admin_cmd {
        opcode,
        flags: 0,
        rsvd1: 0,
        nsid,
        cdw2: 0,
        cdw3: 0,
        metadata: 0,
        addr,
        metadata_len: 0,
        data_len,
        cdw10,
        cdw11: 0,
        cdw12: 0,
        cdw13: 0,
        cdw14: 0,
        cdw15: 0,
        timeout_ms: 0,
        result: 0,
    }
}

fn new_admin_cmd(opcode: u8, nsid: u32, addr: u64, data_len: u32, cdw10: u32) -> (cmd:
    nvme_admin_cmd)
    ensures
        cmd == admin_cmd(opcode, nsid, addr, data_len, cdw10),
{
    nvme_admin_cmd {
        opcode,
        flags: 0,
        rsvd1: 0,
        nsid,
        cdw2: 0,
        cdw3: 0,
        metadata: 0,
        addr,
        metadata_len: 0,
        data_len,
        cdw10,
        cdw11: 0,
        cdw12: 0,
        cdw13: 0,
        cdw14: 0,
        cdw15: 0,
        timeout_ms: 0,
        result: 0,
    }
}

/// Identify Controller: the controller writes its 4096-byte data structure to
/// the buffer at `addr`.
pub fn nvme_identify_controller(addr: u64) -> (cmd: nvme_admin_cmd)
    ensures
        cmd == admin_cmd(0x06, 0, addr, 4096, 1),
{
    new_admin_cmd(NVME_OPCODE_IDENTIFY, 0, addr, NVME_IDENTIFY_LEN, 1)
}

/// Sanitize with the given action code, addressed to the controller; no data
/// is transferred.
pub fn nvme_sanitize(action: u32) -> (cmd: nvme_admin_cmd)
    ensures
        cmd == admin_cmd(0x84, 0, 0, 0, action),
{
    new_admin_cmd(NVME_OPCODE_SANITIZE, 0, 0, 0, action)
}

/// The tenth command word of Get Log Page: the log identifier in the low byte,
/// and in the upper half the number of 32-bit words to transfer, minus one.
/// A buffer of less than one word asks for one word.
pub open spec fn log_page_cdw10(log_id: u32, data_len: u32) -> int {
    let numd = data_len as int / 4;
    if numd == 0 {
        log_id as int % 256
    } else {
        log_id as int % 256 + ((numd - 1) % 65536) * 65536
    }
}

/// Get Log Page for the log `log_id`, into the buffer of `data_len` bytes at
/// `addr`, addressed to the controller as a whole.
pub fn get_nvme_log_page(log_id: u32, addr: u64, data_len: u32) -> (cmd: nvme_admin_cmd)
    ensures
        cmd == admin_cmd(0x02, 0xffff_ffff, addr, data_len, cmd.cdw10),
        cmd.cdw10 == log_page_cdw10(log_id, data_len),
{
    let numd: u32 = data_len / 4;
    let low: u32 = log_id & 0xff;
    let cdw10: u32 = if numd == 0 {
        low
    } else {
        let count: u32 = numd - 1;
        assert(((log_id & 0xff) | (count << 16)) == (log_id % 256) + (count % 65536) * 65536)
            by (bit_vector);
        low | (count << 16)
    };
    assert(log_id & 0xff == log_id % 256) by (bit_vector);
    new_admin_cmd(NVME_OPCODE_GET_LOG_PAGE, NVME_NSID_ALL, addr, data_len, cdw10)
}

/// Byte offset of the Sanitize Capabilities field in the Identify Controller
/// data structure.
pub const NVME_SANICAP_OFFSET: usize = 536;

/// Whether an Identify Controller reply announces sanitize support: its
/// Sanitize Capabilities field is not zero.
pub open spec fn nvme_sanitize_supported(ctrl_data: Seq<u8>) -> bool {
    le16_at(ctrl_data, 536) != 0
}

/// Decodes the Sanitize Capabilities of an Identify Controller reply.
pub fn check_nvme_sanitize(ctrl_data: &[u8]) -> (supported: bool)
    ensures
        supported == nvme_sanitize_supported(ctrl_data@),
{
    read_le16(ctrl_data, NVME_SANICAP_OFFSET) != 0
}

/// An ASCII decimal digit.
pub open spec fn is_digit(c: char) -> bool {
    '0' <= c && c <= '9'
}

/// `path` ends in an `n` at position `pos` followed by decimal digits only
/// (possibly none): the namespace part of a name such as `nvme0n1`.
pub open spec fn namespace_suffix_at(path: Seq<char>, pos: int) -> bool {
    &&& 0 <= pos < path.len()
    &&& path[pos] == 'n'
    &&& forall|j: int| pos < j < path.len() ==> is_digit(#[trigger] path[j])
}

/// The text "/dev/nvme".
pub open spec fn nvme_dev_prefix() -> Seq<char> {
    seq!['/', 'd', 'e', 'v', '/', 'n', 'v', 'm', 'e']
}

/// The controller device of a namespace device path: a path that begins with
/// "/dev/nvme" loses its namespace part; any other path stays as it is.
pub open spec fn nvme_ctrl_path_of(path: Seq<char>) -> Seq<char> {
    if has_prefix(path, nvme_dev_prefix()) && exists|pos: int| namespace_suffix_at(path, pos) {
        path.subrange(0, choose|pos: int| namespace_suffix_at(path, pos))
    } else {
        path
    }
}

/// At most one position is the start of the namespace part.
pub proof fn lemma_namespace_suffix_unique(path: Seq<char>, a: int, b: int)
    requires
        namespace_suffix_at(path, a),
        namespace_suffix_at(path, b),
    ensures
        a == b,
{
    if a < b {
        assert(is_digit(path[b]));
    } else if b < a {
        assert(is_digit(path[a]));
    }
}

/// The path of the controller to which admin commands for the namespace
/// device `dev_path` are sent, for example "/dev/nvme0" for "/dev/nvme0n1".
pub fn nvme_ctrl_path(dev_path: &str) -> (ctrl: String)
    ensures
        ctrl@ == nvme_ctrl_path_of(dev_path@),
{
    proof {
        reveal_strlit("/dev/nvme");
        assert("/dev/nvme"@ =~= nvme_dev_prefix());
    }
    if !starts_with(dev_path, "/dev/nvme") {
        return dev_path.to_owned();
    }
    let chars = chars_of(dev_path);
    let mut i: usize = chars.len();
    while i > 0 && chars[i - 1] >= '0' && chars[i - 1] <= '9'
        invariant
            i <= chars@.len(),
            forall|j: int| i <= j < chars@.len() ==> is_digit(#[trigger] chars@[j]),
        decreases i,
    {
        i = i - 1;
    }
    if i > 0 && chars[i - 1] == 'n' {
        let pos: usize = i - 1;
        proof {
            assert(namespace_suffix_at(dev_path@, pos as int));
            let chosen = choose|p: int| namespace_suffix_at(dev_path@, p);
            lemma_namespace_suffix_unique(dev_path@, pos as int, chosen);
        }
        dev_path.substring_char(0, pos).to_owned()
    } else {
        proof {
            assert forall|p: int| !namespace_suffix_at(dev_path@, p) by {
                if namespace_suffix_at(dev_path@, p) {
                    if p < i - 1 {
                        assert(is_digit(dev_path@[i - 1]));
                    } else if p >= i {
                        assert(is_digit(dev_path@[p]));
                    }
                }
            }
        }
        dev_path.to_owned()
    }
}

/// What has just happened in a cryptographic purge of an NVMe drive.
#[derive(Debug, Clone)]
pub enum PurgeEvent {
    /// The controller device has been opened; nothing has been sent yet.
    Started,
    /// The Sanitize command has been sent, with this reply.
    SanitizeSent { reply: CommandReply },
    /// The Sanitize Status log page has been asked for, with this reply;
    /// `page` is the buffer of the fetch and `elapsed_nanos` the time since
    /// the Sanitize command was accepted.
    LogPageFetched { reply: CommandReply, page: Vec<u8>, elapsed_nanos: u128 },
    /// The sleep that was asked for is over.
    Slept,
}

/// What is to be done next in a cryptographic purge of an NVMe drive.
#[derive(Debug, Clone, Copy)]
pub enum PurgeAction {
    /// Send this command to the controller.
    SendSanitize { cmd: nvme_admin_cmd },
    /// Fetch `data_len` bytes of the log page `log_id`.
    FetchLogPage { log_id: u32, data_len: u32 },
    /// Sleep for `secs` seconds.
    Sleep { secs: u64 },
    /// The purge is over, with this result.
    Finish(Result<(), PollError>),
}

/// The next action of the purge. It begins with Sanitize, action crypto
/// erase. A rejected Sanitize ends it; an accepted one is followed by fetches
/// of the Sanitize Status log page, with a sleep of one interval between two
/// of them, until the poller decides that it is over.
pub open spec fn purge_action(event: PurgeEvent, timeout_secs: int) -> PurgeAction {
    match event {
        PurgeEvent::Started => PurgeAction::SendSanitize { cmd: admin_cmd(0x84, 0, 0, 0, 3) },
        PurgeEvent::SanitizeSent { reply: CommandReply::Rejected { errno } } => PurgeAction::Finish(
            Err(PollError::CommandRejected { errno }),
        ),
        PurgeEvent::SanitizeSent { reply: CommandReply::Accepted } => PurgeAction::FetchLogPage {
            log_id: 0x81,
            data_len: 512,
        },
        PurgeEvent::LogPageFetched { reply, page, elapsed_nanos } => match poll_decision(
            reply,
            page@,
            elapsed_nanos as int,
            timeout_secs,
        ) {
            PollStep::Finish(result) => PurgeAction::Finish(result),
            PollStep::Wait { secs } => PurgeAction::Sleep { secs },
        },
        PurgeEvent::Slept => PurgeAction::FetchLogPage { log_id: 0x81, data_len: 512 },
    }
}

/// Decides the next action of a cryptographic purge of an NVMe drive from what
/// has just happened. The caller performs the action and reports back.
pub fn nvme_crypto_purge(event: &PurgeEvent, timeout_secs: u64) -> (action: PurgeAction)
    ensures
        action == purge_action(*event, timeout_secs as int),
{
    match event {
        PurgeEvent::Started => PurgeAction::SendSanitize {
            cmd: nvme_sanitize(NVME_SANITIZE_CRYPTO_ERASE),
        },
        PurgeEvent::SanitizeSent { reply } => match reply {
            CommandReply::Rejected { errno } => PurgeAction::Finish(
                Err(PollError::CommandRejected { errno: *errno }),
            ),
            CommandReply::Accepted => PurgeAction::FetchLogPage {
                log_id: NVME_LOG_SANITIZE_STATUS,
                data_len: NVME_SANITIZE_LOG_LEN,
            },
        },
        PurgeEvent::LogPageFetched { reply, page, elapsed_nanos } => {
            match poll_step(*reply, page.as_slice(), *elapsed_nanos, timeout_secs) {
                PollStep::Finish(result) => PurgeAction::Finish(result),
                PollStep::Wait { secs } => PurgeAction::Sleep { secs },
            }
        },
        PurgeEvent::Slept => PurgeAction::FetchLogPage {
            log_id: NVME_LOG_SANITIZE_STATUS,
            data_len: NVME_SANITIZE_LOG_LEN,
        },
    }
}

} // verus!
