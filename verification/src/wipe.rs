//! The tiered wipe engine: firmware sanitize first, then cryptographic purge,
//! then a full software overwrite. A tier is never tried twice; the engine
//! stops at the first tier that succeeds, and fails where the overwrite fails
//! or the device cannot be opened.

use crate::bytes::CommandReply;
use crate::device::{Device, DeviceType};
use crate::evidence::{append_all, append_view, EvidenceView, WipeEvidence};
use crate::nvme::{nvme_ctrl_path, nvme_ctrl_path_of};
use crate::text::concat;
use crate::overwrite::OverwriteError;
use crate::poll::PollError;
use vstd::prelude::*;
use vstd::string::*;

verus! {

/// Where a wipe attempt stands.
#[derive(Debug, Clone, Copy, PartialEq, Eq, Structural)]
pub enum WipeState {
    /// Nothing has been tried yet.
    Start,
    /// The firmware sanitize tier is to be run.
    TryFirmwareSanitize,
    /// The cryptographic purge tier is to be run.
    TryCryptoPurge,
    /// The software overwrite tier is to be run.
    SoftwareOverwrite,
    /// A tier has succeeded: the attempt is over.
    Succeeded,
    /// The software overwrite has failed or the device could not be opened:
    /// the attempt is over.
    Failed,
}

/// What the tier that was run reported.
#[derive(Debug, Clone, Copy, PartialEq, Eq, Structural)]
pub enum TierOutcome {
    /// The tier did its work.
    Success,
    /// The device was reached and the tier did not do its work: a command was
    /// rejected, the sanitize operation failed or timed out, a write failed.
    Failure,
    /// The device could not be opened: no tier can reach it.
    NoAccess,
}

/// The command sequence by which a hardware tier is run.
#[derive(Debug, Clone, Copy, PartialEq, Eq, Structural)]
pub enum TierDriver {
    /// The drive's protocol offers none.
    Nothing,
    /// SECURITY SET PASSWORD and SECURITY ERASE UNIT with the whole password.
    AtaSecureErase,
    /// The same two commands with the password cut to the ATA password field.
    AtaCryptoPurge,
    /// Sanitize with the crypto erase action, then polling of its status.
    NvmeCryptoPurge,
}

/// How the cryptographic purge tier is run and judged for a drive.
#[derive(Debug, Clone, Copy, PartialEq, Eq, Structural)]
pub struct CryptoPurge {
    pub driver: TierDriver,
    /// Whether the tier counts as successful once its driver has run. For
    /// NVMe it always does; for ATA it never does, so that the overwrite
    /// always follows.
    pub confirmed: bool,
}

/// The state is one in which a tier is to be run.
pub open spec fn is_tier(state: WipeState) -> bool {
    state == WipeState::TryFirmwareSanitize || state == WipeState::TryCryptoPurge || state
        == WipeState::SoftwareOverwrite
}

/// The state is one in which the attempt is over.
pub open spec fn is_terminal(state: WipeState) -> bool {
    state == WipeState::Succeeded || state == WipeState::Failed
}

/// The tier with which an attempt begins: the overwrite for a drive of
/// unknown protocol, else firmware sanitize where the drive is known to
/// support it, else the cryptographic purge.
pub open spec fn first_tier(devtype: DeviceType, firmsan: bool) -> WipeState {
    if devtype == DeviceType::Unknown {
        WipeState::SoftwareOverwrite
    } else if firmsan {
        WipeState::TryFirmwareSanitize
    } else {
        WipeState::TryCryptoPurge
    }
}

/// The tier that follows a failed firmware sanitize.
pub open spec fn after_failed_firmware(devtype: DeviceType) -> WipeState {
    if devtype == DeviceType::Unknown {
        WipeState::SoftwareOverwrite
    } else {
        WipeState::TryCryptoPurge
    }
}

/// Whether the cryptographic purge counts as successful for a protocol.
pub open spec fn purge_confirmed(devtype: DeviceType) -> bool {
    devtype == DeviceType::Nvme
}

/// The state that follows `state` when the tier that `state` names has
/// reported `outcome`. A device that could not be opened ends the attempt as
/// failed, whichever tier found it so. At `Start` and in a state in which the
/// attempt is over the outcome plays no part.
pub open spec fn next_state(
    state: WipeState,
    devtype: DeviceType,
    firmsan: bool,
    outcome: TierOutcome,
) -> WipeState {
    match state {
        WipeState::Start => first_tier(devtype, firmsan),
        WipeState::TryFirmwareSanitize => if outcome == TierOutcome::Success {
            WipeState::Succeeded
        } else if outcome == TierOutcome::NoAccess {
            WipeState::Failed
        } else {
            after_failed_firmware(devtype)
        },
        WipeState::TryCryptoPurge => if outcome == TierOutcome::NoAccess {
            WipeState::Failed
        } else if purge_confirmed(devtype) {
            WipeState::Succeeded
        } else {
            WipeState::SoftwareOverwrite
        },
        WipeState::SoftwareOverwrite => if outcome == TierOutcome::Success {
            WipeState::Succeeded
        } else {
            WipeState::Failed
        },
        WipeState::Succeeded => WipeState::Succeeded,
        WipeState::Failed => WipeState::Failed,
    }
}

/// The log line for the outcome of the tier that `state` names.
pub open spec fn outcome_line(
    state: WipeState,
    devtype: DeviceType,
    outcome: TierOutcome,
    path: Seq<char>,
) -> Seq<char> {
    let ok = outcome == TierOutcome::Success;
    if outcome == TierOutcome::NoAccess {
        if is_tier(state) {
            "Cannot open "@ + path + "; the attempt is abandoned."@
        } else {
            Seq::empty()
        }
    } else {
        tier_line(state, devtype, ok, path)
    }
}

/// The log line for a tier that reached the device and then did its work
/// (`ok`) or did not.
pub open spec fn tier_line(state: WipeState, devtype: DeviceType, ok: bool, path: Seq<char>) -> Seq<
    char,
> {
    match state {
        WipeState::TryFirmwareSanitize => if ok {
            "Firmware sanitize completed on "@ + path
        } else {
            "Firmware sanitize failed on "@ + path + ". Falling back."@
        },
        WipeState::TryCryptoPurge => match devtype {
            DeviceType::Nvme => if ok {
                "Crypto purge completed on "@ + path
            } else {
                "NVMe purge failed on "@ + path + "; crypto purge is reported as completed."@
            },
            DeviceType::Sata => if ok {
                "ATA secure erase triggered on "@ + path + "; not confirmed. Falling back."@
            } else {
                "ATA purge failed on "@ + path + ". Falling back."@
            },
            DeviceType::Unknown => "Crypto purge is not available on "@ + path
                + ". Falling back."@,
        },
        WipeState::SoftwareOverwrite => if ok {
            "Software overwrite completed on "@ + path
        } else {
            "Software overwrite failed on "@ + path
        },
        _ => Seq::empty(),
    }
}

/// The log line for entering the tier that `state` names.
pub open spec fn entry_line(state: WipeState, devtype: DeviceType, path: Seq<char>) -> Seq<char> {
    match state {
        WipeState::TryFirmwareSanitize => "Attempting firmware sanitize on "@ + path,
        WipeState::TryCryptoPurge => if devtype == DeviceType::Nvme {
            "Attempting NVMe crypto erase on "@ + path
        } else {
            "Attempting ATA crypto purge on "@ + path
        },
        WipeState::SoftwareOverwrite => "Starting software overwrite on "@ + path,
        _ => Seq::empty(),
    }
}

/// The lines that one step writes to the log: the outcome of the tier that
/// was run, if one was, and then the tier that is entered, if one is.
pub open spec fn step_lines(
    state: WipeState,
    devtype: DeviceType,
    firmsan: bool,
    outcome: TierOutcome,
    path: Seq<char>,
) -> Seq<Seq<char>> {
    let next = next_state(state, devtype, firmsan, outcome);
    let reported = if is_tier(state) {
        seq![outcome_line(state, devtype, outcome, path)]
    } else {
        Seq::empty()
    };
    let entered = if is_tier(next) {
        seq![entry_line(next, devtype, path)]
    } else {
        Seq::empty()
    };
    reported + entered
}

/// The password that the ATA tiers set before they erase.
pub fn erase_password() -> (password: &'static str)
    ensures
        password@ == "ERASEPWD"@,
{
    "ERASEPWD"
}

/// The outcome of an ATA tier whose driver has finished with `outcome`.
pub fn ata_tier_outcome(outcome: CommandReply) -> (tier: TierOutcome)
    ensures
        tier == (if outcome == CommandReply::Accepted {
            TierOutcome::Success
        } else {
            TierOutcome::Failure
        }),
{
    match outcome {
        CommandReply::Accepted => TierOutcome::Success,
        CommandReply::Rejected { errno } => TierOutcome::Failure,
    }
}

/// The outcome of an NVMe tier whose driver has finished with `result`.
pub fn nvme_tier_outcome(result: Result<(), PollError>) -> (tier: TierOutcome)
    ensures
        tier == (if result is Ok {
            TierOutcome::Success
        } else {
            TierOutcome::Failure
        }),
{
    match result {
        Ok(_) => TierOutcome::Success,
        Err(_) => TierOutcome::Failure,
    }
}

/// The outcome of the overwrite tier whose driver has finished with `result`.
pub fn overwrite_tier_outcome(result: Result<(), OverwriteError>) -> (tier: TierOutcome)
    ensures
        tier == match result {
            Ok(_) => TierOutcome::Success,
            Err(OverwriteError::NoAccess { errno }) => TierOutcome::NoAccess,
            Err(_) => TierOutcome::Failure,
        },
{
    match result {
        Ok(_) => TierOutcome::Success,
        Err(OverwriteError::NoAccess { errno }) => TierOutcome::NoAccess,
        Err(_) => TierOutcome::Failure,
    }
}

/// The driver of the firmware sanitize tier for `dev`: the ATA secure erase
/// for an ATA drive, Sanitize with polling for an NVMe drive.
pub fn firmware_erase(dev: &Device) -> (driver: TierDriver)
    ensures
        driver == match dev.devtype {
            DeviceType::Sata => TierDriver::AtaSecureErase,
            DeviceType::Nvme => TierDriver::NvmeCryptoPurge,
            DeviceType::Unknown => TierDriver::Nothing,
        },
{
    match dev.devtype {
        DeviceType::Sata => TierDriver::AtaSecureErase,
        DeviceType::Nvme => TierDriver::NvmeCryptoPurge,
        DeviceType::Unknown => TierDriver::Nothing,
    }
}

/// The driver of the cryptographic purge tier for `dev`, and whether the tier
/// counts as successful once that driver has run.
pub fn try_crypto_purge(dev: &Device) -> (purge: CryptoPurge)
    ensures
        purge.confirmed == purge_confirmed(dev.devtype),
        purge.driver == match dev.devtype {
            DeviceType::Sata => TierDriver::AtaCryptoPurge,
            DeviceType::Nvme => TierDriver::NvmeCryptoPurge,
            DeviceType::Unknown => TierDriver::Nothing,
        },
{
    match dev.devtype {
        DeviceType::Nvme => CryptoPurge { driver: TierDriver::NvmeCryptoPurge, confirmed: true },
        DeviceType::Sata => CryptoPurge { driver: TierDriver::AtaCryptoPurge, confirmed: false },
        DeviceType::Unknown => CryptoPurge { driver: TierDriver::Nothing, confirmed: false },
    }
}

fn advance(state: WipeState, dev: &Device, outcome: TierOutcome) -> (next: WipeState)
    ensures
        next == next_state(state, dev.devtype, dev.firmsan, outcome),
{
    let ok = outcome == TierOutcome::Success;
    let denied = outcome == TierOutcome::NoAccess;
    let unknown = dev.devtype == DeviceType::Unknown;
    match state {
        WipeState::Start => {
            if unknown {
                WipeState::SoftwareOverwrite
            } else if dev.firmsan {
                WipeState::TryFirmwareSanitize
            } else {
                WipeState::TryCryptoPurge
            }
        },
        WipeState::TryFirmwareSanitize => {
            if ok {
                WipeState::Succeeded
            } else if denied {
                WipeState::Failed
            } else if unknown {
                WipeState::SoftwareOverwrite
            } else {
                WipeState::TryCryptoPurge
            }
        },
        WipeState::TryCryptoPurge => {
            if denied {
                WipeState::Failed
            } else if try_crypto_purge(dev).confirmed {
                WipeState::Succeeded
            } else {
                WipeState::SoftwareOverwrite
            }
        },
        WipeState::SoftwareOverwrite => {
            if ok {
                WipeState::Succeeded
            } else {
                WipeState::Failed
            }
        },
        WipeState::Succeeded => WipeState::Succeeded,
        WipeState::Failed => WipeState::Failed,
    }
}

fn line(before: &str, path: &str, after: &str) -> (text: String)
    ensures
        text@ == before@ + path@ + after@,
{
    let mut text = concat(before, path);
    text.append(after);
    text
}

fn outcome_text(state: WipeState, devtype: DeviceType, outcome: TierOutcome, path: &str) -> (text:
    String)
    requires
        is_tier(state),
    ensures
        text@ == outcome_line(state, devtype, outcome, path@),
{
    proof {
        reveal_strlit("");
        assert(forall|s: Seq<char>| s + ""@ =~= s);
    }
    let ok = outcome == TierOutcome::Success;
    if outcome == TierOutcome::NoAccess {
        return line("Cannot open ", path, "; the attempt is abandoned.");
    }
    match state {
        WipeState::TryFirmwareSanitize => {
            if ok {
                line("Firmware sanitize completed on ", path, "")
            } else {
                line("Firmware sanitize failed on ", path, ". Falling back.")
            }
        },
        WipeState::TryCryptoPurge => match devtype {
            DeviceType::Nvme => {
                if ok {
                    line("Crypto purge completed on ", path, "")
                } else {
                    line(
                        "NVMe purge failed on ",
                        path,
                        "; crypto purge is reported as completed.",
                    )
                }
            },
            DeviceType::Sata => {
                if ok {
                    line("ATA secure erase triggered on ", path, "; not confirmed. Falling back.")
                } else {
                    line("ATA purge failed on ", path, ". Falling back.")
                }
            },
            DeviceType::Unknown => line(
                "Crypto purge is not available on ",
                path,
                ". Falling back.",
            ),
        },
        _ => {
            if ok {
                line("Software overwrite completed on ", path, "")
            } else {
                line("Software overwrite failed on ", path, "")
            }
        },
    }
}

fn entry_text(state: WipeState, devtype: DeviceType, path: &str) -> (text: String)
    requires
        is_tier(state),
    ensures
        text@ == entry_line(state, devtype, path@),
{
    proof {
        reveal_strlit("");
        assert(forall|s: Seq<char>| s + ""@ =~= s);
    }
    match state {
        WipeState::TryFirmwareSanitize => line("Attempting firmware sanitize on ", path, ""),
        WipeState::TryCryptoPurge => {
            if devtype == DeviceType::Nvme {
                line("Attempting NVMe crypto erase on ", path, "")
            } else {
                line("Attempting ATA crypto purge on ", path, "")
            }
        },
        _ => line("Starting software overwrite on ", path, ""),
    }
}

fn tier_state(state: WipeState) -> (tier: bool)
    ensures
        tier == is_tier(state),
{
    match state {
        WipeState::TryFirmwareSanitize => true,
        WipeState::TryCryptoPurge => true,
        WipeState::SoftwareOverwrite => true,
        _ => false,
    }
}

proof fn lemma_append_one(ev: EvidenceView, only: Seq<char>)
    ensures
        append_all(ev, Seq::empty()) == ev,
        append_all(ev, seq![only]) == append_view(ev, only),
{
    assert(seq![only].drop_last() =~= Seq::<Seq<char>>::empty());
    reveal_with_fuel(append_all, 2);
}

proof fn lemma_append_two(ev: EvidenceView, first: Seq<char>, second: Seq<char>)
    ensures
        append_all(ev, seq![first, second]) == append_view(append_view(ev, first), second),
{
    lemma_append_one(ev, first);
    assert(seq![first, second].drop_last() =~= seq![first]);
}

/// Makes one step of the wipe attempt on `dev`. `state` is where the attempt
/// stands and `outcome` what the tier of that state has reported (at `Start`
/// and once the attempt is over it plays no part). The step writes the outcome
/// and the tier that is entered to the log of `evidence` and returns the new
/// state, whose tier the caller is to run next.
pub fn wipe_device(
    dev: &Device,
    state: WipeState,
    outcome: TierOutcome,
    evidence: &mut WipeEvidence,
) -> (next: WipeState)
    ensures
        next == next_state(state, dev.devtype, dev.firmsan, outcome),
        final(evidence)@ == append_all(
            old(evidence)@,
            step_lines(state, dev.devtype, dev.firmsan, outcome, dev.dev_path@),
        ),
{
    let next = advance(state, dev, outcome);
    let path = dev.dev_path.as_str();
    let ghost before = evidence@;
    let ghost reported = outcome_line(state, dev.devtype, outcome, path@);
    let ghost entered = entry_line(next, dev.devtype, path@);
    proof {
        lemma_append_one(before, reported);
        lemma_append_one(before, entered);
        lemma_append_two(before, reported, entered);
        assert(seq![reported] + seq![entered] =~= seq![reported, entered]);
        assert(seq![reported] + Seq::<Seq<char>>::empty() =~= seq![reported]);
        assert(Seq::<Seq<char>>::empty() + seq![entered] =~= seq![entered]);
        assert(Seq::<Seq<char>>::empty() + Seq::<Seq<char>>::empty() =~= Seq::<
            Seq<char>,
        >::empty());
    }
    if tier_state(state) {
        let text = outcome_text(state, dev.devtype, outcome, path);
        evidence.append_log(text.as_str());
    }
    if tier_state(next) {
        let text = entry_text(next, dev.devtype, path);
        evidence.append_log(text.as_str());
    }
    next
}

/// A drive of unknown protocol is never taken through a hardware tier: its
/// attempt begins with the software overwrite, whatever is recorded of its
/// capabilities, and from there only the end of the attempt follows.
pub proof fn lemma_unknown_skips_hardware_tiers(firmsan: bool, outcome: TierOutcome)
    ensures
        next_state(WipeState::Start, DeviceType::Unknown, firmsan, outcome)
            == WipeState::SoftwareOverwrite,
        is_terminal(
            next_state(WipeState::SoftwareOverwrite, DeviceType::Unknown, firmsan, outcome),
        ),
{
}

/// The position of a state in the fixed order of the attempt.
pub open spec fn rank(state: WipeState) -> int {
    match state {
        WipeState::Start => 0,
        WipeState::TryFirmwareSanitize => 1,
        WipeState::TryCryptoPurge => 2,
        WipeState::SoftwareOverwrite => 3,
        WipeState::Succeeded => 4,
        WipeState::Failed => 4,
    }
}

/// The tiers are taken in their fixed order and none is entered twice: every
/// step from a state in which the attempt is not over leads to a state later
/// in the order, and a state in which it is over is never left. Firmware
/// sanitize is entered only for a drive that is recorded to support it. The
/// attempt fails only where the software overwrite fails or the device cannot
/// be opened; that hardware tiers are missing or fail never fails it.
pub proof fn lemma_engine_order(
    state: WipeState,
    devtype: DeviceType,
    firmsan: bool,
    outcome: TierOutcome,
)
    ensures
        !is_terminal(state) ==> rank(next_state(state, devtype, firmsan, outcome)) > rank(state),
        is_terminal(state) ==> next_state(state, devtype, firmsan, outcome) == state,
        next_state(state, devtype, firmsan, outcome) == WipeState::TryFirmwareSanitize ==> firmsan,
        next_state(state, devtype, firmsan, outcome) == WipeState::Failed ==> state
            == WipeState::Failed || (state == WipeState::SoftwareOverwrite && outcome
            == TierOutcome::Failure) || (is_tier(state) && outcome == TierOutcome::NoAccess),
{
}

/// A device that cannot be opened is never reported as wiped: whichever tier
/// finds it so, the attempt ends there as failed, and no step on that report
/// leads to success from a state in which the attempt was not over.
pub proof fn lemma_no_access_aborts(state: WipeState, devtype: DeviceType, firmsan: bool)
    ensures
        is_tier(state) ==> next_state(state, devtype, firmsan, TierOutcome::NoAccess)
            == WipeState::Failed,
        next_state(state, devtype, firmsan, TierOutcome::NoAccess) == WipeState::Succeeded
            ==> state == WipeState::Succeeded,
{
}

/// The device that the driver of a hardware tier opens and sends its commands
/// to: the controller of the drive's namespace for the NVMe driver, the
/// drive's own path for every other.
pub fn tier_device_path(dev: &Device, driver: TierDriver) -> (path: String)
    ensures
        path@ == (if driver == TierDriver::NvmeCryptoPurge {
            nvme_ctrl_path_of(dev.dev_path@)
        } else {
            dev.dev_path@
        }),
{
    if driver == TierDriver::NvmeCryptoPurge {
        nvme_ctrl_path(dev.dev_path.as_str())
    } else {
        dev.dev_path.clone()
    }
}

} // verus!
