//! Waiting for an NVMe sanitize operation: the Sanitize Status log page is
//! fetched at a fixed interval until it reports completion or the caller's
//! timeout has passed.

use crate::bytes::{le16_at, read_le16, CommandReply};
use vstd::prelude::*;

verus! {

/// Seconds between two fetches of the log page.
pub const POLL_INTERVAL_SECS: u64 = 3;

/// The progress value that reports that no sanitize operation is running any
/// more.
pub const SANITIZE_PROGRESS_DONE: u16 = 0xFFFF;

/// The value of the low byte of the status field that reports a failed
/// sanitize operation.
pub const SANITIZE_STATUS_FAILED: u16 = 0x2;

/// Why waiting for the sanitize operation ended without success.
#[derive(Debug, Clone, Copy, PartialEq, Eq, Structural)]
pub enum PollError {
    /// The timeout passed before the log page reported completion.
    Timeout,
    /// The operation completed and the status field reports failure.
    SanitizeFailed { status: u16 },
    /// The controller or the kernel refused a command.
    CommandRejected { errno: i32 },
}

/// What the poller does after one fetch of the log page.
#[derive(Debug, Clone, Copy, PartialEq, Eq)]
pub enum PollStep {
    /// Polling is over, with this result.
    Finish(Result<(), PollError>),
    /// Sleep for `secs` seconds, then fetch the page again.
    Wait { secs: u64 },
}

/// The progress counter of a Sanitize Status log page: its first
/// little-endian 16-bit word.
pub open spec fn sanitize_progress(page: Seq<u8>) -> int {
    le16_at(page, 0)
}

/// The status field of a Sanitize Status log page: its second little-endian
/// 16-bit word.
pub open spec fn sanitize_status(page: Seq<u8>) -> int {
    le16_at(page, 2)
}

/// The page holds both fields and reports that the operation is over.
pub open spec fn reports_completion(page: Seq<u8>) -> bool {
    page.len() >= 4 && sanitize_progress(page) == 0xFFFF
}

/// The completed operation failed: the low byte of the status field is 2.
pub open spec fn reports_failure(page: Seq<u8>) -> bool {
    sanitize_status(page) % 256 == 2
}

/// The elapsed time, in nanoseconds, is beyond a timeout given in seconds.
pub open spec fn past_deadline(elapsed_nanos: int, timeout_secs: int) -> bool {
    elapsed_nanos > timeout_secs * 1_000_000_000
}

/// The decision after one fetch. A rejected fetch ends polling. A page that
/// reports completion ends it with the result that the status field gives,
/// whatever the time. Otherwise polling ends with a timeout once the elapsed
/// time is beyond it, and else goes on after one interval.
pub open spec fn poll_decision(
    reply: CommandReply,
    page: Seq<u8>,
    elapsed_nanos: int,
    timeout_secs: int,
) -> PollStep {
    match reply {
        CommandReply::Rejected { errno } => PollStep::Finish(
            Err(PollError::CommandRejected { errno }),
        ),
        CommandReply::Accepted => if reports_completion(page) {
            if reports_failure(page) {
                PollStep::Finish(
                    Err(PollError::SanitizeFailed { status: sanitize_status(page) as u16 }),
                )
            } else {
                PollStep::Finish(Ok(()))
            }
        } else if past_deadline(elapsed_nanos, timeout_secs) {
            PollStep::Finish(Err(PollError::Timeout))
        } else {
            PollStep::Wait { secs: 3 }
        },
    }
}

/// Decides what follows one fetch of the Sanitize Status log page. `page` is
/// the buffer that the fetch filled, `elapsed_nanos` the time since polling
/// began.
pub fn poll_step(reply: CommandReply, page: &[u8], elapsed_nanos: u128, timeout_secs: u64) -> (step:
    PollStep)
    ensures
        step == poll_decision(reply, page@, elapsed_nanos as int, timeout_secs as int),
{
    match reply {
        CommandReply::Rejected { errno } => {
            return PollStep::Finish(Err(PollError::CommandRejected { errno }));
        },
        CommandReply::Accepted => {},
    }
    if page.len() >= 4 {
        let progress: u16 = read_le16(page, 0);
        let status: u16 = read_le16(page, 2);
        if progress == SANITIZE_PROGRESS_DONE {
            assert(status & 0x0FF == status % 256) by (bit_vector);
            if (status & 0x0FF) == SANITIZE_STATUS_FAILED {
                return PollStep::Finish(Err(PollError::SanitizeFailed { status }));
            } else {
                return PollStep::Finish(Ok(()));
            }
        }
    }
    let deadline: u128 = (timeout_secs as u128) * 1_000_000_000;
    if elapsed_nanos > deadline {
        PollStep::Finish(Err(PollError::Timeout))
    } else {
        PollStep::Wait { secs: POLL_INTERVAL_SECS }
    }
}

/// The time, in nanoseconds, at which a poller that began at time zero makes
/// its fetch number `fetch` (counted from zero), when every wait lasts
/// exactly one interval.
pub open spec fn fetch_time_nanos(fetch: int) -> int {
    fetch * 3 * 1_000_000_000
}

/// How polling ends against a simulated controller that answers fetch number
/// `k` with `pages[k]`, from fetch number `from` on; `None` where the pages
/// run out before the poller has finished.
pub open spec fn poll_outcome(pages: Seq<Vec<u8>>, from: int, timeout_secs: int) -> Option<
    Result<(), PollError>,
>
    decreases pages.len() - from,
{
    if from < 0 || from >= pages.len() {
        None
    } else {
        match poll_decision(
            CommandReply::Accepted,
            pages[from]@,
            fetch_time_nanos(from),
            timeout_secs,
        ) {
            PollStep::Finish(result) => Some(result),
            PollStep::Wait { secs } => poll_outcome(pages, from + 1, timeout_secs),
        }
    }
}

/// Runs the poller against a simulated controller: fetch number `k` is
/// answered with `pages[k]`, and every wait lasts exactly one interval.
pub fn poll_simulated(pages: &Vec<Vec<u8>>, timeout_secs: u64) -> (outcome: Option<
    Result<(), PollError>,
>)
    ensures
        outcome == poll_outcome(pages@, 0, timeout_secs as int),
{
    let mut k: usize = 0;
    while k < pages.len()
        invariant
            k <= pages@.len(),
            poll_outcome(pages@, 0, timeout_secs as int) == poll_outcome(
                pages@,
                k as int,
                timeout_secs as int,
            ),
        decreases pages@.len() - k,
    {
        let elapsed: u128 = (k as u128) * 3_000_000_000;
        match poll_step(CommandReply::Accepted, pages[k].as_slice(), elapsed, timeout_secs) {
            PollStep::Finish(result) => {
                return Some(result);
            },
            PollStep::Wait { secs } => {},
        }
        k = k + 1;
    }
    None
}

/// The poller never asks for a wait other than one interval.
pub proof fn lemma_wait_is_one_interval(
    reply: CommandReply,
    page: Seq<u8>,
    elapsed_nanos: int,
    timeout_secs: int,
)
    ensures
        poll_decision(reply, page, elapsed_nanos, timeout_secs) matches PollStep::Wait { secs }
            ==> secs == POLL_INTERVAL_SECS,
{
}

/// Polling succeeds when a page reports completion with a status other than
/// failure, provided that no earlier page reported completion and the timeout
/// had not passed at any earlier fetch.
pub proof fn lemma_poll_succeeds(pages: Seq<Vec<u8>>, timeout_secs: int, done: int)
    requires
        0 <= done < pages.len(),
        reports_completion(pages[done]@),
        !reports_failure(pages[done]@),
        forall|k: int| 0 <= k < done ==> !reports_completion(#[trigger] pages[k]@),
        forall|k: int| 0 <= k < done ==> !past_deadline(#[trigger] fetch_time_nanos(k), timeout_secs),
    ensures
        poll_outcome(pages, 0, timeout_secs) == Some(Ok::<(), PollError>(())),
{
    lemma_poll_succeeds_from(pages, timeout_secs, done, 0);
}

proof fn lemma_poll_succeeds_from(pages: Seq<Vec<u8>>, timeout_secs: int, done: int, from: int)
    requires
        0 <= from <= done < pages.len(),
        reports_completion(pages[done]@),
        !reports_failure(pages[done]@),
        forall|k: int| 0 <= k < done ==> !reports_completion(#[trigger] pages[k]@),
        forall|k: int| 0 <= k < done ==> !past_deadline(#[trigger] fetch_time_nanos(k), timeout_secs),
    ensures
        poll_outcome(pages, from, timeout_secs) == Some(Ok::<(), PollError>(())),
    decreases done - from,
{
    if from < done {
        assert(!reports_completion(pages[from]@));
        assert(!past_deadline(fetch_time_nanos(from), timeout_secs));
        lemma_poll_succeeds_from(pages, timeout_secs, done, from + 1);
    }
}

/// Polling ends with a timeout when no page ever reports completion and the
/// controller is asked until after the deadline.
pub proof fn lemma_poll_times_out(pages: Seq<Vec<u8>>, timeout_secs: int)
    requires
        0 <= timeout_secs,
        forall|k: int| 0 <= k < pages.len() ==> !reports_completion(#[trigger] pages[k]@),
        past_deadline(fetch_time_nanos(pages.len() - 1), timeout_secs),
    ensures
        poll_outcome(pages, 0, timeout_secs) == Some(Err::<(), PollError>(PollError::Timeout)),
{
    lemma_poll_times_out_from(pages, timeout_secs, 0);
}

proof fn lemma_poll_times_out_from(pages: Seq<Vec<u8>>, timeout_secs: int, from: int)
    requires
        0 <= timeout_secs,
        0 <= from < pages.len(),
        forall|k: int| 0 <= k < pages.len() ==> !reports_completion(#[trigger] pages[k]@),
        past_deadline(fetch_time_nanos(pages.len() - 1), timeout_secs),
    ensures
        poll_outcome(pages, from, timeout_secs) == Some(Err::<(), PollError>(PollError::Timeout)),
    decreases pages.len() - from,
{
    assert(!reports_completion(pages[from]@));
    if !past_deadline(fetch_time_nanos(from), timeout_secs) {
        lemma_poll_times_out_from(pages, timeout_secs, from + 1);
    }
}

} // verus!
