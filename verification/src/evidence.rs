//! The evidence record of one wipe attempt: what was done to which device,
//! when, and the log of the attempt.

use vstd::prelude::*;
use vstd::string::*;

verus! {

/// A point in time: whole seconds since the start of 1970 in UTC, and the
/// nanoseconds into that second.
#[derive(Debug, Clone, Copy, PartialEq, Eq, Structural)]
pub struct Timestamp {
    pub secs: i64,
    pub nanos: u32,
}

/// The certificate of one wipe attempt. It is opened when the attempt begins,
/// takes log lines while it is open, and is closed by `finish`, after which
/// it no longer changes.
#[derive(Debug, Clone)]
pub struct WipeEvidence {
    /// Version of the record's layout.
    pub version: String,
    pub certificate_id: String,
    /// The hashed identifier of the device, never its serial number.
    pub device_id: String,
    pub device_path: String,
    /// Which tier did the work.
    pub method: String,
    /// The declared assurance level.
    pub nist_level: String,
    pub timestamp_start: Timestamp,
    pub timestamp_end: Option<Timestamp>,
    pub pre_hash: Option<String>,
    pub post_hash: Option<String>,
    pub logs: Vec<String>,
}

/// A certificate as plain values.
pub struct EvidenceView {
    pub version: Seq<char>,
    pub certificate_id: Seq<char>,
    pub device_id: Seq<char>,
    pub device_path: Seq<char>,
    pub method: Seq<char>,
    pub nist_level: Seq<char>,
    pub timestamp_start: Timestamp,
    pub timestamp_end: Option<Timestamp>,
    pub pre_hash: Option<Seq<char>>,
    pub post_hash: Option<Seq<char>>,
    pub logs: Seq<Seq<char>>,
}

/// The characters of an optional string.
pub open spec fn text_of(s: Option<String>) -> Option<Seq<char>> {
    match s {
        Some(t) => Some(t@),
        None => None,
    }
}

/// The characters of each string of a list.
pub open spec fn lines_of(lines: Seq<String>) -> Seq<Seq<char>> {
    Seq::new(lines.len(), |i: int| lines[i]@)
}

impl View for WipeEvidence {
    type V = EvidenceView;

    open spec fn view(&self) -> EvidenceView {
        EvidenceView {
            version: self.version@,
            certificate_id: self.certificate_id@,
            device_id: self.device_id@,
            device_path: self.device_path@,
            method: self.method@,
            nist_level: self.nist_level@,
            timestamp_start: self.timestamp_start,
            timestamp_end: self.timestamp_end,
            pre_hash: text_of(self.pre_hash),
            post_hash: text_of(self.post_hash),
            logs: lines_of(self.logs@),
        }
    }
}

/// The layout version that new certificates carry: "1.0".
pub open spec fn layout_version() -> Seq<char> {
    seq!['1', '.', '0']
}

/// A certificate as it is when an attempt begins: open, without digests and
/// with an empty log.
pub open spec fn opened(
    certificate_id: Seq<char>,
    started: Timestamp,
    device_id: Seq<char>,
    device_path: Seq<char>,
    method: Seq<char>,
    nist_level: Seq<char>,
) -> EvidenceView {
    EvidenceView {
        version: layout_version(),
        certificate_id,
        device_id,
        device_path,
        method,
        nist_level,
        timestamp_start: started,
        timestamp_end: None,
        pre_hash: None,
        post_hash: None,
        logs: Seq::empty(),
    }
}

/// The certificate has been closed.
pub open spec fn finished(ev: EvidenceView) -> bool {
    ev.timestamp_end is Some
}

/// Closing a certificate at time `now`: an open one gets `now` as its time of
/// completion, a closed one stays as it is.
pub open spec fn finish_view(ev: EvidenceView, now: Timestamp) -> EvidenceView {
    if finished(ev) {
        ev
    } else {
        EvidenceView { timestamp_end: Some(now), ..ev }
    }
}

/// Appending a line to the log: an open certificate gets it as its last line,
/// a closed one stays as it is.
pub open spec fn append_view(ev: EvidenceView, line: Seq<char>) -> EvidenceView {
    if finished(ev) {
        ev
    } else {
        EvidenceView { logs: ev.logs.push(line), ..ev }
    }
}

/// The current time as `chrono::Utc::now` gives it, in seconds and
/// nanoseconds since the start of 1970. Trusted: the seconds are not negative
/// and the nanoseconds are below one second; the call stops the program where
/// the system clock stands before 1970. Nothing else is claimed: the result is
/// the clock's.
#[verifier::external_body]
fn utc_now() -> (now: Timestamp)
    ensures
        now.secs >= 0,
        now.nanos < 1_000_000_000,
{
    let now = chrono::Utc::now();
    Timestamp { secs: now.timestamp(), nanos: now.timestamp_subsec_nanos() }
}

/// The text of a version 4 identifier of `uuid`.
pub open spec fn is_uuid_text(id: Seq<char>) -> bool {
    &&& id.len() == 36
    &&& id[8] == '-'
    &&& id[13] == '-'
    &&& id[18] == '-'
    &&& id[23] == '-'
    &&& id[14] == '4'
}

/// A fresh random identifier, made by `uuid::Uuid::new_v4` and written in its
/// hyphenated form. Trusted: the text has 36 characters, hyphens after the
/// groups of 8, 4, 4 and 4 digits, and the version digit 4. Which identifier
/// comes is chance.
#[verifier::external_body]
fn new_certificate_id() -> (id: String)
    ensures
        is_uuid_text(id@),
{
    uuid::Uuid::new_v4().to_string()
}

impl WipeEvidence {
    /// Opens a certificate with the given identifier and start time.
    pub fn new_at(
        certificate_id: String,
        started: Timestamp,
        device_id: &str,
        device_path: &str,
        method: &str,
        nist_level: &str,
    ) -> (ev: WipeEvidence)
        ensures
            ev@ == opened(
                certificate_id@,
                started,
                device_id@,
                device_path@,
                method@,
                nist_level@,
            ),
    {
        proof {
            reveal_strlit("1.0");
            assert("1.0"@ =~= layout_version());
        }
        let ev = WipeEvidence {
            version: "1.0".to_owned(),
            certificate_id,
            device_id: device_id.to_owned(),
            device_path: device_path.to_owned(),
            method: method.to_owned(),
            nist_level: nist_level.to_owned(),
            timestamp_start: started,
            timestamp_end: None,
            pre_hash: None,
            post_hash: None,
            logs: Vec::new(),
        };
        assert(ev@.logs =~= Seq::<Seq<char>>::empty());
        ev
    }

    /// Opens a certificate for a wipe attempt that begins now, under a fresh
    /// identifier.
    pub fn new(device_id: &str, device_path: &str, method: &str, nist_level: &str) -> (ev:
        WipeEvidence)
        ensures
            ev@ == opened(
                ev@.certificate_id,
                ev@.timestamp_start,
                device_id@,
                device_path@,
                method@,
                nist_level@,
            ),
            is_uuid_text(ev@.certificate_id),
            ev@.timestamp_start.secs >= 0,
            ev@.timestamp_start.nanos < 1_000_000_000,
    {
        let certificate_id = new_certificate_id();
        let started = utc_now();
        WipeEvidence::new_at(certificate_id, started, device_id, device_path, method, nist_level)
    }

    /// Whether the certificate has been closed.
    pub fn is_finished(&self) -> (closed: bool)
        ensures
            closed == finished(self@),
    {
        self.timestamp_end.is_some()
    }

    /// Closes the certificate at time `now`. A certificate that is closed
    /// already keeps its time of completion: the call then changes nothing
    /// and returns `false`.
    pub fn finish_at(&mut self, now: Timestamp) -> (stamped: bool)
        ensures
            final(self)@ == finish_view(old(self)@, now),
            stamped == !finished(old(self)@),
    {
        if self.timestamp_end.is_some() {
            false
        } else {
            self.timestamp_end = Some(now);
            true
        }
    }

    /// Closes the certificate now. A certificate that is closed already stays
    /// as it is.
    pub fn finish(&mut self)
        ensures
            finished(final(self)@),
            exists|now: Timestamp|
                now.secs >= 0 && now.nanos < 1_000_000_000 && final(self)@ == #[trigger] finish_view(
                    old(self)@,
                    now,
                ),
    {
        let now = utc_now();
        let ghost before = self@;
        self.finish_at(now);
        assert(self@ == finish_view(before, now));
    }

    /// Appends a line to the log of an open certificate. A closed certificate
    /// takes no more lines: the call then changes nothing and returns
    /// `false`.
    pub fn append_log(&mut self, line: &str) -> (appended: bool)
        ensures
            final(self)@ == append_view(old(self)@, line@),
            appended == !finished(old(self)@),
    {
        if self.timestamp_end.is_some() {
            false
        } else {
            self.logs.push(line.to_owned());
            assert(self@.logs =~= old(self)@.logs.push(line@));
            true
        }
    }
}

/// Appending the lines of `lines` in turn.
pub open spec fn append_all(ev: EvidenceView, lines: Seq<Seq<char>>) -> EvidenceView
    decreases lines.len(),
{
    if lines.len() == 0 {
        ev
    } else {
        append_view(append_all(ev, lines.drop_last()), lines.last())
    }
}

/// A certificate that has just been opened has no time of completion and an
/// empty log.
pub proof fn lemma_opened_is_open(
    certificate_id: Seq<char>,
    started: Timestamp,
    device_id: Seq<char>,
    device_path: Seq<char>,
    method: Seq<char>,
    nist_level: Seq<char>,
)
    ensures
        !finished(opened(certificate_id, started, device_id, device_path, method, nist_level)),
        opened(certificate_id, started, device_id, device_path, method, nist_level).logs.len()
            == 0,
{
}

/// The time of completion is set by the first `finish` and by no later one:
/// after it the certificate is closed, an open certificate carries the time
/// of that call, and a second call changes nothing.
pub proof fn lemma_finish_stamps_once(ev: EvidenceView, first: Timestamp, second: Timestamp)
    ensures
        finished(finish_view(ev, first)),
        !finished(ev) ==> finish_view(ev, first).timestamp_end == Some(first),
        finish_view(finish_view(ev, first), second) == finish_view(ev, first),
{
}

/// Appending to an open certificate changes its log and nothing else, and
/// leaves it open.
pub proof fn lemma_append_all_open(ev: EvidenceView, lines: Seq<Seq<char>>)
    requires
        !finished(ev),
    ensures
        append_all(ev, lines) == (EvidenceView { logs: ev.logs + lines, ..ev }),
    decreases lines.len(),
{
    if lines.len() == 0 {
        assert(ev.logs + lines =~= ev.logs);
    } else {
        lemma_append_all_open(ev, lines.drop_last());
        assert((ev.logs + lines.drop_last()).push(lines.last()) =~= ev.logs + lines);
    }
}

/// The lines that were appended to an open certificate before it was closed
/// all stand in the closed certificate, in the order in which they came and
/// after the lines that were there before; a closed certificate takes no
/// further line.
pub proof fn lemma_log_lines_kept_in_order(
    ev: EvidenceView,
    lines: Seq<Seq<char>>,
    now: Timestamp,
    late: Seq<char>,
)
    requires
        !finished(ev),
    ensures
        finish_view(append_all(ev, lines), now).logs == ev.logs + lines,
        finish_view(append_all(ev, lines), now).timestamp_end == Some(now),
        append_view(finish_view(append_all(ev, lines), now), late) == finish_view(
            append_all(ev, lines),
            now,
        ),
{
    lemma_append_all_open(ev, lines);
}

} // verus!
