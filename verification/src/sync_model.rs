//! The sync qualification run: the request it accepts, and the snapshot of its
//! progress that every step updates, up to its one terminal outcome.

use vstd::prelude::*;

use crate::text::{contains_seq, contains_text, decimal_value, is_ascii_digit, same_text};

verus! {

/// The version of the run snapshot.
pub const QUALIFICATION_SNAPSHOT_VERSION: u32 = 1;

/// The version of the qualification request.
pub const QUALIFICATION_REQUEST_VERSION: u32 = 1;

pub const MIN_TIMEOUT_MS: u64 = 100;

pub const MAX_TIMEOUT_MS: u64 = 120000;

pub const MAX_ENDPOINT_BYTES: usize = 2048;

pub const MAX_TOKEN_BYTES: usize = 4096;

pub const MAX_CA_BYTES: usize = 65536;

#[derive(Debug, Clone, Copy, PartialEq, Eq, Structural)]
pub enum QualificationRunState {
    Created,
    Running,
    Cancelling,
    Completed,
    Failed,
    Cancelled,
}

impl QualificationRunState {
    pub open spec fn terminal(self) -> bool {
        self is Completed || self is Failed || self is Cancelled
    }

    pub fn is_terminal(self) -> (r: bool)
        ensures
            r == self.terminal(),
    {
        matches!(
            self,
            QualificationRunState::Completed | QualificationRunState::Failed | QualificationRunState::Cancelled
        )
    }

    /// The number that reports the state.
    pub open spec fn number_spec(self) -> u32 {
        match self {
            QualificationRunState::Created => 1,
            QualificationRunState::Running => 2,
            QualificationRunState::Cancelling => 3,
            QualificationRunState::Completed => 4,
            QualificationRunState::Failed => 5,
            QualificationRunState::Cancelled => 6,
        }
    }

    /// The number that reports the state.
    pub fn number(self) -> (r: u32)
        ensures
            r == self.number_spec(),
            1 <= r <= 6,
    {
        match self {
            QualificationRunState::Created => 1,
            QualificationRunState::Running => 2,
            QualificationRunState::Cancelling => 3,
            QualificationRunState::Completed => 4,
            QualificationRunState::Failed => 5,
            QualificationRunState::Cancelled => 6,
        }
    }
}

#[derive(Debug, Clone, Copy, PartialEq, Eq, Structural)]
pub enum QualificationPhase {
    Created,
    ValidateRequest,
    PrepareWorkspace,
    CreateDomain,
    AuthorizeSecondDevice,
    ClientAFirstSync,
    PrepareConflict,
    ClientBMerge,
    ClientAConflictRecovery,
    VerifyConvergence,
    Cleanup,
    Complete,
}

impl QualificationPhase {
    /// The number that reports the phase.
    pub open spec fn number_spec(self) -> u32 {
        match self {
            QualificationPhase::Created => 1,
            QualificationPhase::ValidateRequest => 2,
            QualificationPhase::PrepareWorkspace => 3,
            QualificationPhase::CreateDomain => 4,
            QualificationPhase::AuthorizeSecondDevice => 5,
            QualificationPhase::ClientAFirstSync => 6,
            QualificationPhase::PrepareConflict => 7,
            QualificationPhase::ClientBMerge => 8,
            QualificationPhase::ClientAConflictRecovery => 9,
            QualificationPhase::VerifyConvergence => 10,
            QualificationPhase::Cleanup => 11,
            QualificationPhase::Complete => 12,
        }
    }

    /// The number that reports the phase.
    pub fn number(self) -> (r: u32)
        ensures
            r == self.number_spec(),
            1 <= r <= 12,
    {
        match self {
            QualificationPhase::Created => 1,
            QualificationPhase::ValidateRequest => 2,
            QualificationPhase::PrepareWorkspace => 3,
            QualificationPhase::CreateDomain => 4,
            QualificationPhase::AuthorizeSecondDevice => 5,
            QualificationPhase::ClientAFirstSync => 6,
            QualificationPhase::PrepareConflict => 7,
            QualificationPhase::ClientBMerge => 8,
            QualificationPhase::ClientAConflictRecovery => 9,
            QualificationPhase::VerifyConvergence => 10,
            QualificationPhase::Cleanup => 11,
            QualificationPhase::Complete => 12,
        }
    }
}

#[derive(Debug, Clone, Copy, PartialEq, Eq, Structural)]
pub enum QualificationErrorCode {
    NoError,
    InvalidRequest,
    AlreadyRunning,
    Unauthenticated,
    TlsRejected,
    TransportTimeout,
    ServerUnavailable,
    ProtocolRejected,
    CryptoRejected,
    LocalStorageFailed,
    ConflictNotObserved,
    ConvergenceFailed,
    Cancelled,
    Internal,
}

impl QualificationErrorCode {
    /// The number that reports the code.
    pub open spec fn number_spec(self) -> u32 {
        match self {
            QualificationErrorCode::NoError => 0,
            QualificationErrorCode::InvalidRequest => 1,
            QualificationErrorCode::AlreadyRunning => 2,
            QualificationErrorCode::Unauthenticated => 3,
            QualificationErrorCode::TlsRejected => 4,
            QualificationErrorCode::TransportTimeout => 5,
            QualificationErrorCode::ServerUnavailable => 6,
            QualificationErrorCode::ProtocolRejected => 7,
            QualificationErrorCode::CryptoRejected => 8,
            QualificationErrorCode::LocalStorageFailed => 9,
            QualificationErrorCode::ConflictNotObserved => 10,
            QualificationErrorCode::ConvergenceFailed => 11,
            QualificationErrorCode::Cancelled => 12,
            QualificationErrorCode::Internal => 255,
        }
    }

    /// The number that reports the code.
    pub fn number(self) -> (r: u32)
        ensures
            r == self.number_spec(),
            self is NoError <==> r == 0,
            self is Internal <==> r == 255,
    {
        match self {
            QualificationErrorCode::NoError => 0,
            QualificationErrorCode::InvalidRequest => 1,
            QualificationErrorCode::AlreadyRunning => 2,
            QualificationErrorCode::Unauthenticated => 3,
            QualificationErrorCode::TlsRejected => 4,
            QualificationErrorCode::TransportTimeout => 5,
            QualificationErrorCode::ServerUnavailable => 6,
            QualificationErrorCode::ProtocolRejected => 7,
            QualificationErrorCode::CryptoRejected => 8,
            QualificationErrorCode::LocalStorageFailed => 9,
            QualificationErrorCode::ConflictNotObserved => 10,
            QualificationErrorCode::ConvergenceFailed => 11,
            QualificationErrorCode::Cancelled => 12,
            QualificationErrorCode::Internal => 255,
        }
    }
}

/// Why a qualification run failed, where, and whether a retry may succeed.
#[derive(Debug, Clone, Copy, PartialEq, Eq, Structural)]
pub struct QualificationError {
    pub code: QualificationErrorCode,
    pub phase: QualificationPhase,
    pub retryable: bool,
}

impl QualificationError {
    pub fn new(code: QualificationErrorCode, phase: QualificationPhase, retryable: bool) -> (r: Self)
        ensures
            r == (QualificationError { code, phase, retryable }),
    {
        QualificationError { code, phase, retryable }
    }

    /// A refused request, found while validating it.
    pub fn invalid_request() -> (r: Self)
        ensures
            r == (QualificationError {
                code: QualificationErrorCode::InvalidRequest,
                phase: QualificationPhase::ValidateRequest,
                retryable: false,
            }),
    {
        QualificationError::new(QualificationErrorCode::InvalidRequest, QualificationPhase::ValidateRequest, false)
    }

    /// The run was cancelled in `phase`.
    pub fn cancelled(phase: QualificationPhase) -> (r: Self)
        ensures
            r == (QualificationError { code: QualificationErrorCode::Cancelled, phase, retryable: false }),
    {
        QualificationError::new(QualificationErrorCode::Cancelled, phase, false)
    }
}

/// The counters one sync cycle reports.
#[derive(Debug, Clone, Copy, PartialEq, Eq, Structural)]
pub struct SyncCycleCounts {
    pub discovered: usize,
    pub downloaded: usize,
    pub applied: usize,
    pub uploaded: usize,
    pub conflicts: usize,
    pub retries: usize,
}

/// The progress of a qualification run as its observers see it.
#[derive(Debug, Clone, Copy, PartialEq, Eq, Structural)]
pub struct QualificationRunSnapshot {
    pub version: u32,
    pub state: QualificationRunState,
    pub phase: QualificationPhase,
    pub discovered: usize,
    pub downloaded: usize,
    pub applied: usize,
    pub uploaded: usize,
    pub conflicts: usize,
    pub retries: usize,
    pub convergence_rounds: usize,
    pub temporary_files_cleaned: bool,
    pub worker_stopped: bool,
    pub transient_inputs_cleared: bool,
    pub error: Option<QualificationError>,
}

/// The snapshot of a run that has not started.
pub open spec fn initial_snapshot() -> QualificationRunSnapshot {
    QualificationRunSnapshot {
        version: QUALIFICATION_SNAPSHOT_VERSION,
        state: QualificationRunState::Created,
        phase: QualificationPhase::Created,
        discovered: 0,
        downloaded: 0,
        applied: 0,
        uploaded: 0,
        conflicts: 0,
        retries: 0,
        convergence_rounds: 0,
        temporary_files_cleaned: false,
        worker_stopped: false,
        transient_inputs_cleared: false,
        error: None,
    }
}

impl Default for QualificationRunSnapshot {
    fn default() -> (r: Self)
        ensures
            r == initial_snapshot(),
    {
        QualificationRunSnapshot {
            version: QUALIFICATION_SNAPSHOT_VERSION,
            state: QualificationRunState::Created,
            phase: QualificationPhase::Created,
            discovered: 0,
            downloaded: 0,
            applied: 0,
            uploaded: 0,
            conflicts: 0,
            retries: 0,
            convergence_rounds: 0,
            temporary_files_cleaned: false,
            worker_stopped: false,
            transient_inputs_cleared: false,
            error: None,
        }
    }
}

/// `a + b`, or the largest `usize` when that does not fit.
pub open spec fn saturating(a: usize, b: usize) -> usize {
    if a + b > usize::MAX {
        usize::MAX
    } else {
        (a + b) as usize
    }
}

fn saturating_add(a: usize, b: usize) -> (r: usize)
    ensures
        r == saturating(a, b),
{
    match a.checked_add(b) {
        Some(s) => s,
        None => usize::MAX,
    }
}

impl QualificationRunSnapshot {
    /// The snapshot of a run that has just started: running, validating its request.
    pub fn started() -> (r: Self)
        ensures
            r == (QualificationRunSnapshot {
                state: QualificationRunState::Running,
                phase: QualificationPhase::ValidateRequest,
                ..initial_snapshot()
            }),
    {
        QualificationRunSnapshot {
            state: QualificationRunState::Running,
            phase: QualificationPhase::ValidateRequest,
            ..QualificationRunSnapshot::default()
        }
    }

    /// Enters `phase`, unless the run is over; a cancelling run stays cancelling.
    pub fn set_phase(&mut self, phase: QualificationPhase)
        ensures
            old(self).state.terminal() ==> *final(self) == *old(self),
            !old(self).state.terminal() ==> *final(self) == (QualificationRunSnapshot {
                phase,
                state: if old(self).state is Cancelling {
                    QualificationRunState::Cancelling
                } else {
                    QualificationRunState::Running
                },
                ..*old(self)
            }),
    {
        if !self.state.is_terminal() {
            if self.state != QualificationRunState::Cancelling {
                self.state = QualificationRunState::Running;
            }
            self.phase = phase;
        }
    }

    /// Adds one cycle's counters, each saturating at the largest `usize`.
    pub fn add_summary(&mut self, counts: &SyncCycleCounts)
        ensures
            *final(self) == (QualificationRunSnapshot {
                discovered: saturating(old(self).discovered, counts.discovered),
                downloaded: saturating(old(self).downloaded, counts.downloaded),
                applied: saturating(old(self).applied, counts.applied),
                uploaded: saturating(old(self).uploaded, counts.uploaded),
                conflicts: saturating(old(self).conflicts, counts.conflicts),
                retries: saturating(old(self).retries, counts.retries),
                ..*old(self)
            }),
    {
        self.discovered = saturating_add(self.discovered, counts.discovered);
        self.downloaded = saturating_add(self.downloaded, counts.downloaded);
        self.applied = saturating_add(self.applied, counts.applied);
        self.uploaded = saturating_add(self.uploaded, counts.uploaded);
        self.conflicts = saturating_add(self.conflicts, counts.conflicts);
        self.retries = saturating_add(self.retries, counts.retries);
    }

    /// Asks a run that is not over to cancel; `already_requested` tells whether a
    /// cancellation was asked before. The result is whether this request was the first.
    pub fn request_cancel(&mut self, already_requested: bool) -> (r: bool)
        ensures
            old(self).state.terminal() ==> !r && *final(self) == *old(self),
            !old(self).state.terminal() ==> r == !already_requested && *final(self) == (QualificationRunSnapshot {
                state: QualificationRunState::Cancelling,
                ..*old(self)
            }),
    {
        if self.state.is_terminal() {
            return false;
        }
        self.state = QualificationRunState::Cancelling;
        !already_requested
    }

    /// Ends the run with the worker's result: success completes it unless a
    /// cancellation was asked for; a cancellation, asked for or reported, cancels it
    /// in the phase reached; any other error fails it. The worker has stopped and
    /// its transient inputs are cleared either way.
    pub fn finish(&mut self, result: Result<(), QualificationError>, cancel_requested: bool, temporary_files_cleaned: bool)
        ensures
            final(self).state.terminal(),
            final(self).worker_stopped,
            final(self).transient_inputs_cleared,
            final(self).temporary_files_cleaned == temporary_files_cleaned,
            final(self).version == old(self).version,
            final(self).discovered == old(self).discovered,
            final(self).convergence_rounds == old(self).convergence_rounds,
            match result {
                Ok(()) => if !cancel_requested {
                    final(self).state == QualificationRunState::Completed && final(self).phase
                        == QualificationPhase::Complete && final(self).error is None
                } else {
                    final(self).state == QualificationRunState::Cancelled && final(self).phase == old(self).phase
                        && final(self).error == Some(
                        QualificationError {
                            code: QualificationErrorCode::Cancelled,
                            phase: old(self).phase,
                            retryable: false,
                        },
                    )
                },
                Err(e) => if e.code == QualificationErrorCode::Cancelled || cancel_requested {
                    final(self).state == QualificationRunState::Cancelled && final(self).phase == e.phase
                        && final(self).error == Some(
                        QualificationError { code: QualificationErrorCode::Cancelled, phase: e.phase, retryable: false },
                    )
                } else {
                    final(self).state == QualificationRunState::Failed && final(self).phase == e.phase
                        && final(self).error == Some(e)
                },
            },
    {
        self.temporary_files_cleaned = temporary_files_cleaned;
        self.worker_stopped = true;
        self.transient_inputs_cleared = true;
        match result {
            Ok(()) => {
                if !cancel_requested {
                    self.state = QualificationRunState::Completed;
                    self.phase = QualificationPhase::Complete;
                    self.error = None;
                } else {
                    self.state = QualificationRunState::Cancelled;
                    self.error = Some(QualificationError::cancelled(self.phase));
                }
            },
            Err(error) => {
                if error.code == QualificationErrorCode::Cancelled || cancel_requested {
                    self.state = QualificationRunState::Cancelled;
                    self.phase = error.phase;
                    self.error = Some(QualificationError::cancelled(error.phase));
                } else {
                    self.state = QualificationRunState::Failed;
                    self.phase = error.phase;
                    self.error = Some(error);
                }
            },
        }
    }

    /// Ends a run whose worker stopped abnormally: failed with an internal error in
    /// the phase it reached.
    pub fn finish_after_panic(&mut self)
        ensures
            *final(self) == (QualificationRunSnapshot {
                state: QualificationRunState::Failed,
                worker_stopped: true,
                transient_inputs_cleared: true,
                error: Some(
                    QualificationError {
                        code: QualificationErrorCode::Internal,
                        phase: old(self).phase,
                        retryable: false,
                    },
                ),
                ..*old(self)
            }),
    {
        self.state = QualificationRunState::Failed;
        self.worker_stopped = true;
        self.transient_inputs_cleared = true;
        self.error = Some(QualificationError::new(QualificationErrorCode::Internal, self.phase, false));
    }
}


/// ASCII whitespace: space, tab, line feed, form feed, carriage return.
pub open spec fn ascii_whitespace(c: char) -> bool {
    c == ' ' || c == '\t' || c == '\n' || c == '\x0C' || c == '\r'
}

/// `s` begins with `p`.
pub open spec fn has_prefix(s: Seq<char>, p: Seq<char>) -> bool {
    p.len() <= s.len() && s.subrange(0, p.len() as int) == p
}

/// A decimal TCP port: digits only, not zero, at most 65535 (leading zeros allowed).
pub open spec fn valid_port(p: Seq<char>) -> bool {
    &&& p.len() > 0
    &&& forall|i: int| 0 <= i < p.len() ==> is_ascii_digit(#[trigger] p[i])
    &&& decimal_value(p) <= 65535
    &&& decimal_value(p) != 0
}

/// A loopback host, alone or with a port.
pub open spec fn loopback_authority(a: Seq<char>) -> bool {
    if a == "localhost"@ || a == "127.0.0.1"@ || a == "[::1]"@ {
        true
    } else if has_prefix(a, "localhost:"@) {
        valid_port(a.skip("localhost:"@.len() as int))
    } else if has_prefix(a, "127.0.0.1:"@) {
        valid_port(a.skip("127.0.0.1:"@.len() as int))
    } else if has_prefix(a, "[::1]:"@) {
        valid_port(a.skip("[::1]:"@.len() as int))
    } else {
        false
    }
}

/// The authority of an endpoint after its scheme: the rest without one trailing slash.
pub open spec fn authority_of(rest: Seq<char>) -> Seq<char> {
    if rest.len() > 0 && rest.last() == '/' {
        rest.drop_last()
    } else {
        rest
    }
}

/// An `https` URL of a loopback host, at most 2048 characters, with no
/// whitespace, credentials, path, query or fragment.
pub open spec fn loopback_https_endpoint(e: Seq<char>) -> bool {
    let rest = e.skip("https://"@.len() as int);
    let authority = authority_of(rest);
    &&& 0 < e.len() <= MAX_ENDPOINT_BYTES
    &&& forall|i: int| 0 <= i < e.len() ==> !ascii_whitespace(#[trigger] e[i])
    &&& has_prefix(e, "https://"@)
    &&& forall|i: int| 0 <= i < rest.len() ==> #[trigger] rest[i] != '@' && rest[i] != '?' && rest[i] != '#'
    &&& authority.len() > 0
    &&& forall|i: int| 0 <= i < authority.len() ==> #[trigger] authority[i] != '/'
    &&& loopback_authority(authority)
}

/// `value[from..to]` is `lit`.
fn range_is(value: &str, from: usize, to: usize, lit: &str) -> (r: bool)
    requires
        from <= to <= value@.len(),
    ensures
        r == (value@.subrange(from as int, to as int) == lit@),
{
    let n = lit.unicode_len();
    if to - from != n {
        return false;
    }
    let mut i: usize = 0;
    while i < n
        invariant
            from <= to <= value@.len(),
            to - from == n,
            n == lit@.len(),
            i <= n,
            forall|j: int| 0 <= j < i ==> value@[from + j] == lit@[j],
        decreases n - i,
    {
        if value.get_char(from + i) != lit.get_char(i) {
            assert(value@.subrange(from as int, to as int)[i as int] != lit@[i as int]);
            return false;
        }
        i = i + 1;
    }
    assert(value@.subrange(from as int, to as int) =~= lit@);
    true
}

/// `value[from..to]` is a valid port.
fn is_valid_port(value: &str, from: usize, to: usize) -> (r: bool)
    requires
        from <= to <= value@.len(),
    ensures
        r == valid_port(value@.subrange(from as int, to as int)),
{
    let ghost p = value@.subrange(from as int, to as int);
    if from == to {
        return false;
    }
    let mut acc: u32 = 0;
    let mut i = from;
    assert(p.take(0) =~= Seq::<char>::empty());
    while i < to
        invariant
            from <= i <= to,
            to <= value@.len(),
            p == value@.subrange(from as int, to as int),
            forall|j: int| 0 <= j < i - from ==> is_ascii_digit(#[trigger] p[j]),
            acc == decimal_value(p.take(i - from)),
            acc <= 65535,
        decreases to - i,
    {
        let c = value.get_char(i);
        assert(p[i - from] == c);
        if !('0' <= c && c <= '9') {
            return false;
        }
        let ghost n = i - from;
        assert(p.take(n + 1).drop_last() =~= p.take(n));
        let digit: u32 = (c as u32) - ('0' as u32);
        let next = acc * 10 + digit;
        if next > 65535 {
            proof {
                if forall|j: int| 0 <= j < p.len() ==> is_ascii_digit(#[trigger] p[j]) {
                    crate::text::lemma_decimal_prefix_le(p, n + 1);
                }
            }
            return false;
        }
        acc = next;
        i = i + 1;
    }
    assert(p.take(p.len() as int) =~= p);
    acc != 0
}

/// `value[from..]` begins with `lit`.
fn prefix_at(value: &str, from: usize, lit: &str) -> (r: bool)
    requires
        from <= value@.len(),
    ensures
        r == has_prefix(value@.skip(from as int), lit@),
{
    let n = value.unicode_len();
    let m = lit.unicode_len();
    if n - from < m {
        return false;
    }
    let r = range_is(value, from, from + m, lit);
    assert(value@.skip(from as int).subrange(0, m as int) =~= value@.subrange(from as int, (from + m) as int));
    r
}

fn port_after(value: &str, from: usize, to: usize, host: &str) -> (r: Option<bool>)
    requires
        from <= to <= value@.len(),
    ensures
        ({
            let a = value@.subrange(from as int, to as int);
            match r {
                Some(ok) => has_prefix(a, host@) && ok == valid_port(a.skip(host@.len() as int)),
                None => !has_prefix(a, host@),
            }
        }),
{
    let ghost a = value@.subrange(from as int, to as int);
    let m = host.unicode_len();
    if to - from < m {
        return None;
    }
    assert(a.subrange(0, m as int) =~= value@.subrange(from as int, (from + m) as int));
    if !range_is(value, from, from + m, host) {
        return None;
    }
    assert(a.skip(m as int) =~= value@.subrange((from + m) as int, to as int));
    Some(is_valid_port(value, from + m, to))
}

fn is_loopback_authority(value: &str, from: usize, to: usize) -> (r: bool)
    requires
        from <= to <= value@.len(),
    ensures
        r == loopback_authority(value@.subrange(from as int, to as int)),
{
    if range_is(value, from, to, "localhost") || range_is(value, from, to, "127.0.0.1") || range_is(
        value,
        from,
        to,
        "[::1]",
    ) {
        return true;
    }
    if let Some(ok) = port_after(value, from, to, "localhost:") {
        return ok;
    }
    if let Some(ok) = port_after(value, from, to, "127.0.0.1:") {
        return ok;
    }
    if let Some(ok) = port_after(value, from, to, "[::1]:") {
        return ok;
    }
    false
}

/// Accepts only an `https` URL of a loopback host.
pub fn is_loopback_https_endpoint(endpoint: &str) -> (r: bool)
    ensures
        r == loopback_https_endpoint(endpoint@),
{
    let ghost e = endpoint@;
    let n = endpoint.unicode_len();
    if n == 0 || n > MAX_ENDPOINT_BYTES {
        return false;
    }
    let mut i: usize = 0;
    while i < n
        invariant
            n == e.len(),
            e == endpoint@,
            i <= n,
            forall|j: int| 0 <= j < i ==> !ascii_whitespace(#[trigger] e[j]),
        decreases n - i,
    {
        let c = endpoint.get_char(i);
        if c == ' ' || c == '\t' || c == '\n' || c == '\x0C' || c == '\r' {
            assert(ascii_whitespace(e[i as int]));
            return false;
        }
        i = i + 1;
    }
    assert(e.skip(0) =~= e);
    if !prefix_at(endpoint, 0, "https://") {
        return false;
    }
    let start = "https://".unicode_len();
    let ghost rest = e.skip(start as int);
    let mut i = start;
    while i < n
        invariant
            start <= i <= n,
            n == e.len(),
            e == endpoint@,
            rest == e.skip(start as int),
            start == "https://"@.len(),
            forall|j: int| 0 <= j < i - start ==> #[trigger] rest[j] != '@' && rest[j] != '?' && rest[j] != '#',
        decreases n - i,
    {
        let c = endpoint.get_char(i);
        assert(rest[i - start] == c);
        if c == '@' || c == '?' || c == '#' {
            return false;
        }
        i = i + 1;
    }
    let end = if n > start && endpoint.get_char(n - 1) == '/' {
        n - 1
    } else {
        n
    };
    let ghost authority = authority_of(rest);
    assert(authority =~= e.subrange(start as int, end as int));
    if end == start {
        return false;
    }
    let mut i = start;
    while i < end
        invariant
            start <= i <= end,
            end <= n,
            n == e.len(),
            e == endpoint@,
            authority == e.subrange(start as int, end as int),
            authority == authority_of(e.skip("https://"@.len() as int)),
            forall|j: int| 0 <= j < i - start ==> #[trigger] authority[j] != '/',
        decreases end - i,
    {
        let c = endpoint.get_char(i);
        assert(authority[i - start] == c);
        if c == '/' {
            return false;
        }
        i = i + 1;
    }
    is_loopback_authority(endpoint, start, end)
}

/// An access token of 32 to 4096 visible ASCII characters.
pub open spec fn valid_access_token(t: Seq<char>) -> bool {
    &&& 32 <= t.len() <= MAX_TOKEN_BYTES
    &&& forall|i: int| 0 <= i < t.len() ==> '!' <= #[trigger] t[i] && t[i] <= '~'
}

fn is_valid_access_token(token: &str) -> (r: bool)
    ensures
        r == valid_access_token(token@),
{
    let n = token.unicode_len();
    if n < 32 || n > MAX_TOKEN_BYTES {
        return false;
    }
    let mut i: usize = 0;
    while i < n
        invariant
            n == token@.len(),
            i <= n,
            forall|j: int| 0 <= j < i ==> '!' <= #[trigger] token@[j] && token@[j] <= '~',
        decreases n - i,
    {
        let c = token.get_char(i);
        if !('!' <= c && c <= '~') {
            return false;
        }
        i = i + 1;
    }
    true
}

/// The inputs of a qualification run.
pub struct QualificationRequest {
    version: u32,
    endpoint: String,
    access_token: String,
    local_ca_der: Option<Vec<u8>>,
    timeout_ms: u64,
}

/// What a request accepts: the current version, a loopback `https` endpoint, a
/// visible-ASCII token of 32 to 4096 characters, a timeout of 100 ms to 2 min,
/// and, if given, a local CA certificate of 1 byte to 64 KiB.
pub open spec fn request_accepted(
    version: u32,
    endpoint: Seq<char>,
    access_token: Seq<char>,
    local_ca_der: Option<Seq<u8>>,
    timeout_ms: u64,
) -> bool {
    &&& version == QUALIFICATION_REQUEST_VERSION
    &&& loopback_https_endpoint(endpoint)
    &&& valid_access_token(access_token)
    &&& MIN_TIMEOUT_MS <= timeout_ms <= MAX_TIMEOUT_MS
    &&& match local_ca_der {
        Some(c) => 0 < c.len() <= MAX_CA_BYTES,
        None => true,
    }
}

pub open spec fn optional_bytes_view(b: Option<Vec<u8>>) -> Option<Seq<u8>> {
    match b {
        Some(v) => Some(v@),
        None => None,
    }
}

impl QualificationRequest {
    pub closed spec fn version_spec(&self) -> u32 {
        self.version
    }

    pub closed spec fn endpoint_spec(&self) -> Seq<char> {
        self.endpoint@
    }

    pub closed spec fn token_spec(&self) -> Seq<char> {
        self.access_token@
    }

    pub closed spec fn ca_spec(&self) -> Option<Seq<u8>> {
        optional_bytes_view(self.local_ca_der)
    }

    pub closed spec fn timeout_spec(&self) -> u64 {
        self.timeout_ms
    }

    /// A request of the current version.
    pub fn new(
        endpoint: String,
        access_token: String,
        local_ca_der: Option<Vec<u8>>,
        timeout_ms: u64,
    ) -> (r: Result<Self, QualificationError>)
        ensures
            r is Ok <==> request_accepted(
                QUALIFICATION_REQUEST_VERSION,
                endpoint@,
                access_token@,
                optional_bytes_view(local_ca_der),
                timeout_ms,
            ),
            r matches Ok(q) ==> q.version_spec() == QUALIFICATION_REQUEST_VERSION && q.endpoint_spec() == endpoint@
                && q.token_spec() == access_token@ && q.ca_spec() == optional_bytes_view(local_ca_der)
                && q.timeout_spec() == timeout_ms,
            r matches Err(e) ==> e == (QualificationError {
                code: QualificationErrorCode::InvalidRequest,
                phase: QualificationPhase::ValidateRequest,
                retryable: false,
            }),
    {
        Self::with_version(QUALIFICATION_REQUEST_VERSION, endpoint, access_token, local_ca_der, timeout_ms)
    }

    pub fn with_version(
        version: u32,
        endpoint: String,
        access_token: String,
        local_ca_der: Option<Vec<u8>>,
        timeout_ms: u64,
    ) -> (r: Result<Self, QualificationError>)
        ensures
            r is Ok <==> request_accepted(
                version,
                endpoint@,
                access_token@,
                optional_bytes_view(local_ca_der),
                timeout_ms,
            ),
            r matches Ok(q) ==> q.version_spec() == version && q.endpoint_spec() == endpoint@ && q.token_spec()
                == access_token@ && q.ca_spec() == optional_bytes_view(local_ca_der) && q.timeout_spec()
                == timeout_ms,
            r matches Err(e) ==> e == (QualificationError {
                code: QualificationErrorCode::InvalidRequest,
                phase: QualificationPhase::ValidateRequest,
                retryable: false,
            }),
    {
        let ca_ok = match &local_ca_der {
            Some(c) => c.len() > 0 && c.len() <= MAX_CA_BYTES,
            None => true,
        };
        if version != QUALIFICATION_REQUEST_VERSION || !is_loopback_https_endpoint(endpoint.as_str())
            || !is_valid_access_token(access_token.as_str()) || !(MIN_TIMEOUT_MS <= timeout_ms && timeout_ms
            <= MAX_TIMEOUT_MS) || !ca_ok {
            return Err(QualificationError::invalid_request());
        }
        Ok(QualificationRequest { version, endpoint, access_token, local_ca_der, timeout_ms })
    }

    pub fn version(&self) -> (r: u32)
        ensures
            r == self.version_spec(),
    {
        self.version
    }

    pub fn endpoint(&self) -> (r: &str)
        ensures
            r@ == self.endpoint_spec(),
    {
        self.endpoint.as_str()
    }

    pub fn access_token(&self) -> (r: &str)
        ensures
            r@ == self.token_spec(),
    {
        self.access_token.as_str()
    }

    pub fn local_ca_der(&self) -> (r: Option<&[u8]>)
        ensures
            match r {
                Some(b) => self.ca_spec() == Some(b@),
                None => self.ca_spec() is None,
            },
    {
        match &self.local_ca_der {
            Some(c) => Some(c.as_slice()),
            None => None,
        }
    }

    pub fn timeout_ms(&self) -> (r: u64)
        ensures
            r == self.timeout_spec(),
    {
        self.timeout_ms
    }
}


/// The name every qualification workspace directory begins with.
pub const WORKSPACE_PREFIX: &'static str = "radishlex-sync-qualification-";

pub open spec fn all_digits(s: Seq<char>) -> bool {
    forall|i: int| 0 <= i < s.len() ==> is_ascii_digit(#[trigger] s[i])
}

/// A workspace name this runtime creates: the prefix, then a process number, a
/// hyphen and a sequence number, both non-empty decimal digits.
pub open spec fn workspace_name(name: Seq<char>) -> bool {
    let suffix = name.skip(WORKSPACE_PREFIX@.len() as int);
    &&& has_prefix(name, WORKSPACE_PREFIX@)
    &&& exists|i: int|
        0 < i < suffix.len() - 1 && #[trigger] suffix[i] == '-' && all_digits(suffix.take(i)) && all_digits(
            suffix.skip(i + 1),
        )
}

/// Whether a directory name is one of this runtime's workspaces, so that a restart
/// may remove it.
pub fn valid_workspace_name(name: &str) -> (r: bool)
    ensures
        r == workspace_name(name@),
{
    let ghost e = name@;
    assert(e.skip(0) =~= e);
    if !prefix_at(name, 0, WORKSPACE_PREFIX) {
        return false;
    }
    let start = WORKSPACE_PREFIX.unicode_len();
    let n = name.unicode_len();
    let ghost suffix = e.skip(start as int);
    let mut i = start;
    while i < n && name.get_char(i) != '-'
        invariant
            start <= i <= n,
            n == e.len(),
            e == name@,
            start == WORKSPACE_PREFIX@.len(),
            suffix == e.skip(start as int),
            forall|j: int| 0 <= j < i - start ==> #[trigger] suffix[j] != '-',
        decreases n - i,
    {
        i = i + 1;
    }
    if i == n || i == start || i + 1 == n {
        proof {
            assert forall|k: int| 0 < k < suffix.len() - 1 && #[trigger] suffix[k] == '-' implies !(all_digits(
                suffix.take(k),
            ) && all_digits(suffix.skip(k + 1))) by {
                if i == n {
                    assert(suffix[k] != '-');
                } else if i == start {
                    assert(suffix[0] == '-');
                    assert(suffix.take(k)[0] == '-');
                } else {
                    assert(k < i - start);
                    assert(suffix[k] != '-');
                }
            }
        }
        return false;
    }
    let mut j = start;
    while j < n
        invariant
            start <= j <= n,
            start < i < n - 1,
            n == e.len(),
            e == name@,
            start == WORKSPACE_PREFIX@.len(),
            suffix == e.skip(start as int),
            e[i as int] == '-',
            forall|k: int| 0 <= k < i - start ==> #[trigger] suffix[k] != '-',
            forall|k: int| 0 <= k < j - start && k != i - start ==> is_ascii_digit(#[trigger] suffix[k]),
        decreases n - j,
    {
        if j != i {
            let c = name.get_char(j);
            assert(suffix[j - start] == c);
            if !('0' <= c && c <= '9') {
                proof {
                    let d = i - start;
                    assert forall|k: int| 0 < k < suffix.len() - 1 && #[trigger] suffix[k] == '-' implies !(
                    all_digits(suffix.take(k)) && all_digits(suffix.skip(k + 1))) by {
                        if k < d {
                            assert(suffix[k] != '-');
                        } else if k > d {
                            assert(suffix.take(k)[d] == '-');
                        } else if j - start < d {
                            assert(suffix.take(k)[j - start] == c);
                        } else {
                            assert(suffix.skip(k + 1)[j - start - k - 1] == c);
                        }
                    }
                }
                return false;
            }
        }
        j = j + 1;
    }
    proof {
        let d = i - start;
        assert(suffix[d] == '-');
        assert(all_digits(suffix.take(d)));
        assert forall|k: int| 0 <= k < suffix.skip(d + 1).len() implies is_ascii_digit(
            #[trigger] suffix.skip(d + 1)[k],
        ) by {
            assert(suffix.skip(d + 1)[k] == suffix[d + 1 + k]);
        }
    }
    true
}


/// How a sync cycle of the run ended.
#[derive(Debug, Clone, Copy, PartialEq, Eq, Structural)]
pub enum SyncCycleOutcome {
    Completed,
    Cancelled,
    Blocked,
    Failed,
}

/// The stage a sync cycle reports itself in.
#[derive(Debug, Clone, Copy, PartialEq, Eq, Structural)]
pub enum SyncCyclePhase {
    Preflight,
    Discover,
    Download,
    Verify,
    DecryptAndDecode,
    ApplyAndAdvanceCursor,
    PlanUpload,
    PrepareSignedOutbox,
    Upload,
    AcknowledgeOutbox,
    Complete,
}

/// The run phase a cycle's stage is reported as: its preflight belongs to
/// preparing the workspace, everything after it to verifying convergence.
pub open spec fn run_phase_of(phase: SyncCyclePhase) -> QualificationPhase {
    match phase {
        SyncCyclePhase::Preflight => QualificationPhase::PrepareWorkspace,
        _ => QualificationPhase::VerifyConvergence,
    }
}

pub fn map_sync_phase(phase: SyncCyclePhase) -> (r: QualificationPhase)
    ensures
        r == run_phase_of(phase),
{
    match phase {
        SyncCyclePhase::Preflight => QualificationPhase::PrepareWorkspace,
        _ => QualificationPhase::VerifyConvergence,
    }
}

/// A cycle that completed lets the run go on; a cancelled one fails the run as
/// cancelled in `phase`; a blocked or failed one fails it with the cycle's own
/// error, or as a protocol rejection in `phase` when it reported none.
pub open spec fn cycle_result(
    outcome: SyncCycleOutcome,
    error: Option<QualificationError>,
    phase: QualificationPhase,
) -> Result<(), QualificationError> {
    match outcome {
        SyncCycleOutcome::Completed => Ok(()),
        SyncCycleOutcome::Cancelled => Err(
            QualificationError { code: QualificationErrorCode::Cancelled, phase, retryable: false },
        ),
        _ => match error {
            Some(e) => Err(e),
            None => Err(QualificationError { code: QualificationErrorCode::ProtocolRejected, phase, retryable: false }),
        },
    }
}

/// Adds a cycle's counters to the snapshot and decides whether the run goes on.
pub fn accept_cycle(
    snapshot: &mut QualificationRunSnapshot,
    counts: &SyncCycleCounts,
    outcome: SyncCycleOutcome,
    error: Option<QualificationError>,
    phase: QualificationPhase,
) -> (r: Result<(), QualificationError>)
    ensures
        r == cycle_result(outcome, error, phase),
        *final(snapshot) == (QualificationRunSnapshot {
            discovered: saturating(old(snapshot).discovered, counts.discovered),
            downloaded: saturating(old(snapshot).downloaded, counts.downloaded),
            applied: saturating(old(snapshot).applied, counts.applied),
            uploaded: saturating(old(snapshot).uploaded, counts.uploaded),
            conflicts: saturating(old(snapshot).conflicts, counts.conflicts),
            retries: saturating(old(snapshot).retries, counts.retries),
            ..*old(snapshot)
        }),
{
    snapshot.add_summary(counts);
    match outcome {
        SyncCycleOutcome::Completed => Ok(()),
        SyncCycleOutcome::Cancelled => Err(QualificationError::cancelled(phase)),
        SyncCycleOutcome::Blocked | SyncCycleOutcome::Failed => match error {
            Some(e) => Err(e),
            None => Err(QualificationError::new(QualificationErrorCode::ProtocolRejected, phase, false)),
        },
    }
}

/// Whether the run may take its next step: a requested cancellation stops it as
/// cancelled, and reaching the timeout stops it as a retryable transport timeout.
pub open spec fn control_check(
    cancel_requested: bool,
    elapsed_ms: u64,
    timeout_ms: u64,
    phase: QualificationPhase,
) -> Result<(), QualificationError> {
    if cancel_requested {
        Err(QualificationError { code: QualificationErrorCode::Cancelled, phase, retryable: false })
    } else if elapsed_ms >= timeout_ms {
        Err(QualificationError { code: QualificationErrorCode::TransportTimeout, phase, retryable: true })
    } else {
        Ok(())
    }
}

pub fn check_control(cancel_requested: bool, elapsed_ms: u64, timeout_ms: u64, phase: QualificationPhase) -> (r:
    Result<(), QualificationError>)
    ensures
        r == control_check(cancel_requested, elapsed_ms, timeout_ms, phase),
{
    if cancel_requested {
        return Err(QualificationError::cancelled(phase));
    }
    if elapsed_ms >= timeout_ms {
        return Err(QualificationError::new(QualificationErrorCode::TransportTimeout, phase, true));
    }
    Ok(())
}


/// How a request to the sync server failed.
#[derive(Debug, Clone, PartialEq, Eq)]
pub enum RemoteFailure {
    /// The request could not be built.
    InvalidRequest,
    /// The connection failed, with the transport's description.
    Transport { message: String },
    /// The server answered with something that is not a valid response.
    InvalidResponse,
    /// The server refused the request with an HTTP status.
    Server { status: u16, retryable: bool },
}

/// The run error a failed request maps to: a transport failure is a TLS
/// rejection, a retryable timeout, or a retryable unavailable server, by its
/// description; a server's 401 means the run was not authenticated.
pub open spec fn remote_error(failure: RemoteFailure, phase: QualificationPhase) -> QualificationError {
    match failure {
        RemoteFailure::InvalidRequest => QualificationError {
            code: QualificationErrorCode::InvalidRequest,
            phase,
            retryable: false,
        },
        RemoteFailure::Transport { message } => if contains_seq(message@, "tls"@) {
            QualificationError { code: QualificationErrorCode::TlsRejected, phase, retryable: false }
        } else if contains_seq(message@, "timed out"@) || contains_seq(message@, "timeout"@) {
            QualificationError { code: QualificationErrorCode::TransportTimeout, phase, retryable: true }
        } else {
            QualificationError { code: QualificationErrorCode::ServerUnavailable, phase, retryable: true }
        },
        RemoteFailure::InvalidResponse => QualificationError {
            code: QualificationErrorCode::ProtocolRejected,
            phase,
            retryable: false,
        },
        RemoteFailure::Server { status, retryable } => if status == 401 {
            QualificationError { code: QualificationErrorCode::Unauthenticated, phase, retryable: false }
        } else {
            QualificationError { code: QualificationErrorCode::ProtocolRejected, phase, retryable }
        },
    }
}

pub fn map_remote_error(failure: &RemoteFailure, phase: QualificationPhase) -> (r: QualificationError)
    ensures
        r == remote_error(*failure, phase),
{
    match failure {
        RemoteFailure::InvalidRequest => QualificationError::new(QualificationErrorCode::InvalidRequest, phase, false),
        RemoteFailure::Transport { message } => {
            if contains_text(message.as_str(), "tls") {
                QualificationError::new(QualificationErrorCode::TlsRejected, phase, false)
            } else if contains_text(message.as_str(), "timed out") || contains_text(message.as_str(), "timeout") {
                QualificationError::new(QualificationErrorCode::TransportTimeout, phase, true)
            } else {
                QualificationError::new(QualificationErrorCode::ServerUnavailable, phase, true)
            }
        },
        RemoteFailure::InvalidResponse => QualificationError::new(
            QualificationErrorCode::ProtocolRejected,
            phase,
            false,
        ),
        RemoteFailure::Server { status, retryable } => {
            if *status == 401 {
                QualificationError::new(QualificationErrorCode::Unauthenticated, phase, false)
            } else {
                QualificationError::new(QualificationErrorCode::ProtocolRejected, phase, *retryable)
            }
        },
    }
}

/// The answer to a setup request is accepted only with the expected status;
/// otherwise a 401, or an `unauthenticated` error code in the body, means the
/// run was not authenticated, and anything else is a protocol rejection.
pub open spec fn response_check(
    status: u16,
    expected: u16,
    error_code: Option<Seq<char>>,
    phase: QualificationPhase,
) -> Result<(), QualificationError> {
    if status == expected {
        Ok(())
    } else if status == 401 || error_code == Some("unauthenticated"@) {
        Err(QualificationError { code: QualificationErrorCode::Unauthenticated, phase, retryable: false })
    } else {
        Err(QualificationError { code: QualificationErrorCode::ProtocolRejected, phase, retryable: false })
    }
}

pub fn check_response_status(status: u16, expected: u16, error_code: Option<&str>, phase: QualificationPhase) -> (r:
    Result<(), QualificationError>)
    ensures
        r == response_check(
            status,
            expected,
            match error_code {
                Some(c) => Some(c@),
                None => None,
            },
            phase,
        ),
{
    if status == expected {
        return Ok(());
    }
    let unauthenticated = match error_code {
        Some(c) => same_text(c, "unauthenticated"),
        None => false,
    };
    if status == 401 || unauthenticated {
        Err(QualificationError::new(QualificationErrorCode::Unauthenticated, phase, false))
    } else {
        Err(QualificationError::new(QualificationErrorCode::ProtocolRejected, phase, false))
    }
}

/// The run phase a setup request belongs to, by the server path it calls.
pub fn phase_for_path(path: &str) -> (r: QualificationPhase)
    ensures
        r == (if path@ == "/api/v1/domains"@ {
            QualificationPhase::CreateDomain
        } else {
            QualificationPhase::AuthorizeSecondDevice
        }),
{
    if same_text(path, "/api/v1/domains") {
        QualificationPhase::CreateDomain
    } else {
        QualificationPhase::AuthorizeSecondDevice
    }
}

} // verus!
