//! The connecting end: a client and the supervisor that keeps it connected
//! across failures that pass.

use crate::utils::client_helper::ClientConfig;
use crate::utils::client_helper::ClientConfigView;
use std::io::ErrorKind;
use std::path::PathBuf;
use vstd::prelude::*;

verus! {

/// How long the supervisor waits before it connects again, in milliseconds.
pub const RETRY_DELAY_MS: u64 = 2000;

/// A client that has its configuration and has not started to connect.
#[derive(Debug)]
pub struct Client {
    config: ClientConfig,
}

impl Client {
    /// The configuration this client connects with.
    pub closed spec fn spec_config(&self) -> ClientConfig {
        self.config
    }

    /// A client for the given settings.
    pub fn from_args(host_address: String, host_port: u16, cert_file: Option<PathBuf>) -> (c:
        Client)
        ensures
            c.spec_config()@ == (ClientConfigView {
                host_address: host_address@,
                host_port,
                cert_file,
            }),
    {
        Client { config: ClientConfig::from_args(host_address, host_port, cert_file) }
    }

    /// The configuration this client connects with.
    pub fn config(&self) -> (c: &ClientConfig)
        ensures
            *c == self.spec_config(),
    {
        &self.config
    }
}

/// A failure after which connecting again may succeed.
#[derive(Clone, Copy, Debug, PartialEq, Eq, Structural)]
pub enum Recoverable {
    /// Nobody listened at the address.
    ConnectionRefused,
    /// The peer dropped the connection.
    ConnectionReset,
    /// A write met a connection that was already closed.
    BrokenPipe,
}

/// What the supervisor makes of one kind of I/O error. Every kind falls
/// under exactly one of the three.
#[derive(Clone, Copy, Debug, PartialEq, Eq, Structural)]
pub enum Disposition {
    /// The failure passes: connect again after the delay.
    Retry(Recoverable),
    /// The failure is known not to pass: give up and report it.
    Fatal,
    /// The kind is not one the supervisor knows: give up and report it, as
    /// for a fatal one.
    Unclassified,
}

/// The classification of every kind of I/O error.
pub open spec fn disposition_of(kind: ErrorKind) -> Disposition {
    match kind {
        ErrorKind::ConnectionRefused => Disposition::Retry(Recoverable::ConnectionRefused),
        ErrorKind::ConnectionReset => Disposition::Retry(Recoverable::ConnectionReset),
        ErrorKind::BrokenPipe => Disposition::Retry(Recoverable::BrokenPipe),
        ErrorKind::InvalidInput => Disposition::Fatal,
        ErrorKind::UnexpectedEof => Disposition::Fatal,
        ErrorKind::Other => Disposition::Fatal,
        _ => Disposition::Unclassified,
    }
}

/// Classifies a kind of I/O error. No kind is left out: one that is neither
/// known to pass nor known to be fatal comes back as
/// [`Disposition::Unclassified`].
pub fn classify(kind: ErrorKind) -> (d: Disposition)
    ensures
        d == disposition_of(kind),
{
    match kind {
        ErrorKind::ConnectionRefused => Disposition::Retry(Recoverable::ConnectionRefused),
        ErrorKind::ConnectionReset => Disposition::Retry(Recoverable::ConnectionReset),
        ErrorKind::BrokenPipe => Disposition::Retry(Recoverable::BrokenPipe),
        ErrorKind::InvalidInput => Disposition::Fatal,
        ErrorKind::UnexpectedEof => Disposition::Fatal,
        ErrorKind::Other => Disposition::Fatal,
        _ => Disposition::Unclassified,
    }
}

/// Where the supervisor stands between two attempts.
#[derive(Clone, Copy, Debug, PartialEq, Eq, Structural)]
pub enum Phase {
    /// An attempt to connect is due or under way.
    Connecting,
    /// The last attempt ended; the supervisor waits before the next one.
    Retrying,
}

/// What the supervisor does after an attempt has ended.
#[derive(Clone, Copy, Debug, PartialEq, Eq, Structural)]
pub enum Verdict {
    /// Wait [`RETRY_DELAY_MS`], then connect again.
    Retry,
    /// Stop and hand the error to the caller. `classified` is false when the
    /// kind of the error was not one the supervisor knows.
    Abort { classified: bool },
}

/// The state of the supervisor as mathematical values.
pub struct ReconnectView {
    pub phase: Phase,
    pub last_error_kind: Option<Recoverable>,
    pub retry_count: nat,
}

/// The state of the supervisor of reconnection.
///
/// `retry_count` counts the retries of the present streak: attempts that
/// ended the same way one after the other.
#[derive(Clone, Copy, Debug)]
pub struct Reconnect {
    phase: Phase,
    last_error_kind: Option<Recoverable>,
    retry_count: u64,
}

impl View for Reconnect {
    type V = ReconnectView;

    closed spec fn view(&self) -> ReconnectView {
        ReconnectView {
            phase: self.phase,
            last_error_kind: self.last_error_kind,
            retry_count: self.retry_count as nat,
        }
    }
}

/// The state in which a supervisor starts.
pub open spec fn initial() -> ReconnectView {
    ReconnectView { phase: Phase::Connecting, last_error_kind: None, retry_count: 0 }
}

/// How an attempt that ended leaves its mark: `None` when it ended without
/// an error, else the failure that may pass.
pub open spec fn mark_of(outcome: Option<ErrorKind>) -> Option<Recoverable> {
    match outcome {
        None => None,
        Some(kind) => match disposition_of(kind) {
            Disposition::Retry(r) => Some(r),
            _ => None,
        },
    }
}

/// Whether an attempt that ended this way is followed by another.
pub open spec fn retries(outcome: Option<ErrorKind>) -> bool {
    match outcome {
        None => true,
        Some(kind) => disposition_of(kind) is Retry,
    }
}

/// The verdict on an attempt that ended with `outcome`.
pub open spec fn verdict_of(outcome: Option<ErrorKind>) -> Verdict {
    match outcome {
        None => Verdict::Retry,
        Some(kind) => match disposition_of(kind) {
            Disposition::Retry(_) => Verdict::Retry,
            Disposition::Fatal => Verdict::Abort { classified: true },
            Disposition::Unclassified => Verdict::Abort { classified: false },
        },
    }
}

/// The state after an attempt ended with `outcome`. When another attempt
/// follows, the supervisor waits, and the count starts again at zero if the
/// attempt ended otherwise than the one before it. When none follows, the
/// state stays as it was.
pub open spec fn after_attempt(s: ReconnectView, outcome: Option<ErrorKind>) -> ReconnectView {
    if retries(outcome) {
        ReconnectView {
            phase: Phase::Retrying,
            last_error_kind: mark_of(outcome),
            retry_count: if s.last_error_kind == mark_of(outcome) {
                s.retry_count
            } else {
                0
            },
        }
    } else {
        s
    }
}

/// The state after the delay has passed: one more retry is counted and the
/// next attempt is due. A supervisor that was not waiting stays as it was.
/// The count stops at the largest value that it can hold.
pub open spec fn after_delay(s: ReconnectView) -> ReconnectView {
    if s.phase == Phase::Retrying {
        ReconnectView {
            phase: Phase::Connecting,
            retry_count: if s.retry_count < u64::MAX {
                s.retry_count + 1
            } else {
                s.retry_count
            },
            ..s
        }
    } else {
        s
    }
}

/// The state after `n` rounds in each of which an attempt ends with `outcome`
/// and the delay passes.
pub open spec fn after_rounds(s: ReconnectView, outcome: Option<ErrorKind>, n: nat) -> ReconnectView
    decreases n,
{
    if n == 0 {
        s
    } else {
        after_delay(after_attempt(after_rounds(s, outcome, (n - 1) as nat), outcome))
    }
}

impl Reconnect {
    /// A supervisor about to make its first attempt.
    pub fn new() -> (s: Reconnect)
        ensures
            s@ == initial(),
    {
        Reconnect { phase: Phase::Connecting, last_error_kind: None, retry_count: 0 }
    }

    /// Where the supervisor stands.
    pub fn phase(&self) -> (p: Phase)
        ensures
            p == self@.phase,
    {
        self.phase
    }

    /// How the last attempt ended, if it failed in a way that may pass.
    pub fn last_error_kind(&self) -> (k: Option<Recoverable>)
        ensures
            k == self@.last_error_kind,
    {
        self.last_error_kind
    }

    /// How many retries the present streak has seen.
    pub fn retry_count(&self) -> (n: u64)
        ensures
            n == self@.retry_count,
    {
        self.retry_count
    }

    /// Takes note that an attempt has ended: with `None` when the connection
    /// ran and ended without an error, else with the kind of its error.
    ///
    /// Every outcome moves the supervisor on: it either waits to connect
    /// again or gives up, and the verdict says which.
    ///
    /// Where the attempt ended otherwise than the one before it, the count
    /// goes back to zero here, at once. The retry itself is counted when
    /// the delay has passed, by [`Reconnect::on_delay_elapsed`]: while the
    /// supervisor waits, the count does not yet hold the retry that it
    /// waits for.
    pub fn on_attempt_finished(&mut self, outcome: Option<ErrorKind>) -> (v: Verdict)
        ensures
            v == verdict_of(outcome),
            final(self)@ == after_attempt(old(self)@, outcome),
    {
        let mark: Option<Recoverable> = match outcome {
            None => None,
            Some(kind) => match classify(kind) {
                Disposition::Retry(r) => Some(r),
                Disposition::Fatal => {
                    return Verdict::Abort { classified: true };
                },
                Disposition::Unclassified => {
                    return Verdict::Abort { classified: false };
                },
            },
        };
        if self.last_error_kind != mark {
            self.retry_count = 0;
        }
        self.last_error_kind = mark;
        self.phase = Phase::Retrying;
        Verdict::Retry
    }

    /// Takes note that the delay has passed. Returns whether the supervisor
    /// was waiting, in which case one more retry is counted and the next
    /// attempt is due.
    pub fn on_delay_elapsed(&mut self) -> (due: bool)
        ensures
            due == (old(self)@.phase == Phase::Retrying),
            final(self)@ == after_delay(old(self)@),
    {
        if self.phase == Phase::Retrying {
            if self.retry_count < u64::MAX {
                self.retry_count = self.retry_count + 1;
            }
            self.phase = Phase::Connecting;
            true
        } else {
            false
        }
    }
}

/// Every kind of error gets a verdict, and only the three kinds that pass
/// are retried: whatever else comes, known or not, ends the supervisor.
pub proof fn lemma_classification_is_total(kind: ErrorKind)
    ensures
        verdict_of(Some(kind)) == Verdict::Retry <==> (kind == ErrorKind::ConnectionRefused || kind
            == ErrorKind::ConnectionReset || kind == ErrorKind::BrokenPipe),
        verdict_of(Some(kind)) != Verdict::Retry ==> verdict_of(Some(kind)) is Abort,
        disposition_of(kind) is Unclassified ==> verdict_of(Some(kind)) == (Verdict::Abort {
            classified: false,
        }),
{
}

/// An attempt that ends as the one before it did leaves the count alone, and
/// the retry that follows adds one to it.
pub proof fn lemma_same_kind_increments(s: ReconnectView, outcome: Option<ErrorKind>)
    requires
        retries(outcome),
        s.last_error_kind == mark_of(outcome),
        s.retry_count < u64::MAX,
    ensures
        after_attempt(s, outcome).retry_count == s.retry_count,
        after_delay(after_attempt(s, outcome)).retry_count == s.retry_count + 1,
{
}

/// An attempt that ends otherwise than the one before it sets the count back
/// to zero at once, whatever the count was.
pub proof fn lemma_changed_kind_resets(s: ReconnectView, outcome: Option<ErrorKind>)
    requires
        retries(outcome),
        s.last_error_kind != mark_of(outcome),
    ensures
        after_attempt(s, outcome).retry_count == 0,
        after_attempt(s, outcome).last_error_kind == mark_of(outcome),
        after_attempt(s, outcome).phase == Phase::Retrying,
{
}

/// From the start, `n` attempts that fail the same way that passes, each
/// followed by its retry, bring the count to `n`.
pub proof fn lemma_streak_counts(kind: ErrorKind, n: nat)
    requires
        disposition_of(kind) is Retry,
        0 < n <= u64::MAX,
    ensures
        after_rounds(initial(), Some(kind), n) == (ReconnectView {
            phase: Phase::Connecting,
            last_error_kind: mark_of(Some(kind)),
            retry_count: n,
        }),
    decreases n,
{
    let before = after_rounds(initial(), Some(kind), (n - 1) as nat);
    if n > 1 {
        lemma_streak_counts(kind, (n - 1) as nat);
    }
    assert(after_rounds(initial(), Some(kind), n) == after_delay(
        after_attempt(before, Some(kind)),
    ));
}

/// After any number of refused connections in a row the count equals that
/// number, and the first reset connection after them sets it back to zero.
pub proof fn lemma_refused_then_reset(n: nat)
    requires
        0 < n <= u64::MAX,
    ensures
        after_rounds(initial(), Some(ErrorKind::ConnectionRefused), n).retry_count == n,
        after_attempt(
            after_rounds(initial(), Some(ErrorKind::ConnectionRefused), n),
            Some(ErrorKind::ConnectionReset),
        ).retry_count == 0,
        after_attempt(
            after_rounds(initial(), Some(ErrorKind::ConnectionRefused), n),
            Some(ErrorKind::ConnectionReset),
        ).last_error_kind == Some(Recoverable::ConnectionReset),
{
    lemma_streak_counts(ErrorKind::ConnectionRefused, n);
}

} // verus!
