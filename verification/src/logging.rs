//! A logging adapter for a native storage engine: engine worker threads hand
//! leveled, possibly non-UTF-8 text across a narrow boundary, and the adapter
//! decodes the level, filters against a configured threshold, and dispatches
//! each surviving line to an application-supplied logger exactly once.

use vstd::prelude::*;

verus! {

/// Severity domain of the adapter, mirroring the engine's own ordinal level
/// scheme. `Header` is not a true severity: it marks a header line, which is
/// routed to the header capability rather than to the leveled one.
#[derive(Clone, Copy, Debug, PartialEq, Eq, Structural)]
pub enum LogLevel {
    Debug,
    Info,
    Warn,
    Error,
    Header,
}

/// The level that the engine's numeric `code` denotes: 0 is Debug, 1 Info,
/// 2 Warn, 3 and 4 both collapse to Error, 5 is the header marker, and any
/// other value falls back to Debug rather than failing.
pub open spec fn level_of_code(code: int) -> LogLevel {
    if code == 0 {
        LogLevel::Debug
    } else if code == 1 {
        LogLevel::Info
    } else if code == 2 {
        LogLevel::Warn
    } else if code == 3 || code == 4 {
        LogLevel::Error
    } else if code == 5 {
        LogLevel::Header
    } else {
        LogLevel::Debug
    }
}

/// Decodes the engine's numeric level encoding into the adapter's domain.
pub fn map_level(code: i32) -> (level: LogLevel)
    ensures
        level == level_of_code(code as int),
{
    if code == 0 {
        LogLevel::Debug
    } else if code == 1 {
        LogLevel::Info
    } else if code == 2 {
        LogLevel::Warn
    } else if code == 3 || code == 4 {
        LogLevel::Error
    } else if code == 5 {
        LogLevel::Header
    } else {
        LogLevel::Debug
    }
}

/// The recovered text of a raw byte buffer: what lossy UTF-8 decoding yields,
/// a function of the bytes alone.
pub uninterp spec fn lossy_utf8_of(bytes: Seq<u8>) -> Seq<char>;

/// Relies on `String::from_utf8_lossy`: the recovered text depends on the
/// bytes alone, the call never fails, and an empty buffer recovers to the
/// empty string.
#[verifier::external_body]
fn lossy_utf8(bytes: &[u8]) -> (text: String)
    ensures
        text@ == lossy_utf8_of(bytes@),
        bytes@.len() == 0 ==> text@.len() == 0,
{
    String::from_utf8_lossy(bytes).into_owned()
}

/// The capability contract an application-supplied logger satisfies. Every
/// method may be called concurrently from any number of engine worker threads,
/// must not block for unbounded time, and must not let a failure unwind back
/// across the boundary; only `log_str` has to be supplied.
pub trait RocksDbLogger: Send + Sync {
    /// Logs an opaque header line. By default it is treated as an ordinary
    /// message at the Info level.
    fn log_header(&self, header: &[u8]) {
        self.log(LogLevel::Info, header);
    }

    /// Logs a raw byte buffer straight off the boundary. The bytes need not be
    /// valid UTF-8: the default recovers them lossily and forwards the text to
    /// `log_str`, and never fails on any byte sequence.
    fn log(&self, level: LogLevel, msg: &[u8]) {
        let text = lossy_utf8(msg);
        self.log_str(level, text.as_str());
    }

    /// Logs a leveled text message: the one method an implementation must
    /// supply.
    fn log_str(&self, level: LogLevel, msg: &str);
}

/// Where one boundary call into the wrapper is routed: to the header
/// capability, or to the leveled one with the decoded level.
#[derive(Clone, Copy, Debug, PartialEq, Eq, Structural)]
pub enum Dispatch {
    Header,
    Message(LogLevel),
}

/// Where the wrapper routes a call that carries the numeric level `code`:
/// the header marker goes to the header capability, everything else to the
/// leveled one under the decoded level.
pub open spec fn dispatch_of(code: int) -> Dispatch {
    if level_of_code(code) is Header {
        Dispatch::Header
    } else {
        Dispatch::Message(level_of_code(code))
    }
}

/// Owns the application-supplied logger behind one indirection, so that the
/// handle handed across the boundary is a single word. The wrapper is the only
/// managed-side entry point the native side calls into.
pub struct CppLoggerWrapper<L: RocksDbLogger> {
    inner: Box<L>,
}

impl<L: RocksDbLogger> CppLoggerWrapper<L> {
    /// The owned application logger.
    pub closed spec fn logger(&self) -> L {
        *self.inner
    }

    /// Boxes an application logger; ownership of the box passes to whoever
    /// holds the wrapper, ultimately the native-side logger object.
    pub fn new(logger: L) -> (wrapper: Self)
        ensures
            wrapper.logger() == logger,
    {
        CppLoggerWrapper { inner: Box::new(logger) }
    }

    /// Presents the boundary-facing interface on the owned logger: decodes the
    /// numeric level and routes the bytes to either `log_header` or `log`,
    /// dispatching exactly once per call.
    pub fn log(&self, level: i32, msg: &[u8]) -> (dispatched: Dispatch)
        ensures
            dispatched == dispatch_of(level as int),
    {
        let mapped = map_level(level);
        if mapped == LogLevel::Header {
            self.inner.log_header(msg);
            Dispatch::Header
        } else {
            self.inner.log(mapped, msg);
            Dispatch::Message(mapped)
        }
    }
}

/// Size of the fixed native-side formatting buffer. A line whose formatted
/// length does not fit below this bound is dropped silently, never truncated.
pub const LOG_BUFFER_SIZE: usize = 1024;

/// What a single native log call came to.
#[derive(Clone, Copy, Debug, PartialEq, Eq, Structural)]
pub enum LogOutcome {
    /// Below the configured threshold: filtered out before any formatting.
    Filtered,
    /// The formatted text did not fit the fixed buffer: dropped silently.
    Dropped,
    /// The handle to the managed logger was already released: nothing to call.
    Inactive,
    /// Exactly one call crossed the boundary, routed as recorded.
    Dispatched(Dispatch),
}

/// The outcome of a native log call carrying level `code` and a formatted text
/// of `len` bytes, against threshold `threshold`, while the managed handle is
/// (`alive`) or is not still owned. The threshold test comes first, before any
/// formatting cost; an oversized line is then dropped; and only a call that
/// survives both, made while the handle is alive, dispatches.
pub open spec fn outcome_of(code: int, threshold: int, len: nat, alive: bool) -> LogOutcome {
    if code < threshold {
        LogOutcome::Filtered
    } else if len >= LOG_BUFFER_SIZE {
        LogOutcome::Dropped
    } else if !alive {
        LogOutcome::Inactive
    } else {
        LogOutcome::Dispatched(dispatch_of(code))
    }
}

/// Models the native-side logger object: it satisfies the engine's logging
/// contract, holds the minimum severity threshold it was configured with, and
/// owns the opaque handle to the managed wrapper. It is the sole owner of the
/// handle and the only entity permitted to release it.
pub struct ShimLogger<L: RocksDbLogger> {
    threshold: i32,
    handle: Option<CppLoggerWrapper<L>>,
}

impl<L: RocksDbLogger> ShimLogger<L> {
    /// The configured minimum severity threshold, in the engine's numeric
    /// encoding.
    pub closed spec fn threshold_code(&self) -> int {
        self.threshold as int
    }

    /// Whether the handle to the managed wrapper is still owned.
    pub closed spec fn is_alive(&self) -> bool {
        self.handle is Some
    }

    /// Builds the native-side logger from a threshold and the handle whose
    /// ownership it takes.
    pub fn new(threshold: i32, handle: CppLoggerWrapper<L>) -> (shim: Self)
        ensures
            shim.threshold_code() == threshold as int,
            shim.is_alive(),
    {
        ShimLogger { threshold, handle: Some(handle) }
    }

    /// The single-argument logging overload: the line is treated as severity
    /// Info (numeric code 1) and handed to the leveled overload.
    pub fn logv(&self, msg: &[u8]) -> (outcome: LogOutcome)
        ensures
            outcome == outcome_of(1, self.threshold_code(), msg@.len(), self.is_alive()),
    {
        self.logv_leveled(1, msg)
    }

    /// The leveled logging overload, called concurrently from engine worker
    /// threads: filters against the threshold before anything else, drops a
    /// line that would not have fit the fixed formatting buffer, and otherwise
    /// hands the line across the boundary in exactly one call.
    pub fn logv_leveled(&self, level: i32, msg: &[u8]) -> (outcome: LogOutcome)
        ensures
            outcome == outcome_of(level as int, self.threshold_code(), msg@.len(), self.is_alive()),
    {
        if level < self.threshold {
            return LogOutcome::Filtered;
        }
        if msg.len() >= LOG_BUFFER_SIZE {
            return LogOutcome::Dropped;
        }
        match &self.handle {
            None => LogOutcome::Inactive,
            Some(wrapper) => LogOutcome::Dispatched(wrapper.log(level, msg)),
        }
    }

    /// The teardown path of the native-side logger: releases the owned managed
    /// logger exactly once and clears the handle, so that no later call can
    /// dispatch. The threshold is untouched.
    pub fn destroy(&mut self)
        ensures
            !final(self).is_alive(),
            final(self).threshold_code() == old(self).threshold_code(),
    {
        self.handle = None;
    }
}

/// Threshold filtering is strict: a call whose level lies below the configured
/// threshold is filtered before formatting, so no dispatch into the
/// application logger occurs, whatever the text, and whether or not the handle
/// is still alive.
pub proof fn lemma_below_threshold_never_dispatches(code: int, threshold: int, len: nat, alive: bool)
    requires
        code < threshold,
    ensures
        outcome_of(code, threshold, len, alive) == LogOutcome::Filtered,
{
}

/// Threshold filtering is monotonic: raising the threshold never lets a call
/// through that a lower threshold filtered out.
pub proof fn lemma_threshold_monotonic(code: int, lower: int, higher: int, len: nat, alive: bool)
    requires
        lower <= higher,
        outcome_of(code, lower, len, alive) == LogOutcome::Filtered,
    ensures
        outcome_of(code, higher, len, alive) == LogOutcome::Filtered,
{
}

/// Every call at or above the threshold whose text fits the fixed buffer,
/// made while the handle is alive, dispatches exactly once, and under the
/// correct decoding: the header marker 5 goes to the header capability, and
/// the severities 0, 1, 2, 3 and 4 go to the leveled capability as Debug,
/// Info, Warn, Error and Error; any other code falls back to Debug.
pub proof fn lemma_at_or_above_threshold_dispatches(code: int, threshold: int, len: nat)
    requires
        threshold <= code,
        len < LOG_BUFFER_SIZE,
    ensures
        outcome_of(code, threshold, len, true) == LogOutcome::Dispatched(dispatch_of(code)),
        dispatch_of(0) == Dispatch::Message(LogLevel::Debug),
        dispatch_of(1) == Dispatch::Message(LogLevel::Info),
        dispatch_of(2) == Dispatch::Message(LogLevel::Warn),
        dispatch_of(3) == Dispatch::Message(LogLevel::Error),
        dispatch_of(4) == Dispatch::Message(LogLevel::Error),
        dispatch_of(5) == Dispatch::Header,
        !(code == 0 || code == 1 || code == 2 || code == 3 || code == 4 || code == 5)
            ==> dispatch_of(code) == Dispatch::Message(LogLevel::Debug),
{
}

/// A line whose formatted length would exceed the fixed buffer bound is
/// dropped silently, never dispatched and never truncated, even at or above
/// the threshold.
pub proof fn lemma_oversized_line_dropped(code: int, threshold: int, len: nat, alive: bool)
    requires
        threshold <= code,
        len >= LOG_BUFFER_SIZE,
    ensures
        outcome_of(code, threshold, len, alive) == LogOutcome::Dropped,
{
}

/// Once the handle has been released no later call dispatches, whatever its
/// level or text.
pub proof fn lemma_no_dispatch_after_destroy(code: int, threshold: int, len: nat)
    ensures
        !(outcome_of(code, threshold, len, false) matches LogOutcome::Dispatched(_)),
{
}

/// How many calls of a batch dispatched.
pub open spec fn count_dispatched(outcomes: Seq<LogOutcome>) -> nat
    decreases outcomes.len(),
{
    if outcomes.len() == 0 {
        0
    } else {
        count_dispatched(outcomes.drop_last()) + (if outcomes.last() is Dispatched {
            1nat
        } else {
            0nat
        })
    }
}

/// The outcomes of a batch of calls, each a level code paired with its text
/// length, against one live logger with the given threshold.
pub open spec fn outcomes_of(calls: Seq<(int, nat)>, threshold: int) -> Seq<LogOutcome> {
    calls.map(|i: int, c: (int, nat)| outcome_of(c.0, threshold, c.1, true))
}

/// However many engine threads interleave their calls, a batch in which every
/// call is at or above the threshold and fits the buffer yields exactly one
/// dispatch per call: the application logger sees as many dispatches as there
/// were calls, in whatever order the batch arrived.
pub proof fn lemma_batch_dispatches_all(calls: Seq<(int, nat)>, threshold: int)
    requires
        forall|i: int|
            0 <= i < calls.len() ==> threshold <= (#[trigger] calls[i]).0 && calls[i].1
                < LOG_BUFFER_SIZE,
    ensures
        count_dispatched(outcomes_of(calls, threshold)) == calls.len(),
    decreases calls.len(),
{
    if calls.len() > 0 {
        lemma_batch_dispatches_all(calls.drop_last(), threshold);
        assert(outcomes_of(calls, threshold).drop_last() =~= outcomes_of(
            calls.drop_last(),
            threshold,
        ));
    }
}

} // verus!

