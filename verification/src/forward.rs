//! The port-forward supervisor's decisions: readiness detection over the
//! forwarding command's log output, the bounded poll/timeout schedule, and
//! the reading of the process-table probe.  Spawning, sleeping and file
//! reading happen outside; every decision about what was read is made here.

use vstd::prelude::*;

use crate::text::{is_substring_of, str_contains_chars, str_to_chars};

verus! {

/// How long a forward attempt may take before it fails, measured from the
/// spawn.
pub const FORWARD_TIMEOUT_MS: u64 = 3000;

/// The pause between two looks at the readiness log.
pub const FORWARD_POLL_INTERVAL_MS: u64 = 100;

/// The line the forwarding command prints once the tunnel is live.
pub open spec fn readiness_marker() -> Seq<char> {
    "Forwarding from"@
}

/// Whether any line of the readiness log carries the marker.
pub fn log_contains_marker(lines: &Vec<String>) -> (r: bool)
    ensures
        r == exists|i: int|
            0 <= i < lines@.len() && is_substring_of(readiness_marker(), lines@[i]@),
{
    let marker: Vec<char> = str_to_chars("Forwarding from");
    let n: usize = lines.len();
    let mut i: usize = 0;
    while i < n
        invariant
            n == lines@.len(),
            i <= n,
            marker@ == readiness_marker(),
            forall|k: int| 0 <= k < i ==> !is_substring_of(readiness_marker(), lines@[k]@),
        decreases n - i,
    {
        if str_contains_chars(lines[i].as_str(), &marker) {
            return true;
        }
        i += 1;
    }
    false
}

/// What the supervisor does after one look at the log.
#[derive(Clone, Copy, Debug, PartialEq, Eq, Structural)]
pub enum ForwardStep {
    /// The marker appeared: the tunnel is live.
    Ready,
    /// Nothing yet and time remains: sleep one interval and look again.
    Wait,
    /// The timeout has passed without the marker: the attempt failed.
    TimedOut,
}

/// One forward attempt's clock: how much time the poll has consumed.
pub struct ForwardAttempt {
    pub elapsed_ms: u64,
}

impl ForwardAttempt {
    /// A fresh attempt, started at the moment of the spawn.
    pub fn new() -> (r: Self)
        ensures
            r.elapsed_ms == 0,
    {
        ForwardAttempt { elapsed_ms: 0 }
    }

    /// Decide after one look at the log: ready as soon as the marker was
    /// seen; failed once the timeout has passed; otherwise wait exactly one
    /// more interval.
    pub fn step(&mut self, marker_seen: bool) -> (d: ForwardStep)
        ensures
            marker_seen ==> d == ForwardStep::Ready && *final(self) == *old(self),
            !marker_seen && old(self).elapsed_ms >= FORWARD_TIMEOUT_MS ==> d
                == ForwardStep::TimedOut && *final(self) == *old(self),
            !marker_seen && old(self).elapsed_ms < FORWARD_TIMEOUT_MS ==> d == ForwardStep::Wait
                && final(self).elapsed_ms == old(self).elapsed_ms + FORWARD_POLL_INTERVAL_MS,
    {
        if marker_seen {
            ForwardStep::Ready
        } else if self.elapsed_ms >= FORWARD_TIMEOUT_MS {
            ForwardStep::TimedOut
        } else {
            self.elapsed_ms = self.elapsed_ms + FORWARD_POLL_INTERVAL_MS;
            ForwardStep::Wait
        }
    }
}

/// Forward readiness timeout: a poll whose log never shows the marker fails
/// no earlier than the timeout and no later than one poll interval past it.
///
/// `elapsed` is the clock of a run as `step` produces it: it starts at
/// zero, every step but the last waited (it was before the timeout and
/// advanced the clock by one interval), and the last step found the
/// timeout passed and failed.
pub proof fn lemma_forward_timeout_window(elapsed: Seq<int>, n: int)
    requires
        n >= 1,
        elapsed.len() == n + 1,
        elapsed[0] == 0,
        forall|i: int|
            0 <= i < n ==> (#[trigger] elapsed[i]) < FORWARD_TIMEOUT_MS && elapsed[i + 1]
                == elapsed[i] + FORWARD_POLL_INTERVAL_MS,
        elapsed[n] >= FORWARD_TIMEOUT_MS,
    ensures
        FORWARD_TIMEOUT_MS <= elapsed[n] < FORWARD_TIMEOUT_MS + FORWARD_POLL_INTERVAL_MS,
{
    let m = n - 1;
    assert(elapsed[m] < FORWARD_TIMEOUT_MS);
    assert(elapsed[m + 1] == elapsed[m] + FORWARD_POLL_INTERVAL_MS);
    assert(elapsed[n] == elapsed[m + 1]);
}

/// Newlines in `bytes`.
pub open spec fn count_newlines(bytes: Seq<u8>) -> nat
    decreases bytes.len(),
{
    if bytes.len() == 0 {
        0
    } else {
        count_newlines(bytes.drop_last()) + (if bytes.last() == 10u8 {
            1nat
        } else {
            0nat
        })
    }
}

/// How many lines `bytes` holds, counting as text lines do: empty output
/// has none, and a trailing newline closes the last line instead of
/// opening a new one.
pub open spec fn line_count(bytes: Seq<u8>) -> nat {
    if bytes.len() == 0 {
        0
    } else {
        count_newlines(bytes) + (if bytes.last() == 10u8 {
            0nat
        } else {
            1nat
        })
    }
}

/// The number of newlines never exceeds the number of bytes.
proof fn lemma_count_newlines_bound(bytes: Seq<u8>)
    ensures
        count_newlines(bytes) <= bytes.len(),
    decreases bytes.len(),
{
    if bytes.len() > 0 {
        lemma_count_newlines_bound(bytes.drop_last());
    }
}

/// The line count of the probe's output.
pub fn output_line_count(bytes: &Vec<u8>) -> (r: usize)
    ensures
        r == line_count(bytes@),
{
    let n: usize = bytes.len();
    if n == 0 {
        return 0;
    }
    let mut newlines: usize = 0;
    let mut i: usize = 0;
    while i < n
        invariant
            n == bytes@.len(),
            i <= n,
            newlines == count_newlines(bytes@.take(i as int)),
            newlines <= i,
        decreases n - i,
    {
        proof {
            assert(bytes@.take(i + 1).drop_last() =~= bytes@.take(i as int));
            assert(bytes@.take(i + 1).last() == bytes@[i as int]);
        }
        if bytes[i] == 10 {
            newlines += 1;
        }
        i += 1;
    }
    proof {
        assert(bytes@.take(n as int) =~= bytes@);
        lemma_count_newlines_bound(bytes@);
    }
    if bytes[n - 1] == 10 {
        newlines
    } else {
        proof {
            assert(bytes@.last() == bytes@[n - 1]);
            assert(count_newlines(bytes@) == count_newlines(bytes@.drop_last()));
            lemma_count_newlines_bound(bytes@.drop_last());
        }
        newlines + 1
    }
}

/// Read the process-table probe: the process counts as alive only when the
/// probe succeeded and reported more than its header line.
pub fn ps_indicates_alive(status_success: bool, stdout: &Vec<u8>) -> (r: bool)
    ensures
        r == (status_success && line_count(stdout@) > 1),
{
    if !status_success {
        return false;
    }
    let lines = output_line_count(stdout);
    lines > 1
}

/// The user-facing failure text of a timed-out attempt: the forwarding
/// command's collected error output, or a generic message when it printed
/// nothing.
pub fn timeout_error_message(stderr_text: String) -> (r: String)
    ensures
        stderr_text@.len() > 0 ==> r@ == stderr_text@,
        stderr_text@.len() == 0 ==> r@ == "port-forward timed out before it became ready"@,
{
    if stderr_text.as_str().is_empty() {
        "port-forward timed out before it became ready".to_owned()
    } else {
        stderr_text
    }
}

} // verus!
