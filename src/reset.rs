//! Resynchronizing the line with the device: write a newline and watch what
//! comes back until a carriage return and a line feed have both been seen.
use vstd::prelude::*;
use crate::config::CARD_RESET_DRAIN_DELAY_MS;

verus! {

/// What one read of the reset attempt produced, after racing the drain timer.
#[derive(Debug, Clone, Copy, PartialEq, Eq, Structural)]
pub enum ReadOutcome {
    /// The read completed first and delivered this byte.
    Byte(u8),
    /// The read completed first but failed or delivered nothing.
    Failed,
    /// The drain timer completed first.
    TimedOut,
}

/// Where a reset attempt stands.
#[derive(Debug, Clone, Copy, PartialEq, Eq, Structural)]
pub enum AttemptVerdict {
    /// Keep reading.
    Pending,
    /// Carriage return and line feed came back alone: the line is in sync.
    Clean,
    /// Carriage return and line feed came back with other bytes.
    Noisy,
    /// The drain timer won before both were seen.
    TimedOut,
}

/// What the reset procedure does next.
#[derive(Debug, Clone, Copy, PartialEq, Eq, Structural)]
pub enum ResetNext {
    /// Run one more attempt.
    Attempt,
    /// An attempt came back clean: the reset succeeded.
    Synced,
    /// Every attempt was used without a clean one: the reset timed out.
    GaveUp,
}

/// The three flags an attempt keeps over the bytes it has seen.
#[derive(Debug, Clone, Copy, PartialEq, Eq, Structural)]
pub struct ResetFlags {
    pub carriage_return: bool,
    pub newline: bool,
    pub other: bool,
}

/// The byte that a read leaves in the one-byte read buffer, which starts
/// zeroed.
pub open spec fn observed_byte(r: ReadOutcome) -> u8 {
    match r {
        ReadOutcome::Byte(b) => b,
        _ => 0,
    }
}

pub open spec fn no_flags() -> ResetFlags {
    ResetFlags { carriage_return: false, newline: false, other: false }
}

/// The flags after one more read.
pub open spec fn update_flags(f: ResetFlags, r: ReadOutcome) -> ResetFlags {
    if r is TimedOut {
        f
    } else if observed_byte(r) == 13 {
        ResetFlags { carriage_return: true, ..f }
    } else if observed_byte(r) == 10 {
        ResetFlags { newline: true, ..f }
    } else {
        ResetFlags { other: true, ..f }
    }
}

/// The flags after a sequence of reads.
pub open spec fn flags_after(reads: Seq<ReadOutcome>) -> ResetFlags
    decreases reads.len(),
{
    if reads.len() == 0 {
        no_flags()
    } else {
        update_flags(flags_after(reads.drop_last()), reads.last())
    }
}

/// The verdict of the read `r` made with the flags `f`.
pub open spec fn verdict_step(f: ResetFlags, r: ReadOutcome) -> AttemptVerdict {
    let g = update_flags(f, r);
    if r is TimedOut {
        AttemptVerdict::TimedOut
    } else if g.carriage_return && g.newline {
        if g.other {
            AttemptVerdict::Noisy
        } else {
            AttemptVerdict::Clean
        }
    } else {
        AttemptVerdict::Pending
    }
}

/// The verdict of an attempt after its reads so far.
pub open spec fn attempt_verdict(reads: Seq<ReadOutcome>) -> AttemptVerdict {
    if reads.len() == 0 {
        AttemptVerdict::Pending
    } else {
        verdict_step(flags_after(reads.drop_last()), reads.last())
    }
}

/// Milliseconds an attempt spends waiting on the drain timer: once after a
/// failed newline write, and once when the timer wins a read.
pub open spec fn attempt_wait(write_ok: bool, reads: Seq<ReadOutcome>) -> nat {
    (if write_ok {
        0nat
    } else {
        CARD_RESET_DRAIN_DELAY_MS as nat
    }) + (if reads.len() > 0 && reads.last() is TimedOut {
        CARD_RESET_DRAIN_DELAY_MS as nat
    } else {
        0nat
    })
}

/// One reset attempt, from the newline written to its verdict.
pub struct ResetAttempt {
    flags: ResetFlags,
    verdict: AttemptVerdict,
    write_ok: Ghost<bool>,
    reads: Ghost<Seq<ReadOutcome>>,
}

impl ResetAttempt {
    pub closed spec fn reads(&self) -> Seq<ReadOutcome> {
        self.reads@
    }

    pub closed spec fn write_ok(&self) -> bool {
        self.write_ok@
    }

    pub closed spec fn verdict_spec(&self) -> AttemptVerdict {
        self.verdict
    }

    pub closed spec fn wf(&self) -> bool {
        &&& self.flags == flags_after(self.reads@)
        &&& self.verdict == attempt_verdict(self.reads@)
    }

    /// Start an attempt once the newline has been written (or the write has
    /// failed). Returns the attempt and how long to wait on the drain timer
    /// before the first read: nothing unless the write failed.
    pub fn start(write_ok: bool) -> (r: (ResetAttempt, u32))
        ensures
            r.0.wf(),
            r.0.reads() == Seq::<ReadOutcome>::empty(),
            r.0.write_ok() == write_ok,
            r.0.verdict_spec() == AttemptVerdict::Pending,
            r.1 == (if write_ok {
                0
            } else {
                CARD_RESET_DRAIN_DELAY_MS
            }),
    {
        let attempt = ResetAttempt {
            flags: ResetFlags { carriage_return: false, newline: false, other: false },
            verdict: AttemptVerdict::Pending,
            write_ok: Ghost(write_ok),
            reads: Ghost(Seq::empty()),
        };
        let wait = if write_ok {
            0
        } else {
            CARD_RESET_DRAIN_DELAY_MS
        };
        (attempt, wait)
    }

    /// Take the outcome of one more read and say where the attempt stands.
    pub fn observe(&mut self, r: ReadOutcome) -> (v: AttemptVerdict)
        requires
            old(self).wf(),
            old(self).verdict_spec() == AttemptVerdict::Pending,
        ensures
            final(self).wf(),
            final(self).reads() == old(self).reads().push(r),
            final(self).write_ok() == old(self).write_ok(),
            final(self).verdict_spec() == v,
            v == attempt_verdict(final(self).reads()),
    {
        let ghost before = self.reads@;
        if let ReadOutcome::TimedOut = r {
            self.verdict = AttemptVerdict::TimedOut;
        } else {
            let byte: u8 = match r {
                ReadOutcome::Byte(b) => b,
                _ => 0,
            };
            if byte == 13 {
                self.flags.carriage_return = true;
            } else if byte == 10 {
                self.flags.newline = true;
            } else {
                self.flags.other = true;
            }
            if self.flags.carriage_return && self.flags.newline {
                self.verdict = if self.flags.other {
                    AttemptVerdict::Noisy
                } else {
                    AttemptVerdict::Clean
                };
            }
        }
        self.reads = Ghost(before.push(r));
        proof {
            assert(self.reads@.drop_last() =~= before);
        }
        self.verdict
    }

    /// The attempt's verdict so far.
    pub fn verdict(&self) -> (v: AttemptVerdict)
        ensures
            v == self.verdict_spec(),
    {
        self.verdict
    }
}

/// What the reset procedure does after the attempts in `history`, with
/// `retry` attempts allowed.
pub open spec fn reset_verdict(retry: nat, history: Seq<AttemptVerdict>) -> ResetNext {
    if history.len() > 0 && history.last() == AttemptVerdict::Clean {
        ResetNext::Synced
    } else if history.len() >= retry {
        ResetNext::GaveUp
    } else {
        ResetNext::Attempt
    }
}

/// A finished attempt as the reset saw it: whether its newline write
/// succeeded, and the outcomes of its reads.
pub type AttemptRecord = (bool, Seq<ReadOutcome>);

/// The verdicts of a sequence of finished attempts.
pub open spec fn verdicts(attempts: Seq<AttemptRecord>) -> Seq<AttemptVerdict> {
    attempts.map_values(|a: AttemptRecord| attempt_verdict(a.1))
}

/// Milliseconds that a sequence of attempts spends on the drain timer.
pub open spec fn total_wait(attempts: Seq<AttemptRecord>) -> nat
    decreases attempts.len(),
{
    if attempts.len() == 0 {
        0
    } else {
        total_wait(attempts.drop_last()) + attempt_wait(attempts.last().0, attempts.last().1)
    }
}

/// The attempts a reset has made so far.
pub struct ResetProgress {
    retry: usize,
    used: usize,
    attempts: Ghost<Seq<AttemptRecord>>,
}

impl ResetProgress {
    pub closed spec fn retry(&self) -> nat {
        self.retry as nat
    }

    /// The finished attempts, in order.
    pub closed spec fn attempts(&self) -> Seq<AttemptRecord> {
        self.attempts@
    }

    /// The verdicts of the finished attempts, in order.
    pub open spec fn history(&self) -> Seq<AttemptVerdict> {
        verdicts(self.attempts())
    }

    /// Milliseconds spent waiting on the drain timer so far.
    pub open spec fn elapsed(&self) -> nat {
        total_wait(self.attempts())
    }

    pub closed spec fn wf(&self) -> bool {
        &&& self.used == self.attempts@.len()
        &&& self.used <= self.retry
    }

    /// Begin a reset that may make `retry` attempts.
    pub fn new(retry: usize) -> (r: (ResetProgress, ResetNext))
        ensures
            r.0.wf(),
            r.0.retry() == retry,
            r.0.attempts() == Seq::<AttemptRecord>::empty(),
            r.1 == reset_verdict(retry as nat, Seq::empty()),
    {
        let p = ResetProgress { retry, used: 0, attempts: Ghost(Seq::empty()) };
        let next = if retry == 0 {
            ResetNext::GaveUp
        } else {
            ResetNext::Attempt
        };
        (p, next)
    }

    /// Record a finished attempt and say what to do next.
    pub fn record(&mut self, attempt: &ResetAttempt) -> (next: ResetNext)
        requires
            old(self).wf(),
            reset_verdict(old(self).retry(), old(self).history()) == ResetNext::Attempt,
            attempt.wf(),
            attempt.verdict_spec() != AttemptVerdict::Pending,
        ensures
            final(self).wf(),
            final(self).retry() == old(self).retry(),
            final(self).attempts() == old(self).attempts().push((attempt.write_ok(), attempt.reads())),
            next == reset_verdict(final(self).retry(), final(self).history()),
    {
        let v = attempt.verdict();
        let ghost before = self.attempts@;
        self.used = self.used + 1;
        self.attempts = Ghost(before.push((attempt.write_ok(), attempt.reads())));
        proof {
            assert(verdicts(self.attempts@) =~= verdicts(before).push(v));
        }
        if let AttemptVerdict::Clean = v {
            ResetNext::Synced
        } else if self.used >= self.retry {
            ResetNext::GaveUp
        } else {
            ResetNext::Attempt
        }
    }
}

/// Against a transport that never answers, every attempt writes its newline
/// and then loses its first read to the drain timer. After `n` such attempts
/// the reset has waited `n` drain delays; it is still going while `n` is below
/// `retry`, and gives up with a timeout exactly when `n` reaches it.
pub proof fn lemma_silent_transport(retry: nat, attempts: Seq<AttemptRecord>)
    requires
        attempts.len() <= retry,
        forall|i: int|
            0 <= i < attempts.len() ==> #[trigger] attempts[i] == (
                true,
                seq![ReadOutcome::TimedOut],
            ),
    ensures
        total_wait(attempts) == attempts.len() * CARD_RESET_DRAIN_DELAY_MS,
        attempts.len() < retry ==> reset_verdict(retry, verdicts(attempts)) == ResetNext::Attempt,
        attempts.len() == retry ==> reset_verdict(retry, verdicts(attempts)) == ResetNext::GaveUp,
    decreases attempts.len(),
{
    if attempts.len() > 0 {
        let rest = attempts.drop_last();
        assert forall|i: int| 0 <= i < rest.len() implies #[trigger] rest[i] == (
            true,
            seq![ReadOutcome::TimedOut],
        ) by {
            assert(rest[i] == attempts[i]);
        }
        lemma_silent_transport(retry, rest);
        assert(attempts.last() == attempts[attempts.len() - 1]);
        assert(seq![ReadOutcome::TimedOut].last() == ReadOutcome::TimedOut);
        assert(total_wait(attempts) == (attempts.len() - 1) * CARD_RESET_DRAIN_DELAY_MS
            + CARD_RESET_DRAIN_DELAY_MS);
        assert(total_wait(attempts) == attempts.len() * CARD_RESET_DRAIN_DELAY_MS)
            by (nonlinear_arith)
            requires
                total_wait(attempts) == (attempts.len() - 1) * CARD_RESET_DRAIN_DELAY_MS
                    + CARD_RESET_DRAIN_DELAY_MS,
                attempts.len() > 0,
        ;
        let v = verdicts(attempts);
        assert(v[v.len() - 1] == attempt_verdict(seq![ReadOutcome::TimedOut]));
        assert(v.last() == AttemptVerdict::TimedOut);
    }
}

/// An attempt that reads a byte other than a carriage return or a line feed,
/// then a carriage return and a line feed, stays pending through the first
/// two reads and ends noisy on the third.
pub proof fn lemma_noisy_echo(noise: u8)
    requires
        noise != 10,
        noise != 13,
    ensures
        attempt_verdict(seq![ReadOutcome::Byte(noise)]) == AttemptVerdict::Pending,
        attempt_verdict(seq![ReadOutcome::Byte(noise), ReadOutcome::Byte(13)])
            == AttemptVerdict::Pending,
        attempt_verdict(seq![ReadOutcome::Byte(noise), ReadOutcome::Byte(13), ReadOutcome::Byte(10)])
            == AttemptVerdict::Noisy,
{
    let r1 = seq![ReadOutcome::Byte(noise)];
    let r2 = seq![ReadOutcome::Byte(noise), ReadOutcome::Byte(13)];
    let r3 = seq![ReadOutcome::Byte(noise), ReadOutcome::Byte(13), ReadOutcome::Byte(10)];
    assert(r1.drop_last() =~= Seq::<ReadOutcome>::empty());
    assert(r2.drop_last() =~= r1);
    assert(r3.drop_last() =~= r2);
    assert(r1.last() == ReadOutcome::Byte(noise));
    assert(r2.last() == ReadOutcome::Byte(13));
    assert(r3.last() == ReadOutcome::Byte(10));
    assert(flags_after(Seq::<ReadOutcome>::empty()) == no_flags());
    assert(flags_after(r1) == ResetFlags { carriage_return: false, newline: false, other: true });
    assert(flags_after(r2) == ResetFlags { carriage_return: true, newline: false, other: true });
}

/// Attempts that each end noisy or timed out never synchronize: the reset
/// goes on while fewer than `retry` have been made, and gives up exactly
/// when `retry` have.
pub proof fn lemma_unclean_attempts_exhaust(retry: nat, history: Seq<AttemptVerdict>)
    requires
        history.len() <= retry,
        forall|i: int|
            0 <= i < history.len() ==> #[trigger] history[i] == AttemptVerdict::Noisy
                || history[i] == AttemptVerdict::TimedOut,
    ensures
        history.len() < retry ==> reset_verdict(retry, history) == ResetNext::Attempt,
        history.len() == retry ==> reset_verdict(retry, history) == ResetNext::GaveUp,
{
    if history.len() > 0 {
        assert(history[history.len() - 1] != AttemptVerdict::Clean);
    }
}

/// An attempt that reads a carriage return and a line feed, and nothing else,
/// is clean; the first clean attempt ends the reset in success.
pub proof fn lemma_clean_echo_syncs(retry: nat)
    requires
        retry > 0,
    ensures
        attempt_verdict(seq![ReadOutcome::Byte(13), ReadOutcome::Byte(10)])
            == AttemptVerdict::Clean,
        reset_verdict(retry, seq![AttemptVerdict::Clean]) == ResetNext::Synced,
{
    let reads = seq![ReadOutcome::Byte(13), ReadOutcome::Byte(10)];
    assert(reads.drop_last() =~= seq![ReadOutcome::Byte(13)]);
    assert(seq![ReadOutcome::Byte(13)].drop_last() =~= Seq::<ReadOutcome>::empty());
    assert(flags_after(Seq::<ReadOutcome>::empty()) == no_flags());
    assert(seq![ReadOutcome::Byte(13)].last() == ReadOutcome::Byte(13));
    assert(reads.last() == ReadOutcome::Byte(10));
    assert(flags_after(seq![ReadOutcome::Byte(13)]) == ResetFlags {
        carriage_return: true,
        newline: false,
        other: false,
    });
}

} // verus!
