//! Reduction of a bounded sequence of reachability probes to one verdict.
//!
//! A probe sequence short-circuits: the first successful probe yields
//! `Reachable`, a local (bind/socket) error yields `Inconclusive`, and once
//! failed attempts reach the configured threshold the verdict is
//! `Unreachable`.

use vstd::prelude::*;

verus! {

/// Outcome of one probe attempt, as reported by the probing collaborator.
pub enum ProbeAttempt {
    /// The target answered.
    Success,
    /// The probe timed out or got no answer.
    Failure,
    /// A local failure (socket setup, source binding), with its description.
    LocalError(String),
}

/// Verdict for a whole probe sequence.
pub enum ProbeVerdict {
    Reachable,
    Unreachable,
    /// A local failure kept the sequence from measuring reachability at all.
    Inconclusive(String),
}

/// Verdict of a probe sequence read from position 0, with `failures` failed
/// attempts already behind it; `None` while undecided.
pub open spec fn verdict_from(attempts: Seq<ProbeAttempt>, failures: nat, threshold: nat) -> Option<
    ProbeVerdict,
>
    decreases attempts.len(),
{
    if attempts.len() == 0 {
        None
    } else {
        match attempts[0] {
            ProbeAttempt::Success => Some(ProbeVerdict::Reachable),
            ProbeAttempt::LocalError(m) => Some(ProbeVerdict::Inconclusive(m)),
            ProbeAttempt::Failure => if failures + 1 >= threshold {
                Some(ProbeVerdict::Unreachable)
            } else {
                verdict_from(attempts.skip(1), failures + 1, threshold)
            },
        }
    }
}

/// Verdict of a fresh probe sequence.
pub open spec fn verdict_of(attempts: Seq<ProbeAttempt>, threshold: nat) -> Option<ProbeVerdict> {
    verdict_from(attempts, 0, threshold)
}

/// A sequence of `k` failed attempts.
pub open spec fn failure_seq(k: nat) -> Seq<ProbeAttempt> {
    Seq::new(k, |i: int| ProbeAttempt::Failure)
}

/// Reading a probe sequence past a prefix of failed attempts only moves the
/// failure count forward, as long as that count stays under the threshold.
proof fn lemma_skip_failures(s: Seq<ProbeAttempt>, k: nat, j: nat, t: nat)
    requires
        j + k < t,
    ensures
        verdict_from(failure_seq(k) + s, j, t) == verdict_from(s, j + k, t),
    decreases k,
{
    if k == 0 {
        assert(failure_seq(0) + s =~= s);
    } else {
        let full = failure_seq(k) + s;
        assert(full[0] is Failure);
        assert(full.skip(1) =~= failure_seq((k - 1) as nat) + s);
        lemma_skip_failures(s, (k - 1) as nat, j + 1, t);
    }
}

/// Immutable description of one probe sequence: where to probe from and to,
/// how many attempts, and the per-attempt expiry.
pub struct ProbeSpec {
    /// Address to probe.
    pub target: String,
    /// Source address to bind; `None` follows the host's default routing.
    pub source: Option<String>,
    /// Failure threshold and attempt count for one sequence, at least 1.
    pub count: usize,
    /// Per-attempt expiry in milliseconds.
    pub timeout_ms: u64,
}

impl ProbeSpec {
    /// Builds a spec from configuration; a retry count of 0 is raised to 1 so
    /// that every sequence makes at least one attempt.
    pub fn new(target: String, source: Option<String>, retries: usize, timeout_ms: u64) -> (r:
        ProbeSpec)
        ensures
            r.target == target,
            r.source == source,
            r.count == if retries >= 1 {
                retries
            } else {
                1
            },
            r.timeout_ms == timeout_ms,
    {
        let count: usize = if retries >= 1 {
            retries
        } else {
            1
        };
        ProbeSpec { target, source, count, timeout_ms }
    }
}

/// Incremental reduction of one probe sequence: attempts are fed in one at a
/// time and the verdict is returned as soon as it is decided.
pub struct ProbeRunner {
    /// Failure threshold, at least 1.
    pub threshold: usize,
    /// Failed attempts seen so far.
    pub failures: usize,
    /// All attempts fed in so far.
    pub history: Ghost<Seq<ProbeAttempt>>,
}

impl ProbeRunner {
    /// An undecided runner: every attempt so far failed, and not enough of
    /// them have to reach the threshold.
    pub open spec fn undecided(self) -> bool {
        &&& self.threshold >= 1
        &&& self.failures < self.threshold
        &&& self.history@ == failure_seq(self.failures as nat)
    }

    /// A fresh runner for one probe sequence of `spec`.
    pub fn new(spec: &ProbeSpec) -> (r: ProbeRunner)
        requires
            spec.count >= 1,
        ensures
            r.undecided(),
            r.threshold == spec.count,
            r.history@ == Seq::<ProbeAttempt>::empty(),
    {
        let r = ProbeRunner { threshold: spec.count, failures: 0, history: Ghost(Seq::empty()) };
        proof {
            assert(r.history@ =~= failure_seq(0));
        }
        r
    }

    /// Feeds one attempt outcome in. Returns the verdict of the whole
    /// sequence seen so far, or `None` while it is still undecided: the first
    /// success decides `Reachable`, a local error decides `Inconclusive`, and
    /// the threshold-th failure decides `Unreachable`.
    pub fn step(&mut self, attempt: ProbeAttempt) -> (r: Option<ProbeVerdict>)
        requires
            old(self).undecided(),
        ensures
            final(self).threshold == old(self).threshold,
            final(self).history@ == old(self).history@.push(attempt),
            r == verdict_of(final(self).history@, old(self).threshold as nat),
            r is None ==> final(self).undecided(),
            r is None <==> (attempt is Failure && old(self).failures + 1 < old(self).threshold),
    {
        let ghost pre = *self;
        let ghost att = attempt;
        self.history = Ghost(self.history@.push(attempt));
        proof {
            reveal_with_fuel(verdict_from, 3);
            lemma_skip_failures(seq![att], pre.failures as nat, 0, pre.threshold as nat);
            assert(self.history@ =~= failure_seq(pre.failures as nat) + seq![att]);
            assert(seq![att].skip(1) =~= Seq::<ProbeAttempt>::empty());
        }
        match attempt {
            ProbeAttempt::Success => Some(ProbeVerdict::Reachable),
            ProbeAttempt::LocalError(m) => Some(ProbeVerdict::Inconclusive(m)),
            ProbeAttempt::Failure => {
                if self.failures + 1 >= self.threshold {
                    self.failures = self.failures + 1;
                    Some(ProbeVerdict::Unreachable)
                } else {
                    self.failures = self.failures + 1;
                    proof {
                        assert(self.history@ =~= failure_seq(self.failures as nat));
                    }
                    None
                }
            },
        }
    }
}

} // verus!
