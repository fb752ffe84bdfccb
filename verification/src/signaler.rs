//! The liveness signaler: while an inference call is outstanding, it keeps
//! the conversation's "typing" indicator alive. The signaler decides; whoever
//! drives it reads the cancellation flag, sleeps and sends.

use vstd::prelude::*;

verus! {

/// How long the signaler waits before each signal, in seconds.
pub const INTERVAL: u64 = 5;

/// Where the signaler stands between two decisions.
#[derive(Debug, Clone, Copy, PartialEq, Eq, Structural)]
pub enum Signaler {
    /// About to begin a round of waiting and signalling.
    Ready,
    /// The wait of this round is over; the signal has not been sent.
    Waited,
    /// Cancellation was seen. The signaler sends nothing any more.
    Stopped,
}

/// What the driver of a signaler does next.
#[derive(Debug, Clone, Copy, PartialEq, Eq, Structural)]
pub enum Beat {
    /// Sleep for this many seconds.
    Wait(u64),
    /// Send one typing signal to the conversation.
    Signal,
    /// Leave the loop: the signaler is done.
    Exit,
}

impl Signaler {
    /// The decision taken when the cancellation flag reads `cancelled`. The
    /// flag is looked at before the wait and again after it, so a signal is
    /// sent only after a full wait that ended with the flag still down, and
    /// the first look that finds it raised ends the signaler.
    pub open spec fn decide(self, cancelled: bool) -> (Signaler, Beat) {
        match self {
            Signaler::Ready => if cancelled {
                (Signaler::Stopped, Beat::Exit)
            } else {
                (Signaler::Waited, Beat::Wait(INTERVAL))
            },
            Signaler::Waited => if cancelled {
                (Signaler::Stopped, Beat::Exit)
            } else {
                (Signaler::Ready, Beat::Signal)
            },
            Signaler::Stopped => (Signaler::Stopped, Beat::Exit),
        }
    }

    /// A signaler that has just been started.
    pub fn start() -> (signaler: Signaler)
        ensures
            signaler == Signaler::Ready,
    {
        Signaler::Ready
    }

    /// Takes the next decision, given the cancellation flag as it reads now.
    pub fn next(self, cancelled: bool) -> (step: (Signaler, Beat))
        ensures
            step == self.decide(cancelled),
    {
        match self {
            Signaler::Ready => if cancelled {
                (Signaler::Stopped, Beat::Exit)
            } else {
                (Signaler::Waited, Beat::Wait(INTERVAL))
            },
            Signaler::Waited => if cancelled {
                (Signaler::Stopped, Beat::Exit)
            } else {
                (Signaler::Ready, Beat::Signal)
            },
            Signaler::Stopped => (Signaler::Stopped, Beat::Exit),
        }
    }

    /// Whether the signaler has seen the cancellation.
    pub fn is_stopped(self) -> (stopped: bool)
        ensures
            stopped == (self == Signaler::Stopped),
    {
        match self {
            Signaler::Stopped => true,
            _ => false,
        }
    }
}

/// What a signaler did over its life: the times at which it sent a signal,
/// in order, and the time at which it left.
pub struct Run {
    pub signals: Seq<nat>,
    pub exit: nat,
}

/// How far `now` is from `resolved`, and zero from then on.
pub open spec fn remaining(now: nat, resolved: nat) -> nat {
    if now < resolved {
        (resolved - now) as nat
    } else {
        0
    }
}

/// The order in which the states of one round follow each other, counted
/// down.
pub open spec fn rank(signaler: Signaler) -> nat {
    match signaler {
        Signaler::Waited => 1,
        _ => 0,
    }
}

/// The life of a signaler that stands at `signaler` when the clock reads
/// `now`, where the guarded call resolves, and the flag is raised, at
/// `resolved`. On this clock only waiting takes time: the flag is read and a
/// signal is sent in no time at all.
pub open spec fn run_from(signaler: Signaler, now: nat, resolved: nat) -> Run
    decreases remaining(now, resolved), rank(signaler),
{
    let (then, beat) = signaler.decide(now >= resolved);
    match beat {
        Beat::Exit => Run { signals: Seq::empty(), exit: now },
        Beat::Wait(seconds) => run_from(then, now + seconds as nat, resolved),
        Beat::Signal => {
            let rest = run_from(then, now, resolved);
            Run { signals: seq![now] + rest.signals, exit: rest.exit }
        },
    }
}

/// The life of a signaler that is started at time 0 beside a call that
/// resolves at `resolved`.
pub open spec fn run(resolved: nat) -> Run {
    run_from(Signaler::Ready, 0, resolved)
}

/// Once the flag is seen raised the signaler stops for good: from `Stopped`
/// every decision is to exit, whatever the flag reads.
pub proof fn lemma_stopped_stays_stopped(signaler: Signaler, cancelled: bool, again: bool)
    requires
        cancelled,
    ensures
        signaler.decide(cancelled) == (Signaler::Stopped, Beat::Exit),
        signaler.decide(cancelled).0.decide(again) == (Signaler::Stopped, Beat::Exit),
{
}

/// A signal follows a wait: the only state that decides to signal is the
/// one that a wait leads to, and only with the flag down.
pub proof fn lemma_signal_only_after_wait(signaler: Signaler, cancelled: bool)
    requires
        signaler.decide(cancelled).1 == Beat::Signal,
    ensures
        signaler == Signaler::Waited,
        !cancelled,
        Signaler::Ready.decide(false) == (Signaler::Waited, Beat::Wait(INTERVAL)),
{
}

/// The life of a signaler that is about to begin a round at `now`: every
/// signal falls strictly between `now` and `resolved`, one interval after
/// `now` at the earliest; the first comes one interval after `now` where the
/// call is still outstanding then; and the signaler leaves at `now` where
/// the call has resolved by then, else at or after `resolved` and less than
/// one interval after it.
pub proof fn lemma_round(now: nat, resolved: nat)
    ensures
        forall|i: int|
            0 <= i < run_from(Signaler::Ready, now, resolved).signals.len() ==> now + INTERVAL
                <= #[trigger] run_from(Signaler::Ready, now, resolved).signals[i] < resolved,
        now + INTERVAL < resolved ==> run_from(Signaler::Ready, now, resolved).signals.len() >= 1
            && run_from(Signaler::Ready, now, resolved).signals[0] == now + INTERVAL,
        now + INTERVAL >= resolved ==> run_from(Signaler::Ready, now, resolved).signals.len()
            == 0,
        now >= resolved ==> run_from(Signaler::Ready, now, resolved).exit == now,
        now < resolved ==> resolved <= run_from(Signaler::Ready, now, resolved).exit < resolved
            + INTERVAL,
    decreases remaining(now, resolved),
{
    if now < resolved {
        let later = now + INTERVAL as nat;
        assert(run_from(Signaler::Ready, now, resolved) == run_from(
            Signaler::Waited,
            later,
            resolved,
        ));
        if later < resolved {
            lemma_round(later, resolved);
            let rest = run_from(Signaler::Ready, later, resolved);
            assert(run_from(Signaler::Waited, later, resolved) == Run {
                signals: seq![later] + rest.signals,
                exit: rest.exit,
            });
            let whole = run_from(Signaler::Ready, now, resolved);
            assert forall|i: int| 0 <= i < whole.signals.len() implies now + INTERVAL
                <= #[trigger] whole.signals[i] < resolved by {
                if i > 0 {
                    assert(whole.signals[i] == rest.signals[i - 1]);
                }
            }
        }
    }
}

/// A call that takes longer than one interval sees a signal before it
/// resolves: the first signal is sent one interval after the start.
pub proof fn lemma_long_call_is_signalled(resolved: nat)
    requires
        resolved > INTERVAL,
    ensures
        run(resolved).signals.len() >= 1,
        run(resolved).signals[0] == INTERVAL,
        run(resolved).signals[0] < resolved,
{
    lemma_round(0, resolved);
}

/// A call that resolves within one interval is never signalled.
pub proof fn lemma_short_call_is_silent(resolved: nat)
    requires
        resolved <= INTERVAL,
    ensures
        run(resolved).signals.len() == 0,
{
    lemma_round(0, resolved);
}

/// The signaler does not outlive its call by a full interval: it sends no
/// signal once the call has resolved, and it leaves less than one interval
/// after that.
pub proof fn lemma_signaler_leaves_in_time(resolved: nat)
    ensures
        forall|i: int|
            0 <= i < run(resolved).signals.len() ==> #[trigger] run(resolved).signals[i]
                < resolved,
        resolved <= run(resolved).exit < resolved + INTERVAL,
{
    lemma_round(0, resolved);
}

} // verus!
