//! The process-1 state machine. The supervisor decides; performing its
//! directives -- blocking the signal mask, arming the alarm, the blocking
//! signal wait, the non-blocking reap of zombie children -- is the caller's
//! part, which reports each outcome back as an event. The cycle has no
//! terminal state: every step leads on, because a return from the loop of
//! process 1 is itself a fatal condition for the whole machine.

use vstd::prelude::*;

use crate::router::Action;
use crate::router::SignalBinding;
use crate::router::SignalRouter;
use crate::router::init_table;
use crate::router::lemma_lookup_unmapped;
use crate::router::lookup;
use crate::router::sigs_unique;

verus! {

/// The watchdog timeout, in seconds: the alarm is armed with it before
/// every blocking wait and after every reap, so a missed child-termination
/// notification is recovered within this bound.
pub const TIMEOUT: u32 = 30;

/// Where the supervisor stands in its cycle. There is no terminal state.
#[derive(Debug, Clone, Copy, PartialEq, Eq, Structural)]
pub enum SupState {
    /// Startup preconditions are being established.
    Starting,
    /// Blocked in the synchronous signal wait, watchdog armed.
    Waiting,
    /// A recognized signal's handler is running.
    Dispatching,
}

/// What the outside world reports back to the supervisor.
#[derive(Debug, Clone, Copy, PartialEq, Eq, Structural)]
pub enum Event {
    /// Startup held: the working directory is the root, all signals are
    /// masked, and the initial unit was given to `load` (a failure there is
    /// logged, not fatal).
    Booted,
    /// The blocking wait returned this signal number.
    Signal(i32),
    /// The reaper collected this many zombie children, possibly none.
    Reaped(u32),
}

/// What the supervisor asks for next.
#[derive(Debug, Clone, Copy, PartialEq, Eq, Structural)]
pub enum Directive {
    /// Arm the watchdog alarm with `timeout` seconds, then block until a
    /// signal arrives and report it.
    AwaitSignal { timeout: u32 },
    /// Collect every immediately reapable zombie child without blocking,
    /// and report how many there were.
    Reap,
}

/// The state after one step. A report that does not fit the state -- a
/// benign race -- never stops process 1: the supervisor falls back to
/// waiting.
pub open spec fn next_state(st: SupState, table: Seq<SignalBinding>, ev: Event) -> SupState {
    match (st, ev) {
        (SupState::Starting, Event::Booted) => SupState::Waiting,
        (SupState::Waiting, Event::Signal(n)) => if lookup(table, n) is Some {
            SupState::Dispatching
        } else {
            SupState::Waiting
        },
        (SupState::Dispatching, Event::Reaped(_)) => SupState::Waiting,
        _ => SupState::Waiting,
    }
}

/// The directive after one step: a reap exactly where a recognized signal
/// arrived, an armed wait everywhere else.
pub open spec fn next_directive(st: SupState, table: Seq<SignalBinding>, ev: Event) -> Directive {
    match (st, ev) {
        (SupState::Waiting, Event::Signal(n)) => if lookup(table, n) is Some {
            Directive::Reap
        } else {
            Directive::AwaitSignal { timeout: TIMEOUT }
        },
        _ => Directive::AwaitSignal { timeout: TIMEOUT },
    }
}

/// The running total of reaped children after one step: a reap report adds
/// its count, saturating at the counter's width; nothing else moves it.
pub open spec fn next_reaped(st: SupState, reaped: u64, ev: Event) -> u64 {
    match (st, ev) {
        (SupState::Dispatching, Event::Reaped(n)) => if reaped + n <= u64::MAX {
            (reaped + n) as u64
        } else {
            u64::MAX
        },
        _ => reaped,
    }
}

/// The supervisor: the routing table, the point of the cycle it stands at,
/// and how many children it has reaped so far.
pub struct Supervisor {
    pub router: SignalRouter,
    pub state: SupState,
    pub reaped: u64,
}

impl Supervisor {
    /// A supervisor about to start, with the process-1 routing table and
    /// nothing reaped yet.
    pub fn new() -> (s: Supervisor)
        ensures
            s.state is Starting,
            s.reaped == 0,
            s.router@ == init_table(),
            sigs_unique(s.router@),
    {
        Supervisor { router: SignalRouter::new(), state: SupState::Starting, reaped: 0 }
    }

    /// One turn of the cycle: take the outside world's report, move to the
    /// next state, and say what to do next. The routing table never
    /// changes, and no report -- fitting or not -- has a step without a
    /// next directive: the loop cannot end here.
    pub fn step(&mut self, ev: Event) -> (d: Directive)
        ensures
            final(self).router@ == old(self).router@,
            final(self).state == next_state(old(self).state, old(self).router@, ev),
            final(self).reaped == next_reaped(old(self).state, old(self).reaped, ev),
            d == next_directive(old(self).state, old(self).router@, ev),
    {
        match (self.state, ev) {
            (SupState::Starting, Event::Booted) => {
                self.state = SupState::Waiting;
                Directive::AwaitSignal { timeout: TIMEOUT }
            },
            (SupState::Waiting, Event::Signal(n)) => {
                match self.router.dispatch(n) {
                    Some(Action::Reap) => {
                        self.state = SupState::Dispatching;
                        Directive::Reap
                    },
                    None => {
                        self.state = SupState::Waiting;
                        Directive::AwaitSignal { timeout: TIMEOUT }
                    },
                }
            },
            (SupState::Dispatching, Event::Reaped(n)) => {
                self.state = SupState::Waiting;
                let n64: u64 = n as u64;
                if self.reaped <= u64::MAX - n64 {
                    self.reaped = self.reaped + n64;
                } else {
                    self.reaped = u64::MAX;
                }
                Directive::AwaitSignal { timeout: TIMEOUT }
            },
            _ => {
                self.state = SupState::Waiting;
                Directive::AwaitSignal { timeout: TIMEOUT }
            },
        }
    }
}

/// The reaper's completion re-arms the watchdog even with nothing pending:
/// from Dispatching, a report of zero reaped children leaves the running
/// total unchanged, and the next directive arms the alarm before waiting
/// again.
pub proof fn lemma_reap_nothing_rearms(table: Seq<SignalBinding>, reaped: u64)
    ensures
        next_directive(SupState::Dispatching, table, Event::Reaped(0)) == (Directive::AwaitSignal {
            timeout: TIMEOUT,
        }),
        next_reaped(SupState::Dispatching, reaped, Event::Reaped(0)) == reaped,
        next_state(SupState::Dispatching, table, Event::Reaped(0)) is Waiting,
{
}

/// The watchdog cannot stay disarmed: every step that leaves the
/// supervisor waiting arms the alarm before the blocking wait, and the one
/// directive that does not -- the reap -- leads into Dispatching, whose
/// own next step arms it again.
pub proof fn lemma_watchdog_rearmed(st: SupState, table: Seq<SignalBinding>, ev: Event)
    ensures
        next_state(st, table, ev) is Waiting ==> next_directive(st, table, ev)
            == (Directive::AwaitSignal { timeout: TIMEOUT }),
        next_directive(st, table, ev) is Reap ==> next_state(st, table, ev) is Dispatching,
{
}

/// A signal number no binding carries is ignored: the supervisor invokes
/// no handler, stays waiting, and merely re-arms the watchdog.
pub proof fn lemma_unmapped_signal_ignored(table: Seq<SignalBinding>, reaped: u64, sig: i32)
    requires
        forall|k: int| 0 <= k < table.len() ==> table[k].sig != sig,
    ensures
        next_state(SupState::Waiting, table, Event::Signal(sig)) is Waiting,
        next_directive(SupState::Waiting, table, Event::Signal(sig)) == (Directive::AwaitSignal {
            timeout: TIMEOUT,
        }),
        next_reaped(SupState::Waiting, reaped, Event::Signal(sig)) == reaped,
{
    lemma_lookup_unmapped(table, sig);
}

} // verus!
