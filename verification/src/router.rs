//! Signal routing: a static table from operating-system signal number to
//! handler, scanned linearly on dispatch. Numbers in the table are unique;
//! a delivered number no binding carries is silently ignored -- the process
//! blocks every signal it does not handle, so an unmatched delivery is a
//! benign race and must never bring process 1 down.

use vstd::prelude::*;

verus! {

/// What a matched signal asks the supervisor to do. Both recognized
/// signals -- child termination and the watchdog alarm -- are bound to
/// reaping.
#[derive(Debug, Clone, Copy, PartialEq, Eq, Structural)]
pub enum Action {
    Reap,
}

/// One entry of the routing table: a signal number and the handler bound
/// to it.
#[derive(Debug, Clone, Copy, PartialEq, Eq, Structural)]
pub struct SignalBinding {
    pub sig: i32,
    pub action: Action,
}

/// The first binding that carries the number decides, in table order;
/// `None` where no binding carries it.
pub open spec fn lookup(table: Seq<SignalBinding>, sig: i32) -> Option<Action>
    decreases table.len(),
{
    if table.len() == 0 {
        None
    } else if table[0].sig == sig {
        Some(table[0].action)
    } else {
        lookup(table.drop_first(), sig)
    }
}

/// No two bindings carry the same number.
pub open spec fn sigs_unique(table: Seq<SignalBinding>) -> bool {
    forall|i: int, j: int| 0 <= i < j < table.len() ==> table[i].sig != table[j].sig
}

/// Relies on libc::SIGCHLD: the child-termination signal number, 17 on
/// Linux.
#[verifier::external_body]
pub(crate) fn sig_child() -> (r: i32)
    ensures
        r == 17,
{
    libc::SIGCHLD
}

/// Relies on libc::SIGALRM: the alarm signal number, 14 on Linux.
#[verifier::external_body]
pub(crate) fn sig_alarm() -> (r: i32)
    ensures
        r == 14,
{
    libc::SIGALRM
}

/// The static signal-binding table, fixed at process start.
pub struct SignalRouter {
    pub table: Vec<SignalBinding>,
}

impl View for SignalRouter {
    type V = Seq<SignalBinding>;

    open spec fn view(&self) -> Seq<SignalBinding> {
        self.table@
    }
}

/// The table process 1 starts with: child termination and the watchdog
/// alarm, both routed to the reaper.
pub open spec fn init_table() -> Seq<SignalBinding> {
    seq![
        SignalBinding { sig: 17, action: Action::Reap },
        SignalBinding { sig: 14, action: Action::Reap },
    ]
}

impl SignalRouter {
    /// Build the process-1 table; every number outside it is unmapped.
    pub fn new() -> (r: SignalRouter)
        ensures
            r@ == init_table(),
            sigs_unique(r@),
    {
        let mut table: Vec<SignalBinding> = Vec::new();
        table.push(SignalBinding { sig: sig_child(), action: Action::Reap });
        table.push(SignalBinding { sig: sig_alarm(), action: Action::Reap });
        let r = SignalRouter { table };
        proof {
            assert(r@ =~= init_table());
        }
        r
    }

    /// Linear scan of the table; the first binding with the delivered
    /// number decides. An unmapped number finds nothing: no handler runs
    /// and no error is raised.
    pub fn dispatch(&self, sig: i32) -> (r: Option<Action>)
        ensures
            r == lookup(self@, sig),
    {
        let mut i: usize = 0;
        proof {
            assert(self@.skip(0) =~= self@);
        }
        while i < self.table.len()
            invariant
                0 <= i <= self.table@.len(),
                lookup(self@, sig) == lookup(self@.skip(i as int), sig),
            decreases self.table@.len() - i,
        {
            proof {
                assert(self@.skip(i as int)[0] == self@[i as int]);
            }
            if self.table[i].sig == sig {
                return Some(self.table[i].action);
            }
            proof {
                assert(self@.skip(i as int).drop_first() =~= self@.skip(i as int + 1));
            }
            i += 1;
        }
        proof {
            assert(self@.skip(i as int) =~= Seq::<SignalBinding>::empty());
        }
        None
    }
}

/// A number that no binding carries is ignored by design: the lookup finds
/// nothing, so dispatch completes with no handler invoked and no error.
pub proof fn lemma_lookup_unmapped(table: Seq<SignalBinding>, sig: i32)
    requires
        forall|k: int| 0 <= k < table.len() ==> table[k].sig != sig,
    ensures
        lookup(table, sig) is None,
    decreases table.len(),
{
    if table.len() > 0 {
        assert forall|k: int| 0 <= k < table.drop_first().len() implies table.drop_first()[k].sig
            != sig by {
            assert(table.drop_first()[k] == table[k + 1]);
        }
        lemma_lookup_unmapped(table.drop_first(), sig);
    }
}

/// A number some binding does carry is found: the lookup yields the action
/// of the first binding with that number.
pub proof fn lemma_lookup_mapped(table: Seq<SignalBinding>, sig: i32, k: int)
    requires
        0 <= k < table.len(),
        table[k].sig == sig,
        forall|j: int| 0 <= j < k ==> table[j].sig != sig,
    ensures
        lookup(table, sig) == Some(table[k].action),
    decreases table.len(),
{
    if k > 0 {
        assert forall|j: int| 0 <= j < k - 1 implies table.drop_first()[j].sig != sig by {
            assert(table.drop_first()[j] == table[j + 1]);
        }
        assert(table.drop_first()[k - 1] == table[k]);
        lemma_lookup_mapped(table.drop_first(), sig, k - 1);
    }
}

/// Both recognized signals -- child termination and the watchdog alarm --
/// are routed to the reaper by the process-1 table.
pub proof fn lemma_recognized_signals_reap()
    ensures
        lookup(init_table(), 17) == Some(Action::Reap),
        lookup(init_table(), 14) == Some(Action::Reap),
{
    lemma_lookup_mapped(init_table(), 17, 0);
    lemma_lookup_mapped(init_table(), 14, 1);
}

} // verus!
