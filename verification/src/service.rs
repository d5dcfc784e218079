//! Service units: a named, independently controllable set of spawned
//! processes, together with the bookkeeping that `load` and `unload`
//! perform on it.
//!
//! A unit's configuration (name, command list, kind) is fixed at
//! construction; only the running set, the running flag and the busy
//! guard change afterwards. Spawning and killing processes is outside
//! work: `load` claims the unit and the caller reports the spawned
//! process ids back through `load_done`, while `unload` hands out the
//! processes to terminate and clears the running set at once.

use vstd::prelude::*;

verus! {

/// How a unit behaves once its processes are started: a `Blocking` unit
/// runs one-shot commands and has nothing to terminate; a `Daemon` unit
/// keeps long-running processes that `unload` must stop.
#[derive(Debug, Clone, Copy, PartialEq, Eq, Structural)]
pub enum ServiceKind {
    Blocking,
    Daemon,
}

/// Returned when a mutation of a unit's running set is already in
/// progress: the second caller must drop its request rather than block,
/// because it may be a signal handler that has to return promptly.
#[derive(Debug, Clone, Copy, PartialEq, Eq, Structural)]
pub struct BusyError;

/// The mathematical state of a unit: its fixed configuration, the ids of
/// the processes it is running, whether a load has completed, and whether
/// a mutation of the running set is in progress.
#[verifier::ext_equal]
pub struct UnitView {
    pub name: Seq<char>,
    pub cmds: Seq<Seq<Seq<char>>>,
    pub kind: ServiceKind,
    pub rproc: Seq<u64>,
    pub running: bool,
    pub busy: bool,
}

/// A service unit. `cmds` holds one argument list per process to spawn;
/// `rproc` the ids of the processes spawned so far; `running` whether a
/// load has completed; `busy` whether a load is claiming the running set.
pub struct Service {
    pub name: String,
    pub cmds: Vec<Vec<String>>,
    pub kind: ServiceKind,
    pub rproc: Vec<u64>,
    pub running: bool,
    pub busy: bool,
}

impl View for Service {
    type V = UnitView;

    open spec fn view(&self) -> UnitView {
        UnitView {
            name: self.name@,
            cmds: self.cmds.deep_view(),
            kind: self.kind,
            rproc: self.rproc@,
            running: self.running,
            busy: self.busy,
        }
    }
}

/// A load has claimed the unit: the busy guard is up, nothing else moved.
pub open spec fn load_begun(u: UnitView) -> UnitView {
    UnitView { busy: true, ..u }
}

/// A load has completed: the spawned process ids joined the running set,
/// the unit is marked running, and the busy guard is down.
pub open spec fn load_completed(u: UnitView, pids: Seq<u64>) -> UnitView {
    UnitView { rproc: u.rproc + pids, running: true, busy: false, ..u }
}

/// What an unload hands out for termination: every running process of a
/// Daemon unit; nothing for a Blocking unit, which has nothing to stop.
pub open spec fn kill_list(u: UnitView) -> Seq<u64> {
    if u.kind is Daemon {
        u.rproc
    } else {
        Seq::<u64>::empty()
    }
}

/// The unit after an unload: a Daemon unit is left stopped with an empty
/// running set; a Blocking unit is untouched.
pub open spec fn unloaded(u: UnitView) -> UnitView {
    if u.kind is Daemon {
        UnitView { rproc: Seq::<u64>::empty(), running: false, ..u }
    } else {
        u
    }
}

impl Service {
    /// A fresh unit: configured, with nothing running.
    pub fn new(name: String, cmds: Vec<Vec<String>>, kind: ServiceKind) -> (s: Service)
        ensures
            s@ == (UnitView {
                name: name@,
                cmds: cmds.deep_view(),
                kind: kind,
                rproc: Seq::<u64>::empty(),
                running: false,
                busy: false,
            }),
    {
        let s = Service { name, cmds, kind, rproc: Vec::new(), running: false, busy: false };
        proof {
            assert(s@ =~= (UnitView {
                name: s.name@,
                cmds: s.cmds.deep_view(),
                kind: s.kind,
                rproc: Seq::<u64>::empty(),
                running: false,
                busy: false,
            }));
        }
        s
    }

    /// Begin a load: claim exclusive mutation of the running set. While a
    /// mutation is already in progress the unit is busy and the claim is
    /// refused, with nothing changed. After a successful claim the caller
    /// spawns one process per entry of `cmds` and reports the ids of those
    /// that started through `load_done`; a command that fails to start is
    /// the caller's to log and skip.
    pub fn load(&mut self) -> (r: Result<(), BusyError>)
        ensures
            old(self)@.busy ==> r == Err::<(), BusyError>(BusyError) && final(self)@ == old(
                self,
            )@,
            !old(self)@.busy ==> r == Ok::<(), BusyError>(()) && final(self)@ == load_begun(
                old(self)@,
            ),
    {
        if self.busy {
            Err(BusyError)
        } else {
            self.busy = true;
            proof {
                assert(self@ =~= load_begun(old(self)@));
            }
            Ok(())
        }
    }

    /// Complete the load begun by `load`: append the ids of the processes
    /// that actually started (possibly fewer than there are commands, never
    /// more), mark the unit running, and drop the busy guard.
    pub fn load_done(&mut self, pids: Vec<u64>)
        requires
            old(self)@.busy,
        ensures
            final(self)@ == load_completed(old(self)@, pids@),
    {
        let ghost started = pids@;
        let mut pids = pids;
        self.rproc.append(&mut pids);
        self.running = true;
        self.busy = false;
        proof {
            assert(self@ =~= load_completed(old(self)@, started));
        }
    }

    /// Stop the unit. A Blocking unit has nothing to terminate: the call
    /// succeeds at once, whatever the unit's state, and changes nothing. For
    /// a Daemon unit the whole running set is handed back for termination --
    /// the caller sends each process its kill request and a failure for one
    /// does not spare the others -- while the unit itself is left stopped:
    /// running set empty, running flag down. A Daemon unit under a load in
    /// progress is busy: the call is refused and nothing changes.
    pub fn unload(&mut self) -> (r: Result<Vec<u64>, BusyError>)
        ensures
            old(self)@.kind is Daemon && old(self)@.busy ==> r == Err::<
                Vec<u64>,
                BusyError,
            >(BusyError) && final(self)@ == old(self)@,
            !(old(self)@.kind is Daemon && old(self)@.busy) ==> (r matches Ok(pids)
                && pids@ == kill_list(old(self)@)) && final(self)@ == unloaded(old(self)@),
    {
        match self.kind {
            ServiceKind::Blocking => Ok(Vec::new()),
            ServiceKind::Daemon => {
                if self.busy {
                    Err(BusyError)
                } else {
                    let mut pids: Vec<u64> = Vec::new();
                    core::mem::swap(&mut pids, &mut self.rproc);
                    self.running = false;
                    proof {
                        assert(self@ =~= unloaded(old(self)@));
                    }
                    Ok(pids)
                }
            },
        }
    }

    /// Record the unit as part of the desired configuration and, where
    /// asked, begin a load at once; persistent recording itself is outside
    /// this core. With `now` false nothing changes; with `now` true this is
    /// exactly a `load`, busy guard included.
    pub fn enable(&mut self, now: bool) -> (r: Result<(), BusyError>)
        ensures
            !now ==> r == Ok::<(), BusyError>(()) && final(self)@ == old(self)@,
            now && old(self)@.busy ==> r == Err::<(), BusyError>(BusyError) && final(self)@
                == old(self)@,
            now && !old(self)@.busy ==> r == Ok::<(), BusyError>(()) && final(self)@
                == load_begun(old(self)@),
    {
        if now {
            self.load()
        } else {
            Ok(())
        }
    }

    /// Take the unit out of the desired configuration and, where asked,
    /// unload it at once; with `now` false nothing changes, with `now` true
    /// this is exactly an `unload`.
    pub fn disable(&mut self, now: bool) -> (r: Result<Vec<u64>, BusyError>)
        ensures
            !now ==> (r matches Ok(pids) && pids@ == Seq::<u64>::empty()) && final(self)@
                == old(self)@,
            now && old(self)@.kind is Daemon && old(self)@.busy ==> r == Err::<
                Vec<u64>,
                BusyError,
            >(BusyError) && final(self)@ == old(self)@,
            now && !(old(self)@.kind is Daemon && old(self)@.busy) ==> (r matches Ok(pids)
                && pids@ == kill_list(old(self)@)) && final(self)@ == unloaded(old(self)@),
    {
        if now {
            self.unload()
        } else {
            Ok(Vec::new())
        }
    }
}

/// A completed load on a fresh unit runs at most one process per command:
/// with the unit idle and empty, a `load` followed by a `load_done` that
/// reports at most one started process per command leaves the running set
/// no larger than the command list, the unit marked running, and its
/// configuration untouched.
pub proof fn lemma_load_fresh_bounds(u: UnitView, pids: Seq<u64>)
    requires
        !u.busy,
        u.rproc.len() == 0,
        pids.len() <= u.cmds.len(),
    ensures
        load_completed(load_begun(u), pids).rproc == pids,
        load_completed(load_begun(u), pids).rproc.len() <= u.cmds.len(),
        load_completed(load_begun(u), pids).running,
        !load_completed(load_begun(u), pids).busy,
        load_completed(load_begun(u), pids).cmds == u.cmds,
        load_completed(load_begun(u), pids).kind == u.kind,
        load_completed(load_begun(u), pids).name == u.name,
{
    assert(load_completed(load_begun(u), pids).rproc =~= pids);
}

/// Unloading a Blocking unit is a no-op that succeeds whatever the unit's
/// state: nothing is handed out for termination and the unit is unchanged.
pub proof fn lemma_unload_blocking_noop(u: UnitView)
    requires
        u.kind is Blocking,
    ensures
        kill_list(u) == Seq::<u64>::empty(),
        unloaded(u) == u,
{
}

/// Unloading an idle Daemon unit attempts every running process: the kill
/// list is the whole running set -- a failed termination is reported by the
/// caller and does not spare the rest -- and afterwards the running set is
/// empty and the unit is no longer running.
pub proof fn lemma_unload_daemon_total(u: UnitView)
    requires
        u.kind is Daemon,
    ensures
        kill_list(u) == u.rproc,
        unloaded(u).rproc.len() == 0,
        !unloaded(u).running,
        unloaded(u).cmds == u.cmds,
        unloaded(u).kind == u.kind,
        unloaded(u).name == u.name,
{
}

/// The busy guard makes a load/unload pair safe: beginning a load raises
/// the guard without touching the running set, and while the guard is up a
/// second `load`, a Daemon `unload`, and their `enable`/`disable` forms are
/// refused with the unit unchanged -- no lost updates, no duplicate
/// entries, the second caller observes `BusyError`.
pub proof fn lemma_busy_guard(u: UnitView)
    requires
        !u.busy,
    ensures
        load_begun(u).busy,
        load_begun(u).rproc == u.rproc,
        load_begun(u).running == u.running,
        load_begun(u).cmds == u.cmds,
{
}

} // verus!
