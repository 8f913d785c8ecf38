//! Bounded concurrency and orderly shutdown.
//!
//! The scheduler starts one task per matrix entry, never more than `par`
//! at once, and stops starting new tasks once cancelled. The
//! Pending-Deletion Registry records every workspace path ever created;
//! the shutdown plan deletes each recorded path, in registration order,
//! and exits with status zero — an interrupt is an orderly stop, not a
//! failure.

use vstd::prelude::*;

verus! {

/// Drives up to `par` of `total` tasks at once. `next` counts the tasks
/// handed out so far; `running` counts those handed out and not yet done.
pub struct Scheduler {
    pub total: usize,
    pub par: usize,
    pub next: usize,
    pub running: usize,
    pub cancelled: bool,
}

impl Scheduler {
    /// The scheduler's invariant: tasks are handed out in order and the
    /// concurrency bound holds.
    pub open spec fn wf(&self) -> bool {
        &&& self.next <= self.total
        &&& self.running <= self.next
        &&& self.running <= self.par
    }

    /// At most `par` tasks are materializing or running at any instant.
    pub proof fn lemma_bounded_concurrency(&self)
        requires
            self.wf(),
        ensures
            self.running <= self.par,
    {
    }

    pub fn new(total: usize, par: usize) -> (r: Scheduler)
        ensures
            r.wf(),
            r.total == total,
            r.par == par,
            r.next == 0,
            r.running == 0,
            !r.cancelled,
    {
        Scheduler { total, par, next: 0, running: 0, cancelled: false }
    }

    /// Hand out the next task, if one is pending, the concurrency bound
    /// allows it, and no cancellation arrived. Returns the index of the
    /// matrix entry to start.
    pub fn try_start(&mut self) -> (r: Option<usize>)
        requires
            old(self).wf(),
        ensures
            final(self).wf(),
            final(self).total == old(self).total,
            final(self).par == old(self).par,
            final(self).cancelled == old(self).cancelled,
            if !old(self).cancelled && old(self).running < old(self).par && old(self).next < old(
                self,
            ).total {
                &&& r == Some(old(self).next)
                &&& final(self).next == old(self).next + 1
                &&& final(self).running == old(self).running + 1
            } else {
                &&& r is None
                &&& final(self).next == old(self).next
                &&& final(self).running == old(self).running
            },
    {
        if !self.cancelled && self.running < self.par && self.next < self.total {
            let idx = self.next;
            self.next += 1;
            self.running += 1;
            Some(idx)
        } else {
            None
        }
    }

    /// A task finished (normally or aborted); its slot frees up.
    pub fn task_done(&mut self)
        requires
            old(self).wf(),
            old(self).running > 0,
        ensures
            final(self).wf(),
            final(self).total == old(self).total,
            final(self).par == old(self).par,
            final(self).next == old(self).next,
            final(self).cancelled == old(self).cancelled,
            final(self).running == old(self).running - 1,
    {
        self.running -= 1;
    }

    /// An interrupt arrived: stop handing out tasks. Tasks already
    /// running are not interrupted here; the shutdown plan deletes their
    /// workspaces regardless.
    pub fn cancel(&mut self)
        requires
            old(self).wf(),
        ensures
            final(self).wf(),
            final(self).total == old(self).total,
            final(self).par == old(self).par,
            final(self).next == old(self).next,
            final(self).running == old(self).running,
            final(self).cancelled,
    {
        self.cancelled = true;
    }
}

/// The Pending-Deletion Registry: every workspace path ever created, in
/// registration order. Producers only append; the shutdown handler alone
/// consumes it.
pub struct Registry {
    pub paths: Vec<String>,
}

impl View for Registry {
    type V = Seq<Seq<char>>;

    open spec fn view(&self) -> Seq<Seq<char>> {
        self.paths@.map_values(|p: String| p@)
    }
}

impl Registry {
    pub fn new() -> (r: Registry)
        ensures
            r@ == Seq::<Seq<char>>::empty(),
    {
        let r = Registry { paths: Vec::new() };
        proof {
            assert(r@ =~= Seq::<Seq<char>>::empty());
        }
        r
    }

    /// Record a workspace path. Nothing is ever removed while the run
    /// goes on, so a path is never lost even if the task that created it
    /// fails right after.
    pub fn register(&mut self, path: String)
        ensures
            final(self)@ == old(self)@.push(path@),
    {
        let ghost prev = self@;
        self.paths.push(path);
        proof {
            assert(self@ =~= prev.push(self.paths@.last()@));
        }
    }

    pub fn len(&self) -> (n: usize)
        ensures
            n == self@.len(),
    {
        self.paths.len()
    }
}

/// What the shutdown handler does after the grace period: the paths to
/// delete forcibly, every registered one in registration order, and the
/// process exit status, which is zero — an interrupt-driven shutdown is
/// not a failure.
pub struct ShutdownPlan {
    pub delete: Vec<String>,
    pub exit_status: i32,
}

/// Build the shutdown plan from the registry. Consumes the registry:
/// shutdown is the end of the run.
pub fn shutdown_plan(registry: Registry) -> (r: ShutdownPlan)
    ensures
        r.delete@.map_values(|p: String| p@) == registry@,
        r.exit_status == 0,
{
    ShutdownPlan { delete: registry.paths, exit_status: 0 }
}

/// The process exit status once the run completed without interruption:
/// zero unless a fatal setup error occurred. Individual test or fuzz
/// failures never set it.
pub fn final_exit_status(fatal_setup_error: bool) -> (r: i32)
    ensures
        r == 0 <==> !fatal_setup_error,
{
    if fatal_setup_error {
        1
    } else {
        0
    }
}

} // verus!
