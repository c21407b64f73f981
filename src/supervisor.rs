//! Ownership of the one worker process: it is adopted once spawned and handed
//! back exactly once, for killing, when the application shuts down.

use vstd::prelude::*;

verus! {

/// The life of the worker, as the supervisor sees it.
#[derive(Clone, Copy, Debug, PartialEq, Eq, Structural)]
pub enum WorkerState {
    NoProcess,
    Running,
    Terminated,
}

/// Holds the handle `H` of the worker while it runs.
pub struct Supervisor<H> {
    pub state: WorkerState,
    pub handle: Option<H>,
}

impl<H> Supervisor<H> {
    /// A handle is held exactly while the worker runs.
    pub open spec fn wf(&self) -> bool {
        (self.state == WorkerState::Running) == (self.handle is Some)
    }

    /// The state after `terminate`.
    pub open spec fn after_terminate(&self) -> Supervisor<H> {
        if self.state == WorkerState::Running {
            Supervisor { state: WorkerState::Terminated, handle: None }
        } else {
            *self
        }
    }

    /// A supervisor with no worker.
    pub fn new() -> (r: Supervisor<H>)
        ensures
            r.wf(),
            r.state == WorkerState::NoProcess,
    {
        Supervisor { state: WorkerState::NoProcess, handle: None }
    }

    /// Takes charge of a freshly spawned worker. A supervisor holds at most one
    /// worker in its life: where it already had one, the handle is given back
    /// and nothing changes.
    pub fn adopt(&mut self, handle: H) -> (r: Option<H>)
        requires
            old(self).wf(),
        ensures
            final(self).wf(),
            old(self).state == WorkerState::NoProcess ==> r is None && final(self).state
                == WorkerState::Running && final(self).handle == Some(handle),
            old(self).state != WorkerState::NoProcess ==> r == Some(handle) && *final(self)
                == *old(self),
    {
        match self.state {
            WorkerState::NoProcess => {
                self.state = WorkerState::Running;
                self.handle = Some(handle);
                None
            },
            _ => Some(handle),
        }
    }

    /// Whether the worker is held and running.
    pub fn is_running(&self) -> (r: bool)
        ensures
            r == (self.state == WorkerState::Running),
    {
        match self.state {
            WorkerState::Running => true,
            _ => false,
        }
    }

    /// Moves the handle out for killing and marks the worker terminated.
    /// Without a running worker this does nothing and gives nothing back.
    pub fn terminate(&mut self) -> (r: Option<H>)
        requires
            old(self).wf(),
        ensures
            *final(self) == old(self).after_terminate(),
            final(self).wf(),
            r == old(self).handle,
    {
        let taken = self.handle.take();
        if self.is_running() {
            self.state = WorkerState::Terminated;
        }
        taken
    }
}

/// Terminating a second time hands out nothing and changes nothing; neither
/// does terminating a supervisor that never had a worker.
pub proof fn lemma_terminate_idempotent<H>(s: Supervisor<H>)
    requires
        s.wf(),
    ensures
        s.after_terminate().wf(),
        s.after_terminate().handle is None,
        s.after_terminate().after_terminate() == s.after_terminate(),
        s.state == WorkerState::NoProcess ==> s.after_terminate() == s && s.handle is None,
{
}

} // verus!
