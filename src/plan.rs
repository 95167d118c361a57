use vstd::prelude::*;
use crate::error::AppError;

verus! {

/// One outside action of an operation. Each one reports a single outcome:
/// `true` when it did what it names.
pub enum Op {
    /// Succeeds when nothing exists at `path`.
    Absent { path: String },
    /// Copies `from` to `to`, overwriting what is there.
    Copy { from: String, to: String },
    /// Removes the file at `path`.
    Remove { path: String },
    /// Runs the service manager with `args`.
    Systemctl { args: Vec<String> },
    /// Asks the operator to confirm `prompt`.
    Confirm { prompt: String },
}

/// What a failed step means for the operation.
pub enum OnFailure {
    /// The operation stops with this error.
    Abort(AppError),
    /// The failure is swallowed and the operation goes on.
    Ignore,
    /// The operation stops at once, successfully, having done nothing more.
    Cancel,
}

/// An action together with the policy for its failure.
pub struct Step {
    pub op: Op,
    pub on_failure: OnFailure,
}

/// The steps of one operation, in order. A dry run reports them and
/// performs none.
pub struct Plan {
    pub dry_run: bool,
    pub steps: Vec<Step>,
}

/// Where a run stands.
#[derive(Clone, Copy, Debug, PartialEq, Eq, Structural)]
pub enum RunState {
    /// The step at `pos` is due.
    Running,
    /// Every step has been performed.
    Done,
    /// A confirmation was refused; nothing more is performed.
    Cancelled,
    /// The step at this index failed with an aborting policy.
    Failed(usize),
}

/// Drives a plan one step at a time: the caller performs the pending step
/// and records its outcome.
pub struct Runner {
    pub plan: Plan,
    pub pos: usize,
    pub state: RunState,
}

impl Step {
    pub open spec fn aborts(&self) -> bool {
        self.on_failure is Abort
    }

    pub open spec fn cancels(&self) -> bool {
        self.on_failure is Cancel
    }
}

impl Runner {
    pub open spec fn wf(&self) -> bool {
        &&& self.plan.steps@.len() <= usize::MAX
        &&& self.pos <= self.plan.steps@.len()
        &&& (self.state == RunState::Running ==> self.pos < self.plan.steps@.len())
        &&& (self.state is Failed ==> self.state->Failed_0 == self.pos)
        &&& (self.state is Failed || self.state is Cancelled ==> self.pos < self.plan.steps@.len())
    }

    /// The runner as it stands before any step of `plan`.
    pub open spec fn start(plan: Plan) -> Runner {
        Runner {
            plan,
            pos: 0,
            state: if plan.dry_run || plan.steps@.len() == 0 {
                RunState::Done
            } else {
                RunState::Running
            },
        }
    }

    /// The runner after the pending step reported `ok`.
    pub open spec fn after(self, ok: bool) -> Runner {
        if self.state != RunState::Running {
            self
        } else if ok || self.plan.steps@[self.pos as int].on_failure is Ignore {
            Runner {
                pos: (self.pos + 1) as usize,
                state: if self.pos + 1 == self.plan.steps@.len() {
                    RunState::Done
                } else {
                    RunState::Running
                },
                ..self
            }
        } else if self.plan.steps@[self.pos as int].cancels() {
            Runner { state: RunState::Cancelled, ..self }
        } else {
            Runner { state: RunState::Failed(self.pos), ..self }
        }
    }

    /// The runner after the pending steps reported `outcomes`, in order.
    pub open spec fn run(self, outcomes: Seq<bool>) -> Runner
        decreases outcomes.len(),
    {
        if outcomes.len() == 0 {
            self
        } else {
            self.after(outcomes[0]).run(outcomes.drop_first())
        }
    }

    /// Starts a run of `plan`. A dry run, or a plan without steps, has
    /// nothing to perform.
    pub fn new(plan: Plan) -> (r: Runner)
        ensures
            r == Runner::start(plan),
            r.wf(),
    {
        let n = plan.steps.len();
        let state = if plan.dry_run || n == 0 {
            RunState::Done
        } else {
            RunState::Running
        };
        Runner { plan, pos: 0, state }
    }

    /// The index of the step to perform next, if the run goes on.
    pub fn pending(&self) -> (r: Option<usize>)
        requires
            self.wf(),
        ensures
            r == (if self.state == RunState::Running {
                Some(self.pos)
            } else {
                None::<usize>
            }),
            r is Some ==> r->Some_0 < self.plan.steps@.len(),
    {
        if self.state == RunState::Running {
            Some(self.pos)
        } else {
            None
        }
    }

    /// The step at index `i` of the plan.
    pub fn step(&self, i: usize) -> (r: &Step)
        requires
            i < self.plan.steps@.len(),
        ensures
            *r == self.plan.steps@[i as int],
    {
        &self.plan.steps[i]
    }

    /// Records the outcome of the pending step.
    pub fn record(&mut self, ok: bool)
        requires
            old(self).wf(),
        ensures
            *final(self) == old(self).after(ok),
            final(self).wf(),
    {
        if self.state != RunState::Running {
            return;
        }
        let pos = self.pos;
        let n = self.plan.steps.len();
        let ignore = match self.plan.steps[pos].on_failure {
            OnFailure::Ignore => true,
            _ => false,
        };
        if ok || ignore {
            self.pos = pos + 1;
            if pos + 1 == n {
                self.state = RunState::Done;
            }
        } else {
            let cancel = match self.plan.steps[pos].on_failure {
                OnFailure::Cancel => true,
                _ => false,
            };
            if cancel {
                self.state = RunState::Cancelled;
            } else {
                self.state = RunState::Failed(pos);
            }
        }
    }

    /// The error that ended the run, if a step failed with an aborting
    /// policy.
    pub fn error(&self) -> (r: Option<&AppError>)
        requires
            self.wf(),
        ensures
            r is Some <==> (self.state is Failed
                && self.plan.steps@[self.pos as int].on_failure is Abort),
            r is Some ==> *r->Some_0 == self.plan.steps@[self.pos as int].on_failure->Abort_0,
    {
        match self.state {
            RunState::Failed(i) => match &self.plan.steps[i].on_failure {
                OnFailure::Abort(e) => Some(e),
                _ => None,
            },
            _ => None,
        }
    }
}

} // verus!
