//! The task executor: a single point of concurrent execution for
//! independently submitted jobs, with observable aggregate progress and
//! orderly shutdown.
//!
//! The executor's observable state is two monotone counters and a running
//! flag, modelled by [`ExecState`]. Every operation is one [`ExecEvent`]
//! of the transition function [`step`], so that what a history of calls
//! does to the counters can be stated and proved once, over sequences of
//! events. The caller owns the channel and the runtime that carry the
//! jobs themselves; [`TaskMng`] holds the verified bookkeeping.

use vstd::prelude::*;

use crate::text::{dec_digits, u64_to_dec};

verus! {

/// The observable state of one executor: how many jobs were submitted,
/// how many finished with a positive outcome, and whether intake is
/// still open.
#[verifier::ext_equal]
pub struct ExecState {
    pub submitted: nat,
    pub completed: nat,
    pub running: bool,
}

/// One observable executor operation: a submission, a job reporting its
/// outcome, or the terminate signal.
pub enum ExecEvent {
    Submit,
    Finish { success: bool },
    Shutdown,
}

/// The state of a freshly constructed executor: nothing submitted,
/// nothing completed, intake open.
pub open spec fn init_state() -> ExecState {
    ExecState { submitted: 0, completed: 0, running: true }
}

/// The counter invariant: a job completes only after it was submitted.
pub open spec fn state_inv(s: ExecState) -> bool {
    s.completed <= s.submitted
}

/// Whether a submission is accepted in state `s`: only while intake is
/// open. A rejected submission is fatal to the submitting caller; it
/// never runs a job.
pub open spec fn submit_accepted(s: ExecState) -> bool {
    s.running
}

/// The transition function of the executor. A rejected submission and a
/// negative job outcome leave the state unchanged; shutdown closes
/// intake for good, and a completion reported after shutdown is no
/// longer counted - the loop's receive side is closed, jobs already
/// spawned run on without moving the counters.
pub open spec fn step(pre: ExecState, ev: ExecEvent) -> ExecState {
    match ev {
        ExecEvent::Submit => if pre.running {
            ExecState {
                submitted: pre.submitted + 1,
                completed: pre.completed,
                running: pre.running,
            }
        } else {
            pre
        },
        ExecEvent::Finish { success } => if success && pre.running && pre.completed
            < pre.submitted {
            ExecState {
                submitted: pre.submitted,
                completed: pre.completed + 1,
                running: pre.running,
            }
        } else {
            pre
        },
        ExecEvent::Shutdown => ExecState {
            submitted: pre.submitted,
            completed: pre.completed,
            running: false,
        },
    }
}

/// The state after a whole history of events, first event first.
pub open spec fn run_steps(s: ExecState, evs: Seq<ExecEvent>) -> ExecState
    decreases evs.len(),
{
    if evs.len() == 0 {
        s
    } else {
        run_steps(step(s, evs[0]), evs.drop_first())
    }
}

/// How many submissions a history holds.
pub open spec fn count_submits(evs: Seq<ExecEvent>) -> nat
    decreases evs.len(),
{
    if evs.len() == 0 {
        0
    } else {
        (if evs[0] is Submit {
            1nat
        } else {
            0nat
        }) + count_submits(evs.drop_first())
    }
}

/// For every reachable executor state, `completed <= submitted`, and both
/// counters only grow: no history of operations can break the counter
/// invariant or shrink a counter.
pub proof fn lemma_counter_invariant(s: ExecState, evs: Seq<ExecEvent>)
    requires
        state_inv(s),
    ensures
        state_inv(run_steps(s, evs)),
        run_steps(s, evs).submitted >= s.submitted,
        run_steps(s, evs).completed >= s.completed,
    decreases evs.len(),
{
    if evs.len() > 0 {
        lemma_counter_invariant(step(s, evs[0]), evs.drop_first());
    }
}

/// Submissions are counted exactly once: while intake stays open, a
/// history of submissions and job completions, in any interleaving,
/// raises the submitted counter by exactly the number of submissions it
/// holds - none lost, none counted twice.
pub proof fn lemma_submit_count(s: ExecState, evs: Seq<ExecEvent>)
    requires
        s.running,
        forall|i: int| 0 <= i < evs.len() ==> !(evs[i] is Shutdown),
    ensures
        run_steps(s, evs).running,
        run_steps(s, evs).submitted == s.submitted + count_submits(evs),
    decreases evs.len(),
{
    if evs.len() > 0 {
        lemma_submit_count(step(s, evs[0]), evs.drop_first());
    }
}

/// Shutdown is final: once intake is closed, no later history reopens it
/// or gets another submission accepted.
pub proof fn lemma_shutdown_is_final(s: ExecState, evs: Seq<ExecEvent>)
    requires
        !s.running,
    ensures
        !run_steps(s, evs).running,
        run_steps(s, evs).submitted == s.submitted,
    decreases evs.len(),
{
    if evs.len() > 0 {
        lemma_shutdown_is_final(step(s, evs[0]), evs.drop_first());
    }
}

/// The progress snapshot `"<completed>/<submitted>"` of a state.
pub open spec fn progress_spec(s: ExecState) -> Seq<char> {
    dec_digits(s.completed) + seq!['/'] + dec_digits(s.submitted)
}

/// The error of a submission after shutdown. Submitting after shutdown
/// is a caller lifecycle bug, not an environmental condition: a caller
/// that drives this state machine must treat it as fatal to the
/// submitting call path and must not run the rejected job.
#[derive(Debug, Clone, Copy, PartialEq, Eq)]
pub struct ExecutorShutDown;

/// The verified bookkeeping of the task executor. The background worker
/// loop, the submission channel and the spawned jobs live with the
/// caller; every observable effect they have on progress goes through
/// one of these methods, so the contracts below are the contracts of the
/// executor.
pub struct TaskMng {
    total: u64,
    finished: u64,
    running: bool,
}

impl View for TaskMng {
    type V = ExecState;

    closed spec fn view(&self) -> ExecState {
        ExecState {
            submitted: self.total as nat,
            completed: self.finished as nat,
            running: self.running,
        }
    }
}

impl TaskMng {
    /// A new executor: counters at zero, intake open.
    pub fn new() -> (r: TaskMng)
        ensures
            r@ == init_state(),
    {
        TaskMng { total: 0, finished: 0, running: true }
    }

    /// Records one submission. Accepted and counted exactly when intake
    /// is open; after shutdown it fails and the state does not move.
    pub fn spawn_task(&mut self) -> (r: Result<(), ExecutorShutDown>)
        requires
            old(self)@.submitted < u64::MAX,
        ensures
            final(self)@ == step(old(self)@, ExecEvent::Submit),
            r is Ok <==> submit_accepted(old(self)@),
    {
        if self.running {
            self.total = self.total + 1;
            Ok(())
        } else {
            Err(ExecutorShutDown)
        }
    }

    /// Records the outcome a finished job reported back: the completed
    /// counter moves exactly on a positive outcome reported while intake
    /// is open. Only a submitted job can report, so completions never
    /// outrun submissions.
    pub fn task_finished(&mut self, success: bool)
        requires
            success && old(self)@.running ==> old(self)@.completed < old(self)@.submitted,
        ensures
            final(self)@ == step(old(self)@, (ExecEvent::Finish { success })),
    {
        if success && self.running {
            self.finished = self.finished + 1;
        }
    }

    /// The progress snapshot `"<completed>/<submitted>"` as of this
    /// call. Never fails and moves nothing.
    pub fn process(&self) -> (r: String)
        ensures
            r@ == progress_spec(self@),
    {
        proof {
            reveal_strlit("/");
            assert("/"@ =~= seq!['/']);
        }
        let done = u64_to_dec(self.finished);
        let all = u64_to_dec(self.total);
        done.concat("/").concat(all.as_str())
    }

    /// Closes intake: later submissions fail. Jobs already spawned are
    /// not interrupted; this stops intake, it does not drain.
    pub fn shutdown(&mut self)
        ensures
            final(self)@ == step(old(self)@, ExecEvent::Shutdown),
    {
        self.running = false;
    }
}

} // verus!
