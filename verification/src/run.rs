//! Running an operation against the store, one round trip at a time.
//!
//! The library does no input or output. A `Run` says what is to be done next
//! (borrow a connection, run a statement, give the connection back, stop) and
//! is told how it went. The rules it follows:
//!
//! - statements run in the order of the plan;
//! - the first failure ends the operation: no later statement runs;
//! - a connection that was borrowed is given back before the operation stops,
//!   also after a failure;
//! - a statement that the store ran is a success whatever the number of rows it
//!   touched, zero included.

use crate::error::LedgerError;
use crate::ledger::{Operation, Plan, PlanView};
use crate::statement::Statement;
use vstd::prelude::*;

verus! {

/// What a finished operation reports.
#[derive(Debug, Clone, Copy, PartialEq, Eq, Structural)]
pub struct Summary {
    /// The number of statements that the store ran.
    pub executed: usize,
    /// The rows that the store reported as touched, summed over the
    /// statements; the sum stops at the largest number.
    pub affected: u64,
}

/// What the caller is to do next.
#[derive(Debug, Clone, Copy, PartialEq, Eq)]
pub enum Action {
    /// Borrow a connection from the pool.
    Acquire,
    /// Run the statement with this index in the plan on the borrowed connection.
    Execute(usize),
    /// Give the borrowed connection back to the pool.
    Release,
    /// Stop: the operation is over, with this result.
    Finish(Result<Summary, LedgerError>),
}

/// How the last action went.
#[derive(Debug, Clone, Copy, PartialEq, Eq, Structural)]
pub enum Reply {
    /// A connection was borrowed.
    Acquired,
    /// The pool could not hand out a connection.
    Unavailable,
    /// The store ran the statement and touched this many rows.
    Executed(u64),
    /// The store did not run the statement.
    Failed,
    /// The connection was given back.
    Released,
}

/// Where a run stands.
#[derive(Debug, Clone, Copy, PartialEq, Eq, Structural)]
pub enum Stage {
    /// Waiting for a connection.
    Connecting,
    /// Holding a connection, waiting for the store to run a statement.
    Executing,
    /// Holding a connection that is to be given back.
    Releasing,
    /// Over.
    Finished,
}

/// A run as mathematics.
pub struct RunView {
    /// The plan that is run.
    pub plan: PlanView,
    /// The number of statements that the store ran.
    pub next: nat,
    /// Where the run stands.
    pub stage: Stage,
    /// The rows touched so far.
    pub affected: u64,
    /// The failure that ended the run, if one did.
    pub error: Option<LedgerError>,
}

/// A run that follows a plan.
#[derive(Debug)]
pub struct Run {
    plan: Plan,
    next: usize,
    stage: Stage,
    affected: u64,
    error: Option<LedgerError>,
}

/// The error that a failed statement becomes: by the kind of the operation,
/// and for an ingestion with the index of the row.
pub open spec fn failure(operation: Operation, index: nat) -> LedgerError {
    match operation {
        Operation::Provisioning => LedgerError::Schema,
        Operation::Ingestion => LedgerError::Write { row: index as usize },
        Operation::Query => LedgerError::Query,
    }
}

/// The sum of two counts, which stops at the largest number.
pub open spec fn capped_sum(a: u64, b: u64) -> u64 {
    if a + b > u64::MAX {
        u64::MAX
    } else {
        (a + b) as u64
    }
}

/// The state in which the run of a plan begins. An empty plan is over at once;
/// no connection is borrowed for it.
pub open spec fn start(plan: PlanView) -> RunView {
    RunView {
        plan,
        next: 0,
        stage: if plan.statements.len() == 0 {
            Stage::Finished
        } else {
            Stage::Connecting
        },
        affected: 0,
        error: None,
    }
}

/// The result of a run that is over.
pub open spec fn outcome(s: RunView) -> Result<Summary, LedgerError> {
    match s.error {
        Some(error) => Err(error),
        None => Ok(Summary { executed: s.next as usize, affected: s.affected }),
    }
}

/// What is to be done in a state.
pub open spec fn pending(s: RunView) -> Action {
    match s.stage {
        Stage::Connecting => Action::Acquire,
        Stage::Executing => Action::Execute(s.next as usize),
        Stage::Releasing => Action::Release,
        Stage::Finished => Action::Finish(outcome(s)),
    }
}

/// Whether a reply tells how the action that is pending in a state went.
pub open spec fn answers(s: RunView, reply: Reply) -> bool {
    match s.stage {
        Stage::Connecting => reply is Acquired || reply is Unavailable,
        Stage::Executing => reply is Executed || reply is Failed,
        Stage::Releasing => reply is Released,
        Stage::Finished => false,
    }
}

/// The state after a reply. A reply that does not answer the pending action
/// changes nothing.
pub open spec fn step(s: RunView, reply: Reply) -> RunView {
    match (s.stage, reply) {
        (Stage::Connecting, Reply::Acquired) => RunView { stage: Stage::Executing, ..s },
        (Stage::Connecting, Reply::Unavailable) => RunView {
            stage: Stage::Finished,
            error: Some(LedgerError::Connection),
            ..s
        },
        (Stage::Executing, Reply::Executed(rows)) => RunView {
            next: s.next + 1,
            affected: capped_sum(s.affected, rows),
            stage: if s.next + 1 < s.plan.statements.len() && s.plan.operation
                != Operation::Ingestion {
                Stage::Executing
            } else {
                Stage::Releasing
            },
            ..s
        },
        (Stage::Executing, Reply::Failed) => RunView {
            stage: Stage::Releasing,
            error: Some(failure(s.plan.operation, s.next)),
            ..s
        },
        (Stage::Releasing, Reply::Released) => RunView {
            stage: if s.error is None && s.next < s.plan.statements.len() {
                Stage::Connecting
            } else {
                Stage::Finished
            },
            ..s
        },
        _ => s,
    }
}

/// The state after a sequence of replies.
pub open spec fn run_through(s: RunView, replies: Seq<Reply>) -> RunView
    decreases replies.len(),
{
    if replies.len() == 0 {
        s
    } else {
        step(run_through(s, replies.drop_last()), replies.last())
    }
}

/// What holds of every state that a run reaches: a statement is still to run
/// while the run connects or executes, which it does only as long as nothing
/// failed; and a run that is over without a failure has run every statement.
pub open spec fn consistent(s: RunView) -> bool {
    &&& s.next <= s.plan.statements.len()
    &&& (s.stage is Connecting || s.stage is Executing) ==> s.next < s.plan.statements.len()
        && s.error is None
    &&& s.stage is Finished && s.error is None ==> s.next == s.plan.statements.len()
    &&& s.error is Some ==> s.next < s.plan.statements.len()
}

/// Whether a connection is held in a state.
pub open spec fn holds_connection(s: RunView) -> bool {
    s.stage is Executing || s.stage is Releasing
}

/// The connections borrowed and not yet given back after a sequence of
/// replies: each `Acquired` that answers an `Acquire` adds one, each `Released`
/// that answers a `Release` takes one away.
pub open spec fn borrowed(s: RunView, replies: Seq<Reply>) -> int
    decreases replies.len(),
{
    if replies.len() == 0 {
        0
    } else {
        let before = run_through(s, replies.drop_last());
        borrowed(s, replies.drop_last()) + if before.stage is Connecting && replies.last()
            is Acquired {
            1int
        } else if before.stage is Releasing && replies.last() is Released {
            -1int
        } else {
            0int
        }
    }
}

/// A bound on the number of round trips that a run still makes.
pub open spec fn remaining(s: RunView) -> int {
    if s.error is Some {
        match s.stage {
            Stage::Releasing => 1int,
            _ => 0int,
        }
    } else {
        4 * (s.plan.statements.len() - s.next) + match s.stage {
            Stage::Releasing => 4int,
            Stage::Connecting => 3int,
            Stage::Executing => 2int,
            Stage::Finished => 0int,
        }
    }
}

/// Every state that a run reaches is consistent, and its plan is the one that
/// the run began with.
pub proof fn lemma_reached_states_are_consistent(plan: PlanView, replies: Seq<Reply>)
    ensures
        consistent(run_through(start(plan), replies)),
        run_through(start(plan), replies).plan == plan,
    decreases replies.len(),
{
    if replies.len() > 0 {
        lemma_reached_states_are_consistent(plan, replies.drop_last());
    }
}

/// Scoped acquisition: at every moment at most one connection is borrowed, and
/// when the run is over, in success or in failure, every connection that was
/// borrowed has been given back.
pub proof fn lemma_connections_are_returned(plan: PlanView, replies: Seq<Reply>)
    ensures
        borrowed(start(plan), replies) == if holds_connection(
            run_through(start(plan), replies),
        ) {
            1int
        } else {
            0int
        },
        run_through(start(plan), replies).stage is Finished ==> borrowed(start(plan), replies)
            == 0,
    decreases replies.len(),
{
    if replies.len() > 0 {
        lemma_connections_are_returned(plan, replies.drop_last());
    }
}

/// The first failure ends the operation: once a run has failed, whatever
/// replies follow, no further statement runs, no further connection is asked
/// for, and the failure stays the one that is reported.
pub proof fn lemma_failure_is_final(s: RunView, replies: Seq<Reply>)
    requires
        consistent(s),
        s.error is Some,
    ensures
        run_through(s, replies).error == s.error,
        run_through(s, replies).next == s.next,
        run_through(s, replies).affected == s.affected,
        !(pending(run_through(s, replies)) is Execute),
        !(pending(run_through(s, replies)) is Acquire),
        consistent(run_through(s, replies)),
    decreases replies.len(),
{
    if replies.len() > 0 {
        lemma_failure_is_final(s, replies.drop_last());
    }
}

/// A failed statement is reported by the kind of the operation, after the
/// connection has been given back; a connection that could not be borrowed is
/// reported at once.
pub proof fn lemma_failure_is_reported(s: RunView)
    requires
        consistent(s),
    ensures
        s.stage is Executing ==> pending(step(s, Reply::Failed)) == Action::Release && pending(
            step(step(s, Reply::Failed), Reply::Released),
        ) == Action::Finish(Err(failure(s.plan.operation, s.next))),
        s.stage is Connecting ==> pending(step(s, Reply::Unavailable)) == Action::Finish(
            Err(LedgerError::Connection),
        ),
{
}

/// A run is over after finitely many round trips: each reply that answers the
/// pending action brings the end nearer.
pub proof fn lemma_each_reply_brings_the_end_nearer(s: RunView, reply: Reply)
    requires
        consistent(s),
        answers(s, reply),
    ensures
        0 <= remaining(step(s, reply)) < remaining(s),
        consistent(step(s, reply)),
{
}

/// Where nothing fails, nothing is reported as failed: a run that was told of
/// no failure reports none, and once it is over it has run every statement of
/// the plan.
pub proof fn lemma_success_where_nothing_fails(plan: PlanView, replies: Seq<Reply>)
    requires
        forall|i: int|
            0 <= i < replies.len() ==> !(#[trigger] replies[i] is Failed) && !(replies[i]
                is Unavailable),
    ensures
        run_through(start(plan), replies).error is None,
        run_through(start(plan), replies).stage is Finished ==> outcome(
            run_through(start(plan), replies),
        ) is Ok && run_through(start(plan), replies).next == plan.statements.len(),
    decreases replies.len(),
{
    lemma_reached_states_are_consistent(plan, replies);
    if replies.len() > 0 {
        let init = replies.drop_last();
        assert forall|i: int| 0 <= i < init.len() implies !(#[trigger] init[i] is Failed) && !(
        init[i] is Unavailable) by {
            assert(init[i] == replies[i]);
        }
        lemma_success_where_nothing_fails(plan, init);
        assert(!(replies.last() is Failed) && !(replies.last() is Unavailable)) by {
            assert(replies.last() == replies[replies.len() - 1]);
        }
    }
}

/// A statement that the store ran and that touched no row is a success like
/// any other: the run goes on as after a statement that touched rows, and the
/// count of touched rows stays as it was.
pub proof fn lemma_touching_no_row_is_no_failure(s: RunView, rows: u64)
    ensures
        step(s, Reply::Executed(0)).error == s.error,
        step(s, Reply::Executed(0)).stage == step(s, Reply::Executed(rows)).stage,
        step(s, Reply::Executed(0)).next == step(s, Reply::Executed(rows)).next,
        s.stage is Executing ==> step(s, Reply::Executed(0)).affected == s.affected,
{
}

impl View for Run {
    type V = RunView;

    closed spec fn view(&self) -> RunView {
        RunView {
            plan: self.plan@,
            next: self.next as nat,
            stage: self.stage,
            affected: self.affected,
            error: self.error,
        }
    }
}

impl Run {
    #[verifier::type_invariant]
    spec fn in_range(self) -> bool {
        &&& self.next <= self.plan.statements.len()
        &&& (self.stage is Connecting || self.stage is Executing) ==> self.next
            < self.plan.statements.len()
    }

    /// Begins the run of a plan.
    pub fn new(plan: Plan) -> (run: Run)
        ensures
            run@ == start(plan@),
    {
        let stage = if plan.statements.len() == 0 {
            Stage::Finished
        } else {
            Stage::Connecting
        };
        Run { plan, next: 0, stage, affected: 0, error: None }
    }

    /// What is to be done next.
    pub fn pending(&self) -> (action: Action)
        ensures
            action == pending(self@),
    {
        match self.stage {
            Stage::Connecting => Action::Acquire,
            Stage::Executing => Action::Execute(self.next),
            Stage::Releasing => Action::Release,
            Stage::Finished => Action::Finish(
                match self.error {
                    Some(error) => Err(error),
                    None => Ok(Summary { executed: self.next, affected: self.affected }),
                },
            ),
        }
    }

    /// The statement that is to be run next: there is one exactly while the
    /// pending action is to run a statement.
    pub fn statement(&self) -> (statement: Option<&Statement>)
        ensures
            statement is Some == self@.stage is Executing,
            statement is Some ==> self@.next < self@.plan.statements.len()
                && statement->0@ == self@.plan.statements[self@.next as int],
    {
        proof {
            use_type_invariant(self);
        }
        match self.stage {
            Stage::Executing => Some(&self.plan.statements[self.next]),
            _ => None,
        }
    }

    /// Takes note of how the pending action went and says what is to be done
    /// next. A reply that does not answer the pending action changes nothing:
    /// the action is handed out again.
    pub fn advance(&mut self, reply: Reply) -> (action: Action)
        ensures
            final(self)@ == step(old(self)@, reply),
            action == pending(final(self)@),
    {
        proof {
            use_type_invariant(&*self);
        }
        match (self.stage, reply) {
            (Stage::Connecting, Reply::Acquired) => {
                self.stage = Stage::Executing;
            },
            (Stage::Connecting, Reply::Unavailable) => {
                self.stage = Stage::Finished;
                self.error = Some(LedgerError::Connection);
            },
            (Stage::Executing, Reply::Executed(rows)) => {
                self.stage = Stage::Releasing;
                self.next = self.next + 1;
                self.affected = self.affected.saturating_add(rows);
                if self.next < self.plan.statements.len() {
                    match self.plan.operation {
                        Operation::Ingestion => {},
                        _ => {
                            self.stage = Stage::Executing;
                        },
                    }
                }
            },
            (Stage::Executing, Reply::Failed) => {
                self.stage = Stage::Releasing;
                self.error = Some(
                    match self.plan.operation {
                        Operation::Provisioning => LedgerError::Schema,
                        Operation::Ingestion => LedgerError::Write { row: self.next },
                        Operation::Query => LedgerError::Query,
                    },
                );
            },
            (Stage::Releasing, Reply::Released) => {
                if self.error.is_none() && self.next < self.plan.statements.len() {
                    self.stage = Stage::Connecting;
                } else {
                    self.stage = Stage::Finished;
                }
            },
            _ => {},
        }
        self.pending()
    }
}

} // verus!
