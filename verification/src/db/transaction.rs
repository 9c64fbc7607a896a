//! Statements that take effect together or not at all.
use vstd::prelude::*;

use crate::db::DbError;
use crate::flow;
use crate::flow::{Call, Reply, Step};
use crate::sql::{Statement, StatementView};

verus! {

/// The statements in specifications.
pub open spec fn views(statements: Seq<Statement>) -> Seq<StatementView> {
    statements.map_values(|s: Statement| s@)
}

/// A list of statements being run in one transaction.
#[derive(Debug)]
pub enum Transaction {
    /// The transaction is being begun.
    Beginning { statements: Vec<Statement> },
    /// A statement is being run; the rest follows.
    Running { rest: Vec<Statement> },
    /// The transaction is being committed.
    Committing,
}

impl Transaction {
    /// The first step.
    pub open spec fn started(
        statements: Seq<StatementView>,
        step: Step<Transaction, Result<(), DbError>>,
    ) -> bool {
        &&& step matches Step::Ask(Transaction::Beginning { statements: s }, Call::Begin)
        &&& views(s@) == statements
    }

    /// The step when statements are left, or none.
    pub open spec fn advanced(
        left: Seq<StatementView>,
        step: Step<Transaction, Result<(), DbError>>,
    ) -> bool {
        if left.len() == 0 {
            step matches Step::Ask(Transaction::Committing, Call::Commit)
        } else {
            &&& step matches Step::Ask(Transaction::Running { rest }, call)
            &&& call.executes(left[0])
            &&& views(rest@) == left.drop_first()
        }
    }

    /// How the transaction goes on with a reply: whatever fails ends it without a commit.
    pub open spec fn resumed(
        self,
        reply: Reply,
        step: Step<Transaction, Result<(), DbError>>,
    ) -> bool {
        match self {
            Transaction::Beginning { statements } => if reply is Finished {
                Transaction::advanced(views(statements@), step)
            } else {
                step == Step::<Transaction, Result<(), DbError>>::Done(Err(DbError::Failed))
            },
            Transaction::Running { rest } => if flow::affected_of(reply) is Some {
                Transaction::advanced(views(rest@), step)
            } else {
                step == Step::<Transaction, Result<(), DbError>>::Done(Err(DbError::Failed))
            },
            Transaction::Committing => step == Step::<Transaction, Result<(), DbError>>::Done(
                if reply is Finished {
                    Ok(())
                } else {
                    Err(DbError::Failed)
                },
            ),
        }
    }

    /// Begins a transaction.
    pub fn start(statements: Vec<Statement>) -> (step: Step<Transaction, Result<(), DbError>>)
        ensures
            Transaction::started(views(statements@), step),
    {
        Step::Ask(Transaction::Beginning { statements }, Call::Begin)
    }

    fn advance(left: Vec<Statement>) -> (step: Step<Transaction, Result<(), DbError>>)
        ensures
            Transaction::advanced(views(left@), step),
    {
        let mut left = left;
        if left.len() == 0 {
            Step::Ask(Transaction::Committing, Call::Commit)
        } else {
            let ghost all = left@;
            let first = left.remove(0);
            assert(views(left@) =~= views(all).drop_first());
            Step::Ask(Transaction::Running { rest: left }, Call::Execute(first))
        }
    }

    /// Takes the reply and goes on.
    pub fn resume(self, reply: Reply) -> (step: Step<Transaction, Result<(), DbError>>)
        ensures
            self.resumed(reply, step),
    {
        match self {
            Transaction::Beginning { statements } => if flow::finished(&reply) {
                Transaction::advance(statements)
            } else {
                Step::Done(Err(DbError::Failed))
            },
            Transaction::Running { rest } => match flow::affected(reply) {
                Some(_) => Transaction::advance(rest),
                None => Step::Done(Err(DbError::Failed)),
            },
            Transaction::Committing => if flow::finished(&reply) {
                Step::Done(Ok(()))
            } else {
                Step::Done(Err(DbError::Failed))
            },
        }
    }

    /// The statements that are still to be run.
    pub open spec fn left(self) -> Seq<StatementView> {
        match self {
            Transaction::Beginning { statements } => views(statements@),
            Transaction::Running { rest } => views(rest@),
            Transaction::Committing => Seq::empty(),
        }
    }
}

/// A transaction succeeds only by its commit, and it is committed only when no statement is left:
/// a step from any state either runs the first statement that is left, commits when none is, or
/// ends; it ends well only after the commit succeeded.
pub proof fn law_transaction_commits_last(
    state: Transaction,
    reply: Reply,
    step: Step<Transaction, Result<(), DbError>>,
)
    requires
        state.resumed(reply, step),
    ensures
        step matches Step::Done(Ok(())) ==> state is Committing && reply is Finished,
        step matches Step::Ask(_, Call::Commit) ==> state.left().len() == 0,
        step matches Step::Ask(next, call) ==> call is Commit || call.executes(state.left()[0]),
        step matches Step::Ask(next, call) ==> (call is Commit || next.left()
            == state.left().drop_first()),
{
}

} // verus!
