//! What holds of every run of the driver, whatever replies come in.

use crate::driver::{Action, Driver, Engine, Operation, Reply, Strategy};
use crate::history::{
    completions, final_action_stays, scopes_closed, scopes_opened, tally_push, Exchange,
};
use vstd::prelude::*;

verus! {

/// The number of completion records that a read has left for `file` by the
/// time `pending` is asked for, if nothing failed.
spec fn recorded_before(pending: Action, file: usize) -> nat {
    match pending {
        Action::ReadFile { file: next } => if file < next {
            1
        } else {
            0
        },
        Action::AwaitRead { file: next } => if file < next {
            1
        } else {
            0
        },
        Action::CloseScope => 1,
        Action::Finish => 1,
        _ => 0,
    }
}

/// The completion records of the first `files` files of the catalog, added up.
pub open spec fn total_completions(history: Seq<Exchange>, files: nat) -> nat
    decreases files,
{
    if files == 0 {
        0
    } else {
        total_completions(history, (files - 1) as nat) + completions(
            history,
            (files - 1) as usize,
        )
    }
}

/// The number of outer scopes that were opened by the time `driver` waits
/// for its pending action.
spec fn opened_before(driver: Driver) -> nat {
    match driver.pending {
        Action::ReadFile { .. } => 1,
        Action::ReadAll { .. } => 1,
        Action::SpawnRead { .. } => 1,
        Action::AwaitRead { .. } => 1,
        Action::CloseScope => 1,
        Action::Finish => if driver.operation is Read {
            1
        } else {
            0
        },
        Action::Abort { .. } => if driver.operation is Read {
            1
        } else {
            0
        },
        _ => 0,
    }
}

/// The number of outer scopes that were closed by the time `driver` waits
/// for its pending action.
spec fn closed_before(driver: Driver) -> nat {
    if driver.pending is Finish && driver.operation is Read {
        1
    } else {
        0
    }
}

/// While a read goes on without a failure, the completion records of each
/// file are those that the pending action tells of, and so they were at
/// every exchange on the way; a failure adds none.
proof fn completions_follow_progress(
    strategy: Strategy,
    files: usize,
    replies: Seq<Reply>,
    file: usize,
)
    requires
        file < files,
    ensures
        ({
            let start = Driver::initial(Operation::Read(strategy), files);
            let end = start.run(replies);
            let history = start.history(replies);
            &&& end.wf()
            &&& end.operation == Operation::Read(strategy)
            &&& end.files == files
            &&& end.pending is Abort ==> completions(history, file) <= 1
            &&& !(end.pending is Abort) ==> completions(history, file) == recorded_before(
                end.pending,
                file,
            )
            &&& forall|at: int|
                0 <= at < history.len() ==> completions(history.take(at), file) == recorded_before(
                    (#[trigger] history[at]).action,
                    file,
                )
        }),
    decreases replies.len(),
{
    let start = Driver::initial(Operation::Read(strategy), files);
    if replies.len() == 0 {
        assert(start.history(replies) =~= Seq::<Exchange>::empty());
    } else {
        let earlier = replies.drop_last();
        let reply = replies.last();
        completions_follow_progress(strategy, files, earlier, file);
        let before = start.run(earlier);
        let past = start.history(earlier);
        let history = start.history(replies);
        if before.pending.answered_by(reply) {
            let exchange = Exchange { action: before.pending, reply };
            tally_push(past, exchange, |exchange: Exchange| exchange.completes(file));
            assert forall|at: int| 0 <= at < history.len() implies completions(
                history.take(at),
                file,
            ) == recorded_before((#[trigger] history[at]).action, file) by {
                if at < past.len() {
                    assert(history.take(at) =~= past.take(at));
                    assert(history[at] == past[at]);
                } else {
                    assert(history.take(at) =~= past);
                }
            }
        }
    }
}

/// Every read leaves at most one completion record for each catalog file,
/// and a read that finished has left exactly one: under each of the four
/// strategies, as many records as files.
pub proof fn one_completion_per_file(
    strategy: Strategy,
    files: usize,
    replies: Seq<Reply>,
    file: usize,
)
    requires
        file < files,
    ensures
        ({
            let start = Driver::initial(Operation::Read(strategy), files);
            let history = start.history(replies);
            &&& completions(history, file) <= 1
            &&& start.run(replies).pending == Action::Finish ==> completions(history, file) == 1
        }),
{
    completions_follow_progress(strategy, files, replies, file);
}

/// The completion records of the first `counted` files of a finished read
/// add up to `counted`.
proof fn completions_add_up(strategy: Strategy, files: usize, replies: Seq<Reply>, counted: nat)
    requires
        counted <= files,
        Driver::initial(Operation::Read(strategy), files).run(replies).pending == Action::Finish,
    ensures
        total_completions(
            Driver::initial(Operation::Read(strategy), files).history(replies),
            counted,
        ) == counted,
    decreases counted,
{
    if counted > 0 {
        completions_add_up(strategy, files, replies, (counted - 1) as nat);
        one_completion_per_file(strategy, files, replies, (counted - 1) as usize);
    }
}

/// A read that finished has left as many completion records as the catalog
/// has files.
pub proof fn completions_match_catalog(strategy: Strategy, files: usize, replies: Seq<Reply>)
    requires
        Driver::initial(Operation::Read(strategy), files).run(replies).pending == Action::Finish,
    ensures
        total_completions(
            Driver::initial(Operation::Read(strategy), files).history(replies),
            files as nat,
        ) == files,
{
    completions_add_up(strategy, files, replies, files as nat);
}

/// Reads go by catalog order, and the outer scope outlives them all: when a
/// file is read alone or its task is awaited, the files before it have their
/// completion record and no other has one; when the outer scope is closed,
/// every file has its record.
pub proof fn records_follow_catalog_order(
    strategy: Strategy,
    files: usize,
    replies: Seq<Reply>,
    file: usize,
    at: int,
)
    requires
        file < files,
        0 <= at < Driver::initial(Operation::Read(strategy), files).history(replies).len(),
    ensures
        ({
            let history = Driver::initial(Operation::Read(strategy), files).history(replies);
            let so_far = completions(history.take(at), file);
            &&& history[at].action matches Action::ReadFile { file: next } ==> so_far == if file
                < next {
                1nat
            } else {
                0nat
            }
            &&& history[at].action matches Action::AwaitRead { file: next } ==> so_far == if file
                < next {
                1nat
            } else {
                0nat
            }
            &&& history[at].action is CloseScope ==> so_far == 1
        }),
{
    completions_follow_progress(strategy, files, replies, file);
}

/// The outer scopes opened and closed so far are those that the pending
/// action tells of, and every scope for a file was opened inside the one
/// outer scope.
proof fn scopes_follow_progress(operation: Operation, files: usize, replies: Seq<Reply>)
    ensures
        ({
            let start = Driver::initial(operation, files);
            let end = start.run(replies);
            let history = start.history(replies);
            &&& end.wf()
            &&& end.operation == operation
            &&& scopes_opened(history) == opened_before(end)
            &&& scopes_closed(history) == closed_before(end)
            &&& forall|at: int|
                0 <= at < history.len() && (#[trigger] history[at]).opens_file_scope()
                    ==> scopes_opened(history.take(at)) == 1 && scopes_closed(history.take(at))
                    == 0
        }),
    decreases replies.len(),
{
    let start = Driver::initial(operation, files);
    if replies.len() == 0 {
        assert(start.history(replies) =~= Seq::<Exchange>::empty());
    } else {
        let earlier = replies.drop_last();
        let reply = replies.last();
        scopes_follow_progress(operation, files, earlier);
        let before = start.run(earlier);
        let past = start.history(earlier);
        let history = start.history(replies);
        if before.pending.answered_by(reply) {
            let exchange = Exchange { action: before.pending, reply };
            tally_push(past, exchange, |exchange: Exchange| exchange.opens_outer_scope());
            tally_push(past, exchange, |exchange: Exchange| exchange.closes_outer_scope());
            assert forall|at: int|
                0 <= at < history.len() && (#[trigger] history[at]).opens_file_scope() implies (
            scopes_opened(history.take(at)) == 1 && scopes_closed(history.take(at)) == 0) by {
                if at < past.len() {
                    assert(history.take(at) =~= past.take(at));
                    assert(history[at] == past[at]);
                } else {
                    assert(history.take(at) =~= past);
                }
            }
        }
    }
}

/// Under each strategy, whenever a scope for a file is opened, exactly one
/// outer scope has been opened before it and none has been closed: every
/// per-file scope lies inside the run's one outer scope.
pub proof fn file_scopes_nest(operation: Operation, files: usize, replies: Seq<Reply>, at: int)
    requires
        0 <= at < Driver::initial(operation, files).history(replies).len(),
        Driver::initial(operation, files).history(replies)[at].opens_file_scope(),
    ensures
        scopes_opened(Driver::initial(operation, files).history(replies).take(at)) == 1,
        scopes_closed(Driver::initial(operation, files).history(replies).take(at)) == 0,
{
    scopes_follow_progress(operation, files, replies);
}

/// A run opens at most one outer scope and closes none that it did not open;
/// a read that finished has opened one and closed it.
pub proof fn one_outer_scope(operation: Operation, files: usize, replies: Seq<Reply>)
    ensures
        ({
            let start = Driver::initial(operation, files);
            let history = start.history(replies);
            &&& scopes_closed(history) <= scopes_opened(history) <= 1
            &&& operation is Read && start.run(replies).pending == Action::Finish ==> scopes_opened(
                history,
            ) == 1 && scopes_closed(history) == 1
        }),
{
    scopes_follow_progress(operation, files, replies);
}

/// A reply of `Failed` that answers the pending action aborts the run with
/// the fault of that action, and from then on nothing changes: no further
/// action is asked for, whatever else comes in.
pub proof fn failure_is_final(driver: Driver, later: Seq<Reply>)
    requires
        driver.pending.answered_by(Reply::Failed),
    ensures
        driver.after(Reply::Failed).pending == (Action::Abort {
            failure: driver.pending.failure(),
        }),
        driver.after(Reply::Failed).run(later) == driver.after(Reply::Failed),
        driver.after(Reply::Failed).history(later) == Seq::<Exchange>::empty(),
{
    final_action_stays(driver.after(Reply::Failed), later);
}

/// A run ends in `Abort` only if one of the replies reported a failure.
pub proof fn abort_needs_failure(operation: Operation, files: usize, replies: Seq<Reply>)
    requires
        Driver::initial(operation, files).run(replies).pending is Abort,
    ensures
        replies.contains(Reply::Failed),
    decreases replies.len(),
{
    let start = Driver::initial(operation, files);
    if replies.len() > 0 {
        let earlier = replies.drop_last();
        if start.run(earlier).pending is Abort {
            abort_needs_failure(operation, files, earlier);
            let at = choose|at: int| 0 <= at < earlier.len() && earlier[at] == Reply::Failed;
            assert(replies[at] == Reply::Failed);
        } else {
            assert(replies[replies.len() - 1] == Reply::Failed);
        }
    }
}

/// The action that is pending in a run of `operation` once `done` actions
/// were carried out and none failed. Cleanup is not covered: what it asks for
/// depends on what its probes find.
pub open spec fn action_at(operation: Operation, files: usize, done: nat) -> Action {
    match operation {
        Operation::Prepare => if done < files {
            Action::WriteFile { file: done as usize }
        } else {
            Action::Finish
        },
        Operation::Read(Strategy::Sequential) => if done == 0 {
            Action::OpenScope
        } else if done <= files {
            Action::ReadFile { file: (done - 1) as usize }
        } else if done == files + 1 {
            Action::CloseScope
        } else {
            Action::Finish
        },
        Operation::Read(Strategy::DataParallel) => if done == 0 {
            Action::OpenScope
        } else if done == 1 {
            Action::ReadAll { engine: Engine::Parallel }
        } else if done == 2 {
            Action::CloseScope
        } else {
            Action::Finish
        },
        Operation::Read(Strategy::ConditionallyParallel) => if done == 0 {
            Action::OpenScope
        } else if done == 1 {
            Action::ReadAll { engine: Engine::Switchable }
        } else if done == 2 {
            Action::CloseScope
        } else {
            Action::Finish
        },
        Operation::Read(Strategy::Async) => if done == 0 {
            Action::OpenScope
        } else if done <= files {
            Action::SpawnRead { file: (done - 1) as usize }
        } else if done <= 2 * files {
            Action::AwaitRead { file: (done - files - 1) as usize }
        } else if done == 2 * files + 1 {
            Action::CloseScope
        } else {
            Action::Finish
        },
        Operation::Cleanup => Driver::first_action(operation, files),
    }
}

/// `count` replies of `Done`.
pub open spec fn all_done(count: nat) -> Seq<Reply> {
    Seq::new(count, |i: int| Reply::Done)
}

/// As long as nothing fails, a run goes through its operation step by step:
/// the writes in catalog order; the scope opened, the reads in catalog order
/// or all in one batch, the scope closed; every task spawned before the
/// first is awaited and every task awaited before the scope is closed. With
/// enough replies it ends in `Finish`.
pub proof fn unfailing_run_follows_its_course(operation: Operation, files: usize, done: nat)
    requires
        operation != Operation::Cleanup,
    ensures
        Driver::initial(operation, files).run(all_done(done)) == (Driver {
            operation,
            files,
            pending: action_at(operation, files, done),
        }),
        done >= 2 * files + 3 ==> Driver::initial(operation, files).run(all_done(done)).pending
            == Action::Finish,
    decreases done,
{
    if done > 0 {
        assert(all_done(done).drop_last() =~= all_done((done - 1) as nat));
        unfailing_run_follows_its_course(operation, files, (done - 1) as nat);
    }
}

} // verus!
