//! Runs of the driver: what it comes to after a sequence of replies, and the
//! exchanges that took place on the way.

use crate::driver::{Action, Driver, Reply};
use vstd::prelude::*;

verus! {

/// An action that the caller carried out, with the reply it gave.
pub struct Exchange {
    pub action: Action,
    pub reply: Reply,
}

impl Exchange {
    /// Whether the exchange left a completion record for `file`: the file was
    /// read, alone or with the whole batch, or the task that read it was
    /// awaited and had completed.
    pub open spec fn completes(self, file: usize) -> bool {
        self.reply == Reply::Done && match self.action {
            Action::ReadFile { file: read } => read == file,
            Action::AwaitRead { file: read } => read == file,
            Action::ReadAll { .. } => true,
            _ => false,
        }
    }

    /// Whether the exchange opened a scope for one file or more.
    pub open spec fn opens_file_scope(self) -> bool {
        self.action is ReadFile || self.action is ReadAll || self.action is SpawnRead
    }

    /// Whether the exchange opened the outer scope.
    pub open spec fn opens_outer_scope(self) -> bool {
        self.action is OpenScope
    }

    /// Whether the exchange closed the outer scope.
    pub open spec fn closes_outer_scope(self) -> bool {
        self.action is CloseScope
    }
}

/// The number of exchanges in `history` that `wanted` holds of.
pub open spec fn tally(history: Seq<Exchange>, wanted: spec_fn(Exchange) -> bool) -> nat
    decreases history.len(),
{
    if history.len() == 0 {
        0
    } else {
        tally(history.drop_last(), wanted) + if wanted(history.last()) {
            1nat
        } else {
            0nat
        }
    }
}

/// The number of completion records that `history` holds for `file`.
pub open spec fn completions(history: Seq<Exchange>, file: usize) -> nat {
    tally(history, |exchange: Exchange| exchange.completes(file))
}

/// The number of times the outer scope was opened in `history`.
pub open spec fn scopes_opened(history: Seq<Exchange>) -> nat {
    tally(history, |exchange: Exchange| exchange.opens_outer_scope())
}

/// The number of times the outer scope was closed in `history`.
pub open spec fn scopes_closed(history: Seq<Exchange>) -> nat {
    tally(history, |exchange: Exchange| exchange.closes_outer_scope())
}

impl Driver {
    /// The run after the replies have come in, one after the other.
    pub open spec fn run(self, replies: Seq<Reply>) -> Driver
        decreases replies.len(),
    {
        if replies.len() == 0 {
            self
        } else {
            self.run(replies.drop_last()).after(replies.last())
        }
    }

    /// The exchanges that took place while the replies came in: one for each
    /// reply that answered the action pending at the time.
    pub open spec fn history(self, replies: Seq<Reply>) -> Seq<Exchange>
        decreases replies.len(),
    {
        if replies.len() == 0 {
            Seq::empty()
        } else {
            let before = self.run(replies.drop_last());
            let earlier = self.history(replies.drop_last());
            if before.pending.answered_by(replies.last()) {
                earlier.push(Exchange { action: before.pending, reply: replies.last() })
            } else {
                earlier
            }
        }
    }
}

/// Counting over a history that grew by one exchange.
pub proof fn tally_push(history: Seq<Exchange>, exchange: Exchange, wanted: spec_fn(Exchange) -> bool)
    ensures
        tally(history.push(exchange), wanted) == tally(history, wanted) + if wanted(exchange) {
            1nat
        } else {
            0nat
        },
{
    assert(history.push(exchange).drop_last() =~= history);
}

/// A well-formed run stays well-formed, whatever the replies.
pub proof fn run_keeps_wf(driver: Driver, replies: Seq<Reply>)
    requires
        driver.wf(),
    ensures
        driver.run(replies).wf(),
        driver.run(replies).operation == driver.operation,
        driver.run(replies).files == driver.files,
    decreases replies.len(),
{
    if replies.len() > 0 {
        run_keeps_wf(driver, replies.drop_last());
    }
}

/// One reply: the run takes one step, and one exchange takes place if the
/// reply answers the pending action.
pub proof fn run_of_one(driver: Driver, reply: Reply)
    ensures
        driver.run(seq![reply]) == driver.after(reply),
        driver.history(seq![reply]) == if driver.pending.answered_by(reply) {
            seq![(Exchange { action: driver.pending, reply })]
        } else {
            Seq::<Exchange>::empty()
        },
{
    let one = seq![reply];
    assert(one.drop_last() =~= Seq::<Reply>::empty());
    assert(one.last() == reply);
    assert(driver.run(one.drop_last()) == driver);
    assert(driver.history(one.drop_last()) =~= Seq::<Exchange>::empty());
    assert(Seq::<Exchange>::empty().push(Exchange { action: driver.pending, reply }) =~= seq![
        Exchange { action: driver.pending, reply },
    ]);
}

/// Replies that come in two parts: the second part meets the run that the
/// first part left.
pub proof fn run_in_two_parts(driver: Driver, first: Seq<Reply>, second: Seq<Reply>)
    ensures
        driver.run(first + second) == driver.run(first).run(second),
        driver.history(first + second) == driver.history(first) + driver.run(first).history(
            second,
        ),
    decreases second.len(),
{
    if second.len() == 0 {
        assert(first + second =~= first);
        assert(driver.history(first) + Seq::<Exchange>::empty() =~= driver.history(first));
    } else {
        let all = first + second;
        assert(all.drop_last() =~= first + second.drop_last());
        assert(all.last() == second.last());
        run_in_two_parts(driver, first, second.drop_last());
        let middle = driver.run(first);
        let before = middle.run(second.drop_last());
        if before.pending.answered_by(second.last()) {
            let exchange = Exchange { action: before.pending, reply: second.last() };
            assert((driver.history(first) + middle.history(second.drop_last())).push(exchange)
                =~= driver.history(first) + middle.history(second.drop_last()).push(exchange));
        }
    }
}

/// Once `Finish` or `Abort` is pending, no reply changes the run and no
/// further exchange takes place.
pub proof fn final_action_stays(driver: Driver, replies: Seq<Reply>)
    requires
        driver.pending.is_final(),
    ensures
        driver.run(replies) == driver,
        driver.history(replies) == Seq::<Exchange>::empty(),
    decreases replies.len(),
{
    if replies.len() > 0 {
        final_action_stays(driver, replies.drop_last());
    }
}

} // verus!
