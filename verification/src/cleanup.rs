//! Cleanup against a file system: a model of the disk that the cleanup meets,
//! and what the driver's cleanup does to it.

use crate::driver::{Action, Driver, Operation, Reply};
use crate::history::{run_in_two_parts, run_of_one, Exchange};
use vstd::prelude::*;

verus! {

/// The disk as a cleanup sees it.
pub struct Disk {
    /// The names of the files that exist.
    pub present: Set<Seq<char>>,
    /// The names of files whose removal fails.
    pub stuck: Set<Seq<char>>,
}

impl Disk {
    /// Whether a removal of `name` succeeds: the file exists and is not stuck.
    pub open spec fn can_remove(self, name: Seq<char>) -> bool {
        self.present.contains(name) && !self.stuck.contains(name)
    }

    /// What a caller working on this disk answers to `action`, the catalog
    /// holding `names`.
    pub open spec fn reply_to(self, names: Seq<Seq<char>>, action: Action) -> Reply {
        match action {
            Action::ProbeFile { file } => if self.present.contains(names[file as int]) {
                Reply::Present
            } else {
                Reply::Absent
            },
            Action::RemoveFile { file } => if self.can_remove(names[file as int]) {
                Reply::Done
            } else {
                Reply::Failed
            },
            _ => Reply::Done,
        }
    }

    /// The disk once `action` was carried out on it.
    pub open spec fn after(self, names: Seq<Seq<char>>, action: Action) -> Disk {
        match action {
            Action::RemoveFile { file } => if self.can_remove(names[file as int]) {
                Disk { present: self.present.remove(names[file as int]), ..self }
            } else {
                self
            },
            _ => self,
        }
    }

    /// Whether none of the catalog's files from index `from` on exists.
    pub open spec fn holds_none(self, names: Seq<Seq<char>>, from: int) -> bool {
        forall|i: int| from <= i < names.len() ==> !self.present.contains(#[trigger] names[i])
    }
}

/// The replies that `driver` gets from a caller working on `disk`, until the
/// run is over or `steps` actions were carried out.
pub open spec fn dialogue(names: Seq<Seq<char>>, disk: Disk, driver: Driver, steps: nat) -> Seq<
    Reply,
>
    decreases steps,
{
    if steps == 0 || driver.pending.is_final() {
        Seq::empty()
    } else {
        let reply = disk.reply_to(names, driver.pending);
        seq![reply] + dialogue(
            names,
            disk.after(names, driver.pending),
            driver.after(reply),
            (steps - 1) as nat,
        )
    }
}

/// The disk that is left when the dialogue of `driver` with `disk` ends.
pub open spec fn disk_left(names: Seq<Seq<char>>, disk: Disk, driver: Driver, steps: nat) -> Disk
    decreases steps,
{
    if steps == 0 || driver.pending.is_final() {
        disk
    } else {
        let reply = disk.reply_to(names, driver.pending);
        disk_left(
            names,
            disk.after(names, driver.pending),
            driver.after(reply),
            (steps - 1) as nat,
        )
    }
}

/// The run of a cleanup over the catalog `names` before anything was done.
pub open spec fn cleanup_start(names: Seq<Seq<char>>) -> Driver {
    Driver::initial(Operation::Cleanup, names.len() as usize)
}

/// The replies that a whole cleanup of the catalog `names` gets on `disk`:
/// at most a probe and a removal for each file.
pub open spec fn cleanup_replies(names: Seq<Seq<char>>, disk: Disk) -> Seq<Reply> {
    dialogue(names, disk, cleanup_start(names), 2 * names.len())
}

/// The disk that a whole cleanup of the catalog `names` leaves of `disk`.
pub open spec fn cleanup_leaves(names: Seq<Seq<char>>, disk: Disk) -> Disk {
    disk_left(names, disk, cleanup_start(names), 2 * names.len())
}

/// The actions that a cleanup waiting on `pending` may still ask for, at most.
spec fn steps_left(files: usize, pending: Action) -> int {
    match pending {
        Action::ProbeFile { file } => 2 * (files - file),
        Action::RemoveFile { file } => 2 * (files - file) - 1,
        _ => 0,
    }
}

/// The index of the first catalog file that a cleanup waiting on `pending`
/// has not dealt with.
spec fn next_to_clean(files: usize, pending: Action) -> int {
    match pending {
        Action::ProbeFile { file } => file as int,
        Action::RemoveFile { file } => file as int,
        _ => files as int,
    }
}

/// A cleanup that is under way, met by a disk: it comes to an end; it takes
/// nothing off the disk but catalog files and puts nothing on it; if it
/// finishes, none of the files it still had to deal with is left; and if
/// none of them was there to begin with, it finishes without asking for a
/// removal and leaves the disk as it was.
proof fn cleanup_walk(names: Seq<Seq<char>>, disk: Disk, driver: Driver, steps: nat)
    requires
        names.len() <= usize::MAX,
        driver.operation == Operation::Cleanup,
        driver.files == names.len(),
        driver.wf(),
        steps_left(driver.files, driver.pending) <= steps,
    ensures
        ({
            let replies = dialogue(names, disk, driver, steps);
            let left = disk_left(names, disk, driver, steps);
            let end = driver.run(replies);
            let history = driver.history(replies);
            let from = next_to_clean(driver.files, driver.pending);
            &&& end.pending.is_final()
            &&& left.stuck == disk.stuck
            &&& forall|name: Seq<char>| left.present.contains(name) ==> disk.present.contains(name)
            &&& forall|name: Seq<char>|
                disk.present.contains(name) && !names.contains(name) ==> left.present.contains(
                    name,
                )
            &&& end.pending == Action::Finish ==> left.holds_none(names, from)
            &&& disk.holds_none(names, from) && (driver.pending is ProbeFile
                || driver.pending is Finish) ==> {
                &&& end.pending == Action::Finish
                &&& left == disk
                &&& forall|at: int|
                    0 <= at < history.len() ==> !((#[trigger] history[at]).action is RemoveFile)
            }
        }),
    decreases steps,
{
    let replies = dialogue(names, disk, driver, steps);
    if steps == 0 || driver.pending.is_final() {
        assert(replies =~= Seq::<Reply>::empty());
        assert(driver.history(replies) =~= Seq::<Exchange>::empty());
    } else {
        let reply = disk.reply_to(names, driver.pending);
        let next_disk = disk.after(names, driver.pending);
        let next = driver.after(reply);
        let rest = dialogue(names, next_disk, next, (steps - 1) as nat);
        let left = disk_left(names, disk, driver, steps);
        let from = next_to_clean(driver.files, driver.pending);
        assert(names.contains(names[from]));
        cleanup_walk(names, next_disk, next, (steps - 1) as nat);
        run_of_one(driver, reply);
        run_in_two_parts(driver, seq![reply], rest);
        let end = driver.run(replies);
        let history = driver.history(replies);
        let later = next.history(rest);
        assert(history =~= seq![Exchange { action: driver.pending, reply }] + later);
        if disk.holds_none(names, from) && driver.pending is ProbeFile {
            assert(!disk.present.contains(names[from]));
            assert(next_disk.holds_none(names, next_to_clean(next.files, next.pending)));
            assert forall|at: int| 0 <= at < history.len() implies !((#[trigger] history[at]).action
                is RemoveFile) by {
                if at > 0 {
                    assert(history[at] == later[at - 1]);
                }
            }
        }
        if end.pending == Action::Finish {
            assert(!left.present.contains(names[from]));
        }
    }
}

/// A cleanup on any disk comes to an end. It removes nothing but catalog
/// files and creates nothing. If it finishes, no catalog file is left.
pub proof fn cleanup_clears_catalog(names: Seq<Seq<char>>, disk: Disk)
    requires
        names.len() <= usize::MAX,
    ensures
        ({
            let end = cleanup_start(names).run(cleanup_replies(names, disk));
            let left = cleanup_leaves(names, disk);
            &&& end.pending.is_final()
            &&& left.stuck == disk.stuck
            &&& forall|name: Seq<char>| left.present.contains(name) ==> disk.present.contains(name)
            &&& forall|name: Seq<char>|
                disk.present.contains(name) && !names.contains(name) ==> left.present.contains(
                    name,
                )
            &&& end.pending == Action::Finish ==> left.holds_none(names, 0)
        }),
{
    cleanup_walk(names, disk, cleanup_start(names), 2 * names.len());
}

/// A cleanup on a disk that holds no catalog file asks for no removal,
/// finishes, and leaves the disk as it was, whatever else the disk holds
/// and whichever files are stuck.
pub proof fn cleanup_of_nothing(names: Seq<Seq<char>>, disk: Disk)
    requires
        names.len() <= usize::MAX,
        disk.holds_none(names, 0),
    ensures
        ({
            let start = cleanup_start(names);
            let replies = cleanup_replies(names, disk);
            &&& start.run(replies).pending == Action::Finish
            &&& cleanup_leaves(names, disk) == disk
            &&& forall|at: int|
                0 <= at < start.history(replies).len() ==> !((
                #[trigger] start.history(replies)[at]).action is RemoveFile)
        }),
{
    cleanup_walk(names, disk, cleanup_start(names), 2 * names.len());
}

/// Cleanup is idempotent: after a cleanup that finished, a second cleanup
/// finds no file, asks for no removal, cannot fail, and leaves the disk as
/// the first one left it.
pub proof fn cleanup_is_idempotent(names: Seq<Seq<char>>, disk: Disk)
    requires
        names.len() <= usize::MAX,
        cleanup_start(names).run(cleanup_replies(names, disk)).pending == Action::Finish,
    ensures
        ({
            let start = cleanup_start(names);
            let once = cleanup_leaves(names, disk);
            let again = cleanup_replies(names, once);
            &&& once.holds_none(names, 0)
            &&& start.run(again).pending == Action::Finish
            &&& cleanup_leaves(names, once) == once
            &&& forall|at: int|
                0 <= at < start.history(again).len() ==> !((
                #[trigger] start.history(again)[at]).action is RemoveFile)
        }),
{
    cleanup_clears_catalog(names, disk);
    cleanup_of_nothing(names, cleanup_leaves(names, disk));
}

} // verus!
