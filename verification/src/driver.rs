//! The decisions of the workload driver.
//!
//! The driver never touches a file, a scope or a task itself. It asks for one
//! [`Action`] at a time; the caller carries the action out and answers with a
//! [`Reply`], from which the driver decides what comes next. The whole state
//! of a run is the operation, the number of catalog files and the action that
//! is waiting for its reply.

use vstd::prelude::*;

verus! {

/// The four ways of reading the catalog.
#[derive(Clone, Copy, Debug, PartialEq, Eq, Structural)]
pub enum Strategy {
    /// One file after the other, in catalog order, on the calling thread.
    Sequential,
    /// All files handed to the parallel for-each at once.
    DataParallel,
    /// As `DataParallel`, through the engine that may run single-threaded.
    ConditionallyParallel,
    /// One task per file, all spawned before the first is awaited.
    Async,
}

/// What the driver can be asked to do with the catalog.
#[derive(Clone, Copy, Debug, PartialEq, Eq, Structural)]
pub enum Operation {
    /// Write every file of the catalog.
    Prepare,
    /// Read every file of the catalog under the given strategy.
    Read(Strategy),
    /// Remove every file of the catalog that is still there.
    Cleanup,
}

/// The for-each engine that a batch of reads is handed to.
#[derive(Clone, Copy, Debug, PartialEq, Eq, Structural)]
pub enum Engine {
    /// Always spreads the reads over the thread pool.
    Parallel,
    /// Spreads the reads over the thread pool or runs them one by one,
    /// as the build has it.
    Switchable,
}

/// The faults that end a run. None is retried.
#[derive(Clone, Copy, Debug, PartialEq, Eq, Structural)]
pub enum Failure {
    /// A catalog file could not be written.
    WriteFailed,
    /// A catalog file could not be read.
    ReadFailed,
    /// A spawned task did not complete normally.
    TaskFailed,
    /// A catalog file could not be removed.
    RemoveFailed,
}

/// One thing the driver asks its caller to do. `file` is an index into the
/// catalog.
#[derive(Clone, Copy, Debug, PartialEq, Eq, Structural)]
pub enum Action {
    /// Fill the file with fresh content and write it.
    WriteFile { file: usize },
    /// Open the scope that spans all reads of this run.
    OpenScope,
    /// In a scope of its own, read the file and record that it was read.
    ReadFile { file: usize },
    /// Do what `ReadFile` does for every file of the catalog through the
    /// engine's for-each, and come back when all are done.
    ReadAll { engine: Engine },
    /// Spawn a task that does what `ReadFile` does, with its scope captured
    /// here and handed to the task.
    SpawnRead { file: usize },
    /// Await the task that was spawned for the file.
    AwaitRead { file: usize },
    /// Close the scope that `OpenScope` opened.
    CloseScope,
    /// Find out whether the file exists.
    ProbeFile { file: usize },
    /// Remove the file.
    RemoveFile { file: usize },
    /// Nothing is left to do.
    Finish,
    /// Stop at once: the fault is fatal.
    Abort { failure: Failure },
}

/// What the caller reports of the action it was asked for.
#[derive(Clone, Copy, Debug, PartialEq, Eq, Structural)]
pub enum Reply {
    /// The action was carried out.
    Done,
    /// The action failed.
    Failed,
    /// The probed file exists.
    Present,
    /// The probed file does not exist.
    Absent,
}

/// A run of one operation over a catalog of `files` files.
#[derive(Clone, Copy, Debug, PartialEq, Eq, Structural)]
pub struct Driver {
    /// The operation under way.
    pub operation: Operation,
    /// The number of files in the catalog.
    pub files: usize,
    /// The action that waits for its reply.
    pub pending: Action,
}

impl Failure {
    /// The message that the process ends with.
    pub open spec fn message_text(self) -> Seq<char> {
        match self {
            Failure::WriteFailed => "Failed to write test file"@,
            Failure::ReadFailed => "Failed to read file"@,
            Failure::TaskFailed => "Task failed"@,
            Failure::RemoveFailed => "Failed to remove test file"@,
        }
    }

    /// The message that the process ends with.
    pub fn message(&self) -> (text: &'static str)
        ensures
            text@ == self.message_text(),
    {
        match self {
            Failure::WriteFailed => "Failed to write test file",
            Failure::ReadFailed => "Failed to read file",
            Failure::TaskFailed => "Task failed",
            Failure::RemoveFailed => "Failed to remove test file",
        }
    }
}

impl Action {
    /// Whether the run is over once this action is pending.
    pub open spec fn is_final(self) -> bool {
        self is Finish || self is Abort
    }

    /// Whether the action can fail.
    pub open spec fn can_fail(self) -> bool {
        self is WriteFile || self is ReadFile || self is ReadAll || self is AwaitRead
            || self is RemoveFile
    }

    /// Whether `reply` is an answer to this action. A probe is answered by
    /// what it found, every other action by `Done`, or by `Failed` if it can
    /// fail. The two final actions take no answer.
    pub open spec fn answered_by(self, reply: Reply) -> bool {
        if self.is_final() {
            false
        } else if self is ProbeFile {
            reply == Reply::Present || reply == Reply::Absent
        } else {
            reply == Reply::Done || (reply == Reply::Failed && self.can_fail())
        }
    }

    /// The fault that a failure of this action amounts to.
    pub open spec fn failure(self) -> Failure {
        match self {
            Action::WriteFile { .. } => Failure::WriteFailed,
            Action::AwaitRead { .. } => Failure::TaskFailed,
            Action::RemoveFile { .. } => Failure::RemoveFailed,
            _ => Failure::ReadFailed,
        }
    }

    /// The catalog file that the action is about, if it is about one.
    pub open spec fn file(self) -> Option<usize> {
        match self {
            Action::WriteFile { file } => Some(file),
            Action::ReadFile { file } => Some(file),
            Action::SpawnRead { file } => Some(file),
            Action::AwaitRead { file } => Some(file),
            Action::ProbeFile { file } => Some(file),
            Action::RemoveFile { file } => Some(file),
            _ => None,
        }
    }

    /// Whether the action can come up in a run of `operation`.
    pub open spec fn belongs_to(self, operation: Operation) -> bool {
        match self {
            Action::WriteFile { .. } => operation == Operation::Prepare,
            Action::OpenScope | Action::CloseScope => operation is Read,
            Action::ReadFile { .. } => operation == Operation::Read(Strategy::Sequential),
            Action::ReadAll { engine } => operation == Operation::Read(
                match engine {
                    Engine::Parallel => Strategy::DataParallel,
                    Engine::Switchable => Strategy::ConditionallyParallel,
                },
            ),
            Action::SpawnRead { .. } | Action::AwaitRead { .. } => operation == Operation::Read(
                Strategy::Async,
            ),
            Action::ProbeFile { .. } | Action::RemoveFile { .. } => operation
                == Operation::Cleanup,
            Action::Finish => true,
            Action::Abort { failure } => match operation {
                Operation::Prepare => failure == Failure::WriteFailed,
                Operation::Read(Strategy::Async) => failure == Failure::TaskFailed,
                Operation::Read(_) => failure == Failure::ReadFailed,
                Operation::Cleanup => failure == Failure::RemoveFailed,
            },
        }
    }
}

impl Driver {
    /// The first action of `operation` over `files` files.
    pub open spec fn first_action(operation: Operation, files: usize) -> Action {
        match operation {
            Operation::Prepare => if files > 0 {
                Action::WriteFile { file: 0 }
            } else {
                Action::Finish
            },
            Operation::Read(_) => Action::OpenScope,
            Operation::Cleanup => if files > 0 {
                Action::ProbeFile { file: 0 }
            } else {
                Action::Finish
            },
        }
    }

    /// The run of `operation` over `files` files before anything was done.
    pub open spec fn initial(operation: Operation, files: usize) -> Driver {
        Driver { operation, files, pending: Self::first_action(operation, files) }
    }

    /// The action that starts the reads once the outer scope is open.
    pub open spec fn first_read(self) -> Action {
        match self.operation {
            Operation::Read(Strategy::DataParallel) => Action::ReadAll { engine: Engine::Parallel },
            Operation::Read(Strategy::ConditionallyParallel) => Action::ReadAll {
                engine: Engine::Switchable,
            },
            Operation::Read(Strategy::Async) => if self.files > 0 {
                Action::SpawnRead { file: 0 }
            } else {
                Action::CloseScope
            },
            _ => if self.files > 0 {
                Action::ReadFile { file: 0 }
            } else {
                Action::CloseScope
            },
        }
    }

    /// Whether the catalog has a file behind `file`.
    pub open spec fn has_next(self, file: usize) -> bool {
        file + 1 < self.files
    }

    /// The action that follows once `reply` has come in for the pending one.
    /// A reply that does not answer the pending action changes nothing; a
    /// failure aborts the run; otherwise the run moves on in catalog order.
    pub open spec fn next_action(self, reply: Reply) -> Action {
        if !self.pending.answered_by(reply) {
            self.pending
        } else if reply == Reply::Failed {
            Action::Abort { failure: self.pending.failure() }
        } else {
            match self.pending {
                Action::WriteFile { file } => if self.has_next(file) {
                    Action::WriteFile { file: (file + 1) as usize }
                } else {
                    Action::Finish
                },
                Action::OpenScope => self.first_read(),
                Action::ReadFile { file } => if self.has_next(file) {
                    Action::ReadFile { file: (file + 1) as usize }
                } else {
                    Action::CloseScope
                },
                Action::ReadAll { .. } => Action::CloseScope,
                Action::SpawnRead { file } => if self.has_next(file) {
                    Action::SpawnRead { file: (file + 1) as usize }
                } else {
                    Action::AwaitRead { file: 0 }
                },
                Action::AwaitRead { file } => if self.has_next(file) {
                    Action::AwaitRead { file: (file + 1) as usize }
                } else {
                    Action::CloseScope
                },
                Action::CloseScope => Action::Finish,
                Action::ProbeFile { file } => if reply == Reply::Present {
                    Action::RemoveFile { file }
                } else if self.has_next(file) {
                    Action::ProbeFile { file: (file + 1) as usize }
                } else {
                    Action::Finish
                },
                Action::RemoveFile { file } => if self.has_next(file) {
                    Action::ProbeFile { file: (file + 1) as usize }
                } else {
                    Action::Finish
                },
                Action::Finish => Action::Finish,
                Action::Abort { failure } => Action::Abort { failure },
            }
        }
    }

    /// The run after `reply` has come in.
    pub open spec fn after(self, reply: Reply) -> Driver {
        Driver { pending: self.next_action(reply), ..self }
    }

    /// The pending action is one of the operation's own and names a file of
    /// the catalog.
    pub open spec fn wf(self) -> bool {
        &&& self.pending.belongs_to(self.operation)
        &&& self.pending.file() matches Some(file) ==> file < self.files
    }

    /// Starts a run of `operation` over a catalog of `files` files.
    pub fn begin(operation: Operation, files: usize) -> (driver: Driver)
        ensures
            driver == Driver::initial(operation, files),
            driver.wf(),
    {
        let pending = match operation {
            Operation::Prepare => if files > 0 {
                Action::WriteFile { file: 0 }
            } else {
                Action::Finish
            },
            Operation::Read(_) => Action::OpenScope,
            Operation::Cleanup => if files > 0 {
                Action::ProbeFile { file: 0 }
            } else {
                Action::Finish
            },
        };
        Driver { operation, files, pending }
    }

    /// Whether the run is over: the pending action is `Finish` or `Abort`.
    pub fn is_over(&self) -> (over: bool)
        ensures
            over == self.pending.is_final(),
    {
        match self.pending {
            Action::Finish => true,
            Action::Abort { .. } => true,
            _ => false,
        }
    }

    /// Whether `reply` answers the pending action.
    pub fn accepts(&self, reply: Reply) -> (accepted: bool)
        ensures
            accepted == self.pending.answered_by(reply),
    {
        match self.pending {
            Action::Finish => false,
            Action::Abort { .. } => false,
            Action::ProbeFile { .. } => match reply {
                Reply::Present => true,
                Reply::Absent => true,
                _ => false,
            },
            Action::OpenScope => match reply {
                Reply::Done => true,
                _ => false,
            },
            Action::SpawnRead { .. } => match reply {
                Reply::Done => true,
                _ => false,
            },
            Action::CloseScope => match reply {
                Reply::Done => true,
                _ => false,
            },
            _ => match reply {
                Reply::Done => true,
                Reply::Failed => true,
                _ => false,
            },
        }
    }

    /// The index behind `file`, if the catalog has one.
    fn next_file(&self, file: usize) -> (next: Option<usize>)
        ensures
            next == if self.has_next(file) {
                Some((file + 1) as usize)
            } else {
                None
            },
    {
        if self.files > 0 && file < self.files - 1 {
            Some(file + 1)
        } else {
            None
        }
    }

    /// Takes the reply to the pending action and returns the action that is
    /// pending from now on: the same one if `reply` does not answer it,
    /// `Abort` if it reports a failure, else the next one in catalog order.
    pub fn step(&mut self, reply: Reply) -> (action: Action)
        ensures
            *final(self) == old(self).after(reply),
            action == final(self).pending,
            old(self).wf() ==> final(self).wf(),
    {
        if !self.accepts(reply) {
            return self.pending;
        }
        let next = match (self.pending, reply) {
            (Action::WriteFile { .. }, Reply::Failed) => Action::Abort {
                failure: Failure::WriteFailed,
            },
            (Action::AwaitRead { .. }, Reply::Failed) => Action::Abort {
                failure: Failure::TaskFailed,
            },
            (Action::RemoveFile { .. }, Reply::Failed) => Action::Abort {
                failure: Failure::RemoveFailed,
            },
            (_, Reply::Failed) => Action::Abort { failure: Failure::ReadFailed },
            (Action::WriteFile { file }, _) => match self.next_file(file) {
                Some(next) => Action::WriteFile { file: next },
                None => Action::Finish,
            },
            (Action::OpenScope, _) => match self.operation {
                Operation::Read(Strategy::DataParallel) => Action::ReadAll {
                    engine: Engine::Parallel,
                },
                Operation::Read(Strategy::ConditionallyParallel) => Action::ReadAll {
                    engine: Engine::Switchable,
                },
                Operation::Read(Strategy::Async) => if self.files > 0 {
                    Action::SpawnRead { file: 0 }
                } else {
                    Action::CloseScope
                },
                _ => if self.files > 0 {
                    Action::ReadFile { file: 0 }
                } else {
                    Action::CloseScope
                },
            },
            (Action::ReadFile { file }, _) => match self.next_file(file) {
                Some(next) => Action::ReadFile { file: next },
                None => Action::CloseScope,
            },
            (Action::ReadAll { .. }, _) => Action::CloseScope,
            (Action::SpawnRead { file }, _) => match self.next_file(file) {
                Some(next) => Action::SpawnRead { file: next },
                None => Action::AwaitRead { file: 0 },
            },
            (Action::AwaitRead { file }, _) => match self.next_file(file) {
                Some(next) => Action::AwaitRead { file: next },
                None => Action::CloseScope,
            },
            (Action::CloseScope, _) => Action::Finish,
            (Action::ProbeFile { file }, Reply::Present) => Action::RemoveFile { file },
            (Action::ProbeFile { file }, _) => match self.next_file(file) {
                Some(next) => Action::ProbeFile { file: next },
                None => Action::Finish,
            },
            (Action::RemoveFile { file }, _) => match self.next_file(file) {
                Some(next) => Action::ProbeFile { file: next },
                None => Action::Finish,
            },
            (Action::Finish, _) => Action::Finish,
            (Action::Abort { failure }, _) => Action::Abort { failure },
        };
        self.pending = next;
        next
    }
}

/// The order in which the workload runs its operations: the catalog is
/// written afresh before each of the four reads, and removed once at the end.
pub open spec fn workload_plan() -> Seq<Operation> {
    seq![
        Operation::Prepare,
        Operation::Read(Strategy::Sequential),
        Operation::Prepare,
        Operation::Read(Strategy::DataParallel),
        Operation::Prepare,
        Operation::Read(Strategy::ConditionallyParallel),
        Operation::Prepare,
        Operation::Read(Strategy::Async),
        Operation::Cleanup,
    ]
}

/// The operations of the workload, in the order in which they are run. A run
/// that aborts ends the workload: what comes after it is not started.
pub fn workload() -> (operations: Vec<Operation>)
    ensures
        operations@ == workload_plan(),
{
    let mut operations: Vec<Operation> = Vec::new();
    operations.push(Operation::Prepare);
    operations.push(Operation::Read(Strategy::Sequential));
    operations.push(Operation::Prepare);
    operations.push(Operation::Read(Strategy::DataParallel));
    operations.push(Operation::Prepare);
    operations.push(Operation::Read(Strategy::ConditionallyParallel));
    operations.push(Operation::Prepare);
    operations.push(Operation::Read(Strategy::Async));
    operations.push(Operation::Cleanup);
    assert(operations@ =~= workload_plan());
    operations
}

} // verus!
