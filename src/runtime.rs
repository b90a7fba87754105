use vstd::prelude::*;

verus! {

/// The life cycle of the background task runtime.
#[derive(Clone, Copy, PartialEq, Eq, Structural, Debug)]
pub enum RuntimeState {
    Created,
    /// Accepting submissions.
    Running,
    /// The stop signal was sent; in-flight commands are finishing.
    ShuttingDown,
    /// Every in-flight command has finished.
    Stopped,
}

/// The closed set of commands the runtime runs.
#[derive(Clone, Copy, PartialEq, Eq, Structural, Debug)]
pub enum CommandKind {
    Ping,
    ImportFolder,
    ImportExternalMetadata,
    OptimizeDatabase,
    RemoveDeletedFiles,
}

/// The reply to a command; a command that failed still replies, as a no-op.
#[derive(Clone, Debug)]
pub enum TaskReply {
    Pong,
    /// The folder that was imported.
    ImportFolder(String),
    ImportExternalMetadata,
    OptimizeDatabase,
    RemoveDeletedFiles,
}

/// Whether a submission was taken.
#[derive(Clone, Copy, PartialEq, Eq, Structural, Debug)]
pub enum Admission {
    Accepted,
    /// The runtime is not running: the submission fails at once.
    Rejected,
}

/// The runtime's bookkeeping: its state and how many commands are in flight.
#[derive(Clone, Copy, PartialEq, Eq, Structural, Debug)]
pub struct RuntimeControl {
    pub state: RuntimeState,
    pub in_flight: u64,
}

pub open spec fn submitted(c: RuntimeControl) -> (RuntimeControl, Admission) {
    if c.state == RuntimeState::Running && c.in_flight < u64::MAX {
        (RuntimeControl { in_flight: (c.in_flight + 1) as u64, ..c }, Admission::Accepted)
    } else {
        (c, Admission::Rejected)
    }
}

pub open spec fn completed(c: RuntimeControl) -> RuntimeControl {
    RuntimeControl { in_flight: (c.in_flight - 1) as u64, ..c }
}

pub open spec fn shutdown_requested(c: RuntimeControl) -> RuntimeControl {
    match c.state {
        RuntimeState::Created => RuntimeControl { state: RuntimeState::Stopped, ..c },
        RuntimeState::Running => RuntimeControl { state: RuntimeState::ShuttingDown, ..c },
        _ => c,
    }
}

pub open spec fn drained(c: RuntimeControl) -> RuntimeControl {
    if c.state == RuntimeState::ShuttingDown && c.in_flight == 0 {
        RuntimeControl { state: RuntimeState::Stopped, ..c }
    } else {
        c
    }
}

/// Whether the reply answers the command.
pub open spec fn reply_matches(kind: CommandKind, folder: Seq<char>, r: TaskReply) -> bool {
    match kind {
        CommandKind::Ping => r matches TaskReply::Pong,
        CommandKind::ImportFolder => r matches TaskReply::ImportFolder(f) && f@ == folder,
        CommandKind::ImportExternalMetadata => r matches TaskReply::ImportExternalMetadata,
        CommandKind::OptimizeDatabase => r matches TaskReply::OptimizeDatabase,
        CommandKind::RemoveDeletedFiles => r matches TaskReply::RemoveDeletedFiles,
    }
}

/// The reply a finished command sends, whether its work succeeded or not.
pub fn reply_for(kind: CommandKind, folder: &str) -> (r: TaskReply)
    ensures
        reply_matches(kind, folder@, r),
{
    match kind {
        CommandKind::Ping => TaskReply::Pong,
        CommandKind::ImportFolder => TaskReply::ImportFolder(folder.to_string()),
        CommandKind::ImportExternalMetadata => TaskReply::ImportExternalMetadata,
        CommandKind::OptimizeDatabase => TaskReply::OptimizeDatabase,
        CommandKind::RemoveDeletedFiles => TaskReply::RemoveDeletedFiles,
    }
}

impl RuntimeControl {
    pub fn new() -> (r: RuntimeControl)
        ensures
            r.state == RuntimeState::Created,
            r.in_flight == 0,
    {
        RuntimeControl { state: RuntimeState::Created, in_flight: 0 }
    }

    /// The worker pool is up: submissions are taken from now on.
    pub fn start(&mut self)
        requires
            old(self).state == RuntimeState::Created,
        ensures
            final(self).state == RuntimeState::Running,
            final(self).in_flight == old(self).in_flight,
    {
        self.state = RuntimeState::Running;
    }

    /// Takes a submission while running; rejects it otherwise.
    pub fn submit(&mut self) -> (r: Admission)
        ensures
            (*final(self), r) == submitted(*old(self)),
    {
        if self.state == RuntimeState::Running && self.in_flight < u64::MAX {
            self.in_flight = self.in_flight + 1;
            Admission::Accepted
        } else {
            Admission::Rejected
        }
    }

    /// A command finished; its reply is sent.
    pub fn complete(&mut self, kind: CommandKind, folder: &str) -> (r: TaskReply)
        requires
            old(self).in_flight > 0,
        ensures
            *final(self) == completed(*old(self)),
            reply_matches(kind, folder@, r),
    {
        self.in_flight = self.in_flight - 1;
        reply_for(kind, folder)
    }

    /// Sends the stop signal.
    pub fn request_shutdown(&mut self)
        ensures
            *final(self) == shutdown_requested(*old(self)),
    {
        match self.state {
            RuntimeState::Created => {
                self.state = RuntimeState::Stopped;
            },
            RuntimeState::Running => {
                self.state = RuntimeState::ShuttingDown;
            },
            _ => {},
        }
    }

    /// The barrier: once nothing is in flight, shutting down ends in `Stopped`.
    pub fn finish_shutdown(&mut self) -> (r: bool)
        ensures
            *final(self) == drained(*old(self)),
            r == (final(self).state == RuntimeState::Stopped),
    {
        if self.state == RuntimeState::ShuttingDown && self.in_flight == 0 {
            self.state = RuntimeState::Stopped;
        }
        self.state == RuntimeState::Stopped
    }
}

/// A running runtime with nothing in flight accepts a Ping, answers it with
/// Pong, then shuts down without waiting on anything; every submission after
/// that is rejected.
pub proof fn lemma_ping_then_shutdown(c: RuntimeControl, folder: Seq<char>, r: TaskReply)
    requires
        c.state == RuntimeState::Running,
        c.in_flight == 0,
        reply_matches(CommandKind::Ping, folder, r),
    ensures
        submitted(c).1 == Admission::Accepted,
        r matches TaskReply::Pong,
        drained(shutdown_requested(completed(submitted(c).0))).state == RuntimeState::Stopped,
        submitted(drained(shutdown_requested(completed(submitted(c).0)))).1 == Admission::Rejected,
{
}

/// Once the stop signal is sent, no submission is taken again.
pub proof fn lemma_no_submission_after_shutdown(c: RuntimeControl)
    requires
        c.state == RuntimeState::ShuttingDown || c.state == RuntimeState::Stopped,
    ensures
        submitted(c).1 == Admission::Rejected,
        submitted(c).0 == c,
        submitted(drained(c)).1 == Admission::Rejected,
        submitted(shutdown_requested(c)).1 == Admission::Rejected,
{
}

} // verus!
