//! One display's read/decide/write cycle, as a state machine.
//!
//! The caller asks the current state for its command, performs it on the
//! display, and hands the answer back as an event; each step says whether
//! the protocol's settle delay is owed before the next command.
use vstd::prelude::*;

use crate::brightness::Action;

verus! {

/// How one display's cycle ended.
#[derive(Clone, Debug, PartialEq, Eq)]
pub enum Outcome {
    /// Reading the current value failed (no response, timeout).
    NoDeviceResponse,
    /// A query: the display's current value.
    Reported(u16),
    /// The requested value equals the current one; nothing was written.
    NoChangeNeeded(u16),
    /// The value was written.
    Changed { old: u16, new: u16 },
    /// Writing the new value failed, for the given cause.
    ChangeFailed { old: u16, new: u16, cause: String },
}

impl Outcome {
    pub open spec fn is_failure_spec(&self) -> bool {
        self is NoDeviceResponse || self is ChangeFailed
    }

    /// Whether the display ended in a failing outcome: no response to the
    /// read, or a write that failed.
    pub fn is_failure(&self) -> (r: bool)
        ensures
            r == self.is_failure_spec(),
    {
        match self {
            Outcome::NoDeviceResponse => true,
            Outcome::ChangeFailed { .. } => true,
            _ => false,
        }
    }
}

/// Where a display's cycle stands.
#[derive(Clone, Debug, PartialEq, Eq)]
pub enum Cycle {
    /// The current value is to be read.
    AwaitingRead,
    /// `new` is to be written in place of `old`.
    AwaitingWrite { old: u16, new: u16 },
    /// The cycle is over.
    Finished(Outcome),
}

/// What the display answered to the last command.
#[derive(Clone, Debug, PartialEq, Eq)]
pub enum Event {
    ReadOk(u16),
    ReadFailed,
    WriteOk,
    /// The write failed; the cause as text.
    WriteFailed(String),
}

/// What is to be done with the display next.
#[derive(Clone, Copy, Debug, PartialEq, Eq, Structural)]
pub enum Command {
    /// Read the current brightness.
    Read,
    /// Write this brightness.
    Write(u16),
    /// Nothing more: the cycle is over.
    Stop,
}

/// Whether the action only asks for the current value: `Get`, or the
/// query-shaped relative change by zero.
pub open spec fn is_query(action: Action) -> bool {
    action is Get || action.is_noop_spec()
}

/// The state after reading `old`: a query ends with the value reported and
/// never writes, even when the value read is out of range; a change ends
/// with nothing to do when the new value equals the old one, and otherwise
/// awaits the write of the new value.
pub open spec fn decided(action: Action, old: u16) -> Cycle {
    if is_query(action) {
        Cycle::Finished(Outcome::Reported(old))
    } else {
        match action {
            Action::Get => Cycle::Finished(Outcome::Reported(old)),
            Action::Change(change) => if change.new_value(old) == old as int {
                Cycle::Finished(Outcome::NoChangeNeeded(old))
            } else {
                Cycle::AwaitingWrite { old, new: change.new_value(old) as u16 }
            },
        }
    }
}

/// Decides what follows the read of `old` (see `decided`).
pub fn decide(action: Action, old: u16) -> (r: Cycle)
    ensures
        r == decided(action, old),
{
    if action.is_noop() {
        return Cycle::Finished(Outcome::Reported(old));
    }
    match action {
        Action::Get => Cycle::Finished(Outcome::Reported(old)),
        Action::Change(change) => {
            let new = change.apply(old);
            if new == old {
                Cycle::Finished(Outcome::NoChangeNeeded(old))
            } else {
                Cycle::AwaitingWrite { old, new }
            }
        },
    }
}

impl Cycle {
    /// A cycle that starts by reading the current value.
    pub fn new() -> (r: Cycle)
        ensures
            r == Cycle::AwaitingRead,
    {
        Cycle::AwaitingRead
    }

    pub open spec fn command_spec(&self) -> Command {
        match self {
            Cycle::AwaitingRead => Command::Read,
            Cycle::AwaitingWrite { new, .. } => Command::Write(*new),
            Cycle::Finished(_) => Command::Stop,
        }
    }

    /// The command that the state asks for.
    pub fn command(&self) -> (r: Command)
        ensures
            r == self.command_spec(),
    {
        match self {
            Cycle::AwaitingRead => Command::Read,
            Cycle::AwaitingWrite { new, .. } => Command::Write(*new),
            Cycle::Finished(_) => Command::Stop,
        }
    }

    /// The next state, and whether the settle delay is owed before anything
    /// else is sent to the display. A failed read ends the cycle at once,
    /// with no delay; a successful read and any write, failed or not, are
    /// followed by the delay. An event that does not answer the pending
    /// command changes nothing.
    pub open spec fn after(self, action: Action, event: Event) -> (Cycle, bool) {
        match self {
            Cycle::AwaitingRead => match event {
                Event::ReadFailed => (Cycle::Finished(Outcome::NoDeviceResponse), false),
                Event::ReadOk(old) => (decided(action, old), true),
                _ => (self, false),
            },
            Cycle::AwaitingWrite { old, new } => match event {
                Event::WriteOk => (Cycle::Finished(Outcome::Changed { old, new }), true),
                Event::WriteFailed(cause) => (
                    Cycle::Finished(Outcome::ChangeFailed { old, new, cause }),
                    true,
                ),
                _ => (self, false),
            },
            Cycle::Finished(_) => (self, false),
        }
    }

    /// Takes one step on the display's answer (see `after`).
    pub fn step(self, action: Action, event: Event) -> (r: (Cycle, bool))
        ensures
            r == self.after(action, event),
    {
        match self {
            Cycle::AwaitingRead => match event {
                Event::ReadFailed => (Cycle::Finished(Outcome::NoDeviceResponse), false),
                Event::ReadOk(old) => (decide(action, old), true),
                _ => (self, false),
            },
            Cycle::AwaitingWrite { old, new } => match event {
                Event::WriteOk => (Cycle::Finished(Outcome::Changed { old, new }), true),
                Event::WriteFailed(cause) => (
                    Cycle::Finished(Outcome::ChangeFailed { old, new, cause }),
                    true,
                ),
                _ => (Cycle::AwaitingWrite { old, new }, false),
            },
            Cycle::Finished(outcome) => (Cycle::Finished(outcome), false),
        }
    }
}

/// After a successful read, a write is asked for exactly when the action is
/// a change other than the query shape and its new value differs from the
/// one read, and then it writes that new value; a query never writes and
/// reports the value read.
pub proof fn lemma_write_only_on_change(action: Action, old: u16)
    ensures
        (Cycle::AwaitingRead.after(action, Event::ReadOk(old)).0.command_spec() is Write) <==> (
        action matches Action::Change(change) && !is_query(action) && change.new_value(old)
            != old as int),
        action matches Action::Change(change) ==> (Cycle::AwaitingRead.after(
            action,
            Event::ReadOk(old),
        ).0.command_spec() is Write ==> Cycle::AwaitingRead.after(
            action,
            Event::ReadOk(old),
        ).0.command_spec() == Command::Write(change.new_value(old) as u16)),
        is_query(action) ==> Cycle::AwaitingRead.after(action, Event::ReadOk(old)).0
            == Cycle::Finished(Outcome::Reported(old)),
{
}

} // verus!
