//! The sessions of a host's mixer, the writes that can be asked of them, and
//! what a write that a session accepts does to it.
use crate::level::Level;
use vstd::prelude::*;

verus! {

/// One process's audio stream as an enumeration found it. The level and the
/// mute flag are what the platform answered when asked for them: a value, or
/// its description of why it gave none.
#[derive(Debug, PartialEq, Eq)]
pub struct Session {
    /// The process that owns the stream.
    pub pid: u32,
    /// The stream's volume level.
    pub volume: Result<Level, String>,
    /// Whether the stream is muted.
    pub muted: Result<bool, String>,
}

/// A new value for one property of a session.
#[derive(Clone, Copy, Debug, PartialEq, Eq, Structural)]
pub enum Change {
    /// Set the mute flag.
    Mute(bool),
    /// Set the volume level.
    Volume(Level),
}

/// One write to one session.
#[derive(Clone, Copy, Debug, PartialEq, Eq, Structural)]
pub struct Command {
    /// The session's place in the enumeration, counted from zero.
    pub session: usize,
    /// The process that owns the session.
    pub pid: u32,
    /// What to write.
    pub change: Change,
    /// Whether the write merely prepares another one, so that nothing is
    /// recorded when the session turns it down.
    pub best_effort: bool,
}

/// The sessions after one write: a session that accepts a write holds the
/// value written, and nothing else changes.
pub open spec fn after_command(sessions: Seq<Session>, command: Command, accepted: bool) -> Seq<
    Session,
> {
    if accepted && command.session < sessions.len() {
        let before = sessions[command.session as int];
        let after = match command.change {
            Change::Mute(muted) => Session { muted: Ok(muted), ..before },
            Change::Volume(level) => Session { volume: Ok(level), ..before },
        };
        sessions.update(command.session as int, after)
    } else {
        sessions
    }
}

/// The sessions after the first `count` writes of a plan, made in order,
/// where `outcomes` holds the platform's answer to each.
pub open spec fn after_commands(
    sessions: Seq<Session>,
    plan: Seq<Command>,
    outcomes: Seq<Result<(), String>>,
    count: nat,
) -> Seq<Session>
    decreases count,
{
    if count == 0 {
        sessions
    } else {
        after_command(
            after_commands(sessions, plan, outcomes, (count - 1) as nat),
            plan[count - 1],
            outcomes[count - 1] is Ok,
        )
    }
}

/// The sessions after a whole plan.
pub open spec fn after_plan(
    sessions: Seq<Session>,
    plan: Seq<Command>,
    outcomes: Seq<Result<(), String>>,
) -> Seq<Session> {
    after_commands(sessions, plan, outcomes, plan.len())
}

} // verus!
