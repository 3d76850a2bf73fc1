//! The volume control service: what is read from, and written to, the
//! sessions that one enumeration of the host's mixer yields.
//!
//! Every operation starts from a fresh enumeration, handed in as
//! `Ok(sessions)` in the platform's order, or as `Err(description)` when the
//! platform could not be queried. A read answers from the first session. A
//! write answers with a plan: the writes to make, in order, one after the
//! other whatever the sessions say to them.
use crate::error::VolumeError;
use crate::level::{lemma_clamp_idempotent, lemma_clamp_keeps_range, Level};
use crate::mixer::{after_command, after_commands, after_plan, Change, Command, Session};
use vstd::prelude::*;

verus! {

/// What is recorded of one write of a plan.
#[derive(Debug, PartialEq, Eq)]
pub enum Diagnostic {
    /// The session took the new level.
    VolumeSet { pid: u32, level: Level },
    /// The session turned the new level down, for the reason given.
    VolumeRejected { pid: u32, reason: String },
    /// The session turned the new mute flag down, for the reason given.
    MuteRejected { pid: u32, reason: String },
}

/// An enumeration as the contracts below see it.
pub open spec fn enumerated(sessions: Result<Vec<Session>, String>) -> Result<
    Seq<Session>,
    String,
> {
    match sessions {
        Ok(found) => Ok(found@),
        Err(description) => Err(description),
    }
}

/// A plan as the contracts below see it.
pub open spec fn planned(outcome: Result<Vec<Command>, VolumeError>) -> Result<
    Seq<Command>,
    VolumeError,
> {
    match outcome {
        Ok(plan) => Ok(plan@),
        Err(error) => Err(error),
    }
}

/// The level that stands for the machine: that of the first session, one
/// half where there is no session, and an error where the platform could
/// not be queried, for the enumeration or for that session's level.
pub open spec fn master_volume(enumeration: Result<Seq<Session>, String>) -> Result<
    Level,
    VolumeError,
> {
    match enumeration {
        Err(description) => Err(VolumeError::Enumeration(description)),
        Ok(sessions) => if sessions.len() == 0 {
            Ok(Level::fallback())
        } else {
            match sessions[0].volume {
                Ok(level) => Ok(level),
                Err(description) => Err(VolumeError::Enumeration(description)),
            }
        },
    }
}

/// The mute flag that stands for the machine: that of the first session,
/// `false` where there is no session, and an error where the platform could
/// not be queried, for the enumeration or for that session's flag.
pub open spec fn mute_state(enumeration: Result<Seq<Session>, String>) -> Result<
    bool,
    VolumeError,
> {
    match enumeration {
        Err(description) => Err(VolumeError::Enumeration(description)),
        Ok(sessions) => if sessions.len() == 0 {
            Ok(false)
        } else {
            match sessions[0].muted {
                Ok(muted) => Ok(muted),
                Err(description) => Err(VolumeError::Enumeration(description)),
            }
        },
    }
}

/// The write that clears a session's mute flag ahead of a new level.
pub open spec fn unmute_command(sessions: Seq<Session>, session: int) -> Command {
    Command {
        session: session as usize,
        pid: sessions[session].pid,
        change: Change::Mute(false),
        best_effort: true,
    }
}

/// The write that gives a session a new level.
pub open spec fn volume_command(level: Level, sessions: Seq<Session>, session: int) -> Command {
    Command {
        session: session as usize,
        pid: sessions[session].pid,
        change: Change::Volume(level),
        best_effort: false,
    }
}

/// The write that gives a session a new mute flag.
pub open spec fn mute_command(muted: bool, sessions: Seq<Session>, session: int) -> Command {
    Command {
        session: session as usize,
        pid: sessions[session].pid,
        change: Change::Mute(muted),
        best_effort: false,
    }
}

/// The writes that bring every session to `level`: session by session in
/// the order of the enumeration, first the write that clears the mute flag,
/// then the write of the level.
pub open spec fn volume_plan(level: Level, sessions: Seq<Session>) -> Seq<Command> {
    Seq::new(
        2 * sessions.len(),
        |k: int|
            if k % 2 == 0 {
                unmute_command(sessions, k / 2)
            } else {
                volume_command(level, sessions, k / 2)
            },
    )
}

/// The writes that give every session the mute flag `muted`, in the order
/// of the enumeration.
pub open spec fn mute_plan(muted: bool, sessions: Seq<Session>) -> Seq<Command> {
    Seq::new(sessions.len(), |k: int| mute_command(muted, sessions, k))
}

/// What a request for a new level leads to: the plan for the level brought
/// into `[0, 1]`, or an error where the platform could not be queried or
/// there is no session to write to.
pub open spec fn volume_write(level: Level, enumeration: Result<Seq<Session>, String>) -> Result<
    Seq<Command>,
    VolumeError,
> {
    match enumeration {
        Err(description) => Err(VolumeError::Enumeration(description)),
        Ok(sessions) => if sessions.len() == 0 {
            Err(VolumeError::NoSessions)
        } else {
            Ok(volume_plan(level.clamped(), sessions))
        },
    }
}

/// What a request for a new mute flag leads to: the plan, empty where there
/// is no session, or an error where the platform could not be queried.
pub open spec fn mute_write(muted: bool, enumeration: Result<Seq<Session>, String>) -> Result<
    Seq<Command>,
    VolumeError,
> {
    match enumeration {
        Err(description) => Err(VolumeError::Enumeration(description)),
        Ok(sessions) => Ok(mute_plan(muted, sessions)),
    }
}

/// What is recorded of one write, given the platform's answer to it: a new
/// level that was taken, and any refusal of a write that is not merely
/// preparatory.
pub open spec fn diagnostic(command: Command, outcome: Result<(), String>) -> Option<Diagnostic> {
    match outcome {
        Ok(_) => match command.change {
            Change::Volume(level) => Some(Diagnostic::VolumeSet { pid: command.pid, level }),
            Change::Mute(_) => None,
        },
        Err(reason) => if command.best_effort {
            None
        } else {
            match command.change {
                Change::Volume(_) => Some(Diagnostic::VolumeRejected { pid: command.pid, reason }),
                Change::Mute(_) => Some(Diagnostic::MuteRejected { pid: command.pid, reason }),
            }
        },
    }
}

/// What is recorded of the first `count` writes of a plan, in their order.
pub open spec fn diagnostics_upto(
    plan: Seq<Command>,
    outcomes: Seq<Result<(), String>>,
    count: nat,
) -> Seq<Diagnostic>
    decreases count,
{
    if count == 0 {
        Seq::empty()
    } else {
        let earlier = diagnostics_upto(plan, outcomes, (count - 1) as nat);
        match diagnostic(plan[count - 1], outcomes[count - 1]) {
            Some(entry) => earlier.push(entry),
            None => earlier,
        }
    }
}

/// What is recorded of a plan: of each write that has an answer.
pub open spec fn diagnostics_of(plan: Seq<Command>, outcomes: Seq<Result<(), String>>) -> Seq<
    Diagnostic,
> {
    diagnostics_upto(
        plan,
        outcomes,
        if plan.len() <= outcomes.len() {
            plan.len()
        } else {
            outcomes.len()
        },
    )
}

/// Reads the level that stands for the machine off an enumeration.
pub fn get_master_volume(sessions: &Result<Vec<Session>, String>) -> (volume: Result<Level, VolumeError>)
    ensures
        volume == master_volume(enumerated(*sessions)),
{
    match sessions {
        Err(description) => Err(VolumeError::Enumeration(description.clone())),
        Ok(found) => {
            if found.len() == 0 {
                Ok(Level::default_level())
            } else {
                match &found[0].volume {
                    Ok(level) => Ok(*level),
                    Err(description) => Err(VolumeError::Enumeration(description.clone())),
                }
            }
        },
    }
}

/// Reads the mute flag that stands for the machine off an enumeration.
pub fn get_mute(sessions: &Result<Vec<Session>, String>) -> (muted: Result<bool, VolumeError>)
    ensures
        muted == mute_state(enumerated(*sessions)),
{
    match sessions {
        Err(description) => Err(VolumeError::Enumeration(description.clone())),
        Ok(found) => {
            if found.len() == 0 {
                Ok(false)
            } else {
                match &found[0].muted {
                    Ok(muted) => Ok(*muted),
                    Err(description) => Err(VolumeError::Enumeration(description.clone())),
                }
            }
        },
    }
}

/// Plans the writes that bring every session to `level`, brought into
/// `[0, 1]` first. The operation has succeeded once there is a plan: what the
/// sessions say to the writes does not change that.
pub fn set_master_volume(
    level: Level,
    sessions: &Result<Vec<Session>, String>,
) -> (outcome: Result<Vec<Command>, VolumeError>)
    ensures
        planned(outcome) == volume_write(level, enumerated(*sessions)),
{
    match sessions {
        Err(description) => Err(VolumeError::Enumeration(description.clone())),
        Ok(found) => {
            if found.len() == 0 {
                return Err(VolumeError::NoSessions);
            }
            let target = level.clamp();
            let mut plan: Vec<Command> = Vec::new();
            let mut i: usize = 0;
            while i < found.len()
                invariant
                    i <= found.len(),
                    plan.len() == 2 * i,
                    forall|k: int| 0 <= k < 2 * i ==> plan[k] == volume_plan(target, found@)[k],
                decreases found.len() - i,
            {
                let pid = found[i].pid;
                plan.push(Command { session: i, pid, change: Change::Mute(false), best_effort: true });
                plan.push(
                    Command { session: i, pid, change: Change::Volume(target), best_effort: false },
                );
                i += 1;
            }
            assert(plan@ =~= volume_plan(target, found@));
            Ok(plan)
        },
    }
}

/// Plans the writes that give every session the mute flag `muted`. With no
/// session there is nothing to write, and the plan is empty.
pub fn set_mute(
    muted: bool,
    sessions: &Result<Vec<Session>, String>,
) -> (outcome: Result<Vec<Command>, VolumeError>)
    ensures
        planned(outcome) == mute_write(muted, enumerated(*sessions)),
{
    match sessions {
        Err(description) => Err(VolumeError::Enumeration(description.clone())),
        Ok(found) => {
            let mut plan: Vec<Command> = Vec::new();
            let mut i: usize = 0;
            while i < found.len()
                invariant
                    i <= found.len(),
                    plan.len() == i,
                    forall|k: int| 0 <= k < i ==> plan[k] == mute_plan(muted, found@)[k],
                decreases found.len() - i,
            {
                plan.push(
                    Command {
                        session: i,
                        pid: found[i].pid,
                        change: Change::Mute(muted),
                        best_effort: false,
                    },
                );
                i += 1;
            }
            assert(plan@ =~= mute_plan(muted, found@));
            Ok(plan)
        },
    }
}

/// Records what became of a plan's writes, given the platform's answer to
/// each, in the order of the plan. None of it changes the outcome of the
/// operation.
pub fn diagnostics(
    plan: &Vec<Command>,
    outcomes: &Vec<Result<(), String>>,
) -> (recorded: Vec<Diagnostic>)
    ensures
        recorded@ == diagnostics_of(plan@, outcomes@),
{
    let answered: usize = if plan.len() <= outcomes.len() {
        plan.len()
    } else {
        outcomes.len()
    };
    let mut recorded: Vec<Diagnostic> = Vec::new();
    let mut i: usize = 0;
    while i < answered
        invariant
            i <= answered,
            answered <= plan.len(),
            answered <= outcomes.len(),
            recorded@ == diagnostics_upto(plan@, outcomes@, i as nat),
        decreases answered - i,
    {
        let command = plan[i];
        match &outcomes[i] {
            Ok(_) => {
                match command.change {
                    Change::Volume(level) => {
                        recorded.push(Diagnostic::VolumeSet { pid: command.pid, level });
                    },
                    Change::Mute(_) => {},
                }
            },
            Err(reason) => {
                if !command.best_effort {
                    match command.change {
                        Change::Volume(_) => {
                            recorded.push(
                                Diagnostic::VolumeRejected {
                                    pid: command.pid,
                                    reason: reason.clone(),
                                },
                            );
                        },
                        Change::Mute(_) => {
                            recorded.push(
                                Diagnostic::MuteRejected {
                                    pid: command.pid,
                                    reason: reason.clone(),
                                },
                            );
                        },
                    }
                }
            },
        }
        i += 1;
    }
    recorded
}

/// A session after the two writes that a new level brings it, given whether
/// it accepted the first, which clears its mute flag, and the second, which
/// sets its level.
pub open spec fn volume_written(before: Session, level: Level, unmuted: bool, leveled: bool) -> Session {
    Session {
        pid: before.pid,
        volume: if leveled {
            Ok(level)
        } else {
            before.volume
        },
        muted: if unmuted {
            Ok(false)
        } else {
            before.muted
        },
    }
}

/// A session after the write of a new mute flag, given whether it accepted
/// the write.
pub open spec fn mute_written(before: Session, muted: bool, accepted: bool) -> Session {
    if accepted {
        Session { pid: before.pid, volume: before.volume, muted: Ok(muted) }
    } else {
        before
    }
}

/// A level outside `[0, 1]` is handled as the nearest bound is: the request
/// for it leads to what the request for the clamped level leads to.
pub proof fn law_level_is_clamped(level: Level, enumeration: Result<Seq<Session>, String>)
    ensures
        volume_write(level, enumeration) == volume_write(level.clamped(), enumeration),
{
    lemma_clamp_idempotent(level);
}

/// With no session, a read answers with its default (one half, not muted), a
/// new level is refused for want of a session, and a new mute flag succeeds
/// with no write at all, so that the sessions stay as they are.
pub proof fn law_no_sessions(level: Level, muted: bool, outcomes: Seq<Result<(), String>>)
    ensures
        master_volume(Ok(Seq::empty())) == Ok::<Level, VolumeError>(Level::fallback()),
        mute_state(Ok(Seq::empty())) == Ok::<bool, VolumeError>(false),
        volume_write(level, Ok(Seq::empty())) == Err::<Seq<Command>, VolumeError>(
            VolumeError::NoSessions,
        ),
        mute_write(muted, Ok(Seq::empty())) == Ok::<Seq<Command>, VolumeError>(Seq::empty()),
        after_plan(Seq::empty(), mute_plan(muted, Seq::empty()), outcomes) == Seq::<
            Session,
        >::empty(),
{
    assert(mute_plan(muted, Seq::empty()) =~= Seq::<Command>::empty());
}

proof fn lemma_volume_plan_prefix(
    level: Level,
    sessions: Seq<Session>,
    outcomes: Seq<Result<(), String>>,
    count: nat,
)
    requires
        count <= sessions.len() <= usize::MAX,
    ensures
        ({
            let after = after_commands(sessions, volume_plan(level, sessions), outcomes, 2 * count);
            &&& after.len() == sessions.len()
            &&& forall|i: int|
                0 <= i < count ==> #[trigger] after[i] == volume_written(
                    sessions[i],
                    level,
                    outcomes[2 * i] is Ok,
                    outcomes[2 * i + 1] is Ok,
                )
            &&& forall|i: int| count <= i < sessions.len() ==> #[trigger] after[i] == sessions[i]
        }),
    decreases count,
{
    if count > 0 {
        let plan = volume_plan(level, sessions);
        let last = count - 1;
        lemma_volume_plan_prefix(level, sessions, outcomes, last as nat);
        let start = after_commands(sessions, plan, outcomes, (2 * last) as nat);
        let unmuted = after_commands(sessions, plan, outcomes, (2 * last + 1) as nat);
        let leveled = after_commands(sessions, plan, outcomes, 2 * count);
        assert(plan[2 * last] == unmute_command(sessions, last));
        assert(plan[2 * last + 1] == volume_command(level, sessions, last));
        assert(unmuted == after_command(start, plan[2 * last], outcomes[2 * last] is Ok));
        assert(leveled == after_command(unmuted, plan[2 * last + 1], outcomes[2 * last + 1] is Ok));
    }
}

/// What a new level does to the sessions: each one holds the level if it
/// accepted the write of it, is unmuted if it accepted the write that clears
/// its mute flag, and is otherwise as it was, whatever the other sessions
/// said to their writes.
pub proof fn law_volume_write_effect(
    level: Level,
    sessions: Seq<Session>,
    outcomes: Seq<Result<(), String>>,
)
    requires
        sessions.len() <= usize::MAX,
        outcomes.len() == 2 * sessions.len(),
    ensures
        after_plan(sessions, volume_plan(level, sessions), outcomes) == Seq::new(
            sessions.len(),
            |i: int|
                volume_written(sessions[i], level, outcomes[2 * i] is Ok, outcomes[2 * i + 1] is Ok),
        ),
{
    lemma_volume_plan_prefix(level, sessions, outcomes, sessions.len());
    assert(after_plan(sessions, volume_plan(level, sessions), outcomes) =~= Seq::new(
        sessions.len(),
        |i: int|
            volume_written(sessions[i], level, outcomes[2 * i] is Ok, outcomes[2 * i + 1] is Ok),
    ));
}

/// Where one session accepts the new level and another turns it down, the
/// request has still succeeded, the first session holds the clamped level,
/// and the second holds the level it had.
pub proof fn law_partial_failure(
    level: Level,
    sessions: Seq<Session>,
    outcomes: Seq<Result<(), String>>,
    accepting: int,
    refusing: int,
)
    requires
        sessions.len() <= usize::MAX,
        outcomes.len() == 2 * sessions.len(),
        0 <= accepting < sessions.len(),
        0 <= refusing < sessions.len(),
        outcomes[2 * accepting + 1] is Ok,
        outcomes[2 * refusing + 1] is Err,
    ensures
        volume_write(level, Ok(sessions)) == Ok::<Seq<Command>, VolumeError>(
            volume_plan(level.clamped(), sessions),
        ),
        after_plan(sessions, volume_plan(level.clamped(), sessions), outcomes)[accepting].volume
            == Ok::<Level, String>(level.clamped()),
        after_plan(sessions, volume_plan(level.clamped(), sessions), outcomes)[refusing].volume
            == sessions[refusing].volume,
{
    law_volume_write_effect(level.clamped(), sessions, outcomes);
}

/// A level that the first session accepts is the level read back
/// afterwards: the clamped level, which is the requested one where that lies
/// within `[0, 1]`.
pub proof fn law_volume_round_trip(
    level: Level,
    sessions: Seq<Session>,
    outcomes: Seq<Result<(), String>>,
)
    requires
        0 < sessions.len() <= usize::MAX,
        outcomes.len() == 2 * sessions.len(),
        outcomes[1] is Ok,
    ensures
        volume_write(level, Ok(sessions)) == Ok::<Seq<Command>, VolumeError>(
            volume_plan(level.clamped(), sessions),
        ),
        master_volume(
            Ok(after_plan(sessions, volume_plan(level.clamped(), sessions), outcomes)),
        ) == Ok::<Level, VolumeError>(level.clamped()),
        level.in_range() ==> level.clamped() == level,
{
    law_volume_write_effect(level.clamped(), sessions, outcomes);
    lemma_clamp_keeps_range(level);
}

proof fn lemma_mute_plan_prefix(
    muted: bool,
    sessions: Seq<Session>,
    outcomes: Seq<Result<(), String>>,
    count: nat,
)
    requires
        count <= sessions.len() <= usize::MAX,
    ensures
        ({
            let after = after_commands(sessions, mute_plan(muted, sessions), outcomes, count);
            &&& after.len() == sessions.len()
            &&& forall|i: int|
                0 <= i < count ==> #[trigger] after[i] == mute_written(
                    sessions[i],
                    muted,
                    outcomes[i] is Ok,
                )
            &&& forall|i: int| count <= i < sessions.len() ==> #[trigger] after[i] == sessions[i]
        }),
    decreases count,
{
    if count > 0 {
        let plan = mute_plan(muted, sessions);
        let last = count - 1;
        lemma_mute_plan_prefix(muted, sessions, outcomes, last as nat);
        assert(plan[last] == mute_command(muted, sessions, last));
    }
}

/// What a new mute flag does to the sessions: each one holds the flag if it
/// accepted the write, and is otherwise as it was, whatever the other
/// sessions said to theirs.
pub proof fn law_mute_write_effect(
    muted: bool,
    sessions: Seq<Session>,
    outcomes: Seq<Result<(), String>>,
)
    requires
        sessions.len() <= usize::MAX,
        outcomes.len() == sessions.len(),
    ensures
        after_plan(sessions, mute_plan(muted, sessions), outcomes) == Seq::new(
            sessions.len(),
            |i: int| mute_written(sessions[i], muted, outcomes[i] is Ok),
        ),
{
    lemma_mute_plan_prefix(muted, sessions, outcomes, sessions.len());
    assert(after_plan(sessions, mute_plan(muted, sessions), outcomes) =~= Seq::new(
        sessions.len(),
        |i: int| mute_written(sessions[i], muted, outcomes[i] is Ok),
    ));
}

} // verus!
