use volume_controller::error::VolumeError;
use volume_controller::level::Level;
use volume_controller::mixer::{Change, Command, Session};
use volume_controller::volume::{
    diagnostics, get_master_volume, get_mute, set_master_volume, set_mute, Diagnostic,
};

fn level(value: f32) -> Level {
    Level::from_bits(value.to_bits())
}

fn session(pid: u32, volume: f32, muted: bool) -> Session {
    Session { pid, volume: Ok(level(volume)), muted: Ok(muted) }
}

fn denied() -> Result<(), String> {
    Err(String::from("Access is denied."))
}

fn unmute(session: usize, pid: u32) -> Command {
    Command { session, pid, change: Change::Mute(false), best_effort: true }
}

fn set_level(session: usize, pid: u32, value: f32) -> Command {
    Command { session, pid, change: Change::Volume(level(value)), best_effort: false }
}

fn set_flag(session: usize, pid: u32, muted: bool) -> Command {
    Command { session, pid, change: Change::Mute(muted), best_effort: false }
}

/// A host that does what each accepted write asks and nothing else.
fn carry_out(sessions: &mut [Session], plan: &[Command], outcomes: &[Result<(), String>]) {
    for (command, outcome) in plan.iter().zip(outcomes) {
        if outcome.is_ok() {
            match command.change {
                Change::Mute(muted) => sessions[command.session].muted = Ok(muted),
                Change::Volume(level) => sessions[command.session].volume = Ok(level),
            }
        }
    }
}

#[test]
fn read_volume_without_sessions_is_one_half() {
    let sessions: Result<Vec<Session>, String> = Ok(vec![]);
    assert_eq!(get_master_volume(&sessions), Ok(level(0.5)));
}

#[test]
fn read_mute_without_sessions_is_false() {
    let sessions: Result<Vec<Session>, String> = Ok(vec![]);
    assert_eq!(get_mute(&sessions), Ok(false));
}

#[test]
fn reads_answer_from_the_first_session() {
    let sessions = Ok(vec![session(10, 0.25, true), session(11, 0.75, false)]);
    assert_eq!(get_master_volume(&sessions), Ok(level(0.25)));
    assert_eq!(get_mute(&sessions), Ok(true));
}

#[test]
fn reads_do_not_combine_the_sessions() {
    let sessions = Ok(vec![session(10, 1.0, false), session(11, 0.0, true)]);
    assert_eq!(get_master_volume(&sessions), Ok(level(1.0)));
    assert_eq!(get_mute(&sessions), Ok(false));
}

#[test]
fn reads_fail_when_the_platform_cannot_be_queried() {
    let sessions: Result<Vec<Session>, String> = Err(String::from("Class not registered"));
    let expected = VolumeError::Enumeration(String::from("Class not registered"));
    assert_eq!(get_master_volume(&sessions), Err(VolumeError::Enumeration(String::from("Class not registered"))));
    assert_eq!(get_mute(&sessions), Err(expected));
}

#[test]
fn reads_fail_when_the_first_session_gives_no_answer() {
    let sessions = Ok(vec![
        Session { pid: 10, volume: Err(String::from("gone")), muted: Err(String::from("busy")) },
        session(11, 0.75, false),
    ]);
    assert_eq!(get_master_volume(&sessions), Err(VolumeError::Enumeration(String::from("gone"))));
    assert_eq!(get_mute(&sessions), Err(VolumeError::Enumeration(String::from("busy"))));
}

#[test]
fn reads_ignore_what_later_sessions_failed_to_answer() {
    let sessions = Ok(vec![
        session(10, 0.3, true),
        Session { pid: 11, volume: Err(String::from("gone")), muted: Err(String::from("busy")) },
    ]);
    assert_eq!(get_master_volume(&sessions), Ok(level(0.3)));
    assert_eq!(get_mute(&sessions), Ok(true));
}

#[test]
fn a_read_may_succeed_for_the_level_and_fail_for_the_flag() {
    let sessions =
        Ok(vec![Session { pid: 10, volume: Ok(level(0.6)), muted: Err(String::from("busy")) }]);
    assert_eq!(get_master_volume(&sessions), Ok(level(0.6)));
    assert_eq!(get_mute(&sessions), Err(VolumeError::Enumeration(String::from("busy"))));
}

#[test]
fn write_volume_without_sessions_fails() {
    let sessions: Result<Vec<Session>, String> = Ok(vec![]);
    assert_eq!(set_master_volume(level(0.5), &sessions), Err(VolumeError::NoSessions));
}

#[test]
fn write_mute_without_sessions_succeeds_with_nothing_to_do() {
    let sessions: Result<Vec<Session>, String> = Ok(vec![]);
    assert_eq!(set_mute(true, &sessions), Ok(vec![]));
    assert_eq!(set_mute(false, &sessions), Ok(vec![]));
}

#[test]
fn writes_fail_when_the_platform_cannot_be_queried() {
    let sessions: Result<Vec<Session>, String> = Err(String::from("Class not registered"));
    assert_eq!(
        set_master_volume(level(0.5), &sessions),
        Err(VolumeError::Enumeration(String::from("Class not registered")))
    );
    assert_eq!(
        set_mute(true, &sessions),
        Err(VolumeError::Enumeration(String::from("Class not registered")))
    );
}

#[test]
fn write_volume_unmutes_then_sets_each_session_in_order() {
    let sessions = Ok(vec![session(10, 0.1, true), session(20, 0.9, false), session(30, 0.5, true)]);
    assert_eq!(
        set_master_volume(level(0.42), &sessions),
        Ok(vec![
            unmute(0, 10),
            set_level(0, 10, 0.42),
            unmute(1, 20),
            set_level(1, 20, 0.42),
            unmute(2, 30),
            set_level(2, 30, 0.42),
        ])
    );
}

#[test]
fn write_volume_plans_for_sessions_that_could_not_be_read() {
    let sessions = Ok(vec![Session {
        pid: 10,
        volume: Err(String::from("gone")),
        muted: Err(String::from("busy")),
    }]);
    assert_eq!(
        set_master_volume(level(1.0), &sessions),
        Ok(vec![unmute(0, 10), set_level(0, 10, 1.0)])
    );
}

#[test]
fn write_mute_sets_each_session_in_order() {
    let sessions = Ok(vec![session(10, 0.1, true), session(20, 0.9, false)]);
    assert_eq!(set_mute(true, &sessions), Ok(vec![set_flag(0, 10, true), set_flag(1, 20, true)]));
    assert_eq!(set_mute(false, &sessions), Ok(vec![set_flag(0, 10, false), set_flag(1, 20, false)]));
}

#[test]
fn write_volume_clamps_levels_above_one() {
    let sessions = Ok(vec![session(10, 0.1, true)]);
    let plan = set_master_volume(level(1.5), &sessions);
    assert_eq!(plan, Ok(vec![unmute(0, 10), set_level(0, 10, 1.0)]));
    assert_eq!(plan, set_master_volume(level(1.0), &sessions));
}

#[test]
fn write_volume_clamps_levels_below_zero() {
    let sessions = Ok(vec![session(10, 0.1, true)]);
    let plan = set_master_volume(level(-2.0), &sessions);
    assert_eq!(plan, Ok(vec![unmute(0, 10), set_level(0, 10, 0.0)]));
    assert_eq!(plan, set_master_volume(level(0.0), &sessions));
}

#[test]
fn write_volume_treats_any_level_as_its_clamped_one() {
    let sessions = Ok(vec![session(10, 0.1, true), session(11, 0.2, false)]);
    for given in [-1.0e30f32, -0.5, 0.0, 0.3, 1.0, 1.25, 7.0e20, f32::INFINITY, f32::NEG_INFINITY] {
        assert_eq!(
            set_master_volume(level(given), &sessions),
            set_master_volume(level(given.clamp(0.0, 1.0)), &sessions)
        );
    }
}

#[test]
fn diagnostics_record_each_level_write() {
    let plan = vec![unmute(0, 10), set_level(0, 10, 0.5), unmute(1, 20), set_level(1, 20, 0.5)];
    let outcomes = vec![Ok(()), Ok(()), Ok(()), denied()];
    assert_eq!(
        diagnostics(&plan, &outcomes),
        vec![
            Diagnostic::VolumeSet { pid: 10, level: level(0.5) },
            Diagnostic::VolumeRejected { pid: 20, reason: String::from("Access is denied.") },
        ]
    );
}

#[test]
fn diagnostics_swallow_a_failed_unmute() {
    let plan = vec![unmute(0, 10), set_level(0, 10, 0.5)];
    let outcomes = vec![denied(), Ok(())];
    assert_eq!(
        diagnostics(&plan, &outcomes),
        vec![Diagnostic::VolumeSet { pid: 10, level: level(0.5) }]
    );
}

#[test]
fn diagnostics_record_only_refused_mute_writes() {
    let plan = vec![set_flag(0, 10, true), set_flag(1, 20, true), set_flag(2, 30, true)];
    let outcomes = vec![Ok(()), denied(), Ok(())];
    assert_eq!(
        diagnostics(&plan, &outcomes),
        vec![Diagnostic::MuteRejected { pid: 20, reason: String::from("Access is denied.") }]
    );
}

#[test]
fn diagnostics_cover_the_writes_that_were_answered() {
    let plan = vec![unmute(0, 10), set_level(0, 10, 0.5), unmute(1, 20), set_level(1, 20, 0.5)];
    assert_eq!(diagnostics(&plan, &vec![]), vec![]);
    assert_eq!(
        diagnostics(&plan, &vec![Ok(()), denied()]),
        vec![Diagnostic::VolumeRejected { pid: 10, reason: String::from("Access is denied.") }]
    );
    assert_eq!(diagnostics(&vec![], &vec![Ok(()), denied()]), vec![]);
}

#[test]
fn a_refusing_session_does_not_stop_the_others() {
    let mut host = vec![session(10, 0.1, true), session(20, 0.9, true), session(30, 0.2, false)];
    let enumeration = Ok(vec![session(10, 0.1, true), session(20, 0.9, true), session(30, 0.2, false)]);
    let plan = set_master_volume(level(0.42), &enumeration).expect("the request succeeds");
    let outcomes = vec![Ok(()), Ok(()), denied(), denied(), Ok(()), Ok(())];
    carry_out(&mut host, &plan, &outcomes);
    assert_eq!(
        host,
        vec![session(10, 0.42, false), session(20, 0.9, true), session(30, 0.42, false)]
    );
    assert_eq!(
        diagnostics(&plan, &outcomes),
        vec![
            Diagnostic::VolumeSet { pid: 10, level: level(0.42) },
            Diagnostic::VolumeRejected { pid: 20, reason: String::from("Access is denied.") },
            Diagnostic::VolumeSet { pid: 30, level: level(0.42) },
        ]
    );
}

#[test]
fn a_level_written_is_the_level_read_back() {
    let mut host = vec![session(10, 0.1, true)];
    let plan = set_master_volume(level(0.42), &Ok(vec![session(10, 0.1, true)]))
        .expect("the request succeeds");
    carry_out(&mut host, &plan, &[Ok(()), Ok(())]);
    assert_eq!(get_master_volume(&Ok(host)), Ok(level(0.42)));
}

#[test]
fn a_level_out_of_range_is_read_back_clamped() {
    let mut host = vec![session(10, 0.1, true), session(11, 0.3, true)];
    let enumeration = Ok(vec![session(10, 0.1, true), session(11, 0.3, true)]);
    let plan = set_master_volume(level(1.5), &enumeration).expect("the request succeeds");
    carry_out(&mut host, &plan, &[Ok(()), Ok(()), Ok(()), Ok(())]);
    let after = Ok(host);
    assert_eq!(get_master_volume(&after), Ok(level(1.0)));
    assert_eq!(get_mute(&after), Ok(false));
}

#[test]
fn a_mute_flag_written_is_the_flag_read_back() {
    let mut host = vec![session(10, 0.1, false), session(11, 0.3, false)];
    let enumeration = Ok(vec![session(10, 0.1, false), session(11, 0.3, false)]);
    let plan = set_mute(true, &enumeration).expect("the request succeeds");
    carry_out(&mut host, &plan, &[Ok(()), denied()]);
    assert_eq!(host, vec![session(10, 0.1, true), session(11, 0.3, false)]);
    assert_eq!(get_mute(&Ok(host)), Ok(true));
}
