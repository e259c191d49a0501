use server_supervisor::schedule::ScheduleEntry;
use server_supervisor::supervisor::ChildStatus;
use server_supervisor::supervisor::Command;
use server_supervisor::supervisor::Event;
use server_supervisor::supervisor::Phase;
use server_supervisor::supervisor::Supervisor;

fn entry(offset_secs: u64, message: &str) -> ScheduleEntry {
    ScheduleEntry { offset_secs, message: message.to_string() }
}

fn three_entry_schedule() -> Vec<ScheduleEntry> {
    vec![entry(300, "5min"), entry(60, "1min"), entry(0, "now")]
}

fn tick(status: ChildStatus, shutdown: bool, now_secs: u64) -> Event {
    Event::Tick { status, shutdown, now_secs }
}

fn broadcasts(cmds: &[Command]) -> Vec<String> {
    cmds.iter()
        .filter_map(|c| match c {
            Command::Broadcast(m) => Some(m.clone()),
            _ => None,
        })
        .collect()
}

#[test]
fn scenario_warnings_fire_at_thresholds() {
    // Schedule [(300,"5min"),(60,"1min"),(0,"now")], interval 300 s, tick 1 s:
    // "5min" fires immediately at t=0 (remaining == offset), "1min" at
    // t=240, and at t=300 "now" fires and the clean stop is sent.
    let mut sup = Supervisor::new(three_entry_schedule(), 300, 20, 0);
    assert_eq!(sup.deadline_secs, 300);

    let mut fired: Vec<(u64, Vec<String>)> = Vec::new();
    for t in 0..=300u64 {
        let cmds = sup.step(tick(ChildStatus::Running, false, t));
        let msgs = broadcasts(&cmds);
        if !msgs.is_empty() {
            fired.push((t, msgs));
        }
        if t == 300 {
            assert_eq!(cmds.last(), Some(&Command::SendStop));
        } else {
            assert_eq!(cmds.last(), Some(&Command::SleepSecs(1)));
        }
    }
    assert_eq!(
        fired,
        vec![
            (0, vec!["5min".to_string()]),
            (240, vec!["1min".to_string()]),
            (300, vec!["now".to_string()]),
        ]
    );
    assert_eq!(sup.phase, Phase::GraceWait { waited: 0 });
}

#[test]
fn scenario_crash_restart_resets_cycle() {
    // The child exits at t=10: the machine orders the crash delay and a
    // respawn; after the respawn at t=15 the deadline is 15 + interval and
    // the warning cursor is back at the first entry.
    let mut sup = Supervisor::new(three_entry_schedule(), 300, 20, 0);
    let cmds = sup.step(tick(ChildStatus::Running, false, 0));
    assert_eq!(broadcasts(&cmds), vec!["5min".to_string()]);
    assert_eq!(sup.cursor, 1);

    let cmds = sup.step(tick(ChildStatus::Exited, false, 10));
    assert_eq!(cmds, vec![Command::SleepSecs(5), Command::Respawn]);
    assert_eq!(sup.phase, Phase::Respawning { sleep_after: false });

    let cmds = sup.step(Event::Respawned { now_secs: 15 });
    // A crash restart re-enters the tick loop at once, without a tick sleep.
    assert!(cmds.is_empty());
    assert_eq!(sup.deadline_secs, 315);
    assert_eq!(sup.cursor, 0);
    assert_eq!(sup.phase, Phase::Ticking);
}

#[test]
fn scenario_shutdown_signal_stops_cleanly_then_kills() {
    // The shutdown signal arrives while no restart is pending: the next
    // tick sends the clean stop, waits the full shutdown timeout, then
    // kills unconditionally, and the loop is over.
    let mut sup = Supervisor::new(three_entry_schedule(), 300, 20, 0);
    let cmds = sup.step(tick(ChildStatus::Running, true, 7));
    assert_eq!(
        cmds,
        vec![Command::SendStop, Command::SleepSecs(10), Command::Kill]
    );
    assert!(matches!(sup.phase, Phase::Ended { .. }));
}

#[test]
fn scenario_grace_window_expiry_escalates_to_kill() {
    // The child never exits within the scheduled-restart grace window:
    // after the full window of polls, kill and wait are both ordered
    // before the replacement is spawned.
    let mut sup = Supervisor::new(three_entry_schedule(), 300, 20, 0);
    let cmds = sup.step(tick(ChildStatus::Running, false, 300));
    assert_eq!(cmds.last(), Some(&Command::SendStop));
    assert_eq!(sup.phase, Phase::GraceWait { waited: 0 });

    for w in 0..19u64 {
        let cmds = sup.step(Event::GracePoll { status: ChildStatus::Running });
        assert_eq!(cmds, vec![Command::SleepSecs(1)]);
        assert_eq!(sup.phase, Phase::GraceWait { waited: w + 1 });
    }
    let cmds = sup.step(Event::GracePoll { status: ChildStatus::Running });
    assert_eq!(
        cmds,
        vec![
            Command::SleepSecs(1),
            Command::Kill,
            Command::Wait,
            Command::Respawn,
        ]
    );
    assert_eq!(sup.phase, Phase::Respawning { sleep_after: true });

    let cmds = sup.step(Event::Respawned { now_secs: 321 });
    // A scheduled restart sleeps out the tick before the next poll.
    assert_eq!(cmds, vec![Command::SleepSecs(1)]);
    assert_eq!(sup.deadline_secs, 621);
    assert_eq!(sup.cursor, 0);
}

#[test]
fn grace_window_voluntary_exit_is_not_killed() {
    let mut sup = Supervisor::new(three_entry_schedule(), 300, 20, 0);
    sup.step(tick(ChildStatus::Running, false, 300));

    let cmds = sup.step(Event::GracePoll { status: ChildStatus::Running });
    assert_eq!(cmds, vec![Command::SleepSecs(1)]);

    let cmds = sup.step(Event::GracePoll { status: ChildStatus::Exited });
    assert_eq!(cmds, vec![Command::Respawn]);
    assert!(!cmds.contains(&Command::Kill));
}

#[test]
fn grace_window_check_error_escalates() {
    let mut sup = Supervisor::new(three_entry_schedule(), 300, 20, 0);
    sup.step(tick(ChildStatus::Running, false, 300));

    let cmds = sup.step(Event::GracePoll { status: ChildStatus::CheckError });
    assert_eq!(cmds, vec![Command::Kill, Command::Wait, Command::Respawn]);
}

#[test]
fn check_error_on_tick_is_fatal_and_runs_shutdown_sequence() {
    let mut sup = Supervisor::new(three_entry_schedule(), 300, 20, 0);
    let cmds = sup.step(tick(ChildStatus::CheckError, false, 1));
    assert_eq!(
        cmds,
        vec![Command::SendStop, Command::SleepSecs(10), Command::Kill]
    );
    assert!(matches!(sup.phase, Phase::Ended { .. }));
}

#[test]
fn shutdown_signal_wins_over_crash_detection() {
    // The flag is the loop condition: a tick that reads it true runs the
    // shutdown sequence even if the child has already exited.
    let mut sup = Supervisor::new(three_entry_schedule(), 300, 20, 0);
    let cmds = sup.step(tick(ChildStatus::Exited, true, 4));
    assert_eq!(
        cmds,
        vec![Command::SendStop, Command::SleepSecs(10), Command::Kill]
    );
}

#[test]
fn ticks_without_thresholds_only_sleep() {
    let mut sup = Supervisor::new(three_entry_schedule(), 300, 20, 0);
    sup.step(tick(ChildStatus::Running, false, 0));
    for t in 1..240u64 {
        let cmds = sup.step(tick(ChildStatus::Running, false, t));
        assert_eq!(cmds, vec![Command::SleepSecs(1)]);
    }
}

#[test]
fn late_first_tick_fires_all_due_warnings_in_order() {
    // If several thresholds have been crossed by the time the tick runs,
    // the due warnings all fire in the same tick, largest offset first.
    let mut sup = Supervisor::new(three_entry_schedule(), 300, 20, 0);
    let cmds = sup.step(tick(ChildStatus::Running, false, 250));
    assert_eq!(
        broadcasts(&cmds),
        vec!["5min".to_string(), "1min".to_string()]
    );
    assert_eq!(sup.cursor, 2);
}

#[test]
fn empty_schedule_still_restarts_on_deadline() {
    let mut sup = Supervisor::new(Vec::new(), 60, 20, 0);
    for t in 0..60u64 {
        let cmds = sup.step(tick(ChildStatus::Running, false, t));
        assert_eq!(cmds, vec![Command::SleepSecs(1)]);
    }
    let cmds = sup.step(tick(ChildStatus::Running, false, 60));
    assert_eq!(cmds, vec![Command::SendStop]);
    assert_eq!(sup.phase, Phase::GraceWait { waited: 0 });
}
