//! The supervision state machine. Each tick the surrounding process polls
//! the child and the shutdown flag and feeds the observation in as an
//! [`Event`]; the machine answers with the [`Command`]s to perform: warnings
//! to broadcast, a clean-stop request, sleeps, a forceful kill, or a
//! respawn. The machine owns the restart deadline, the warning cursor and
//! the phase; the process around it owns the child and the clock.

use vstd::prelude::*;
use vstd::string::*;

use crate::schedule::ScheduleEntry;
use crate::schedule::collect_due_warnings;
use crate::schedule::cursor_after;
use crate::schedule::lemma_cursor_after_bounds;
use crate::schedule::strictly_decreasing;

verus! {

/// Seconds the main loop sleeps between ticks.
pub const TICK_SECS: u64 = 1;

/// Seconds between scheduled restarts of a healthy child.
pub const RESTART_INTERVAL_SECS: u64 = 7200;

/// Seconds to wait after a crash before respawning, so a persistently
/// failing command does not respawn in a tight loop.
pub const CRASH_RESTART_DELAY_SECS: u64 = 5;

/// Seconds a child is given to exit voluntarily after a scheduled-restart
/// clean-stop request, before it is killed.
pub const GRACE_WINDOW_SECS: u64 = 20;

/// Seconds the shutdown sequence waits after its clean-stop request before
/// the unconditional safety-net kill.
pub const SHUTDOWN_TIMEOUT_SECS: u64 = 10;

/// What one non-blocking liveness poll of the child reported.
#[derive(Clone, Copy, PartialEq, Eq, Structural, Debug)]
pub enum ChildStatus {
    /// The child is still running.
    Running,
    /// The child has terminated, by crash or by clean stop.
    Exited,
    /// The poll itself failed: the ability to observe the child is broken.
    CheckError,
}

/// Why the supervision loop ended.
#[derive(Clone, Copy, PartialEq, Eq, Structural, Debug)]
pub enum ExitReason {
    /// The shutdown signal flag was read true.
    SignalShutdown,
    /// A liveness poll failed; supervising cannot safely continue.
    FatalCheckError,
}

/// Where the machine stands between events.
#[derive(Clone, Copy, PartialEq, Eq, Structural, Debug)]
pub enum Phase {
    /// The child is believed running; ordinary ticks are expected.
    Ticking,
    /// A scheduled-restart clean stop was sent; `waited` polls of the grace
    /// window have found the child still running.
    GraceWait { waited: u64 },
    /// A replacement child is being spawned; `sleep_after` records whether
    /// a tick sleep follows the respawn, as it does after a scheduled
    /// restart but not after a crash restart.
    Respawning { sleep_after: bool },
    /// The loop is over; the shutdown sequence has been issued.
    Ended { reason: ExitReason },
}

/// One observation fed to the machine.
#[derive(Clone, Copy, PartialEq, Eq, Structural, Debug)]
pub enum Event {
    /// An ordinary tick: the liveness poll's answer, the shutdown flag's
    /// reading, and the clock, in seconds.
    Tick { status: ChildStatus, shutdown: bool, now_secs: u64 },
    /// One poll of the grace window after a scheduled-restart clean stop.
    GracePoll { status: ChildStatus },
    /// The replacement child is up; `now_secs` is the clock at its start.
    Respawned { now_secs: u64 },
}

/// One action the surrounding process must perform, in order.
#[derive(Clone, PartialEq, Eq, Debug)]
pub enum Command {
    /// Announce the message to the child's audience via its stdin.
    Broadcast(String),
    /// Send the clean-stop keyword to the child's stdin.
    SendStop,
    /// Sleep this many seconds.
    SleepSecs(u64),
    /// Forcefully terminate the child; best effort.
    Kill,
    /// Block until the child is fully reaped.
    Wait,
    /// Spawn a replacement child, then report back with [`Event::Respawned`].
    Respawn,
}

/// The mathematical value of a [`Command`].
pub enum CommandV {
    Broadcast(Seq<char>),
    SendStop,
    SleepSecs(u64),
    Kill,
    Wait,
    Respawn,
}

impl View for Command {
    type V = CommandV;

    open spec fn view(&self) -> CommandV {
        match self {
            Command::Broadcast(m) => CommandV::Broadcast(m@),
            Command::SendStop => CommandV::SendStop,
            Command::SleepSecs(n) => CommandV::SleepSecs(*n),
            Command::Kill => CommandV::Kill,
            Command::Wait => CommandV::Wait,
            Command::Respawn => CommandV::Respawn,
        }
    }
}

/// The values of a command list.
pub open spec fn command_views(cs: Seq<Command>) -> Seq<CommandV> {
    cs.map_values(|c: Command| c@)
}

/// The supervisor: the countdown table it consumes, its timing parameters,
/// and the per-cycle state — the absolute restart deadline, the warning
/// cursor, and the phase.
pub struct Supervisor {
    pub schedule: Vec<ScheduleEntry>,
    pub interval_secs: u64,
    pub grace_window_secs: u64,
    pub deadline_secs: u64,
    pub cursor: usize,
    pub phase: Phase,
}

impl Supervisor {
    /// The machine's invariant: an ordered table, a cursor inside it, and a
    /// grace count strictly inside the window.
    pub open spec fn wf(self) -> bool {
        &&& strictly_decreasing(self.schedule@)
        &&& self.cursor <= self.schedule@.len()
        &&& self.grace_window_secs >= 1
        &&& self.phase matches Phase::GraceWait { waited } ==> waited
            < self.grace_window_secs
    }
}

/// The commands of the graceful shutdown sequence, run on every loop exit:
/// a clean-stop request, a sleep of the whole shutdown timeout, then an
/// unconditional safety-net kill. Unlike the scheduled-restart path, this
/// sequence never polls for an early exit: the full timeout is always
/// paid, an accepted latency bound.
pub open spec fn shutdown_commands() -> Seq<CommandV> {
    seq![
        CommandV::SendStop,
        CommandV::SleepSecs(SHUTDOWN_TIMEOUT_SECS),
        CommandV::Kill,
    ]
}

/// Whether an event can be fed to the machine in its current phase: each
/// event answers what the machine last asked for, and a deadline computed
/// from the clock must fit in the time type.
pub open spec fn event_fits(pre: Supervisor, ev: Event) -> bool {
    match ev {
        Event::Tick { .. } => pre.phase is Ticking,
        Event::GracePoll { .. } => pre.phase is GraceWait,
        Event::Respawned { now_secs } => pre.phase is Respawning && now_secs
            + pre.interval_secs <= u64::MAX,
    }
}

/// The machine's whole transition function: the state after the event and
/// the commands the surrounding process must perform, in order.
pub open spec fn spec_step(pre: Supervisor, ev: Event) -> (Supervisor, Seq<CommandV>) {
    match ev {
        Event::Tick { status, shutdown, now_secs } => {
            if shutdown {
                (pre.with_phase(Phase::Ended { reason: ExitReason::SignalShutdown }),
                    shutdown_commands())
            } else {
                match status {
                    ChildStatus::CheckError => (
                        pre.with_phase(Phase::Ended { reason: ExitReason::FatalCheckError }),
                        shutdown_commands(),
                    ),
                    ChildStatus::Exited => (
                        pre.with_phase(Phase::Respawning { sleep_after: false }),
                        seq![CommandV::SleepSecs(CRASH_RESTART_DELAY_SECS), CommandV::Respawn],
                    ),
                    ChildStatus::Running => spec_running_tick(pre, now_secs),
                }
            }
        },
        Event::GracePoll { status } => {
            let waited = pre.phase->waited;
            match status {
                ChildStatus::Exited => (
                    pre.with_phase(Phase::Respawning { sleep_after: true }),
                    seq![CommandV::Respawn],
                ),
                ChildStatus::CheckError => (
                    pre.with_phase(Phase::Respawning { sleep_after: true }),
                    seq![CommandV::Kill, CommandV::Wait, CommandV::Respawn],
                ),
                ChildStatus::Running => {
                    if waited + 1 >= pre.grace_window_secs {
                        (
                            pre.with_phase(Phase::Respawning { sleep_after: true }),
                            seq![
                                CommandV::SleepSecs(1),
                                CommandV::Kill,
                                CommandV::Wait,
                                CommandV::Respawn,
                            ],
                        )
                    } else {
                        (
                            pre.with_phase(Phase::GraceWait { waited: (waited + 1) as u64 }),
                            seq![CommandV::SleepSecs(1)],
                        )
                    }
                },
            }
        },
        Event::Respawned { now_secs } => {
            let post = Supervisor {
                schedule: pre.schedule,
                interval_secs: pre.interval_secs,
                grace_window_secs: pre.grace_window_secs,
                deadline_secs: (now_secs + pre.interval_secs) as u64,
                cursor: 0,
                phase: Phase::Ticking,
            };
            if pre.phase->sleep_after {
                (post, seq![CommandV::SleepSecs(TICK_SECS)])
            } else {
                (post, Seq::empty())
            }
        },
    }
}

/// An ordinary tick of a running child: fire every warning now due, then,
/// once the deadline is reached, request the clean stop and open the grace
/// window; before the deadline, just sleep out the tick.
pub open spec fn spec_running_tick(pre: Supervisor, now_secs: u64) -> (Supervisor, Seq<CommandV>) {
    let remaining = spec_remaining(pre.deadline_secs, now_secs);
    let new_cursor = cursor_after(pre.schedule@, pre.cursor as int, remaining);
    let warns = Seq::new(
        (new_cursor - pre.cursor) as nat,
        |j: int| CommandV::Broadcast(pre.schedule@[pre.cursor + j].message@),
    );
    if now_secs >= pre.deadline_secs {
        (
            pre.with_cursor_phase(new_cursor as usize, Phase::GraceWait { waited: 0 }),
            warns + seq![CommandV::SendStop],
        )
    } else {
        (
            pre.with_cursor_phase(new_cursor as usize, Phase::Ticking),
            warns + seq![CommandV::SleepSecs(TICK_SECS)],
        )
    }
}

/// Seconds left until the deadline, zero once it has passed.
pub open spec fn spec_remaining(deadline_secs: u64, now_secs: u64) -> u64 {
    if now_secs >= deadline_secs {
        0
    } else {
        (deadline_secs - now_secs) as u64
    }
}

impl Supervisor {
    /// The same machine in another phase.
    pub open spec fn with_phase(self, phase: Phase) -> Supervisor {
        Supervisor {
            schedule: self.schedule,
            interval_secs: self.interval_secs,
            grace_window_secs: self.grace_window_secs,
            deadline_secs: self.deadline_secs,
            cursor: self.cursor,
            phase,
        }
    }

    /// The same machine with the cursor advanced and the phase changed.
    pub open spec fn with_cursor_phase(self, cursor: usize, phase: Phase) -> Supervisor {
        Supervisor {
            schedule: self.schedule,
            interval_secs: self.interval_secs,
            grace_window_secs: self.grace_window_secs,
            deadline_secs: self.deadline_secs,
            cursor,
            phase,
        }
    }

    /// A supervisor over a freshly spawned child: the deadline lies a full
    /// interval ahead, no warning has fired, ordinary ticking begins.
    pub fn new(
        schedule: Vec<ScheduleEntry>,
        interval_secs: u64,
        grace_window_secs: u64,
        now_secs: u64,
    ) -> (s: Supervisor)
        requires
            strictly_decreasing(schedule@),
            grace_window_secs >= 1,
            now_secs + interval_secs <= u64::MAX,
        ensures
            s.wf(),
            s.schedule == schedule,
            s.interval_secs == interval_secs,
            s.grace_window_secs == grace_window_secs,
            s.deadline_secs == now_secs + interval_secs,
            s.cursor == 0,
            s.phase is Ticking,
    {
        Supervisor {
            schedule,
            interval_secs,
            grace_window_secs,
            deadline_secs: now_secs + interval_secs,
            cursor: 0,
            phase: Phase::Ticking,
        }
    }

    /// Feed one observation to the machine; returns the commands the
    /// surrounding process must perform, in order. The new state and the
    /// commands are exactly those of [`spec_step`].
    pub fn step(&mut self, ev: Event) -> (cmds: Vec<Command>)
        requires
            old(self).wf(),
            event_fits(*old(self), ev),
        ensures
            *final(self) == spec_step(*old(self), ev).0,
            command_views(cmds@) == spec_step(*old(self), ev).1,
            final(self).wf(),
    {
        proof {
            lemma_step_preserves_wf(*self, ev);
        }
        match ev {
            Event::Tick { status, shutdown, now_secs } => {
                if shutdown {
                    self.phase = Phase::Ended { reason: ExitReason::SignalShutdown };
                    let cmds = shutdown_command_vec();
                    proof {
                        assert(command_views(cmds@) =~= spec_step(*old(self), ev).1);
                    }
                    cmds
                } else {
                    match status {
                        ChildStatus::CheckError => {
                            self.phase = Phase::Ended { reason: ExitReason::FatalCheckError };
                            let cmds = shutdown_command_vec();
                            proof {
                                assert(command_views(cmds@) =~= spec_step(*old(self), ev).1);
                            }
                            cmds
                        },
                        ChildStatus::Exited => {
                            self.phase = Phase::Respawning { sleep_after: false };
                            let mut cmds: Vec<Command> = Vec::new();
                            cmds.push(Command::SleepSecs(CRASH_RESTART_DELAY_SECS));
                            cmds.push(Command::Respawn);
                            proof {
                                assert(command_views(cmds@) =~= spec_step(*old(self), ev).1);
                            }
                            cmds
                        },
                        ChildStatus::Running => {
                            let remaining: u64 = if now_secs >= self.deadline_secs {
                                0
                            } else {
                                self.deadline_secs - now_secs
                            };
                            let scanned = collect_due_warnings(
                                &self.schedule,
                                self.cursor,
                                remaining,
                            );
                            let msgs = scanned.0;
                            self.cursor = scanned.1;
                            let mut cmds: Vec<Command> = Vec::new();
                            let mut i: usize = 0;
                            while i < msgs.len()
                                invariant
                                    i <= msgs@.len(),
                                    cmds@.len() == i,
                                    forall|j: int|
                                        0 <= j < i ==> cmds@[j] == Command::Broadcast(msgs@[j]),
                                decreases msgs@.len() - i,
                            {
                                cmds.push(Command::Broadcast(msgs[i].clone()));
                                i = i + 1;
                            }
                            if now_secs >= self.deadline_secs {
                                self.phase = Phase::GraceWait { waited: 0 };
                                cmds.push(Command::SendStop);
                            } else {
                                cmds.push(Command::SleepSecs(TICK_SECS));
                            }
                            proof {
                                assert(command_views(cmds@) =~= spec_step(*old(self), ev).1);
                            }
                            cmds
                        },
                    }
                }
            },
            Event::GracePoll { status } => {
                let waited: u64 = if let Phase::GraceWait { waited } = self.phase {
                    waited
                } else {
                    0
                };
                let mut cmds: Vec<Command> = Vec::new();
                match status {
                    ChildStatus::Exited => {
                        self.phase = Phase::Respawning { sleep_after: true };
                        cmds.push(Command::Respawn);
                    },
                    ChildStatus::CheckError => {
                        self.phase = Phase::Respawning { sleep_after: true };
                        cmds.push(Command::Kill);
                        cmds.push(Command::Wait);
                        cmds.push(Command::Respawn);
                    },
                    ChildStatus::Running => {
                        if waited + 1 >= self.grace_window_secs {
                            self.phase = Phase::Respawning { sleep_after: true };
                            cmds.push(Command::SleepSecs(1));
                            cmds.push(Command::Kill);
                            cmds.push(Command::Wait);
                            cmds.push(Command::Respawn);
                        } else {
                            self.phase = Phase::GraceWait { waited: waited + 1 };
                            cmds.push(Command::SleepSecs(1));
                        }
                    },
                }
                proof {
                    assert(command_views(cmds@) =~= spec_step(*old(self), ev).1);
                }
                cmds
            },
            Event::Respawned { now_secs } => {
                let sleep_after: bool = if let Phase::Respawning { sleep_after } = self.phase {
                    sleep_after
                } else {
                    false
                };
                self.deadline_secs = now_secs + self.interval_secs;
                self.cursor = 0;
                self.phase = Phase::Ticking;
                let mut cmds: Vec<Command> = Vec::new();
                if sleep_after {
                    cmds.push(Command::SleepSecs(TICK_SECS));
                }
                proof {
                    assert(command_views(cmds@) =~= spec_step(*old(self), ev).1);
                }
                cmds
            },
        }
    }
}

/// The stdin line a command's value writes to the child, if any: the
/// broadcast command is the announce keyword followed by the message; the
/// clean stop is its keyword alone.
pub open spec fn spec_stdin_line(c: CommandV) -> Option<Seq<char>> {
    match c {
        CommandV::Broadcast(m) => Some("say "@ + m),
        CommandV::SendStop => Some("stop"@),
        _ => None,
    }
}

impl Command {
    /// Render the line this command writes to the child's stdin, if it
    /// writes one.
    pub fn stdin_line(&self) -> (r: Option<String>)
        ensures
            r is Some <==> spec_stdin_line(self@) is Some,
            r matches Some(line) ==> spec_stdin_line(self@) == Some(line@),
    {
        match self {
            Command::Broadcast(m) => Some(String::from_str("say ").concat(m.as_str())),
            Command::SendStop => Some(String::from_str("stop")),
            _ => None,
        }
    }
}

/// The graceful shutdown sequence as commands.
fn shutdown_command_vec() -> (cmds: Vec<Command>)
    ensures
        command_views(cmds@) == shutdown_commands(),
{
    let mut cmds: Vec<Command> = Vec::new();
    cmds.push(Command::SendStop);
    cmds.push(Command::SleepSecs(SHUTDOWN_TIMEOUT_SECS));
    cmds.push(Command::Kill);
    proof {
        assert(command_views(cmds@) =~= shutdown_commands());
    }
    cmds
}

/// Every respawn — crash restart and scheduled restart alike — resets the
/// warning cursor to the first schedule entry and recomputes the deadline
/// a full interval after the replacement child's start, however much of
/// the previous cycle had elapsed.
pub proof fn lemma_respawn_resets(pre: Supervisor, now_secs: u64)
    requires
        pre.wf(),
        event_fits(pre, Event::Respawned { now_secs }),
    ensures
        ({
            let post = spec_step(pre, Event::Respawned { now_secs }).0;
            &&& post.cursor == 0
            &&& post.deadline_secs == now_secs + pre.interval_secs
            &&& post.phase is Ticking
            &&& post.schedule == pre.schedule
        }),
{
}

/// While the shutdown flag reads false, a step never ends the loop except
/// through a fatal liveness-check error; and the tick that reads the flag
/// true ends the loop at once.
pub proof fn lemma_exit_only_by_signal_or_fatal(pre: Supervisor, ev: Event)
    requires
        pre.wf(),
        event_fits(pre, ev),
    ensures
        spec_step(pre, ev).0.phase matches Phase::Ended { reason } ==> ev matches Event::Tick {
            status,
            shutdown,
            ..
        } && ((shutdown && reason is SignalShutdown) || (!shutdown && status is CheckError
            && reason is FatalCheckError)),
        ev matches Event::Tick { shutdown, .. } && shutdown ==> spec_step(pre, ev).0.phase
            == (Phase::Ended { reason: ExitReason::SignalShutdown }),
{
}

/// In the scheduled-restart path a kill is issued only when the child was
/// not seen to exit: either every poll of the full grace window found it
/// still running, or the liveness poll itself failed, leaving its state
/// unknowable. A child seen to exit within the window is never killed.
pub proof fn lemma_kill_only_when_not_exited(pre: Supervisor, status: ChildStatus)
    requires
        pre.wf(),
        pre.phase is GraceWait,
    ensures
        spec_step(pre, Event::GracePoll { status }).1.contains(CommandV::Kill) ==> !(status
            is Exited) && (status is Running ==> pre.phase->waited + 1
            >= pre.grace_window_secs),
        status is Exited ==> !spec_step(pre, Event::GracePoll { status }).1.contains(
            CommandV::Kill,
        ),
{
}

/// The remaining time the machine computes shrinks monotonically as the
/// clock advances toward a fixed deadline, and is zero exactly once the
/// deadline is reached: the premise under which each schedule entry fires
/// exactly once over a cycle (see
/// [`crate::schedule::lemma_each_entry_fires_exactly_once`]).
pub proof fn lemma_remaining_monotone(deadline_secs: u64, now1: u64, now2: u64)
    requires
        now1 <= now2,
    ensures
        spec_remaining(deadline_secs, now1) >= spec_remaining(deadline_secs, now2),
        spec_remaining(deadline_secs, now2) == 0 <==> now2 >= deadline_secs,
{
}

/// The graceful shutdown sequence, too, sends its clean stop strictly
/// before its safety-net kill.
pub proof fn lemma_shutdown_stop_before_kill()
    ensures
        shutdown_commands().len() == 3,
        shutdown_commands()[0] == CommandV::SendStop,
        shutdown_commands()[2] == CommandV::Kill,
{
}

/// The machine's state before step `k` of a run on the events `evs`.
pub open spec fn state_at(pre: Supervisor, evs: Seq<Event>, k: int) -> Supervisor
    decreases k,
{
    if k <= 0 {
        pre
    } else {
        spec_step(state_at(pre, evs, k - 1), evs[k - 1]).0
    }
}

/// The commands step `k` of the run emits.
pub open spec fn cmds_at(pre: Supervisor, evs: Seq<Event>, k: int) -> Seq<CommandV> {
    spec_step(state_at(pre, evs, k), evs[k]).1
}

/// Every event of the run answers the phase the machine stood in.
pub open spec fn trace_fits(pre: Supervisor, evs: Seq<Event>) -> bool {
    forall|k: int| 0 <= k < evs.len() ==> event_fits(#[trigger] state_at(pre, evs, k), evs[k])
}

/// A scheduled restart always attempts the clean stop before any kill:
/// whenever a run that began outside the grace window stands in it before
/// step `k`, some earlier step sent the clean-stop command, and the machine
/// has stood in the grace window ever since — so the kill a grace-window
/// step may issue is always preceded by that clean stop within the same
/// restart cycle.
pub proof fn lemma_stop_precedes_kill(pre: Supervisor, evs: Seq<Event>, k: int)
    requires
        pre.wf(),
        !(pre.phase is GraceWait),
        trace_fits(pre, evs),
        0 <= k <= evs.len(),
        state_at(pre, evs, k).phase is GraceWait,
    ensures
        exists|j: int|
            0 <= j < k && (#[trigger] cmds_at(pre, evs, j)).contains(CommandV::SendStop)
                && (forall|m: int|
                j < m <= k ==> (#[trigger] state_at(pre, evs, m)).phase is GraceWait),
    decreases k,
{
    let post = state_at(pre, evs, k);
    let s1 = state_at(pre, evs, k - 1);
    let e = evs[k - 1];
    assert(event_fits(s1, e));
    if s1.phase is GraceWait {
        lemma_stop_precedes_kill(pre, evs, k - 1);
        let j = choose|j: int|
            0 <= j < k - 1 && (#[trigger] cmds_at(pre, evs, j)).contains(CommandV::SendStop)
                && (forall|m: int|
                j < m <= k - 1 ==> (#[trigger] state_at(pre, evs, m)).phase is GraceWait);
        assert(cmds_at(pre, evs, j).contains(CommandV::SendStop));
        assert(forall|m: int| j < m <= k ==> (#[trigger] state_at(pre, evs, m)).phase
            is GraceWait);
    } else {
        let cs = cmds_at(pre, evs, k - 1);
        match e {
            Event::Tick { status, shutdown, now_secs } => {
                assert(!shutdown && status is Running && now_secs >= s1.deadline_secs);
                assert(cs[cs.len() - 1] == CommandV::SendStop);
                assert(cs.contains(CommandV::SendStop));
            },
            Event::GracePoll { .. } => {
                assert(false);
            },
            Event::Respawned { .. } => {
                assert(false);
            },
        }
        assert(0 <= k - 1 < k && cmds_at(pre, evs, k - 1).contains(CommandV::SendStop) && (
        forall|m: int|
            k - 1 < m <= k ==> (#[trigger] state_at(pre, evs, m)).phase is GraceWait));
    }
}

/// Over a whole run: while every tick reads the shutdown flag false and no
/// liveness poll fails, the loop never ends.
pub proof fn lemma_no_exit_without_cause(pre: Supervisor, evs: Seq<Event>, k: int)
    requires
        pre.wf(),
        !(pre.phase is Ended),
        trace_fits(pre, evs),
        0 <= k <= evs.len(),
        forall|m: int|
            0 <= m < k ==> (#[trigger] evs[m] matches Event::Tick { status, shutdown, .. }
                ==> !shutdown && !(status is CheckError)),
    ensures
        !(state_at(pre, evs, k).phase is Ended),
    decreases k,
{
    if k > 0 {
        lemma_no_exit_without_cause(pre, evs, k - 1);
        let s1 = state_at(pre, evs, k - 1);
        assert(event_fits(s1, evs[k - 1]));
    }
}

/// A fitting event preserves the machine's invariant.
pub proof fn lemma_step_preserves_wf(pre: Supervisor, ev: Event)
    requires
        pre.wf(),
        event_fits(pre, ev),
    ensures
        spec_step(pre, ev).0.wf(),
{
    match ev {
        Event::Tick { status, shutdown, now_secs } => {
            if !shutdown && status is Running {
                let remaining = spec_remaining(pre.deadline_secs, now_secs);
                lemma_cursor_after_bounds(pre.schedule@, pre.cursor as int, remaining);
            }
        },
        Event::GracePoll { .. } => {},
        Event::Respawned { .. } => {},
    }
}

} // verus!
