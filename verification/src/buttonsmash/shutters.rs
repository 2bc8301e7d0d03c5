//! Roller shutters: position estimate, commands and the state machine of
//! one shutter.

use vstd::prelude::*;
use crate::buttonsmash::consts::{OutIdx, ShutterIdx};
use crate::config::MAX_SHUTTERS;

verus! {

/// Highest value of a height or a tilt, in percent.
pub const FULL: u8 = 100;

/// A position of a shutter, current or wanted.
#[derive(Clone, Copy, Debug, PartialEq, Eq, Structural)]
pub struct Position {
    /// Height in percent: 0 is open (up), 100 is closed (down).
    pub height: u8,
    /// Tilt of the slats in percent: 0 is open, 100 is closed.
    pub tilt: u8,
}

impl Position {
    /// Whether both values are percentages.
    pub open spec fn in_range(self) -> bool {
        self.height <= FULL && self.tilt <= FULL
    }

    /// The nearest position whose values are percentages.
    pub open spec fn spec_clamped(self) -> Position {
        Position {
            height: if self.height > FULL { FULL } else { self.height },
            tilt: if self.tilt > FULL { FULL } else { self.tilt },
        }
    }

    pub fn new(height: u8, tilt: u8) -> (position: Self)
        requires
            height <= FULL,
            tilt <= FULL,
        ensures
            position == (Position { height, tilt }),
            position.in_range(),
    {
        Self { height, tilt }
    }

    pub fn new_zero() -> (position: Self)
        ensures
            position == (Position { height: 0, tilt: 0 }),
    {
        Self { height: 0, tilt: 0 }
    }

    /// The nearest position whose values are percentages.
    pub fn clamped(self) -> (position: Self)
        ensures
            position == self.spec_clamped(),
            position.in_range(),
    {
        Position {
            height: if self.height > FULL { FULL } else { self.height },
            tilt: if self.tilt > FULL { FULL } else { self.tilt },
        }
    }
}

/// A command to one shutter.
#[derive(Clone, Copy, Debug, PartialEq, Eq, Structural)]
pub enum Cmd {
    /// Move to a height and a tilt.
    Go(Position),
    /// Open completely.
    Open,
    /// Close completely.
    Close,
    /// Keep the height and move the slats to a tilt.
    Tilt(u8),
    /// Close the slats.
    TiltClose,
    /// Open the slats.
    TiltOpen,
    /// Set the slats half open.
    TiltHalf,
    /// Open the slats if they are at least half closed, else close them.
    TiltReverse,
    /// Install the outputs: first the one that lowers the shutter, then the
    /// one that raises it.
    SetIO(OutIdx, OutIdx),
}

impl Cmd {
    /// The number that names the command on the bus.
    pub open spec fn spec_code(self) -> u8 {
        match self {
            Cmd::Go(_) => 1,
            Cmd::Open => 2,
            Cmd::Close => 3,
            Cmd::Tilt(_) => 4,
            Cmd::TiltClose => 5,
            Cmd::TiltOpen => 6,
            Cmd::TiltHalf => 7,
            Cmd::TiltReverse => 8,
            Cmd::SetIO(_, _) => 0x10,
        }
    }

    /// The two argument bytes of the command on the bus.
    pub open spec fn spec_args(self) -> (u8, u8) {
        match self {
            Cmd::Go(position) => (position.height, position.tilt),
            Cmd::Tilt(tilt) => (tilt, 0),
            Cmd::SetIO(down, up) => (down, up),
            _ => (0, 0),
        }
    }

    /// The command that a number and two argument bytes stand for, if any.
    pub open spec fn spec_decode(code: u8, a: u8, b: u8) -> Option<Cmd> {
        if code == 1 {
            Some(Cmd::Go(Position { height: a, tilt: b }))
        } else if code == 2 {
            Some(Cmd::Open)
        } else if code == 3 {
            Some(Cmd::Close)
        } else if code == 4 {
            Some(Cmd::Tilt(a))
        } else if code == 5 {
            Some(Cmd::TiltClose)
        } else if code == 6 {
            Some(Cmd::TiltOpen)
        } else if code == 7 {
            Some(Cmd::TiltHalf)
        } else if code == 8 {
            Some(Cmd::TiltReverse)
        } else if code == 0x10 {
            Some(Cmd::SetIO(a, b))
        } else {
            None
        }
    }

    /// The number of the command and its two argument bytes.
    pub fn to_raw(self) -> (raw: (u8, u8, u8))
        ensures
            raw.0 == self.spec_code(),
            (raw.1, raw.2) == self.spec_args(),
    {
        match self {
            Cmd::Go(position) => (1, position.height, position.tilt),
            Cmd::Open => (2, 0, 0),
            Cmd::Close => (3, 0, 0),
            Cmd::Tilt(tilt) => (4, tilt, 0),
            Cmd::TiltClose => (5, 0, 0),
            Cmd::TiltOpen => (6, 0, 0),
            Cmd::TiltHalf => (7, 0, 0),
            Cmd::TiltReverse => (8, 0, 0),
            Cmd::SetIO(down, up) => (0x10, down, up),
        }
    }

    /// Reads a command from its number and two argument bytes.
    pub fn from_raw(code: u8, a: u8, b: u8) -> (cmd: Option<Cmd>)
        ensures
            cmd == Cmd::spec_decode(code, a, b),
    {
        match code {
            1 => Some(Cmd::Go(Position { height: a, tilt: b })),
            2 => Some(Cmd::Open),
            3 => Some(Cmd::Close),
            4 => Some(Cmd::Tilt(a)),
            5 => Some(Cmd::TiltClose),
            6 => Some(Cmd::TiltOpen),
            7 => Some(Cmd::TiltHalf),
            8 => Some(Cmd::TiltReverse),
            0x10 => Some(Cmd::SetIO(a, b)),
            _ => None,
        }
    }
}

/// Tolerance of the height, in percent: a target is met within it.
pub const HYSTERESIS: u8 = 5;

/// Tolerance of the tilt, in percent.
pub const HYSTERESIS_TILT: u8 = 15;

/// Time that a motor rests before it may run again, in milliseconds.
pub const COOLDOWN_MS: u64 = 500;

/// Longest time between two visits of a moving shutter, in milliseconds, so
/// that its position is refreshed at least once a second.
pub const UPDATE_PERIOD_MS: u64 = 1000;

/// Time between two visits of a shutter at rest, in milliseconds.
pub const NOOP_UPDATE_PERIOD_MS: u64 = 10_000;

/// The output of a shutter that has none.
pub const NO_OUTPUT: OutIdx = 0xff;

/// Where a motor runs to.
#[derive(Clone, Copy, Debug, PartialEq, Eq, Structural)]
pub enum Direction {
    /// Towards height 0 and tilt 0.
    Up,
    /// Towards height 100 and tilt 100.
    Down,
}

/// What a shutter does.
#[derive(Clone, Copy, Debug, PartialEq, Eq, Structural)]
pub enum Action {
    /// At rest; a command wakes it.
    Sleep,
    /// About to compare its position with its target.
    Idle,
    /// Running up; the position holds what happened up to this time.
    Up(u64),
    /// Running down; the position holds what happened up to this time.
    Down(u64),
    /// Resting since this time after a run.
    Cooldown(u64),
}

/// What is to be done with the two outputs of a shutter.
#[derive(Clone, Copy, Debug, PartialEq, Eq, Structural)]
pub enum Drive {
    /// Leave them as they are.
    Hold,
    /// Switch `release` off and tell the shutter how that went; it then
    /// says whether to switch `engage` on.
    Start { release: OutIdx, engage: OutIdx },
    /// Switch this output on.
    Engage(OutIdx),
    /// Switch both off.
    Stop { up: OutIdx, down: OutIdx },
}

/// What a visit of a shutter leads to.
#[derive(Clone, Copy, Debug, PartialEq, Eq, Structural)]
pub struct Tick {
    /// Time until the next visit, in milliseconds.
    pub delay_ms: u64,
    pub drive: Drive,
}

/// Configuration of a shutter. Times are in milliseconds.
#[derive(Clone, Copy, Debug, PartialEq, Eq, Structural)]
pub struct Config {
    /// Output that raises the shutter.
    pub up: OutIdx,
    /// Output that lowers the shutter.
    pub down: OutIdx,
    /// Time that a full rise takes.
    pub rise_time: u32,
    /// Time that a full drop takes.
    pub drop_time: u32,
    /// Time that the slats take from open to closed.
    pub tilt_time: u32,
    /// Time to stay on the limit switch at 0 or 100.
    pub over_time: u32,
}

/// Time that a part of a full run takes: `percent` hundredths of `time`.
pub open spec fn spec_scale(time: u32, percent: int) -> int {
    time * percent / 100
}

/// Part of a full run that is done after some time, in percent. A run that
/// takes no time is done at once.
pub open spec fn spec_progress(time: u32, elapsed: int) -> int {
    if time == 0 || elapsed >= time {
        100
    } else {
        100 * elapsed / (time as int)
    }
}

/// Distance between two percentages.
pub open spec fn spec_distance(a: u8, b: u8) -> int {
    if a > b {
        a - b
    } else {
        b - a
    }
}

fn distance(a: u8, b: u8) -> (d: u8)
    ensures
        d == spec_distance(a, b),
{
    if a > b {
        a - b
    } else {
        b - a
    }
}

fn scale(time: u32, percent: u8) -> (ms: u64)
    ensures
        ms == spec_scale(time, percent as int),
{
    assert(time * percent <= 0xffff_ffff * 0xff) by (nonlinear_arith)
        requires
            time <= 0xffff_ffff,
            percent <= 0xff,
    ;
    (time as u64) * (percent as u64) / 100
}

fn progress(time: u32, elapsed: u64) -> (percent: u8)
    ensures
        percent == spec_progress(time, elapsed as int),
        percent <= FULL,
{
    if time == 0 || elapsed >= time as u64 {
        100
    } else {
        assert(100 * elapsed / (time as int) < 100 && 100 * elapsed <= 0xffff_ffff * 100)
            by (nonlinear_arith)
            requires
                0 <= elapsed < time,
                time <= 0xffff_ffff,
        ;
        (100 * elapsed / (time as u64)) as u8
    }
}

impl Direction {
    /// The percentage that a run in this direction ends at.
    pub open spec fn limit(self) -> u8 {
        match self {
            Direction::Up => 0,
            Direction::Down => FULL,
        }
    }

    /// A percentage moved by some percent in this direction, as far as the
    /// limit.
    pub open spec fn moved(self, from: u8, by: int) -> u8 {
        match self {
            Direction::Up => if by >= from {
                0
            } else {
                (from - by) as u8
            },
            Direction::Down => if from + by >= FULL {
                FULL
            } else {
                (from + by) as u8
            },
        }
    }

    fn exec_moved(self, from: u8, by: u8) -> (to: u8)
        requires
            from <= FULL,
        ensures
            to == self.moved(from, by as int),
            to <= FULL,
    {
        match self {
            Direction::Up => if by >= from {
                0
            } else {
                from - by
            },
            Direction::Down => if from as u16 + by as u16 >= FULL as u16 {
                FULL
            } else {
                from + by
            },
        }
    }

    fn exec_limit(self) -> (limit: u8)
        ensures
            limit == self.limit(),
    {
        match self {
            Direction::Up => 0,
            Direction::Down => FULL,
        }
    }
}

impl Action {
    /// The direction of a run; `None` for a shutter that stands still.
    pub open spec fn direction(self) -> Option<Direction> {
        match self {
            Action::Up(_) => Some(Direction::Up),
            Action::Down(_) => Some(Direction::Down),
            _ => None,
        }
    }
}

impl Config {
    /// Whether both outputs are installed.
    pub open spec fn configured(self) -> bool {
        self.up != NO_OUTPUT && self.down != NO_OUTPUT
    }

    /// Time of a full run in a direction.
    pub open spec fn run_time(self, direction: Direction) -> u32 {
        match direction {
            Direction::Up => self.rise_time,
            Direction::Down => self.drop_time,
        }
    }

    /// Time that the way from a height to another takes.
    pub open spec fn spec_travel_as_time(self, from: u8, to: u8) -> int {
        if to > from {
            spec_scale(self.drop_time, spec_distance(from, to))
        } else {
            spec_scale(self.rise_time, spec_distance(from, to))
        }
    }

    /// Time that the slats take from a tilt to another.
    pub open spec fn spec_tilt_as_time(self, from: u8, to: u8) -> int {
        spec_scale(self.tilt_time, spec_distance(from, to))
    }

    /// The output that runs the motor in a direction.
    pub open spec fn output(self, direction: Direction) -> OutIdx {
        match direction {
            Direction::Up => self.up,
            Direction::Down => self.down,
        }
    }

    /// The output that runs the motor against a direction.
    pub open spec fn opposite(self, direction: Direction) -> OutIdx {
        match direction {
            Direction::Up => self.down,
            Direction::Down => self.up,
        }
    }

    /// A shutter that takes a minute each way, half a second to tilt and
    /// two seconds on the limit switch.
    pub fn new(up: OutIdx, down: OutIdx) -> (cfg: Self)
        ensures
            cfg == (Config {
                up,
                down,
                rise_time: 60_000,
                drop_time: 60_000,
                tilt_time: 500,
                over_time: 2_000,
            }),
    {
        Config { up, down, rise_time: 60_000, drop_time: 60_000, tilt_time: 500, over_time: 2_000 }
    }

    /// Time that the way from a height to another takes, in milliseconds.
    pub fn travel_as_time(&self, from: u8, to: u8) -> (ms: u64)
        ensures
            ms == self.spec_travel_as_time(from, to),
    {
        if to > from {
            scale(self.drop_time, distance(from, to))
        } else {
            scale(self.rise_time, distance(from, to))
        }
    }

    /// Time that the slats take from a tilt to another, in milliseconds.
    pub fn tilt_as_time(&self, from: u8, to: u8) -> (ms: u64)
        ensures
            ms == self.spec_tilt_as_time(from, to),
    {
        scale(self.tilt_time, distance(from, to))
    }

    /// By how many percent the slats tilt in some time.
    pub fn time_as_tilt(&self, elapsed_ms: u64) -> (percent: u8)
        ensures
            percent == spec_progress(self.tilt_time, elapsed_ms as int),
            percent <= FULL,
    {
        progress(self.tilt_time, elapsed_ms)
    }

    /// By how many percent the height changes in some time of a run.
    pub fn time_as_travel(&self, direction: Direction, elapsed_ms: u64) -> (percent: u8)
        ensures
            percent == spec_progress(self.run_time(direction), elapsed_ms as int),
            percent <= FULL,
    {
        match direction {
            Direction::Up => progress(self.rise_time, elapsed_ms),
            Direction::Down => progress(self.drop_time, elapsed_ms),
        }
    }
}

/// Time from `since` to `now`; none where the clock went back.
pub open spec fn spec_elapsed(since: u64, now: u64) -> int {
    if now >= since {
        now - since
    } else {
        0
    }
}

fn elapsed(since: u64, now: u64) -> (ms: u64)
    ensures
        ms == spec_elapsed(since, now),
{
    if now >= since {
        now - since
    } else {
        0
    }
}

/// The lesser of a time and the longest time between two visits of a moving
/// shutter.
pub open spec fn spec_soon(ms: int) -> int {
    if ms < UPDATE_PERIOD_MS {
        ms
    } else {
        UPDATE_PERIOD_MS as int
    }
}

/// All that is known of one shutter.
#[derive(Clone, Copy, Debug, PartialEq, Eq, Structural)]
pub struct ShutterState {
    pub cfg: Config,
    /// Estimate of where the shutter is.
    pub position: Position,
    /// Where the shutter is to be.
    pub target: Position,
    pub action: Action,
    /// Whether the estimate ever met a limit. After a start it did not.
    pub in_sync: bool,
}

impl ShutterState {
    /// Whether the position and the target are percentages.
    pub open spec fn wf(self) -> bool {
        self.position.in_range() && self.target.in_range()
    }

    /// Whether a run in a direction has brought the shutter as near to its
    /// target as it can: within the tolerance, or past the target.
    pub open spec fn complete(self, direction: Direction) -> bool {
        match direction {
            Direction::Up => self.position.height <= self.target.height + HYSTERESIS
                && self.position.tilt <= self.target.tilt + HYSTERESIS_TILT,
            Direction::Down => self.position.height + HYSTERESIS >= self.target.height
                && self.position.tilt + HYSTERESIS_TILT >= self.target.tilt,
        }
    }

    /// Whether the height still keeps a run in a direction going.
    pub open spec fn height_pending(self, direction: Direction) -> bool {
        match direction {
            Direction::Up => self.position.height > self.target.height + HYSTERESIS,
            Direction::Down => self.position.height + HYSTERESIS < self.target.height,
        }
    }

    /// The state with an action in place of its own.
    pub open spec fn acting(self, action: Action) -> ShutterState {
        ShutterState { action, ..self }
    }

    /// The action of a run in a direction, accounted for up to a time.
    pub open spec fn running(direction: Direction, since: u64) -> Action {
        match direction {
            Direction::Up => Action::Up(since),
            Direction::Down => Action::Down(since),
        }
    }

    /// The state of a run in `direction` since `since`, with the time up to
    /// `now` accounted for.
    ///
    /// The time goes to the slats first. While they tilt, the height stays;
    /// once they have met their limit, the rest of the time moves the
    /// height. Only whole percent are accounted for: time that is left over
    /// stays for the next visit.
    pub open spec fn spec_advanced(self, direction: Direction, since: u64, now: u64) -> ShutterState {
        let time = spec_elapsed(since, now);
        let upto = if now >= since {
            now
        } else {
            since
        };
        let limit = direction.limit();
        let tilt_left = spec_scale(self.cfg.tilt_time, spec_distance(self.position.tilt, limit));
        if time < tilt_left {
            let tilted = spec_progress(self.cfg.tilt_time, time);
            let used = spec_scale(self.cfg.tilt_time, tilted);
            ShutterState {
                position: Position {
                    tilt: direction.moved(self.position.tilt, tilted),
                    ..self.position
                },
                action: Self::running(
                    direction,
                    if used < time {
                        (since + used) as u64
                    } else {
                        upto
                    },
                ),
                ..self
            }
        } else {
            let rest = time - tilt_left;
            let run_time = self.cfg.run_time(direction);
            let travelled = spec_progress(run_time, rest);
            let used = spec_scale(run_time, travelled);
            let height = direction.moved(self.position.height, travelled);
            ShutterState {
                position: Position { tilt: limit, height },
                action: Self::running(
                    direction,
                    if height != limit && used < rest {
                        (since + tilt_left + used) as u64
                    } else {
                        upto
                    },
                ),
                ..self
            }
        }
    }

    /// The state with the time up to `now` accounted for.
    pub open spec fn spec_moved(self, now: u64) -> ShutterState {
        match self.action {
            Action::Up(since) => self.spec_advanced(Direction::Up, since, now),
            Action::Down(since) => self.spec_advanced(Direction::Down, since, now),
            _ => self,
        }
    }

    /// A visit of a running shutter whose position is up to date.
    pub open spec fn spec_run_on(self, direction: Direction, now: u64) -> (ShutterState, Tick) {
        if self.complete(direction) {
            (
                self.acting(Action::Cooldown(now)),
                Tick {
                    delay_ms: COOLDOWN_MS,
                    drive: Drive::Stop { up: self.cfg.up, down: self.cfg.down },
                },
            )
        } else {
            let left = if self.height_pending(direction) {
                self.cfg.spec_travel_as_time(self.position.height, self.target.height)
            } else {
                self.cfg.spec_tilt_as_time(self.position.tilt, self.target.tilt)
            };
            (self, Tick { delay_ms: spec_soon(left) as u64, drive: Drive::Hold })
        }
    }

    /// The start of a run.
    pub open spec fn spec_start(self, direction: Direction, now: u64) -> (ShutterState, Tick) {
        (
            self.acting(Self::running(direction, now)),
            Tick {
                delay_ms: 0,
                drive: Drive::Start {
                    release: self.cfg.opposite(direction),
                    engage: self.cfg.output(direction),
                },
            },
        )
    }

    /// A visit of a shutter that is about to compare its position with its
    /// target: a height out of tolerance starts a run, else a tilt out of
    /// tolerance does, else the shutter goes to sleep. Without outputs it
    /// goes to sleep at once.
    pub open spec fn spec_plan(self, now: u64) -> (ShutterState, Tick) {
        let rest = (
            self.acting(Action::Sleep),
            Tick { delay_ms: NOOP_UPDATE_PERIOD_MS, drive: Drive::Hold },
        );
        if !self.cfg.configured() {
            rest
        } else if spec_distance(self.target.height, self.position.height) > HYSTERESIS {
            if self.target.height < self.position.height {
                self.spec_start(Direction::Up, now)
            } else {
                self.spec_start(Direction::Down, now)
            }
        } else if spec_distance(self.target.tilt, self.position.tilt) > HYSTERESIS_TILT {
            if self.target.tilt < self.position.tilt {
                self.spec_start(Direction::Up, now)
            } else {
                self.spec_start(Direction::Down, now)
            }
        } else {
            rest
        }
    }

    /// A visit at time `now`.
    pub open spec fn spec_update(self, now: u64) -> (ShutterState, Tick) {
        match self.action {
            Action::Sleep => (self, Tick { delay_ms: NOOP_UPDATE_PERIOD_MS, drive: Drive::Hold }),
            Action::Idle => self.spec_plan(now),
            Action::Cooldown(since) => if spec_elapsed(since, now) >= COOLDOWN_MS {
                (self.acting(Action::Idle), Tick { delay_ms: 0, drive: Drive::Hold })
            } else {
                (
                    self,
                    Tick {
                        delay_ms: (COOLDOWN_MS - spec_elapsed(since, now)) as u64,
                        drive: Drive::Hold,
                    },
                )
            },
            Action::Up(_) => self.spec_moved(now).spec_run_on(Direction::Up, now),
            Action::Down(_) => self.spec_moved(now).spec_run_on(Direction::Down, now),
        }
    }

    /// The end of whatever the shutter does, at time `now`: a run is stopped
    /// where it is, a rest that has lasted long enough is over.
    pub open spec fn spec_interrupted(self, now: u64) -> (ShutterState, Drive) {
        match self.action {
            Action::Up(_) | Action::Down(_) => (
                self.spec_moved(now).acting(Action::Cooldown(now)),
                Drive::Stop { up: self.cfg.up, down: self.cfg.down },
            ),
            Action::Cooldown(since) => if spec_elapsed(since, now) >= COOLDOWN_MS {
                (self.acting(Action::Idle), Drive::Hold)
            } else {
                (self, Drive::Hold)
            },
            _ => (self, Drive::Hold),
        }
    }

    /// The target that a command sets.
    pub open spec fn spec_target(self, cmd: Cmd) -> Position {
        let height = self.position.height;
        match cmd {
            Cmd::Go(position) => position.spec_clamped(),
            Cmd::Open => Position { height: 0, tilt: 0 },
            Cmd::Close => Position { height: FULL, tilt: FULL },
            Cmd::Tilt(tilt) => Position {
                height,
                tilt: if tilt > FULL {
                    FULL
                } else {
                    tilt
                },
            },
            Cmd::TiltClose => Position { height, tilt: FULL },
            Cmd::TiltOpen => Position { height, tilt: 0 },
            Cmd::TiltHalf => Position { height, tilt: 50 },
            Cmd::TiltReverse => Position {
                height,
                tilt: if self.position.tilt >= 50 {
                    0
                } else {
                    FULL
                },
            },
            Cmd::SetIO(_, _) => self.target,
        }
    }

    /// A shutter at rest with a new target, awake. The first `Open` or
    /// `Close` after a start takes the shutter to be at the far limit, so
    /// that it runs the whole way.
    pub open spec fn spec_retargeted(self, cmd: Cmd) -> ShutterState {
        let homed = match cmd {
            Cmd::Open if !self.in_sync => ShutterState {
                position: Position { height: FULL, tilt: FULL },
                in_sync: true,
                ..self
            },
            Cmd::Close if !self.in_sync => ShutterState {
                position: Position { height: 0, tilt: 0 },
                in_sync: true,
                ..self
            },
            _ => self,
        };
        ShutterState {
            target: homed.spec_target(cmd),
            action: if homed.action == Action::Sleep {
                Action::Idle
            } else {
                homed.action
            },
            ..homed
        }
    }

    /// What a command does; `None` for a command that is refused.
    ///
    /// `SetIO` installs the outputs of a sleeping shutter and is refused
    /// otherwise. Any other command is ignored by a shutter without
    /// outputs; else it ends what the shutter does, sets the target and
    /// visits the shutter.
    pub open spec fn spec_command(self, cmd: Cmd, now: u64) -> Option<(ShutterState, Tick)> {
        match cmd {
            Cmd::SetIO(down, up) => if self.action == Action::Sleep {
                Some(
                    (
                        ShutterState { cfg: Config { up, down, ..self.cfg }, ..self },
                        Tick { delay_ms: NOOP_UPDATE_PERIOD_MS, drive: Drive::Hold },
                    ),
                )
            } else {
                None
            },
            _ => if !self.cfg.configured() {
                None
            } else {
                let (stopped, stop) = self.spec_interrupted(now);
                let (planned, tick) = stopped.spec_retargeted(cmd).spec_update(now);
                Some(
                    (
                        planned,
                        Tick {
                            drive: if stop == Drive::Hold {
                                tick.drive
                            } else {
                                stop
                            },
                            ..tick
                        },
                    ),
                )
            },
        }
    }

    /// What the outcome of the release at a start leads to. After a
    /// release that worked the output of the run is to be switched on. A
    /// release that failed ends the run as a stop does: the shutter rests.
    pub open spec fn spec_released(self, ok: bool, now: u64) -> (ShutterState, Drive) {
        match self.action.direction() {
            Some(direction) => if ok {
                (self, Drive::Engage(self.cfg.output(direction)))
            } else {
                self.spec_interrupted(now)
            },
            None => (self, Drive::Hold),
        }
    }
}

impl ShutterState {
    fn run(direction: Direction, since: u64) -> (action: Action)
        ensures
            action == Self::running(direction, since),
    {
        match direction {
            Direction::Up => Action::Up(since),
            Direction::Down => Action::Down(since),
        }
    }

    fn advanced(self, direction: Direction, since: u64, now: u64) -> (state: ShutterState)
        requires
            self.wf(),
        ensures
            state == self.spec_advanced(direction, since, now),
            state.wf(),
    {
        let time = elapsed(since, now);
        let upto = if now >= since {
            now
        } else {
            since
        };
        let limit = direction.exec_limit();
        let tilt_left = scale(self.cfg.tilt_time, distance(self.position.tilt, limit));
        if time < tilt_left {
            let tilted = progress(self.cfg.tilt_time, time);
            let used = scale(self.cfg.tilt_time, tilted);
            ShutterState {
                position: Position {
                    tilt: direction.exec_moved(self.position.tilt, tilted),
                    height: self.position.height,
                },
                action: Self::run(
                    direction,
                    if used < time {
                        since + used
                    } else {
                        upto
                    },
                ),
                cfg: self.cfg,
                target: self.target,
                in_sync: self.in_sync,
            }
        } else {
            let rest = time - tilt_left;
            let run_time = match direction {
                Direction::Up => self.cfg.rise_time,
                Direction::Down => self.cfg.drop_time,
            };
            let travelled = progress(run_time, rest);
            let used = scale(run_time, travelled);
            let height = direction.exec_moved(self.position.height, travelled);
            ShutterState {
                position: Position { tilt: limit, height },
                action: Self::run(
                    direction,
                    if height != limit && used < rest {
                        since + tilt_left + used
                    } else {
                        upto
                    },
                ),
                cfg: self.cfg,
                target: self.target,
                in_sync: self.in_sync,
            }
        }
    }

    fn moved(self, now: u64) -> (state: ShutterState)
        requires
            self.wf(),
        ensures
            state == self.spec_moved(now),
            state.wf(),
    {
        match self.action {
            Action::Up(since) => self.advanced(Direction::Up, since, now),
            Action::Down(since) => self.advanced(Direction::Down, since, now),
            _ => self,
        }
    }

    fn is_complete(&self, direction: Direction) -> (done: bool)
        ensures
            done == self.complete(direction),
    {
        match direction {
            Direction::Up => self.position.height as u16 <= self.target.height as u16
                + HYSTERESIS as u16 && self.position.tilt as u16 <= self.target.tilt as u16
                + HYSTERESIS_TILT as u16,
            Direction::Down => self.position.height as u16 + HYSTERESIS as u16
                >= self.target.height as u16 && self.position.tilt as u16 + HYSTERESIS_TILT as u16
                >= self.target.tilt as u16,
        }
    }

    fn is_height_pending(&self, direction: Direction) -> (pending: bool)
        ensures
            pending == self.height_pending(direction),
    {
        match direction {
            Direction::Up => self.position.height as u16 > self.target.height as u16
                + HYSTERESIS as u16,
            Direction::Down => (self.position.height as u16 + HYSTERESIS as u16)
                < self.target.height as u16,
        }
    }

    fn run_on(self, direction: Direction, now: u64) -> (visit: (ShutterState, Tick))
        requires
            self.wf(),
        ensures
            visit == self.spec_run_on(direction, now),
            visit.0.wf(),
    {
        if self.is_complete(direction) {
            (
                ShutterState { action: Action::Cooldown(now), ..self },
                Tick {
                    delay_ms: COOLDOWN_MS,
                    drive: Drive::Stop { up: self.cfg.up, down: self.cfg.down },
                },
            )
        } else {
            let left = if self.is_height_pending(direction) {
                self.cfg.travel_as_time(self.position.height, self.target.height)
            } else {
                self.cfg.tilt_as_time(self.position.tilt, self.target.tilt)
            };
            let delay_ms = if left < UPDATE_PERIOD_MS {
                left
            } else {
                UPDATE_PERIOD_MS
            };
            (self, Tick { delay_ms, drive: Drive::Hold })
        }
    }

    fn start(self, direction: Direction, now: u64) -> (visit: (ShutterState, Tick))
        requires
            self.wf(),
        ensures
            visit == self.spec_start(direction, now),
            visit.0.wf(),
    {
        let (release, engage) = match direction {
            Direction::Up => (self.cfg.down, self.cfg.up),
            Direction::Down => (self.cfg.up, self.cfg.down),
        };
        (
            ShutterState { action: Self::run(direction, now), ..self },
            Tick { delay_ms: 0, drive: Drive::Start { release, engage } },
        )
    }

    fn plan(self, now: u64) -> (visit: (ShutterState, Tick))
        requires
            self.wf(),
        ensures
            visit == self.spec_plan(now),
            visit.0.wf(),
    {
        let rest = (
            ShutterState { action: Action::Sleep, ..self },
            Tick { delay_ms: NOOP_UPDATE_PERIOD_MS, drive: Drive::Hold },
        );
        if self.cfg.up == NO_OUTPUT || self.cfg.down == NO_OUTPUT {
            rest
        } else if distance(self.target.height, self.position.height) > HYSTERESIS {
            if self.target.height < self.position.height {
                self.start(Direction::Up, now)
            } else {
                self.start(Direction::Down, now)
            }
        } else if distance(self.target.tilt, self.position.tilt) > HYSTERESIS_TILT {
            if self.target.tilt < self.position.tilt {
                self.start(Direction::Up, now)
            } else {
                self.start(Direction::Down, now)
            }
        } else {
            rest
        }
    }

    /// Visits the shutter at time `now`.
    fn updated(self, now: u64) -> (visit: (ShutterState, Tick))
        requires
            self.wf(),
        ensures
            visit == self.spec_update(now),
            visit.0.wf(),
    {
        match self.action {
            Action::Sleep => (self, Tick { delay_ms: NOOP_UPDATE_PERIOD_MS, drive: Drive::Hold }),
            Action::Idle => self.plan(now),
            Action::Cooldown(since) => {
                let rested = elapsed(since, now);
                if rested >= COOLDOWN_MS {
                    (
                        ShutterState { action: Action::Idle, ..self },
                        Tick { delay_ms: 0, drive: Drive::Hold },
                    )
                } else {
                    (self, Tick { delay_ms: COOLDOWN_MS - rested, drive: Drive::Hold })
                }
            },
            Action::Up(_) => self.moved(now).run_on(Direction::Up, now),
            Action::Down(_) => self.moved(now).run_on(Direction::Down, now),
        }
    }

    /// Ends whatever the shutter does, at time `now`.
    fn interrupted(self, now: u64) -> (end: (ShutterState, Drive))
        requires
            self.wf(),
        ensures
            end == self.spec_interrupted(now),
            end.0.wf(),
    {
        match self.action {
            Action::Up(_) | Action::Down(_) => {
                let at = self.moved(now);
                (
                    ShutterState { action: Action::Cooldown(now), ..at },
                    Drive::Stop { up: self.cfg.up, down: self.cfg.down },
                )
            },
            Action::Cooldown(since) => {
                if elapsed(since, now) >= COOLDOWN_MS {
                    (ShutterState { action: Action::Idle, ..self }, Drive::Hold)
                } else {
                    (self, Drive::Hold)
                }
            },
            _ => (self, Drive::Hold),
        }
    }

    fn target_of(&self, cmd: Cmd) -> (target: Position)
        requires
            self.wf(),
        ensures
            target == self.spec_target(cmd),
            target.in_range(),
    {
        let height = self.position.height;
        match cmd {
            Cmd::Go(position) => position.clamped(),
            Cmd::Open => Position { height: 0, tilt: 0 },
            Cmd::Close => Position { height: FULL, tilt: FULL },
            Cmd::Tilt(tilt) => Position {
                height,
                tilt: if tilt > FULL {
                    FULL
                } else {
                    tilt
                },
            },
            Cmd::TiltClose => Position { height, tilt: FULL },
            Cmd::TiltOpen => Position { height, tilt: 0 },
            Cmd::TiltHalf => Position { height, tilt: 50 },
            Cmd::TiltReverse => Position {
                height,
                tilt: if self.position.tilt >= 50 {
                    0
                } else {
                    FULL
                },
            },
            Cmd::SetIO(_, _) => self.target,
        }
    }

    fn retargeted(self, cmd: Cmd) -> (state: ShutterState)
        requires
            self.wf(),
        ensures
            state == self.spec_retargeted(cmd),
            state.wf(),
    {
        let homed = match cmd {
            Cmd::Open => if !self.in_sync {
                ShutterState {
                    position: Position { height: FULL, tilt: FULL },
                    in_sync: true,
                    ..self
                }
            } else {
                self
            },
            Cmd::Close => if !self.in_sync {
                ShutterState { position: Position { height: 0, tilt: 0 }, in_sync: true, ..self }
            } else {
                self
            },
            _ => self,
        };
        ShutterState {
            target: homed.target_of(cmd),
            action: if homed.action == Action::Sleep {
                Action::Idle
            } else {
                homed.action
            },
            ..homed
        }
    }

    /// Takes a command at time `now`; `None` where it is refused.
    fn commanded(self, cmd: Cmd, now: u64) -> (res: Option<(ShutterState, Tick)>)
        requires
            self.wf(),
        ensures
            res == self.spec_command(cmd, now),
            res is Some ==> res.unwrap().0.wf(),
    {
        match cmd {
            Cmd::SetIO(down, up) => {
                if self.action == Action::Sleep {
                    Some(
                        (
                            ShutterState { cfg: Config { up, down, ..self.cfg }, ..self },
                            Tick { delay_ms: NOOP_UPDATE_PERIOD_MS, drive: Drive::Hold },
                        ),
                    )
                } else {
                    None
                }
            },
            _ => {
                if self.cfg.up == NO_OUTPUT || self.cfg.down == NO_OUTPUT {
                    None
                } else {
                    let (stopped, stop) = self.interrupted(now);
                    let (planned, tick) = stopped.retargeted(cmd).updated(now);
                    let drive = if stop == Drive::Hold {
                        tick.drive
                    } else {
                        stop
                    };
                    Some((planned, Tick { drive, ..tick }))
                }
            },
        }
    }

    /// Takes the outcome of the release at a start.
    fn released(self, ok: bool, now: u64) -> (res: (ShutterState, Drive))
        requires
            self.wf(),
        ensures
            res == self.spec_released(ok, now),
            res.0.wf(),
    {
        match self.action {
            Action::Up(_) => if ok {
                (self, Drive::Engage(self.cfg.up))
            } else {
                self.interrupted(now)
            },
            Action::Down(_) => if ok {
                (self, Drive::Engage(self.cfg.down))
            } else {
                self.interrupted(now)
            },
            _ => (self, Drive::Hold),
        }
    }
}

/// Something that is done to a shutter.
#[derive(Clone, Copy, Debug, PartialEq, Eq, Structural)]
pub enum Op {
    /// A visit.
    Update,
    /// A command.
    Command(Cmd),
    /// The outcome of the release at a start.
    Released(bool),
    /// A stop.
    Finish,
}

impl ShutterState {
    /// The state after something was done to the shutter at time `now`.
    #[verifier::opaque]
    pub open spec fn spec_apply(self, op: Op, now: u64) -> ShutterState {
        match op {
            Op::Update => self.spec_update(now).0,
            Op::Command(cmd) => match self.spec_command(cmd, now) {
                Some(done) => done.0,
                None => self,
            },
            Op::Released(ok) => self.spec_released(ok, now).0,
            Op::Finish => self.spec_interrupted(now).0,
        }
    }

    /// The state after a sequence of things was done to the shutter, each
    /// at its time.
    pub open spec fn spec_history(self, ops: Seq<(Op, u64)>) -> ShutterState
        decreases ops.len(),
    {
        if ops.len() == 0 {
            self
        } else {
            self.spec_history(ops.drop_last()).spec_apply(ops.last().0, ops.last().1)
        }
    }

    /// Accounting for time keeps the position a percentage and leaves the
    /// target, the configuration and the direction alone.
    pub proof fn lemma_moved(self, now: u64)
        requires
            self.wf(),
        ensures
            self.spec_moved(now).wf(),
            self.spec_moved(now).action.direction() == self.action.direction(),
            self.spec_moved(now).target == self.target,
            self.spec_moved(now).cfg == self.cfg,
            self.spec_moved(now).in_sync == self.in_sync,
    {
    }

    /// Whatever is done to a shutter, its position and its target stay
    /// between 0 and 100.
    #[verifier::rlimit(50)]
    pub proof fn lemma_stays_in_range(self, op: Op, now: u64)
        requires
            self.wf(),
        ensures
            self.spec_apply(op, now).wf(),
    {
        reveal(ShutterState::spec_apply);
        self.lemma_moved(now);
        match op {
            Op::Command(cmd) => {
                let stopped = self.spec_interrupted(now).0;
                assert(stopped.wf());
                let aimed = stopped.spec_retargeted(cmd);
                assert(aimed.wf());
                aimed.lemma_moved(now);
            },
            _ => {},
        }
    }

    /// The same of a whole history.
    pub proof fn lemma_history_in_range(self, ops: Seq<(Op, u64)>)
        requires
            self.wf(),
        ensures
            self.spec_history(ops).wf(),
        decreases ops.len(),
    {
        if ops.len() > 0 {
            self.lemma_history_in_range(ops.drop_last());
            self.spec_history(ops.drop_last()).lemma_stays_in_range(ops.last().0, ops.last().1);
        }
    }

    /// A run that a visit ends has brought the shutter within the tolerance
    /// of its target, or past it. So a shutter that was opened ends at most
    /// 5 percent high and 15 percent tilted, and one that was closed at
    /// least 95 percent high and 85 percent tilted.
    #[verifier::rlimit(50)]
    pub proof fn lemma_run_ends_at_target(self, now: u64)
        requires
            self.wf(),
            self.action.direction() is Some,
            self.spec_update(now).0.action is Cooldown,
        ensures
            self.spec_update(now).0.complete(self.action.direction().unwrap()),
            self.action is Up && self.target == (Position { height: 0, tilt: 0 }) ==> {
                &&& self.spec_update(now).0.position.height <= HYSTERESIS
                &&& self.spec_update(now).0.position.tilt <= HYSTERESIS_TILT
            },
            self.action is Down && self.target == (Position { height: FULL, tilt: FULL }) ==> {
                &&& self.spec_update(now).0.position.height >= FULL - HYSTERESIS
                &&& self.spec_update(now).0.position.tilt >= FULL - HYSTERESIS_TILT
            },
    {
        self.lemma_moved(now);
    }

    /// Whatever is done to a running shutter, it runs on in its direction
    /// or comes to rest: a run never turns into a run the other way, and
    /// what stops it switches both outputs off.
    #[verifier::rlimit(50)]
    pub proof fn lemma_run_ends_in_rest(self, op: Op, now: u64)
        requires
            self.wf(),
            self.action.direction() is Some,
        ensures
            self.spec_apply(op, now).action.direction() == self.action.direction()
                || self.spec_apply(op, now).action is Cooldown,
            self.spec_update(now).0.action is Cooldown ==> self.spec_update(now).1.drive == (
                Drive::Stop { up: self.cfg.up, down: self.cfg.down }),
            self.spec_interrupted(now).1 == (Drive::Stop { up: self.cfg.up, down: self.cfg.down }),
            self.cfg.configured() ==> forall|cmd: Cmd|
                !(cmd is SetIO) ==> (#[trigger] self.spec_command(cmd, now)).unwrap().1.drive == (
                    Drive::Stop { up: self.cfg.up, down: self.cfg.down }),
    {
        reveal(ShutterState::spec_apply);
        self.lemma_moved(now);
        match op {
            Op::Command(cmd) => {
                let stopped = self.spec_interrupted(now).0;
                assert(stopped.action == Action::Cooldown(now));
                let aimed = stopped.spec_retargeted(cmd);
                assert(aimed.action == Action::Cooldown(now));
            },
            _ => {},
        }
        assert forall|cmd: Cmd| !(cmd is SetIO) && self.cfg.configured() implies (
        #[trigger] self.spec_command(cmd, now)).unwrap().1.drive == (Drive::Stop {
            up: self.cfg.up,
            down: self.cfg.down,
        }) by {
            let stopped = self.spec_interrupted(now).0;
            assert(stopped.action == Action::Cooldown(now));
        }
    }

    /// Whatever is done to a shutter before its rest has lasted 500 ms, it
    /// goes on resting, with both outputs left off.
    #[verifier::rlimit(50)]
    pub proof fn lemma_rest_lasts(self, op: Op, now: u64, since: u64)
        requires
            self.wf(),
            self.action == Action::Cooldown(since),
            spec_elapsed(since, now) < COOLDOWN_MS,
        ensures
            self.spec_apply(op, now).action == Action::Cooldown(since),
            self.spec_update(now).1.drive == Drive::Hold,
            forall|cmd: Cmd|
                (#[trigger] self.spec_command(cmd, now)) is Some ==> self.spec_command(
                    cmd,
                    now,
                ).unwrap().1.drive == Drive::Hold,
    {
        reveal(ShutterState::spec_apply);
        match op {
            Op::Command(cmd) => {
                let stopped = self.spec_interrupted(now).0;
                assert(stopped == self);
                let aimed = stopped.spec_retargeted(cmd);
                assert(aimed.action == Action::Cooldown(since));
            },
            _ => {},
        }
        assert forall|cmd: Cmd| (#[trigger] self.spec_command(cmd, now)) is Some implies self.spec_command(
            cmd,
            now,
        ).unwrap().1.drive == Drive::Hold by {
            let stopped = self.spec_interrupted(now).0;
            assert(stopped == self);
            let aimed = stopped.spec_retargeted(cmd);
            assert(aimed.action == Action::Cooldown(since));
        }
    }

    /// A run starts from a standstill only: whatever leads to a run that
    /// was not under way before switches the other output off first, and
    /// comes from sleep, from idleness or from a rest of at least 500 ms.
    #[verifier::rlimit(50)]
    pub proof fn lemma_run_starts_at_rest(self, op: Op, now: u64)
        requires
            self.wf(),
            self.action.direction() is None,
            self.spec_apply(op, now).action.direction() is Some,
        ensures
            self.action is Cooldown ==> spec_elapsed(self.action->Cooldown_0, now) >= COOLDOWN_MS,
            self.spec_apply(op, now).action == Self::running(
                self.spec_apply(op, now).action.direction().unwrap(),
                now,
            ),
            op == Op::Update ==> self.spec_update(now).1.drive == (Drive::Start {
                release: self.cfg.opposite(self.spec_update(now).0.action.direction().unwrap()),
                engage: self.cfg.output(self.spec_update(now).0.action.direction().unwrap()),
            }),
            op matches Op::Command(cmd) ==> self.spec_command(cmd, now).unwrap().1.drive == (
                Drive::Start {
                    release: self.cfg.opposite(self.spec_apply(op, now).action.direction().unwrap()),
                    engage: self.cfg.output(self.spec_apply(op, now).action.direction().unwrap()),
                }),
            op is Update || op is Command,
    {
        reveal(ShutterState::spec_apply);
        match op {
            Op::Command(cmd) => {
                let stopped = self.spec_interrupted(now).0;
                let aimed = stopped.spec_retargeted(cmd);
                assert(aimed.action.direction() is None);
            },
            _ => {},
        }
    }
}

impl ShutterState {
    /// The state after the first `k` things of a sequence were done.
    pub open spec fn spec_state_at(self, ops: Seq<(Op, u64)>, k: int) -> ShutterState {
        self.spec_history(ops.take(k))
    }

    /// Whether, after the first `k` things of a sequence, the shutter
    /// rested and the next thing came 500 ms or more into that rest.
    pub open spec fn spec_rest_over(self, ops: Seq<(Op, u64)>, k: int) -> bool {
        let state = self.spec_state_at(ops, k);
        state.action is Cooldown && spec_elapsed(state.action->Cooldown_0, ops[k].1) >= COOLDOWN_MS
    }

    proof fn lemma_step_from_run(self, op: Op, now: u64)
        requires
            self.wf(),
            self.action.direction() is Some,
        ensures
            self.spec_apply(op, now).action.direction() == self.action.direction()
                || self.spec_apply(op, now).action is Cooldown,
    {
        self.lemma_run_ends_in_rest(op, now);
    }

    proof fn lemma_step_from_rest(self, op: Op, now: u64)
        requires
            self.wf(),
            self.action is Cooldown,
            spec_elapsed(self.action->Cooldown_0, now) < COOLDOWN_MS,
        ensures
            self.spec_apply(op, now).action == self.action,
    {
        self.lemma_rest_lasts(op, now, self.action->Cooldown_0);
    }

    proof fn lemma_step_to_run(self, op: Op, now: u64)
        requires
            self.wf(),
            self.action is Cooldown,
            self.spec_apply(op, now).action.direction() is Some,
        ensures
            spec_elapsed(self.action->Cooldown_0, now) >= COOLDOWN_MS,
    {
        self.lemma_run_starts_at_rest(op, now);
    }

    proof fn lemma_state_at_next(self, ops: Seq<(Op, u64)>, k: int)
        requires
            0 <= k < ops.len(),
        ensures
            self.spec_state_at(ops, k + 1) == self.spec_state_at(ops, k).spec_apply(
                ops[k].0,
                ops[k].1,
            ),
    {
        assert(ops.take(k + 1).drop_last() =~= ops.take(k));
    }

    proof fn lemma_state_at_in_range(self, ops: Seq<(Op, u64)>, k: int)
        requires
            self.wf(),
            0 <= k <= ops.len(),
        ensures
            self.spec_state_at(ops, k).wf(),
    {
        self.lemma_history_in_range(ops.take(k));
    }

    /// A shutter that ran and stands still later, neither running nor
    /// resting, has rested in between for 500 ms or more.
    #[verifier::rlimit(50)]
    proof fn lemma_standstill_follows_rest(self, ops: Seq<(Op, u64)>, i: int, m: int)
        requires
            self.wf(),
            0 <= i < m <= ops.len(),
            self.spec_state_at(ops, i).action.direction() is Some,
            self.spec_state_at(ops, m).action is Idle || self.spec_state_at(ops, m).action is Sleep,
        ensures
            exists|k: int| i < k < m && #[trigger] self.spec_rest_over(ops, k),
        decreases m - i,
    {
        let before = self.spec_state_at(ops, m - 1);
        self.lemma_state_at_next(ops, m - 1);
        self.lemma_state_at_in_range(ops, m - 1);
        let (op, now) = ops[m - 1];
        if before.action.direction() is Some {
            before.lemma_step_from_run(op, now);
        } else if before.action is Cooldown {
            if spec_elapsed(before.action->Cooldown_0, now) < COOLDOWN_MS {
                before.lemma_step_from_rest(op, now);
            }
            assert(self.spec_rest_over(ops, m - 1));
        } else {
            self.lemma_standstill_follows_rest(ops, i, m - 1);
            let k = choose|k: int| i < k < m - 1 && #[trigger] self.spec_rest_over(ops, k);
            assert(self.spec_rest_over(ops, k));
        }
    }

    /// Between a run in one direction and a later run in the other, the
    /// shutter has rested for 500 ms or more: somewhere between the two it
    /// was in `Cooldown`, and what was done to it next came 500 ms or more
    /// after that rest began.
    #[verifier::rlimit(50)]
    pub proof fn lemma_reversal_needs_rest(self, ops: Seq<(Op, u64)>, i: int, j: int)
        requires
            self.wf(),
            0 <= i < j <= ops.len(),
            self.spec_state_at(ops, i).action.direction() is Some,
            self.spec_state_at(ops, j).action.direction() is Some,
            self.spec_state_at(ops, i).action.direction() != self.spec_state_at(
                ops,
                j,
            ).action.direction(),
        ensures
            exists|k: int| i < k < j && #[trigger] self.spec_rest_over(ops, k),
        decreases j - i,
    {
        let before = self.spec_state_at(ops, j - 1);
        self.lemma_state_at_next(ops, j - 1);
        self.lemma_state_at_in_range(ops, j - 1);
        let (op, now) = ops[j - 1];
        if before.action.direction() is Some {
            before.lemma_step_from_run(op, now);
            self.lemma_reversal_needs_rest(ops, i, j - 1);
            let k = choose|k: int| i < k < j - 1 && #[trigger] self.spec_rest_over(ops, k);
            assert(self.spec_rest_over(ops, k));
        } else if before.action is Cooldown {
            before.lemma_step_to_run(op, now);
            assert(self.spec_rest_over(ops, j - 1));
        } else {
            self.lemma_standstill_follows_rest(ops, i, j - 1);
            let k = choose|k: int| i < k < j - 1 && #[trigger] self.spec_rest_over(ops, k);
            assert(self.spec_rest_over(ops, k));
        }
    }
}

/// One shutter.
#[derive(Clone, Copy, Debug)]
pub struct Shutter {
    state: ShutterState,
}

impl View for Shutter {
    type V = ShutterState;

    closed spec fn view(&self) -> ShutterState {
        self.state
    }
}

impl Shutter {
    #[verifier::type_invariant]
    spec fn well_formed(self) -> bool {
        self.state.wf()
    }

    /// The state of a new shutter with these outputs: open, idle and not
    /// in sync.
    pub open spec fn spec_new(up: OutIdx, down: OutIdx) -> ShutterState {
        ShutterState {
            cfg: Config {
                up,
                down,
                rise_time: 60_000,
                drop_time: 60_000,
                tilt_time: 500,
                over_time: 2_000,
            },
            position: Position { height: 0, tilt: 0 },
            target: Position { height: 0, tilt: 0 },
            action: Action::Idle,
            in_sync: false,
        }
    }

    pub fn new(up: OutIdx, down: OutIdx) -> (shutter: Self)
        ensures
            shutter@ == Self::spec_new(up, down),
    {
        Shutter {
            state: ShutterState {
                cfg: Config::new(up, down),
                position: Position::new_zero(),
                target: Position::new_zero(),
                action: Action::Idle,
                in_sync: false,
            },
        }
    }

    /// A shutter without outputs, asleep until `SetIO` installs them.
    pub fn unconfigured() -> (shutter: Self)
        ensures
            shutter@ == Self::spec_new(NO_OUTPUT, NO_OUTPUT).acting(Action::Sleep),
    {
        Shutter {
            state: ShutterState {
                cfg: Config::new(NO_OUTPUT, NO_OUTPUT),
                position: Position::new_zero(),
                target: Position::new_zero(),
                action: Action::Sleep,
                in_sync: false,
            },
        }
    }

    /// The shutter in a given state; `None` for a state whose position or
    /// target is no percentage.
    pub fn restore(state: ShutterState) -> (shutter: Option<Self>)
        ensures
            shutter is Some <==> state.wf(),
            shutter is Some ==> shutter.unwrap()@ == state,
    {
        if state.position.height <= FULL && state.position.tilt <= FULL && state.target.height
            <= FULL && state.target.tilt <= FULL {
            Some(Shutter { state })
        } else {
            None
        }
    }

    /// All that is known of the shutter.
    pub fn state(&self) -> (state: ShutterState)
        ensures
            state == self@,
            state.wf(),
    {
        proof {
            use_type_invariant(self);
        }
        self.state
    }

    /// Visits the shutter at time `now`: accounts for the time that a run
    /// took, and ends the run, ends the rest, starts a run or goes to sleep
    /// as the state asks for. Returns the time to the next visit and what
    /// to do with the outputs.
    pub fn update(&mut self, now: u64) -> (tick: Tick)
        ensures
            (final(self)@, tick) == old(self)@.spec_update(now),
    {
        proof {
            use_type_invariant(&*self);
        }
        let (state, tick) = self.state.updated(now);
        self.state = state;
        tick
    }

    /// Stops a run where it is, at time `now`.
    pub fn finish(&mut self, now: u64) -> (drive: Drive)
        ensures
            (final(self)@, drive) == old(self)@.spec_interrupted(now),
    {
        proof {
            use_type_invariant(&*self);
        }
        let (state, drive) = self.state.interrupted(now);
        self.state = state;
        drive
    }

    /// Takes a command at time `now`. A command that is refused changes
    /// nothing and gives `None`.
    pub fn command(&mut self, cmd: Cmd, now: u64) -> (tick: Option<Tick>)
        ensures
            tick is Some <==> old(self)@.spec_command(cmd, now) is Some,
            tick is Some ==> (final(self)@, tick.unwrap()) == old(self)@.spec_command(
                cmd,
                now,
            ).unwrap(),
            tick is None ==> final(self)@ == old(self)@,
    {
        proof {
            use_type_invariant(&*self);
        }
        match self.state.commanded(cmd, now) {
            Some((state, tick)) => {
                self.state = state;
                Some(tick)
            },
            None => None,
        }
    }

    /// Takes the outcome of the release that a start asked for. After a
    /// release that worked the run goes on: the output to switch on is
    /// named. After one that failed the start is given up.
    pub fn released(&mut self, ok: bool, now: u64) -> (drive: Drive)
        ensures
            (final(self)@, drive) == old(self)@.spec_released(ok, now),
    {
        proof {
            use_type_invariant(&*self);
        }
        let (state, drive) = self.state.released(ok, now);
        self.state = state;
        drive
    }
}

/// Adds a delay to a time; the sum stops at the highest time.
pub open spec fn spec_due(now: u64, delay_ms: u64) -> u64 {
    if now + delay_ms > u64::MAX {
        u64::MAX
    } else {
        (now + delay_ms) as u64
    }
}

/// Drives that the visits of the first `upto` shutters ask for, each with
/// the number of its shutter, in the order of the shutters.
pub open spec fn spec_drives(shutters: Seq<ShutterState>, now: u64, upto: int) -> Seq<
    (ShutterIdx, Drive),
>
    decreases upto,
{
    if upto <= 0 {
        Seq::empty()
    } else {
        let before = spec_drives(shutters, now, upto - 1);
        let drive = shutters[upto - 1].spec_update(now).1.drive;
        if drive == Drive::Hold {
            before
        } else {
            before.push(((upto - 1) as u8, drive))
        }
    }
}

/// Time from `now` to the earliest of the first `upto` times, at most the
/// time between two visits of shutters at rest.
pub open spec fn spec_wait(due: Seq<u64>, now: u64, upto: int) -> u64
    decreases upto,
{
    if upto <= 0 {
        NOOP_UPDATE_PERIOD_MS
    } else {
        let before = spec_wait(due, now, upto - 1);
        let own = spec_elapsed(now, due[upto - 1]);
        if own < before {
            own as u64
        } else {
            before
        }
    }
}

/// What the manager holds: the state of each shutter and the time at which
/// each is to be visited next.
pub struct ManagerState {
    pub shutters: Seq<ShutterState>,
    pub due: Seq<u64>,
}

impl ManagerState {
    /// The manager after a visit of all shutters at time `now`.
    pub open spec fn spec_update(self, now: u64) -> ManagerState {
        ManagerState {
            shutters: Seq::new(
                MAX_SHUTTERS as nat,
                |i: int| self.shutters[i].spec_update(now).0,
            ),
            due: Seq::new(
                MAX_SHUTTERS as nat,
                |i: int| spec_due(now, self.shutters[i].spec_update(now).1.delay_ms),
            ),
        }
    }

    /// The manager after something came of one shutter: its state and the
    /// time to its next visit.
    pub open spec fn spec_with(self, shutter: int, state: ShutterState, due: u64) -> ManagerState {
        ManagerState {
            shutters: self.shutters.update(shutter, state),
            due: self.due.update(shutter, due),
        }
    }
}

/// What a visit of all shutters leads to.
#[derive(Debug)]
pub struct Visit {
    /// What to do with the outputs of which shutter, in the order of the
    /// shutters.
    pub drives: Vec<(ShutterIdx, Drive)>,
    /// Time until the next visit, in milliseconds.
    pub delay_ms: u64,
}

/// All the shutters of a node.
pub struct Manager {
    shutters: [Shutter; 8],
    /// Time of the next visit of each shutter.
    due: [u64; 8],
}

impl View for Manager {
    type V = ManagerState;

    closed spec fn view(&self) -> ManagerState {
        ManagerState {
            shutters: Seq::new(MAX_SHUTTERS as nat, |i: int| self.shutters[i]@),
            due: self.due@,
        }
    }
}

impl Manager {
    /// Eight shutters without outputs, asleep, each to be visited at once.
    pub fn new() -> (manager: Self)
        ensures
            manager@.shutters == Seq::new(
                MAX_SHUTTERS as nat,
                |i: int| Shutter::spec_new(NO_OUTPUT, NO_OUTPUT).acting(Action::Sleep),
            ),
            manager@.due == Seq::new(MAX_SHUTTERS as nat, |i: int| 0u64),
    {
        let manager = Manager { shutters: [Shutter::unconfigured();8], due: [0u64;8] };
        assert(manager@.shutters =~= Seq::new(
            MAX_SHUTTERS as nat,
            |i: int| Shutter::spec_new(NO_OUTPUT, NO_OUTPUT).acting(Action::Sleep),
        ));
        assert(manager@.due =~= Seq::new(MAX_SHUTTERS as nat, |i: int| 0u64));
        manager
    }

    /// All that is known of a shutter; `None` for a shutter that the node
    /// does not have.
    pub fn shutter(&self, shutter: ShutterIdx) -> (state: Option<ShutterState>)
        ensures
            state == if shutter < MAX_SHUTTERS {
                Some(self@.shutters[shutter as int])
            } else {
                None
            },
    {
        if (shutter as usize) < MAX_SHUTTERS {
            Some(self.shutters[shutter as usize].state())
        } else {
            None
        }
    }

    /// Time from `now` until a shutter is to be visited, in milliseconds.
    pub fn wait(&self, now: u64) -> (delay_ms: u64)
        ensures
            delay_ms == spec_wait(self@.due, now, MAX_SHUTTERS as int),
            delay_ms <= NOOP_UPDATE_PERIOD_MS,
    {
        let mut delay_ms: u64 = NOOP_UPDATE_PERIOD_MS;
        let mut i: usize = 0;
        while i < MAX_SHUTTERS
            invariant
                i <= MAX_SHUTTERS,
                delay_ms == spec_wait(self@.due, now, i as int),
                delay_ms <= NOOP_UPDATE_PERIOD_MS,
            decreases MAX_SHUTTERS - i,
        {
            let own = elapsed(now, self.due[i]);
            if own < delay_ms {
                delay_ms = own;
            }
            i += 1;
        }
        delay_ms
    }

    /// Hands a command to a shutter at time `now`. Returns what to do with
    /// the outputs of that shutter; `None`, with nothing changed, for a
    /// shutter that the node does not have and for a command that the
    /// shutter refuses.
    pub fn command(&mut self, cmd: Cmd, shutter: ShutterIdx, now: u64) -> (drive: Option<Drive>)
        ensures
            drive is Some <==> shutter < MAX_SHUTTERS && old(self)@.shutters[shutter as int].spec_command(
                cmd,
                now,
            ) is Some,
            drive is Some ==> ({
                let done = old(self)@.shutters[shutter as int].spec_command(cmd, now).unwrap();
                &&& drive == Some(done.1.drive)
                &&& final(self)@ == old(self)@.spec_with(
                    shutter as int,
                    done.0,
                    spec_due(now, done.1.delay_ms),
                )
            }),
            drive is None ==> final(self)@ == old(self)@,
    {
        if shutter as usize >= MAX_SHUTTERS {
            return None;
        }
        let at = shutter as usize;
        let mut one = self.shutters[at];
        match one.command(cmd, now) {
            Some(tick) => {
                self.shutters[at] = one;
                self.due[at] = now.saturating_add(tick.delay_ms);
                assert(self@.shutters =~= old(self)@.shutters.update(at as int, one@));
                Some(tick.drive)
            },
            None => None,
        }
    }

    /// Takes the outcome of the release that a start of a shutter asked
    /// for, and says what to do with its outputs next.
    pub fn released(&mut self, shutter: ShutterIdx, ok: bool, now: u64) -> (drive: Drive)
        ensures
            shutter >= MAX_SHUTTERS ==> drive == Drive::Hold && final(self)@ == old(self)@,
            shutter < MAX_SHUTTERS ==> ({
                let done = old(self)@.shutters[shutter as int].spec_released(ok, now);
                &&& drive == done.1
                &&& final(self)@ == old(self)@.spec_with(
                    shutter as int,
                    done.0,
                    old(self)@.due[shutter as int],
                )
            }),
    {
        if shutter as usize >= MAX_SHUTTERS {
            return Drive::Hold;
        }
        let at = shutter as usize;
        let mut one = self.shutters[at];
        let drive = one.released(ok, now);
        self.shutters[at] = one;
        assert(self@.shutters =~= old(self)@.shutters.update(at as int, one@));
        assert(self@.due =~= old(self)@.due.update(at as int, old(self)@.due[at as int]));
        drive
    }

    /// Visits all shutters at time `now`. Returns what to do with the
    /// outputs and the time until the next visit.
    pub fn update(&mut self, now: u64) -> (visit: Visit)
        ensures
            final(self)@ == old(self)@.spec_update(now),
            visit.drives@ == spec_drives(old(self)@.shutters, now, MAX_SHUTTERS as int),
            visit.delay_ms == spec_wait(final(self)@.due, now, MAX_SHUTTERS as int),
    {
        let mut drives: Vec<(ShutterIdx, Drive)> = Vec::new();
        let mut i: usize = 0;
        while i < MAX_SHUTTERS
            invariant
                i <= MAX_SHUTTERS,
                drives@ == spec_drives(old(self)@.shutters, now, i as int),
                forall|k: int|
                    0 <= k < i ==> (#[trigger] self.shutters[k])@ == old(self)@.shutters[k].spec_update(
                        now,
                    ).0,
                forall|k: int|
                    0 <= k < i ==> (#[trigger] self.due[k]) == spec_due(
                        now,
                        old(self)@.shutters[k].spec_update(now).1.delay_ms,
                    ),
                forall|k: int| i <= k < MAX_SHUTTERS ==> (#[trigger] self.shutters[k]) == old(
                    self,
                ).shutters[k],
            decreases MAX_SHUTTERS - i,
        {
            let mut one = self.shutters[i];
            let tick = one.update(now);
            self.shutters[i] = one;
            self.due[i] = now.saturating_add(tick.delay_ms);
            if tick.drive != Drive::Hold {
                drives.push((i as u8, tick.drive));
            }
            i += 1;
        }
        assert(self@.shutters =~= old(self)@.spec_update(now).shutters);
        assert(self@.due =~= old(self)@.spec_update(now).due);
        let delay_ms = self.wait(now);
        Visit { drives, delay_ms }
    }
}

} // verus!
