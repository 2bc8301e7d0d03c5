use io_ctrl::boards::io_router::IOCommand;
use io_ctrl::buttonsmash::dispatch::drive_commands;
use io_ctrl::buttonsmash::shutters::{
    Action, Cmd, Config, Direction, Drive, Manager, Position, Shutter, ShutterState, Tick,
};

const COOLDOWN: u64 = 500;

fn synced(up: u8, down: u8) -> Shutter {
    let state = ShutterState { in_sync: true, ..Shutter::new(up, down).state() };
    Shutter::restore(state).unwrap()
}

fn hold(delay_ms: u64) -> Tick {
    Tick { delay_ms, drive: Drive::Hold }
}

#[test]
fn single_shutter() {
    // Let's assume it thinks it's synced.
    let mut shutter = synced(1, 2);
    let cfg = shutter.state().cfg;
    assert_eq!(cfg.tilt_as_time(0, 100), cfg.tilt_time as u64);
    assert_eq!(cfg.tilt_as_time(100, 0), cfg.tilt_time as u64);
    assert_eq!(cfg.tilt_as_time(50, 0), cfg.tilt_time as u64 / 2);
    assert_eq!(cfg.tilt_as_time(0, 50), cfg.tilt_time as u64 / 2);
    assert_eq!(cfg.travel_as_time(0, 100), cfg.drop_time as u64);
    assert_eq!(cfg.travel_as_time(100, 0), cfg.rise_time as u64);
    assert_eq!(shutter.state().action, Action::Idle);

    // It's already up, should be a noop and no commands sent: with nothing
    // to do the shutter goes to sleep.
    let mut now: u64 = 10_000;
    assert_eq!(shutter.command(Cmd::Open, now), Some(hold(10_000)));
    assert_eq!(shutter.state().action, Action::Sleep);

    // Closing will make it go down.
    let tick = shutter.command(Cmd::Close, now).unwrap();
    assert_eq!(shutter.state().action, Action::Down(now));
    assert_eq!(tick.drive, Drive::Start { release: 1, engage: 2 });
    assert_eq!(shutter.released(true, now), Drive::Engage(2));

    // Nothing should change. Time didn't pass.
    assert_eq!(shutter.update(now).drive, Drive::Hold);
    assert_eq!(shutter.state().position.tilt, 0);
    assert_eq!(shutter.state().position.height, 0);

    now += cfg.tilt_time as u64;
    shutter.update(now);
    assert_eq!(shutter.state().position.tilt, 100);
    assert_eq!(shutter.state().position.height, 0);

    // Let's wait 50% of drop time.
    now += cfg.drop_time as u64 / 2;
    assert_eq!(shutter.update(now).drive, Drive::Hold);
    assert_eq!(shutter.state().position.tilt, 100);
    assert_eq!(shutter.state().position.height, 50);
    assert_eq!(shutter.state().action, Action::Down(now));

    // Let's wait another 50% of time.
    now += cfg.drop_time as u64 / 2;
    let tick = shutter.update(now);
    assert_eq!(shutter.state().position.tilt, 100);
    assert_eq!(shutter.state().position.height, 100);
    // Idle commands were sent.
    assert_eq!(tick, Tick { delay_ms: COOLDOWN, drive: Drive::Stop { up: 1, down: 2 } });
    let cooldown_start = now;
    assert_eq!(shutter.state().action, Action::Cooldown(cooldown_start));

    // Finish half of a cooldown period.
    now += COOLDOWN / 2;
    assert_eq!(shutter.update(now), hold(COOLDOWN / 2));
    assert_eq!(shutter.state().position.tilt, 100);
    assert_eq!(shutter.state().position.height, 100);
    assert_eq!(shutter.state().action, Action::Cooldown(cooldown_start));

    // Move to 50% height, but set tilt to 45deg. Still half cooldown period to go.
    assert_eq!(shutter.command(Cmd::Go(Position::new(50, 50)), now), Some(hold(COOLDOWN / 2)));
    assert_eq!(shutter.state().action, Action::Cooldown(cooldown_start));

    // Still idle after rest of cooldown.
    now += COOLDOWN / 2;
    assert_eq!(shutter.update(now), hold(0));
    assert_eq!(shutter.state().action, Action::Idle);

    // Will immediately start motion if Idle.
    let tick = shutter.update(now);
    assert_eq!(shutter.state().action, Action::Up(now));
    assert_eq!(tick, Tick { delay_ms: 0, drive: Drive::Start { release: 2, engage: 1 } });
    assert_eq!(shutter.released(true, now), Drive::Engage(1));
    assert_eq!(shutter.state().position.tilt, 100);
    assert_eq!(shutter.state().position.height, 100);

    // First we consume tilt.
    now += cfg.tilt_time as u64;
    shutter.update(now);
    assert_eq!(shutter.state().position.tilt, 0);
    assert_eq!(shutter.state().position.height, 100);

    // Should reach height and switch to cooldown.
    now += cfg.rise_time as u64 / 2;
    let tick = shutter.update(now);
    assert_eq!(shutter.state().action, Action::Cooldown(now));
    assert_eq!(tick.drive, Drive::Stop { up: 1, down: 2 });

    now += COOLDOWN;
    let time = shutter.update(now).delay_ms;
    assert_eq!(time, 0);
    assert_eq!(shutter.state().action, Action::Idle);

    // Immediately after cooldown, should go down to close tilt.
    let start = shutter.update(now);
    assert_eq!(start.delay_ms, 0);
    assert_eq!(shutter.state().action, Action::Down(now));
    assert_eq!(start.drive, Drive::Start { release: 1, engage: 2 });
    assert_eq!(shutter.released(true, now), Drive::Engage(2));

    // Next update (same moment) has proper time.
    let time = shutter.update(now).delay_ms;
    assert_eq!(time, cfg.tilt_time as u64 / 2);

    now += time;
    let tick = shutter.update(now);
    assert_eq!(tick, Tick { delay_ms: COOLDOWN, drive: Drive::Stop { up: 1, down: 2 } });
    assert_eq!(shutter.state().action, Action::Cooldown(now));
    assert_eq!(shutter.state().position.tilt, 50);
    assert_eq!(shutter.state().position.height, 50);

    now += COOLDOWN;
    assert_eq!(shutter.update(now).drive, Drive::Hold);
    assert_eq!(shutter.state().action, Action::Idle);
    // All is where it should be: the shutter goes to sleep.
    assert_eq!(shutter.update(now), hold(10_000));
    assert_eq!(shutter.state().action, Action::Sleep);
    assert_eq!(shutter.update(now + 5), hold(10_000));
}

#[test]
fn direction_reversal_needs_cooldown() {
    let mut manager = Manager::new();
    assert_eq!(manager.update(0).delay_ms, 10_000);
    assert_eq!(manager.command(Cmd::SetIO(2, 1), 0, 0), Some(Drive::Hold));
    let cfg = manager.shutter(0).unwrap().cfg;
    assert_eq!((cfg.up, cfg.down), (1, 2));

    // Close: the first close after a start takes the shutter to be open.
    assert_eq!(manager.command(Cmd::Close, 0, 0), Some(Drive::Start { release: 1, engage: 2 }));
    assert_eq!(manager.released(0, true, 0), Drive::Engage(2));
    let state = manager.shutter(0).unwrap();
    assert_eq!(state.action, Action::Down(0));
    assert!(state.in_sync);
    assert_eq!(state.target, Position::new(100, 100));
    assert_eq!(manager.wait(0), 0);

    // 200 ms later: open. The run down is stopped, both outputs go off.
    let drive = manager.command(Cmd::Open, 0, 200).unwrap();
    assert_eq!(drive, Drive::Stop { up: 1, down: 2 });
    assert_eq!(
        drive_commands(drive),
        vec![IOCommand::DeactivateOutput(1), IOCommand::DeactivateOutput(2)]
    );
    let state = manager.shutter(0).unwrap();
    assert_eq!(state.action, Action::Cooldown(200));
    // 200 ms of a tilt that takes 500 ms.
    assert_eq!(state.position, Position::new(0, 40));
    assert_eq!(state.target, Position::new(0, 0));
    assert_eq!(manager.wait(200), 500);

    // Nothing moves while the motor rests.
    for now in [200, 300, 450, 699] {
        let visit = manager.update(now);
        assert!(visit.drives.is_empty());
        assert_eq!(visit.delay_ms, 700 - now);
        assert_eq!(manager.shutter(0).unwrap().action, Action::Cooldown(200));
    }
    // Nor does a command start anything.
    assert_eq!(manager.command(Cmd::TiltOpen, 0, 650), Some(Drive::Hold));
    assert_eq!(manager.shutter(0).unwrap().action, Action::Cooldown(200));

    let visit = manager.update(700);
    assert!(visit.drives.is_empty());
    assert_eq!(visit.delay_ms, 0);
    assert_eq!(manager.shutter(0).unwrap().action, Action::Idle);

    let visit = manager.update(700);
    assert_eq!(visit.drives, vec![(0, Drive::Start { release: 2, engage: 1 })]);
    assert_eq!(manager.shutter(0).unwrap().action, Action::Up(700));
    assert_eq!(manager.released(0, true, 700), Drive::Engage(1));
}

#[test]
fn a_release_that_fails_gives_the_start_up() {
    let mut shutter = synced(1, 2);
    let tick = shutter.command(Cmd::Close, 50).unwrap();
    assert_eq!(tick.drive, Drive::Start { release: 1, engage: 2 });
    assert_eq!(drive_commands(tick.drive), vec![IOCommand::DeactivateOutput(1)]);
    assert_eq!(shutter.released(false, 50), Drive::Stop { up: 1, down: 2 });
    assert_eq!(shutter.state().action, Action::Cooldown(50));
    assert_eq!(shutter.state().position, Position::new(0, 0));
    // Outside a run there is nothing to release.
    assert_eq!(shutter.released(true, 60), Drive::Hold);
    assert_eq!(shutter.released(false, 60), Drive::Hold);
    assert_eq!(drive_commands(Drive::Hold), vec![]);
    assert_eq!(drive_commands(Drive::Engage(7)), vec![IOCommand::ActivateOutput(7)]);
}

#[test]
fn set_io_needs_sleep_and_movement_needs_outputs() {
    let mut shutter = Shutter::unconfigured();
    assert_eq!(shutter.state().action, Action::Sleep);
    assert_eq!(shutter.state().cfg.up, 0xff);
    assert_eq!(shutter.state().cfg.down, 0xff);
    let before = shutter.state();
    // Without outputs a shutter ignores what it is told.
    for cmd in [Cmd::Open, Cmd::Close, Cmd::TiltHalf, Cmd::Go(Position::new(10, 10))] {
        assert_eq!(shutter.command(cmd, 5), None);
        assert_eq!(shutter.state(), before);
    }
    assert_eq!(shutter.update(5), hold(10_000));
    assert_eq!(shutter.command(Cmd::SetIO(4, 3), 5), Some(hold(10_000)));
    assert_eq!(shutter.state().cfg.down, 4);
    assert_eq!(shutter.state().cfg.up, 3);
    assert_eq!(shutter.state().action, Action::Sleep);

    assert!(shutter.command(Cmd::Close, 10).is_some());
    let running = shutter.state();
    assert_eq!(running.action, Action::Down(10));
    // Outside sleep the outputs stay as they are.
    assert_eq!(shutter.command(Cmd::SetIO(8, 9), 20), None);
    assert_eq!(shutter.state(), running);
    shutter.finish(30);
    assert_eq!(shutter.command(Cmd::SetIO(8, 9), 40), None);
}

#[test]
fn first_open_and_close_home_the_shutter() {
    let mut shutter = Shutter::new(1, 2);
    assert!(!shutter.state().in_sync);
    let tick = shutter.command(Cmd::Open, 0).unwrap();
    assert_eq!(tick.drive, Drive::Start { release: 2, engage: 1 });
    let state = shutter.state();
    assert!(state.in_sync);
    assert_eq!(state.position, Position::new(100, 100));
    assert_eq!(state.target, Position::new_zero());
    assert_eq!(state.action, Action::Up(0));

    // A full open: half a second for the slats, a minute for the height.
    assert_eq!(shutter.update(500).drive, Drive::Hold);
    assert_eq!(shutter.state().position, Position::new(100, 0));
    let mut now = 500;
    let mut stopped = false;
    while now < 70_000 && !stopped {
        now += 1000;
        let tick = shutter.update(now);
        assert!(tick.delay_ms <= 1000);
        stopped = tick.drive == (Drive::Stop { up: 1, down: 2 });
    }
    assert!(stopped);
    let done = shutter.state();
    assert_eq!(done.action, Action::Cooldown(now));
    assert!(done.position.height <= 5);
    assert!(done.position.tilt <= 15);

    // A later close starts from where the shutter is.
    now += 500;
    shutter.update(now);
    shutter.command(Cmd::Close, now);
    assert_eq!(shutter.state().position, done.position);
    while !matches!(shutter.state().action, Action::Cooldown(_)) {
        now += 1000;
        shutter.update(now);
        assert!(now < 200_000);
    }
    let closed = shutter.state().position;
    assert!(closed.height >= 95 && closed.height <= 100);
    assert!(closed.tilt >= 85 && closed.tilt <= 100);
}

#[test]
fn targets_of_the_tilt_commands() {
    let at = |height: u8, tilt: u8| {
        let state = ShutterState {
            in_sync: true,
            position: Position::new(height, tilt),
            target: Position::new(height, tilt),
            ..Shutter::new(1, 2).state()
        };
        Shutter::restore(state).unwrap()
    };
    let target = |mut shutter: Shutter, cmd: Cmd| {
        shutter.command(cmd, 0).unwrap();
        shutter.state().target
    };
    assert_eq!(target(at(30, 70), Cmd::TiltClose), Position::new(30, 100));
    assert_eq!(target(at(30, 70), Cmd::TiltOpen), Position::new(30, 0));
    assert_eq!(target(at(30, 70), Cmd::TiltHalf), Position::new(30, 50));
    assert_eq!(target(at(30, 70), Cmd::Tilt(20)), Position::new(30, 20));
    assert_eq!(target(at(30, 70), Cmd::Tilt(200)), Position::new(30, 100));
    assert_eq!(target(at(30, 50), Cmd::TiltReverse), Position::new(30, 0));
    assert_eq!(target(at(30, 49), Cmd::TiltReverse), Position::new(30, 100));
    assert_eq!(target(at(30, 70), Cmd::Open), Position::new(0, 0));
    assert_eq!(target(at(30, 70), Cmd::Close), Position::new(100, 100));
    assert_eq!(
        target(at(30, 70), Cmd::Go(Position { height: 250, tilt: 10 })),
        Position::new(100, 10)
    );
    // Within the tolerance nothing moves.
    let mut near = at(30, 70);
    assert_eq!(near.command(Cmd::Go(Position::new(35, 55)), 0), Some(hold(10_000)));
    assert_eq!(near.state().action, Action::Sleep);
    let mut far = at(30, 70);
    assert_eq!(
        far.command(Cmd::Go(Position::new(36, 70)), 0).unwrap().drive,
        Drive::Start { release: 1, engage: 2 }
    );
    let mut tilted = at(30, 70);
    assert_eq!(
        tilted.command(Cmd::Go(Position::new(30, 54)), 0).unwrap().drive,
        Drive::Start { release: 2, engage: 1 }
    );
}

#[test]
fn times_and_percent() {
    let cfg = Config { rise_time: 40_000, drop_time: 20_000, tilt_time: 1_000, ..Config::new(1, 2) };
    assert_eq!(Config::new(1, 2).rise_time, 60_000);
    assert_eq!(Config::new(1, 2).drop_time, 60_000);
    assert_eq!(Config::new(1, 2).tilt_time, 500);
    assert_eq!(Config::new(1, 2).over_time, 2_000);
    assert_eq!(cfg.travel_as_time(0, 100), 20_000);
    assert_eq!(cfg.travel_as_time(100, 0), 40_000);
    assert_eq!(cfg.travel_as_time(25, 50), 5_000);
    assert_eq!(cfg.travel_as_time(50, 25), 10_000);
    assert_eq!(cfg.travel_as_time(7, 7), 0);
    assert_eq!(cfg.tilt_as_time(10, 43), 330);
    assert_eq!(cfg.time_as_tilt(0), 0);
    assert_eq!(cfg.time_as_tilt(333), 33);
    assert_eq!(cfg.time_as_tilt(999), 99);
    assert_eq!(cfg.time_as_tilt(1_000), 100);
    assert_eq!(cfg.time_as_tilt(u64::MAX), 100);
    assert_eq!(cfg.time_as_travel(Direction::Up, 10_000), 25);
    assert_eq!(cfg.time_as_travel(Direction::Down, 10_000), 50);
    assert_eq!(cfg.time_as_travel(Direction::Down, 30_000), 100);
    let instant = Config { tilt_time: 0, rise_time: 0, ..cfg };
    assert_eq!(instant.time_as_tilt(0), 100);
    assert_eq!(instant.time_as_travel(Direction::Up, 0), 100);
    assert_eq!(Position::new_zero(), Position::new(0, 0));
    assert_eq!(Position { height: 101, tilt: 255 }.clamped(), Position::new(100, 100));
}

#[test]
fn time_left_over_is_kept() {
    // A run of a minute moves 1 percent in 600 ms: a visit every second
    // must not lose the other 400 ms.
    let state = ShutterState {
        in_sync: true,
        position: Position::new(0, 100),
        target: Position::new(100, 100),
        action: Action::Down(0),
        ..Shutter::new(1, 2).state()
    };
    let mut shutter = Shutter::restore(state).unwrap();
    shutter.update(1_000);
    assert_eq!(shutter.state().position.height, 1);
    assert_eq!(shutter.state().action, Action::Down(600));
    shutter.update(2_000);
    assert_eq!(shutter.state().position.height, 3);
    assert_eq!(shutter.state().action, Action::Down(1_800));
    shutter.update(3_000);
    assert_eq!(shutter.state().position.height, 5);
    assert_eq!(shutter.state().action, Action::Down(3_000));
    // A clock that goes back moves nothing.
    shutter.update(2_000);
    assert_eq!(shutter.state().position.height, 5);
    assert_eq!(shutter.state().action, Action::Down(3_000));
    for second in 4..=56u64 {
        assert_eq!(shutter.update(second * 1_000).drive, Drive::Hold);
        assert_eq!(shutter.state().position.height as u64, second * 100 / 60);
    }
    // Within 5 percent of the target the run is over.
    assert_eq!(shutter.update(57_000).drive, Drive::Stop { up: 1, down: 2 });
    assert_eq!(shutter.state().position.height, 95);
    assert_eq!(shutter.state().action, Action::Cooldown(57_000));
}

#[test]
fn restore_takes_percentages_only() {
    let sound = Shutter::new(1, 2).state();
    assert!(Shutter::restore(sound).is_some());
    assert!(Shutter::restore(ShutterState { position: Position { height: 101, tilt: 0 }, ..sound })
        .is_none());
    assert!(Shutter::restore(ShutterState { target: Position { height: 0, tilt: 101 }, ..sound })
        .is_none());
}

#[test]
fn manager_visits_all_shutters() {
    let mut manager = Manager::new();
    assert_eq!(manager.shutter(8), None);
    assert_eq!(manager.command(Cmd::Open, 8, 0), None);
    assert_eq!(manager.released(8, true, 0), Drive::Hold);
    for shutter in 0..8u8 {
        assert_eq!(manager.shutter(shutter).unwrap().action, Action::Sleep);
        // Without outputs a shutter ignores what it is told.
        assert_eq!(manager.command(Cmd::Close, shutter, 0), None);
    }
    let visit = manager.update(1_000);
    assert!(visit.drives.is_empty());
    assert_eq!(visit.delay_ms, 10_000);
    assert_eq!(manager.wait(4_000), 7_000);
    assert_eq!(manager.wait(20_000), 0);

    assert!(manager.command(Cmd::SetIO(2, 1), 0, 1_000).is_some());
    assert!(manager.command(Cmd::SetIO(4, 3), 5, 1_000).is_some());
    assert_eq!(manager.command(Cmd::Close, 5, 1_000), Some(Drive::Start { release: 3, engage: 4 }));
    assert_eq!(manager.command(Cmd::Open, 0, 1_000), Some(Drive::Start { release: 2, engage: 1 }));
    assert_eq!(manager.wait(1_000), 0);
    let visit = manager.update(1_000);
    assert!(visit.drives.is_empty());
    assert_eq!(visit.delay_ms, 1_000);
    // Shutter 5 closes from 0, shutter 0 opens from 100: both are done in
    // the same visit, once they are within the tolerance of their targets.
    let mut now = 1_000;
    let mut stops = Vec::new();
    while stops.len() < 2 {
        now += 1_000;
        assert!(now < 100_000);
        stops.extend(manager.update(now).drives);
    }
    assert_eq!(
        stops,
        vec![(0, Drive::Stop { up: 1, down: 2 }), (5, Drive::Stop { up: 3, down: 4 })]
    );
    assert_eq!(manager.wait(now), 500);
}
