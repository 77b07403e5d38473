use playdeck::keys::{Command, Interpreter};
use playdeck::position::Position;
use playdeck::speed::Speed;
use playdeck::transport::{Action, Controls, SinkStatus};
use playdeck::volume::Volume;

fn status(percent: u8, secs: u64) -> SinkStatus {
    SinkStatus { volume: Volume::clamped(percent), position: Position::from_secs(secs) }
}

#[test]
fn new_controls_run_unpaused_at_normal_speed() {
    let controls = Controls::new();
    assert!(controls.is_running());
    assert!(!controls.is_paused());
    assert_eq!(controls.speed(), Speed::Normal);
}

#[test]
fn volume_commands_step_by_ten_percent() {
    let mut controls = Controls::new();
    assert_eq!(
        controls.apply(Command::VolumeUp, &status(50, 0)),
        Action::SetVolume(Volume::clamped(60))
    );
    assert_eq!(
        controls.apply(Command::VolumeDown, &status(50, 0)),
        Action::SetVolume(Volume::clamped(40))
    );
    assert!(controls.is_running());
    assert!(!controls.is_paused());
}

#[test]
fn volume_stays_in_range_over_many_steps() {
    let mut controls = Controls::new();
    let mut volume = Volume::full();
    let steps = [
        (Command::VolumeUp, 3),
        (Command::VolumeDown, 15),
        (Command::VolumeUp, 4),
        (Command::VolumeDown, 1),
        (Command::VolumeUp, 25),
    ];
    let expected_after = [100u8, 0, 40, 30, 100];
    for ((command, times), expected) in steps.into_iter().zip(expected_after) {
        for _ in 0..times {
            let now = SinkStatus { volume, position: Position::zero() };
            match controls.apply(command, &now) {
                Action::SetVolume(next) => {
                    assert!(next.percent() <= 100);
                    volume = next;
                }
                other => panic!("unexpected action {:?}", other),
            }
        }
        assert_eq!(volume.percent(), expected);
    }
}

#[test]
fn volume_steps_clamp_at_both_ends() {
    let mut controls = Controls::new();
    assert_eq!(
        controls.apply(Command::VolumeUp, &status(95, 0)),
        Action::SetVolume(Volume::full())
    );
    assert_eq!(
        controls.apply(Command::VolumeUp, &status(100, 0)),
        Action::SetVolume(Volume::full())
    );
    assert_eq!(
        controls.apply(Command::VolumeDown, &status(5, 0)),
        Action::SetVolume(Volume::clamped(0))
    );
    assert_eq!(
        controls.apply(Command::VolumeDown, &status(0, 0)),
        Action::SetVolume(Volume::clamped(0))
    );
}

#[test]
fn rewind_within_first_five_seconds_goes_to_start() {
    let mut controls = Controls::new();
    for secs in 0..5 {
        assert_eq!(
            controls.apply(Command::SeekBack, &status(100, secs)),
            Action::SeekTo(Position::zero())
        );
    }
    let almost = SinkStatus {
        volume: Volume::full(),
        position: Position::from_parts(4, 999_999_999).unwrap(),
    };
    assert_eq!(controls.apply(Command::SeekBack, &almost), Action::SeekTo(Position::zero()));
}

#[test]
fn rewind_keeps_the_fraction_of_a_second() {
    let mut controls = Controls::new();
    let at = SinkStatus {
        volume: Volume::full(),
        position: Position::from_parts(12, 250_000_000).unwrap(),
    };
    assert_eq!(
        controls.apply(Command::SeekBack, &at),
        Action::SeekTo(Position::from_parts(7, 250_000_000).unwrap())
    );
    assert_eq!(
        controls.apply(Command::SeekBack, &status(100, 5)),
        Action::SeekTo(Position::zero())
    );
}

#[test]
fn forward_adds_five_seconds() {
    let mut controls = Controls::new();
    let at = SinkStatus {
        volume: Volume::full(),
        position: Position::from_parts(12, 250_000_000).unwrap(),
    };
    assert!(at.position.can_advance());
    assert_eq!(
        controls.apply(Command::SeekForward, &at),
        Action::SeekTo(Position::from_parts(17, 250_000_000).unwrap())
    );
}

#[test]
fn toggle_pauses_then_resumes() {
    let mut controls = Controls::new();
    assert_eq!(controls.apply(Command::TogglePause, &status(100, 0)), Action::Pause);
    assert!(controls.is_paused());
    assert_eq!(controls.apply(Command::TogglePause, &status(100, 0)), Action::Resume);
    assert!(!controls.is_paused());
    assert!(controls.is_running());
}

#[test]
fn set_speed_is_idempotent() {
    for speed in [Speed::Half, Speed::Normal, Speed::OneAndHalf, Speed::Double] {
        let mut controls = Controls::new();
        let once = controls.apply(Command::SetSpeed(speed), &status(100, 1));
        assert_eq!(once, Action::SetSpeed(speed));
        assert_eq!(controls.speed(), speed);
        let twice = controls.apply(Command::SetSpeed(speed), &status(70, 9));
        assert_eq!(twice, once);
        assert_eq!(controls.speed(), speed);
        assert!(controls.is_running());
        assert!(!controls.is_paused());
    }
}

#[test]
fn stop_ends_the_session_for_good() {
    let mut controls = Controls::new();
    assert_eq!(controls.apply(Command::Stop, &status(100, 0)), Action::Shutdown);
    assert!(!controls.is_running());
    let later = [
        Command::VolumeUp,
        Command::VolumeDown,
        Command::SeekBack,
        Command::SeekForward,
        Command::TogglePause,
        Command::SetSpeed(Speed::Double),
        Command::Stop,
    ];
    for command in later {
        controls.apply(command, &status(50, 20));
        assert!(!controls.is_running());
    }
}

#[test]
fn halt_clears_running_only() {
    let mut controls = Controls::new();
    controls.apply(Command::TogglePause, &status(100, 0));
    controls.apply(Command::SetSpeed(Speed::Half), &status(100, 0));
    controls.halt();
    assert!(!controls.is_running());
    assert!(controls.is_paused());
    assert_eq!(controls.speed(), Speed::Half);
    controls.halt();
    assert!(!controls.is_running());
}

#[test]
fn up_arrow_and_w_ask_for_the_same_volume() {
    let mut keys = Interpreter::new();
    let mut controls = Controls::new();
    let now = status(40, 3);
    let mut from_arrow = Vec::new();
    for byte in [0x1Bu8, 0x5B, 0x41] {
        if let Some(command) = keys.feed(byte) {
            from_arrow.push(controls.apply(command, &now));
        }
    }
    let mut from_key = Vec::new();
    if let Some(command) = keys.feed(b'w') {
        from_key.push(controls.apply(command, &now));
    }
    assert_eq!(from_arrow, vec![Action::SetVolume(Volume::clamped(50))]);
    assert_eq!(from_arrow, from_key);
}

#[test]
fn try_apply_refuses_only_a_forward_seek_past_the_last_position() {
    let far = SinkStatus { volume: Volume::clamped(50), position: Position::from_secs(u64::MAX - 4) };
    let mut controls = Controls::new();
    assert_eq!(controls.try_apply(Command::SeekForward, &far), None);
    assert!(controls.is_running());
    assert!(!controls.is_paused());
    assert_eq!(controls.speed(), Speed::Normal);
    assert_eq!(
        controls.try_apply(Command::SeekBack, &far),
        Some(Action::SeekTo(Position::from_secs(u64::MAX - 9)))
    );
    assert_eq!(
        controls.try_apply(Command::VolumeUp, &far),
        Some(Action::SetVolume(Volume::clamped(60)))
    );
    assert_eq!(controls.try_apply(Command::TogglePause, &far), Some(Action::Pause));
    assert!(controls.is_paused());
    assert_eq!(controls.try_apply(Command::Stop, &far), Some(Action::Shutdown));
    assert!(!controls.is_running());
}

#[test]
fn try_apply_agrees_with_apply_where_both_work() {
    let now = status(40, 20);
    let commands = [
        Command::VolumeUp,
        Command::SeekForward,
        Command::TogglePause,
        Command::SetSpeed(Speed::OneAndHalf),
        Command::SeekBack,
        Command::VolumeDown,
        Command::TogglePause,
        Command::Stop,
    ];
    let mut tried = Controls::new();
    let mut applied = Controls::new();
    for command in commands {
        assert_eq!(tried.try_apply(command, &now), Some(applied.apply(command, &now)));
        assert_eq!(tried.is_running(), applied.is_running());
        assert_eq!(tried.is_paused(), applied.is_paused());
        assert_eq!(tried.speed(), applied.speed());
    }
}
