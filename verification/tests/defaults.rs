use drone_config::{Config, ControlSource, GamepadBindings, KeyboardBindings};

#[test]
fn default_network_settings() {
    let config = Config::default();
    assert_eq!(config.ip, "10.10.10.10");
    assert_eq!(config.stream_port, 8889);
    assert_eq!(config.control_port, 5000);
}

#[test]
fn default_keyboard_bindings() {
    let keyboard = Config::default().keyboard;
    assert_eq!(keyboard.move_forward, "W");
    assert_eq!(keyboard.move_backward, "S");
    assert_eq!(keyboard.move_left, "A");
    assert_eq!(keyboard.move_right, "D");
    assert_eq!(keyboard.move_up, "Space");
    assert_eq!(keyboard.move_down, "LShift");
    assert_eq!(keyboard.pitch_up, "I");
    assert_eq!(keyboard.pitch_down, "K");
    assert_eq!(keyboard.yaw_left, "J");
    assert_eq!(keyboard.yaw_right, "L");
    assert_eq!(keyboard.roll_left, "Q");
    assert_eq!(keyboard.roll_right, "E");
}

#[test]
fn default_gamepad_bindings() {
    let gamepad = Config::default().gamepad;
    assert_eq!(gamepad.move_horizontal, ControlSource::LeftStick);
    assert_eq!(gamepad.move_up, 9);
    assert_eq!(gamepad.move_down, 10);
    assert_eq!(gamepad.pitch_yaw, ControlSource::RightStick);
    assert_eq!(gamepad.roll_left, 7);
    assert_eq!(gamepad.roll_right, 8);
}

#[test]
fn default_is_the_same_at_every_call() {
    let first = Config::default();
    let second = Config::default();
    assert_eq!(first, second);
    assert_eq!(first.ip, second.ip);
    assert_eq!(first.stream_port, second.stream_port);
    assert_eq!(first.control_port, second.control_port);
    assert_eq!(first.keyboard, second.keyboard);
    assert_eq!(first.gamepad, second.gamepad);
}

#[test]
fn clone_keeps_every_field() {
    let config = Config {
        ip: "192.168.10.1".to_string(),
        stream_port: 1,
        control_port: 2,
        keyboard: KeyboardBindings {
            move_forward: "Up".to_string(),
            move_backward: "Down".to_string(),
            move_left: "Left".to_string(),
            move_right: "Right".to_string(),
            move_up: "PageUp".to_string(),
            move_down: "PageDown".to_string(),
            yaw_left: "Z".to_string(),
            yaw_right: "X".to_string(),
            pitch_up: "R".to_string(),
            pitch_down: "F".to_string(),
            roll_left: "1".to_string(),
            roll_right: "2".to_string(),
        },
        gamepad: GamepadBindings {
            move_horizontal: ControlSource::DPad,
            move_up: 0,
            move_down: 65535,
            pitch_yaw: ControlSource::FaceButtons,
            roll_left: 3,
            roll_right: 4,
        },
    };
    let copy = config.clone();
    assert_eq!(copy, config);
    assert_eq!(copy.keyboard.pitch_down, "F");
    assert_eq!(copy.gamepad.move_down, 65535);
}

#[test]
fn settings_that_differ_in_one_field_are_not_equal() {
    let base = Config::default();

    let mut other = Config::default();
    other.ip = "10.10.10.11".to_string();
    assert_ne!(base, other);

    let mut other = Config::default();
    other.stream_port = 8890;
    assert_ne!(base, other);

    let mut other = Config::default();
    other.control_port = 5001;
    assert_ne!(base, other);

    let mut other = Config::default();
    other.keyboard.roll_right = "R".to_string();
    assert_ne!(base, other);

    let mut other = Config::default();
    other.keyboard.move_forward = "w".to_string();
    assert_ne!(base, other);

    let mut other = Config::default();
    other.gamepad.pitch_yaw = ControlSource::LeftStick;
    assert_ne!(base, other);

    let mut other = Config::default();
    other.gamepad.roll_right = 9;
    assert_ne!(base, other);
}

#[test]
fn duplicate_bindings_are_representable() {
    let mut config = Config::default();
    config.keyboard.move_left = "W".to_string();
    config.gamepad.move_down = config.gamepad.move_up;
    assert_eq!(config.keyboard.move_left, config.keyboard.move_forward);
    assert_eq!(Config::deserialize(&config.serialize()), Ok(config));
}
