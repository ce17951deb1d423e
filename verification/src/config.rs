//! The settings themselves: network endpoints and the two binding schemes.

use vstd::prelude::*;

verus! {

/// A class of directional input on a gamepad. Which axis values it yields is
/// for the code that polls the device to decide.
#[derive(Clone, Copy, Debug, PartialEq, Eq, Structural)]
pub enum ControlSource {
    LeftStick,
    RightStick,
    DPad,
    FaceButtons,
}

impl View for ControlSource {
    type V = ControlSource;

    open spec fn view(&self) -> ControlSource {
        *self
    }
}

/// The key that triggers each of the twelve motions. A key is named by a
/// string such as `W` or `LShift`; two motions may name the same key.
#[derive(Debug)]
pub struct KeyboardBindings {
    pub move_forward: String,
    pub move_backward: String,
    pub move_left: String,
    pub move_right: String,
    pub move_up: String,
    pub move_down: String,
    pub yaw_left: String,
    pub yaw_right: String,
    pub pitch_up: String,
    pub pitch_down: String,
    pub roll_left: String,
    pub roll_right: String,
}

/// Keyboard bindings as a mathematical value: each key name is a sequence of
/// characters.
pub ghost struct KeyboardBindingsView {
    pub move_forward: Seq<char>,
    pub move_backward: Seq<char>,
    pub move_left: Seq<char>,
    pub move_right: Seq<char>,
    pub move_up: Seq<char>,
    pub move_down: Seq<char>,
    pub yaw_left: Seq<char>,
    pub yaw_right: Seq<char>,
    pub pitch_up: Seq<char>,
    pub pitch_down: Seq<char>,
    pub roll_left: Seq<char>,
    pub roll_right: Seq<char>,
}

impl View for KeyboardBindings {
    type V = KeyboardBindingsView;

    open spec fn view(&self) -> KeyboardBindingsView {
        KeyboardBindingsView {
            move_forward: self.move_forward@,
            move_backward: self.move_backward@,
            move_left: self.move_left@,
            move_right: self.move_right@,
            move_up: self.move_up@,
            move_down: self.move_down@,
            yaw_left: self.yaw_left@,
            yaw_right: self.yaw_right@,
            pitch_up: self.pitch_up@,
            pitch_down: self.pitch_down@,
            roll_left: self.roll_left@,
            roll_right: self.roll_right@,
        }
    }
}

impl Clone for KeyboardBindings {
    fn clone(&self) -> (copy: KeyboardBindings)
        ensures
            copy@ == self@,
    {
        KeyboardBindings {
            move_forward: self.move_forward.clone(),
            move_backward: self.move_backward.clone(),
            move_left: self.move_left.clone(),
            move_right: self.move_right.clone(),
            move_up: self.move_up.clone(),
            move_down: self.move_down.clone(),
            yaw_left: self.yaw_left.clone(),
            yaw_right: self.yaw_right.clone(),
            pitch_up: self.pitch_up.clone(),
            pitch_down: self.pitch_down.clone(),
            roll_left: self.roll_left.clone(),
            roll_right: self.roll_right.clone(),
        }
    }
}

impl PartialEq for KeyboardBindings {
    fn eq(&self, other: &KeyboardBindings) -> (same: bool) {
        self.move_forward == other.move_forward
            && self.move_backward == other.move_backward
            && self.move_left == other.move_left
            && self.move_right == other.move_right
            && self.move_up == other.move_up
            && self.move_down == other.move_down
            && self.yaw_left == other.yaw_left
            && self.yaw_right == other.yaw_right
            && self.pitch_up == other.pitch_up
            && self.pitch_down == other.pitch_down
            && self.roll_left == other.roll_left
            && self.roll_right == other.roll_right
    }
}

impl vstd::std_specs::cmp::PartialEqSpecImpl for KeyboardBindings {
    open spec fn obeys_eq_spec() -> bool {
        true
    }

    open spec fn eq_spec(&self, other: &KeyboardBindings) -> bool {
        self@ == other@
    }
}

impl Eq for KeyboardBindings {

}

/// The gamepad controls that move the drone: an analog source for each pair
/// of axes, a button index for each single motion.
#[derive(Clone, Copy, Debug, PartialEq, Eq, Structural)]
pub struct GamepadBindings {
    pub move_horizontal: ControlSource,
    pub move_up: u16,
    pub move_down: u16,
    pub pitch_yaw: ControlSource,
    pub roll_left: u16,
    pub roll_right: u16,
}

impl View for GamepadBindings {
    type V = GamepadBindings;

    open spec fn view(&self) -> GamepadBindings {
        *self
    }
}

/// All settings of the client: the drone's address, the ports of its video
/// stream and of its control channel, and both binding schemes.
#[derive(Debug)]
pub struct Config {
    pub ip: String,
    pub stream_port: u16,
    pub control_port: u16,
    pub keyboard: KeyboardBindings,
    pub gamepad: GamepadBindings,
}

/// The settings as a mathematical value.
pub ghost struct ConfigView {
    pub ip: Seq<char>,
    pub stream_port: u16,
    pub control_port: u16,
    pub keyboard: KeyboardBindingsView,
    pub gamepad: GamepadBindings,
}

impl View for Config {
    type V = ConfigView;

    open spec fn view(&self) -> ConfigView {
        ConfigView {
            ip: self.ip@,
            stream_port: self.stream_port,
            control_port: self.control_port,
            keyboard: self.keyboard@,
            gamepad: self.gamepad,
        }
    }
}

impl Clone for Config {
    fn clone(&self) -> (copy: Config)
        ensures
            copy@ == self@,
    {
        Config {
            ip: self.ip.clone(),
            stream_port: self.stream_port,
            control_port: self.control_port,
            keyboard: self.keyboard.clone(),
            gamepad: self.gamepad,
        }
    }
}

impl PartialEq for Config {
    fn eq(&self, other: &Config) -> (same: bool) {
        self.ip == other.ip
            && self.stream_port == other.stream_port
            && self.control_port == other.control_port
            && self.keyboard == other.keyboard
            && self.gamepad == other.gamepad
    }
}

impl vstd::std_specs::cmp::PartialEqSpecImpl for Config {
    open spec fn obeys_eq_spec() -> bool {
        true
    }

    open spec fn eq_spec(&self, other: &Config) -> bool {
        self@ == other@
    }
}

impl Eq for Config {

}

/// The key bindings of a fresh install.
pub open spec fn default_keyboard() -> KeyboardBindingsView {
    KeyboardBindingsView {
        move_forward: "W"@,
        move_backward: "S"@,
        move_left: "A"@,
        move_right: "D"@,
        move_up: "Space"@,
        move_down: "LShift"@,
        yaw_left: "J"@,
        yaw_right: "L"@,
        pitch_up: "I"@,
        pitch_down: "K"@,
        roll_left: "Q"@,
        roll_right: "E"@,
    }
}

/// The gamepad bindings of a fresh install.
pub open spec fn default_gamepad() -> GamepadBindings {
    GamepadBindings {
        move_horizontal: ControlSource::LeftStick,
        move_up: 9,
        move_down: 10,
        pitch_yaw: ControlSource::RightStick,
        roll_left: 7,
        roll_right: 8,
    }
}

/// The settings of a fresh install.
pub open spec fn default_config() -> ConfigView {
    ConfigView {
        ip: "10.10.10.10"@,
        stream_port: 8889,
        control_port: 5000,
        keyboard: default_keyboard(),
        gamepad: default_gamepad(),
    }
}

impl Default for Config {
    /// The settings of a fresh install: the same value at every call.
    fn default() -> (config: Config)
        ensures
            config@ == default_config(),
    {
        Config {
            ip: "10.10.10.10".to_string(),
            stream_port: 8889,
            control_port: 5000,
            keyboard: KeyboardBindings {
                move_forward: "W".to_string(),
                move_backward: "S".to_string(),
                move_left: "A".to_string(),
                move_right: "D".to_string(),
                move_up: "Space".to_string(),
                move_down: "LShift".to_string(),
                pitch_up: "I".to_string(),
                pitch_down: "K".to_string(),
                yaw_left: "J".to_string(),
                yaw_right: "L".to_string(),
                roll_left: "Q".to_string(),
                roll_right: "E".to_string(),
            },
            gamepad: GamepadBindings {
                move_horizontal: ControlSource::LeftStick,
                move_up: 9,
                move_down: 10,
                pitch_yaw: ControlSource::RightStick,
                roll_left: 7,
                roll_right: 8,
            },
        }
    }
}

} // verus!
