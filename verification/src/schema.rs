//! The schema: which document stands for which settings.
//!
//! An object stands for a struct, with one member per field, named in lower
//! camel case; a number between 0 and 65535 for a port or a button index; a
//! text for a key name; one of four fixed tokens for a control source.
//! Members that the schema does not name are passed over.

use crate::config::{ConfigView, ControlSource, GamepadBindings, KeyboardBindingsView};
use crate::error::{SchemaErrorKind, SchemaErrorView};
use crate::value::{Shape, ValueView};
use vstd::prelude::*;

verus! {

/// The members of an object: name and value, in the document's order.
pub type Members = Seq<(Seq<char>, ValueView)>;

/// Whether the member at position `i` of `members` is named `key`.
pub open spec fn named_at(members: Members, key: Seq<char>, i: int) -> bool {
    0 <= i < members.len() && members[i].0 == key
}

/// The value of the one member named `key`; `Missing` where there is none,
/// `Repeated` where there are several.
pub open spec fn member(members: Members, key: Seq<char>) -> Result<ValueView, SchemaErrorKind> {
    if forall|i: int| !#[trigger] named_at(members, key, i) {
        Err(SchemaErrorKind::Missing)
    } else if exists|i: int, j: int|
        i != j && #[trigger] named_at(members, key, i) && #[trigger] named_at(members, key, j) {
        Err(SchemaErrorKind::Repeated)
    } else {
        Ok(members[choose|i: int| named_at(members, key, i)].1)
    }
}

/// The names of the members of an object, in the document's order; none for
/// a value of another shape.
pub open spec fn member_names(value: ValueView) -> Seq<Seq<char>> {
    match value {
        ValueView::Object(members) => members.map_values(|m: (Seq<char>, ValueView)| m.0),
        _ => Seq::empty(),
    }
}

/// The error of a value that has the shape `found` where the schema asks for
/// `expected`.
pub open spec fn mistyped(expected: Shape, found: Shape) -> SchemaErrorView {
    SchemaErrorView::here(SchemaErrorKind::Mistyped { expected, found })
}

/// What was read from the member `key` of an object, seen from that object.
pub open spec fn located<T>(key: Seq<char>, read: Result<T, SchemaErrorView>) -> Result<
    T,
    SchemaErrorView,
> {
    match read {
        Ok(value) => Ok(value),
        Err(error) => Err(error.under(key)),
    }
}

/// The error of looking up the member `key`.
pub open spec fn unavailable(key: Seq<char>, kind: SchemaErrorKind) -> SchemaErrorView {
    SchemaErrorView { kind, path: key }
}

/// The key name that `value` stands for: any text.
pub open spec fn text_of(value: ValueView) -> Result<Seq<char>, SchemaErrorView> {
    match value {
        ValueView::Text(text) => Ok(text),
        _ => Err(mistyped(Shape::Text, value.shape())),
    }
}

/// The port or button index that `value` stands for: a number from 0 to
/// 65535.
pub open spec fn index_of(value: ValueView) -> Result<u16, SchemaErrorView> {
    match value {
        ValueView::Number(n) => if 0 <= n <= 65535 {
            Ok(n as u16)
        } else {
            Err(SchemaErrorView::here(SchemaErrorKind::OutOfRange))
        },
        _ => Err(mistyped(Shape::Number, value.shape())),
    }
}

impl ControlSource {
    /// The token that stands for this source in a document.
    pub open spec fn token_view(self) -> Seq<char> {
        match self {
            ControlSource::LeftStick => "leftStick"@,
            ControlSource::RightStick => "rightStick"@,
            ControlSource::DPad => "dPad"@,
            ControlSource::FaceButtons => "faceButtons"@,
        }
    }

    /// The source that `token` stands for, if any.
    pub open spec fn of_token(token: Seq<char>) -> Option<ControlSource> {
        if token == "leftStick"@ {
            Some(ControlSource::LeftStick)
        } else if token == "rightStick"@ {
            Some(ControlSource::RightStick)
        } else if token == "dPad"@ {
            Some(ControlSource::DPad)
        } else if token == "faceButtons"@ {
            Some(ControlSource::FaceButtons)
        } else {
            None
        }
    }

    /// The document that stands for this source.
    pub open spec fn encode(self) -> ValueView {
        ValueView::Text(self.token_view())
    }

    /// The source that `value` stands for: a text that is one of the four
    /// tokens.
    pub open spec fn decode(value: ValueView) -> Result<ControlSource, SchemaErrorView> {
        match value {
            ValueView::Text(token) => match ControlSource::of_token(token) {
                Some(source) => Ok(source),
                None => Err(SchemaErrorView::here(SchemaErrorKind::UnknownToken)),
            },
            _ => Err(mistyped(Shape::Text, value.shape())),
        }
    }
}

/// The key name held by the member `key`.
pub open spec fn text_member(members: Members, key: Seq<char>) -> Result<
    Seq<char>,
    SchemaErrorView,
> {
    match member(members, key) {
        Ok(value) => located(key, text_of(value)),
        Err(kind) => Err(unavailable(key, kind)),
    }
}

/// The port or button index held by the member `key`.
pub open spec fn index_member(members: Members, key: Seq<char>) -> Result<u16, SchemaErrorView> {
    match member(members, key) {
        Ok(value) => located(key, index_of(value)),
        Err(kind) => Err(unavailable(key, kind)),
    }
}

/// The control source held by the member `key`.
pub open spec fn source_member(members: Members, key: Seq<char>) -> Result<
    ControlSource,
    SchemaErrorView,
> {
    match member(members, key) {
        Ok(value) => located(key, ControlSource::decode(value)),
        Err(kind) => Err(unavailable(key, kind)),
    }
}

impl KeyboardBindingsView {
    /// The names of the members that stand for the fields, in their order.
    pub open spec fn names() -> Seq<Seq<char>> {
        seq![
            "moveForward"@,
            "moveBackward"@,
            "moveLeft"@,
            "moveRight"@,
            "moveUp"@,
            "moveDown"@,
            "yawLeft"@,
            "yawRight"@,
            "pitchUp"@,
            "pitchDown"@,
            "rollLeft"@,
            "rollRight"@,
        ]
    }

    /// The document that stands for these bindings.
    pub open spec fn encode(self) -> ValueView {
        ValueView::Object(
            seq![
                ("moveForward"@, ValueView::Text(self.move_forward)),
                ("moveBackward"@, ValueView::Text(self.move_backward)),
                ("moveLeft"@, ValueView::Text(self.move_left)),
                ("moveRight"@, ValueView::Text(self.move_right)),
                ("moveUp"@, ValueView::Text(self.move_up)),
                ("moveDown"@, ValueView::Text(self.move_down)),
                ("yawLeft"@, ValueView::Text(self.yaw_left)),
                ("yawRight"@, ValueView::Text(self.yaw_right)),
                ("pitchUp"@, ValueView::Text(self.pitch_up)),
                ("pitchDown"@, ValueView::Text(self.pitch_down)),
                ("rollLeft"@, ValueView::Text(self.roll_left)),
                ("rollRight"@, ValueView::Text(self.roll_right)),
            ],
        )
    }

    /// The bindings that `value` stands for: an object that holds a key name
    /// for each of the twelve motions. Of several faults, the one of the
    /// member that the schema lists first is reported.
    pub open spec fn decode(value: ValueView) -> Result<KeyboardBindingsView, SchemaErrorView> {
        match value {
            ValueView::Object(members) => {
                let move_forward = text_member(members, "moveForward"@);
                let move_backward = text_member(members, "moveBackward"@);
                let move_left = text_member(members, "moveLeft"@);
                let move_right = text_member(members, "moveRight"@);
                let move_up = text_member(members, "moveUp"@);
                let move_down = text_member(members, "moveDown"@);
                let yaw_left = text_member(members, "yawLeft"@);
                let yaw_right = text_member(members, "yawRight"@);
                let pitch_up = text_member(members, "pitchUp"@);
                let pitch_down = text_member(members, "pitchDown"@);
                let roll_left = text_member(members, "rollLeft"@);
                let roll_right = text_member(members, "rollRight"@);
                if move_forward is Err {
                    Err(move_forward->Err_0)
                } else if move_backward is Err {
                    Err(move_backward->Err_0)
                } else if move_left is Err {
                    Err(move_left->Err_0)
                } else if move_right is Err {
                    Err(move_right->Err_0)
                } else if move_up is Err {
                    Err(move_up->Err_0)
                } else if move_down is Err {
                    Err(move_down->Err_0)
                } else if yaw_left is Err {
                    Err(yaw_left->Err_0)
                } else if yaw_right is Err {
                    Err(yaw_right->Err_0)
                } else if pitch_up is Err {
                    Err(pitch_up->Err_0)
                } else if pitch_down is Err {
                    Err(pitch_down->Err_0)
                } else if roll_left is Err {
                    Err(roll_left->Err_0)
                } else if roll_right is Err {
                    Err(roll_right->Err_0)
                } else {
                    Ok(
                        KeyboardBindingsView {
                            move_forward: move_forward->Ok_0,
                            move_backward: move_backward->Ok_0,
                            move_left: move_left->Ok_0,
                            move_right: move_right->Ok_0,
                            move_up: move_up->Ok_0,
                            move_down: move_down->Ok_0,
                            yaw_left: yaw_left->Ok_0,
                            yaw_right: yaw_right->Ok_0,
                            pitch_up: pitch_up->Ok_0,
                            pitch_down: pitch_down->Ok_0,
                            roll_left: roll_left->Ok_0,
                            roll_right: roll_right->Ok_0,
                        },
                    )
                }
            },
            _ => Err(mistyped(Shape::Object, value.shape())),
        }
    }
}

impl GamepadBindings {
    /// The names of the members that stand for the fields, in their order.
    pub open spec fn names() -> Seq<Seq<char>> {
        seq!["moveHorizontal"@, "moveUp"@, "moveDown"@, "pitchYaw"@, "rollLeft"@, "rollRight"@]
    }

    /// The document that stands for these bindings.
    pub open spec fn encode(self) -> ValueView {
        ValueView::Object(
            seq![
                ("moveHorizontal"@, self.move_horizontal.encode()),
                ("moveUp"@, ValueView::Number(self.move_up as int)),
                ("moveDown"@, ValueView::Number(self.move_down as int)),
                ("pitchYaw"@, self.pitch_yaw.encode()),
                ("rollLeft"@, ValueView::Number(self.roll_left as int)),
                ("rollRight"@, ValueView::Number(self.roll_right as int)),
            ],
        )
    }

    /// The bindings that `value` stands for: an object that holds a control
    /// source for each pair of axes and a button index for each single
    /// motion. Of several faults, the one of the member that the schema lists
    /// first is reported.
    pub open spec fn decode(value: ValueView) -> Result<GamepadBindings, SchemaErrorView> {
        match value {
            ValueView::Object(members) => {
                let move_horizontal = source_member(members, "moveHorizontal"@);
                let move_up = index_member(members, "moveUp"@);
                let move_down = index_member(members, "moveDown"@);
                let pitch_yaw = source_member(members, "pitchYaw"@);
                let roll_left = index_member(members, "rollLeft"@);
                let roll_right = index_member(members, "rollRight"@);
                if move_horizontal is Err {
                    Err(move_horizontal->Err_0)
                } else if move_up is Err {
                    Err(move_up->Err_0)
                } else if move_down is Err {
                    Err(move_down->Err_0)
                } else if pitch_yaw is Err {
                    Err(pitch_yaw->Err_0)
                } else if roll_left is Err {
                    Err(roll_left->Err_0)
                } else if roll_right is Err {
                    Err(roll_right->Err_0)
                } else {
                    Ok(
                        GamepadBindings {
                            move_horizontal: move_horizontal->Ok_0,
                            move_up: move_up->Ok_0,
                            move_down: move_down->Ok_0,
                            pitch_yaw: pitch_yaw->Ok_0,
                            roll_left: roll_left->Ok_0,
                            roll_right: roll_right->Ok_0,
                        },
                    )
                }
            },
            _ => Err(mistyped(Shape::Object, value.shape())),
        }
    }
}

/// The key bindings held by the member `key`.
pub open spec fn keyboard_member(members: Members, key: Seq<char>) -> Result<
    KeyboardBindingsView,
    SchemaErrorView,
> {
    match member(members, key) {
        Ok(value) => located(key, KeyboardBindingsView::decode(value)),
        Err(kind) => Err(unavailable(key, kind)),
    }
}

/// The gamepad bindings held by the member `key`.
pub open spec fn gamepad_member(members: Members, key: Seq<char>) -> Result<
    GamepadBindings,
    SchemaErrorView,
> {
    match member(members, key) {
        Ok(value) => located(key, GamepadBindings::decode(value)),
        Err(kind) => Err(unavailable(key, kind)),
    }
}

impl ConfigView {
    /// The names of the members that stand for the fields, in their order.
    pub open spec fn names() -> Seq<Seq<char>> {
        seq!["ip"@, "streamPort"@, "controlPort"@, "keyboard"@, "gamepad"@]
    }

    /// The document that stands for these settings.
    pub open spec fn encode(self) -> ValueView {
        ValueView::Object(
            seq![
                ("ip"@, ValueView::Text(self.ip)),
                ("streamPort"@, ValueView::Number(self.stream_port as int)),
                ("controlPort"@, ValueView::Number(self.control_port as int)),
                ("keyboard"@, self.keyboard.encode()),
                ("gamepad"@, self.gamepad.encode()),
            ],
        )
    }

    /// The settings that `value` stands for: an object that holds the
    /// address, both ports and both binding schemes. Of several faults, the
    /// one of the member that the schema lists first is reported.
    pub open spec fn decode(value: ValueView) -> Result<ConfigView, SchemaErrorView> {
        match value {
            ValueView::Object(members) => {
                let ip = text_member(members, "ip"@);
                let stream_port = index_member(members, "streamPort"@);
                let control_port = index_member(members, "controlPort"@);
                let keyboard = keyboard_member(members, "keyboard"@);
                let gamepad = gamepad_member(members, "gamepad"@);
                if ip is Err {
                    Err(ip->Err_0)
                } else if stream_port is Err {
                    Err(stream_port->Err_0)
                } else if control_port is Err {
                    Err(control_port->Err_0)
                } else if keyboard is Err {
                    Err(keyboard->Err_0)
                } else if gamepad is Err {
                    Err(gamepad->Err_0)
                } else {
                    Ok(
                        ConfigView {
                            ip: ip->Ok_0,
                            stream_port: stream_port->Ok_0,
                            control_port: control_port->Ok_0,
                            keyboard: keyboard->Ok_0,
                            gamepad: gamepad->Ok_0,
                        },
                    )
                }
            },
            _ => Err(mistyped(Shape::Object, value.shape())),
        }
    }
}

} // verus!
