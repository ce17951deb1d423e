//! Writing settings as a document and reading them back.

use crate::config::{
    Config, ConfigView, ControlSource, GamepadBindings, KeyboardBindings, KeyboardBindingsView,
};
use crate::error::{outcome, SchemaError, SchemaErrorKind, SchemaErrorView};
use crate::laws::{
    lemma_config_round_trip, lemma_gamepad_round_trip, lemma_keyboard_round_trip,
    lemma_source_round_trip,
};
use crate::schema::{
    gamepad_member, index_member, index_of, keyboard_member, member, named_at, source_member,
    text_member, text_of,
};
use crate::value::{lemma_object_view, members_view, Shape, Value, ValueView};
use vstd::prelude::*;

verus! {

/// Looks up the one member named `key`.
fn lookup<'a>(members: &'a Vec<(String, Value)>, key: &str) -> (found: Result<
    &'a Value,
    SchemaErrorKind,
>)
    ensures
        match found {
            Ok(value) => member(members_view(*members), key@) == Ok::<ValueView, SchemaErrorKind>(
                value@,
            ),
            Err(kind) => member(members_view(*members), key@) == Err::<ValueView, SchemaErrorKind>(
                kind,
            ),
        },
{
    let name = key.to_owned();
    let ghost all = members_view(*members);
    let mut at: Option<usize> = None;
    let mut i: usize = 0;
    while i < members.len()
        invariant
            i <= members.len(),
            name@ == key@,
            all == members_view(*members),
            at is None ==> forall|j: int| 0 <= j < i ==> !named_at(all, key@, j),
            at matches Some(k) ==> k < i && named_at(all, key@, k as int) && forall|j: int|
                0 <= j < i && j != k ==> !named_at(all, key@, j),
        decreases members.len() - i,
    {
        if members[i].0 == name {
            if at.is_some() {
                assert(named_at(all, key@, i as int) && named_at(all, key@, at.unwrap() as int));
                return Err(SchemaErrorKind::Repeated);
            }
            at = Some(i);
        }
        i += 1;
    }
    match at {
        Some(k) => {
            assert(named_at(all, key@, k as int));
            Ok(&members[k].1)
        },
        None => Err(SchemaErrorKind::Missing),
    }
}

/// Reads a key name: any text.
pub fn read_text(value: &Value) -> (read: Result<String, SchemaError>)
    ensures
        outcome(read) == text_of(value@),
{
    match value {
        Value::Text(text) => Ok(text.clone()),
        _ => Err(
            SchemaError::here(
                SchemaErrorKind::Mistyped { expected: Shape::Text, found: value.shape() },
            ),
        ),
    }
}

/// Reads a port or a button index: a number from 0 to 65535.
pub fn read_index(value: &Value) -> (read: Result<u16, SchemaError>)
    ensures
        outcome(read) == index_of(value@),
        value@ matches ValueView::Number(n) ==> (read is Ok <==> 0 <= n <= 65535),
{
    match value {
        Value::Number(n) => if 0 <= *n && *n <= 65535 {
            Ok(*n as u16)
        } else {
            Err(SchemaError::here(SchemaErrorKind::OutOfRange))
        },
        _ => Err(
            SchemaError::here(
                SchemaErrorKind::Mistyped { expected: Shape::Number, found: value.shape() },
            ),
        ),
    }
}

impl ControlSource {
    /// The token that stands for this source in a document.
    pub fn token(self) -> (token: &'static str)
        ensures
            token@ == self.token_view(),
    {
        match self {
            ControlSource::LeftStick => "leftStick",
            ControlSource::RightStick => "rightStick",
            ControlSource::DPad => "dPad",
            ControlSource::FaceButtons => "faceButtons",
        }
    }

    /// The source that `token` stands for, if it is one of the four tokens.
    pub fn from_token(token: &str) -> (source: Option<ControlSource>)
        ensures
            source == ControlSource::of_token(token@),
    {
        let token = token.to_owned();
        if token == "leftStick".to_owned() {
            Some(ControlSource::LeftStick)
        } else if token == "rightStick".to_owned() {
            Some(ControlSource::RightStick)
        } else if token == "dPad".to_owned() {
            Some(ControlSource::DPad)
        } else if token == "faceButtons".to_owned() {
            Some(ControlSource::FaceButtons)
        } else {
            None
        }
    }

    /// Writes this source as a document: its token.
    pub fn serialize(&self) -> (value: Value)
        ensures
            value@ == self.encode(),
            ControlSource::decode(value@) == Ok::<ControlSource, SchemaErrorView>(*self),
    {
        proof {
            lemma_source_round_trip(*self);
        }
        Value::Text(self.token().to_owned())
    }

    /// Reads a source from a document: a text that is one of the four
    /// tokens.
    pub fn deserialize(value: &Value) -> (read: Result<ControlSource, SchemaError>)
        ensures
            outcome(read) == ControlSource::decode(value@),
    {
        match value {
            Value::Text(token) => match ControlSource::from_token(token.as_str()) {
                Some(source) => Ok(source),
                None => Err(SchemaError::here(SchemaErrorKind::UnknownToken)),
            },
            _ => Err(
                SchemaError::here(
                    SchemaErrorKind::Mistyped { expected: Shape::Text, found: value.shape() },
                ),
            ),
        }
    }
}

/// The error of looking up the member `key`.
fn unavailable(key: &str, kind: SchemaErrorKind) -> (error: SchemaError)
    ensures
        error@ == crate::schema::unavailable(key@, kind),
{
    SchemaError { kind, path: key.to_owned() }
}

/// Reads the key name held by the member `key`.
fn text_at(members: &Vec<(String, Value)>, key: &str) -> (read: Result<String, SchemaError>)
    ensures
        outcome(read) == text_member(members_view(*members), key@),
{
    match lookup(members, key) {
        Ok(value) => match read_text(value) {
            Ok(text) => Ok(text),
            Err(error) => Err(error.under(key)),
        },
        Err(kind) => Err(unavailable(key, kind)),
    }
}

/// Reads the port or button index held by the member `key`.
fn index_at(members: &Vec<(String, Value)>, key: &str) -> (read: Result<u16, SchemaError>)
    ensures
        outcome(read) == index_member(members_view(*members), key@),
{
    match lookup(members, key) {
        Ok(value) => match read_index(value) {
            Ok(index) => Ok(index),
            Err(error) => Err(error.under(key)),
        },
        Err(kind) => Err(unavailable(key, kind)),
    }
}

/// Reads the control source held by the member `key`.
fn source_at(members: &Vec<(String, Value)>, key: &str) -> (read: Result<
    ControlSource,
    SchemaError,
>)
    ensures
        outcome(read) == source_member(members_view(*members), key@),
{
    match lookup(members, key) {
        Ok(value) => match ControlSource::deserialize(value) {
            Ok(source) => Ok(source),
            Err(error) => Err(error.under(key)),
        },
        Err(kind) => Err(unavailable(key, kind)),
    }
}

impl KeyboardBindings {
    /// Writes these bindings as a document: an object with one member per
    /// motion, in the order of the fields.
    pub fn serialize(&self) -> (value: Value)
        ensures
            value@ == self@.encode(),
            KeyboardBindingsView::decode(value@) == Ok::<KeyboardBindingsView, SchemaErrorView>(
                self@,
            ),
    {
        let mut members: Vec<(String, Value)> = Vec::new();
        members.push(("moveForward".to_string(), Value::Text(self.move_forward.clone())));
        members.push(("moveBackward".to_string(), Value::Text(self.move_backward.clone())));
        members.push(("moveLeft".to_string(), Value::Text(self.move_left.clone())));
        members.push(("moveRight".to_string(), Value::Text(self.move_right.clone())));
        members.push(("moveUp".to_string(), Value::Text(self.move_up.clone())));
        members.push(("moveDown".to_string(), Value::Text(self.move_down.clone())));
        members.push(("yawLeft".to_string(), Value::Text(self.yaw_left.clone())));
        members.push(("yawRight".to_string(), Value::Text(self.yaw_right.clone())));
        members.push(("pitchUp".to_string(), Value::Text(self.pitch_up.clone())));
        members.push(("pitchDown".to_string(), Value::Text(self.pitch_down.clone())));
        members.push(("rollLeft".to_string(), Value::Text(self.roll_left.clone())));
        members.push(("rollRight".to_string(), Value::Text(self.roll_right.clone())));
        proof {
            lemma_object_view(members);
            assert(members_view(members) =~= self@.encode()->Object_0);
            lemma_keyboard_round_trip(self@);
        }
        Value::Object(members)
    }

    /// Reads bindings from a document: an object that holds a key name for
    /// each of the twelve motions, and possibly other members, which are
    /// passed over.
    pub fn deserialize(value: &Value) -> (read: Result<KeyboardBindings, SchemaError>)
        ensures
            outcome(read) == KeyboardBindingsView::decode(value@),
    {
        match value {
            Value::Object(members) => {
                proof {
                    lemma_object_view(*members);
                }
                let move_forward = text_at(members, "moveForward")?;
                let move_backward = text_at(members, "moveBackward")?;
                let move_left = text_at(members, "moveLeft")?;
                let move_right = text_at(members, "moveRight")?;
                let move_up = text_at(members, "moveUp")?;
                let move_down = text_at(members, "moveDown")?;
                let yaw_left = text_at(members, "yawLeft")?;
                let yaw_right = text_at(members, "yawRight")?;
                let pitch_up = text_at(members, "pitchUp")?;
                let pitch_down = text_at(members, "pitchDown")?;
                let roll_left = text_at(members, "rollLeft")?;
                let roll_right = text_at(members, "rollRight")?;
                Ok(
                    KeyboardBindings {
                        move_forward,
                        move_backward,
                        move_left,
                        move_right,
                        move_up,
                        move_down,
                        yaw_left,
                        yaw_right,
                        pitch_up,
                        pitch_down,
                        roll_left,
                        roll_right,
                    },
                )
            },
            _ => Err(
                SchemaError::here(
                    SchemaErrorKind::Mistyped { expected: Shape::Object, found: value.shape() },
                ),
            ),
        }
    }
}

impl GamepadBindings {
    /// Writes these bindings as a document: an object with one member per
    /// control, in the order of the fields.
    pub fn serialize(&self) -> (value: Value)
        ensures
            value@ == self.encode(),
            GamepadBindings::decode(value@) == Ok::<GamepadBindings, SchemaErrorView>(*self),
    {
        let mut members: Vec<(String, Value)> = Vec::new();
        members.push(("moveHorizontal".to_string(), self.move_horizontal.serialize()));
        members.push(("moveUp".to_string(), Value::Number(self.move_up as i64)));
        members.push(("moveDown".to_string(), Value::Number(self.move_down as i64)));
        members.push(("pitchYaw".to_string(), self.pitch_yaw.serialize()));
        members.push(("rollLeft".to_string(), Value::Number(self.roll_left as i64)));
        members.push(("rollRight".to_string(), Value::Number(self.roll_right as i64)));
        proof {
            lemma_object_view(members);
            assert(members_view(members) =~= self.encode()->Object_0);
            lemma_gamepad_round_trip(*self);
        }
        Value::Object(members)
    }

    /// Reads bindings from a document: an object that holds a control source
    /// for each pair of axes and a button index for each single motion, and
    /// possibly other members, which are passed over.
    pub fn deserialize(value: &Value) -> (read: Result<GamepadBindings, SchemaError>)
        ensures
            outcome(read) == GamepadBindings::decode(value@),
    {
        match value {
            Value::Object(members) => {
                proof {
                    lemma_object_view(*members);
                }
                let move_horizontal = source_at(members, "moveHorizontal")?;
                let move_up = index_at(members, "moveUp")?;
                let move_down = index_at(members, "moveDown")?;
                let pitch_yaw = source_at(members, "pitchYaw")?;
                let roll_left = index_at(members, "rollLeft")?;
                let roll_right = index_at(members, "rollRight")?;
                Ok(
                    GamepadBindings {
                        move_horizontal,
                        move_up,
                        move_down,
                        pitch_yaw,
                        roll_left,
                        roll_right,
                    },
                )
            },
            _ => Err(
                SchemaError::here(
                    SchemaErrorKind::Mistyped { expected: Shape::Object, found: value.shape() },
                ),
            ),
        }
    }
}

/// Reads the key bindings held by the member `key`.
fn keyboard_at(members: &Vec<(String, Value)>, key: &str) -> (read: Result<
    KeyboardBindings,
    SchemaError,
>)
    ensures
        outcome(read) == keyboard_member(members_view(*members), key@),
{
    match lookup(members, key) {
        Ok(value) => match KeyboardBindings::deserialize(value) {
            Ok(bindings) => Ok(bindings),
            Err(error) => Err(error.under(key)),
        },
        Err(kind) => Err(unavailable(key, kind)),
    }
}

/// Reads the gamepad bindings held by the member `key`.
fn gamepad_at(members: &Vec<(String, Value)>, key: &str) -> (read: Result<
    GamepadBindings,
    SchemaError,
>)
    ensures
        outcome(read) == gamepad_member(members_view(*members), key@),
{
    match lookup(members, key) {
        Ok(value) => match GamepadBindings::deserialize(value) {
            Ok(bindings) => Ok(bindings),
            Err(error) => Err(error.under(key)),
        },
        Err(kind) => Err(unavailable(key, kind)),
    }
}

impl Config {
    /// Writes these settings as a document: an object with one member per
    /// field, in the order of the fields.
    pub fn serialize(&self) -> (value: Value)
        ensures
            value@ == self@.encode(),
            ConfigView::decode(value@) == Ok::<ConfigView, SchemaErrorView>(self@),
    {
        let mut members: Vec<(String, Value)> = Vec::new();
        members.push(("ip".to_string(), Value::Text(self.ip.clone())));
        members.push(("streamPort".to_string(), Value::Number(self.stream_port as i64)));
        members.push(("controlPort".to_string(), Value::Number(self.control_port as i64)));
        members.push(("keyboard".to_string(), self.keyboard.serialize()));
        members.push(("gamepad".to_string(), self.gamepad.serialize()));
        proof {
            lemma_object_view(members);
            assert(members_view(members) =~= self@.encode()->Object_0);
            lemma_config_round_trip(self@);
        }
        Value::Object(members)
    }

    /// Reads settings from a document: an object that holds the address, both
    /// ports and both binding schemes, and possibly other members, which are
    /// passed over. A document that does not match is refused; nothing is
    /// filled in for it.
    pub fn deserialize(value: &Value) -> (read: Result<Config, SchemaError>)
        ensures
            outcome(read) == ConfigView::decode(value@),
    {
        match value {
            Value::Object(members) => {
                proof {
                    lemma_object_view(*members);
                }
                let ip = text_at(members, "ip")?;
                let stream_port = index_at(members, "streamPort")?;
                let control_port = index_at(members, "controlPort")?;
                let keyboard = keyboard_at(members, "keyboard")?;
                let gamepad = gamepad_at(members, "gamepad")?;
                Ok(Config { ip, stream_port, control_port, keyboard, gamepad })
            },
            _ => Err(
                SchemaError::here(
                    SchemaErrorKind::Mistyped { expected: Shape::Object, found: value.shape() },
                ),
            ),
        }
    }
}

} // verus!
