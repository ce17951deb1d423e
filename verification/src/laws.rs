//! What holds of the schema as a whole.

use crate::config::{ConfigView, ControlSource, GamepadBindings, KeyboardBindingsView};
use crate::error::{SchemaErrorKind, SchemaErrorView};
use crate::schema::{index_member, index_of, member, member_names, named_at, Members};
use crate::value::ValueView;
use vstd::prelude::*;

verus! {

/// A name that only one member bears leads to that member's value.
pub proof fn lemma_member_single(members: Members, key: Seq<char>, at: int)
    requires
        named_at(members, key, at),
        forall|i: int| #[trigger] named_at(members, key, i) ==> i == at,
    ensures
        member(members, key) == Ok::<ValueView, SchemaErrorKind>(members[at].1),
{
}

/// Enough of a name to tell the names of one object apart: its length, its
/// first character and its fifth.
spec fn mark(name: Seq<char>) -> (nat, char, char) {
    (name.len(), name[0], name[4])
}

/// The marks of the names of key bindings: no two are alike.
proof fn lemma_keyboard_marks()
    ensures
        mark("moveForward"@) == (11nat, 'm', 'F'),
        mark("moveBackward"@) == (12nat, 'm', 'B'),
        mark("moveLeft"@) == (8nat, 'm', 'L'),
        mark("moveRight"@) == (9nat, 'm', 'R'),
        mark("moveUp"@) == (6nat, 'm', 'U'),
        mark("moveDown"@) == (8nat, 'm', 'D'),
        mark("yawLeft"@) == (7nat, 'y', 'e'),
        mark("yawRight"@) == (8nat, 'y', 'i'),
        mark("pitchUp"@) == (7nat, 'p', 'h'),
        mark("pitchDown"@) == (9nat, 'p', 'h'),
        mark("rollLeft"@) == (8nat, 'r', 'L'),
        mark("rollRight"@) == (9nat, 'r', 'R'),
{
    reveal_strlit("moveForward");
    reveal_strlit("moveBackward");
    reveal_strlit("moveLeft");
    reveal_strlit("moveRight");
    reveal_strlit("moveUp");
    reveal_strlit("moveDown");
    reveal_strlit("yawLeft");
    reveal_strlit("yawRight");
    reveal_strlit("pitchUp");
    reveal_strlit("pitchDown");
    reveal_strlit("rollLeft");
    reveal_strlit("rollRight");
}

/// The marks of the names of gamepad bindings: no two are alike.
proof fn lemma_gamepad_marks()
    ensures
        mark("moveHorizontal"@) == (14nat, 'm', 'H'),
        mark("moveUp"@) == (6nat, 'm', 'U'),
        mark("moveDown"@) == (8nat, 'm', 'D'),
        mark("pitchYaw"@) == (8nat, 'p', 'h'),
        mark("rollLeft"@) == (8nat, 'r', 'L'),
        mark("rollRight"@) == (9nat, 'r', 'R'),
{
    reveal_strlit("moveHorizontal");
    reveal_strlit("moveUp");
    reveal_strlit("moveDown");
    reveal_strlit("pitchYaw");
    reveal_strlit("rollLeft");
    reveal_strlit("rollRight");
}

/// The lengths of the names of settings: no two are alike.
proof fn lemma_config_lengths()
    ensures
        "ip"@.len() == 2,
        "streamPort"@.len() == 10,
        "controlPort"@.len() == 11,
        "keyboard"@.len() == 8,
        "gamepad"@.len() == 7,
{
    reveal_strlit("ip");
    reveal_strlit("streamPort");
    reveal_strlit("controlPort");
    reveal_strlit("keyboard");
    reveal_strlit("gamepad");
}

/// The lengths of the four tokens: no two are alike.
proof fn lemma_token_lengths()
    ensures
        "leftStick"@.len() == 9,
        "rightStick"@.len() == 10,
        "dPad"@.len() == 4,
        "faceButtons"@.len() == 11,
{
    reveal_strlit("leftStick");
    reveal_strlit("rightStick");
    reveal_strlit("dPad");
    reveal_strlit("faceButtons");
}

/// A text stands for a control source exactly if it is that source's token:
/// the four tokens differ, and no other text is read as a source.
pub proof fn lemma_source_tokens(token: Seq<char>, source: ControlSource)
    ensures
        ControlSource::of_token(token) == Some(source) <==> token == source.token_view(),
{
    lemma_token_lengths();
}

/// Reading the document that stands for a control source gives it back.
pub proof fn lemma_source_round_trip(source: ControlSource)
    ensures
        ControlSource::decode(source.encode()) == Ok::<ControlSource, SchemaErrorView>(source),
{
    lemma_source_tokens(source.token_view(), source);
}

/// A number is read as a port or a button index exactly if it lies between
/// 0 and 65535, and then as itself.
pub proof fn lemma_index_bounds(n: int)
    ensures
        index_of(ValueView::Number(n)) is Ok <==> 0 <= n <= 65535,
        index_of(ValueView::Number(n)) matches Ok(index) ==> index == n,
{
}

/// Reading the document that stands for key bindings gives them back.
pub proof fn lemma_keyboard_round_trip(bindings: KeyboardBindingsView)
    ensures
        KeyboardBindingsView::decode(bindings.encode()) == Ok::<
            KeyboardBindingsView,
            SchemaErrorView,
        >(bindings),
{
    lemma_keyboard_marks();
    let members = bindings.encode()->Object_0;
    lemma_member_single(members, "moveForward"@, 0);
    lemma_member_single(members, "moveBackward"@, 1);
    lemma_member_single(members, "moveLeft"@, 2);
    lemma_member_single(members, "moveRight"@, 3);
    lemma_member_single(members, "moveUp"@, 4);
    lemma_member_single(members, "moveDown"@, 5);
    lemma_member_single(members, "yawLeft"@, 6);
    lemma_member_single(members, "yawRight"@, 7);
    lemma_member_single(members, "pitchUp"@, 8);
    lemma_member_single(members, "pitchDown"@, 9);
    lemma_member_single(members, "rollLeft"@, 10);
    lemma_member_single(members, "rollRight"@, 11);
}

/// Reading the document that stands for gamepad bindings gives them back.
pub proof fn lemma_gamepad_round_trip(bindings: GamepadBindings)
    ensures
        GamepadBindings::decode(bindings.encode()) == Ok::<GamepadBindings, SchemaErrorView>(
            bindings,
        ),
{
    lemma_gamepad_marks();
    lemma_source_round_trip(bindings.move_horizontal);
    lemma_source_round_trip(bindings.pitch_yaw);
    let members = bindings.encode()->Object_0;
    lemma_member_single(members, "moveHorizontal"@, 0);
    lemma_member_single(members, "moveUp"@, 1);
    lemma_member_single(members, "moveDown"@, 2);
    lemma_member_single(members, "pitchYaw"@, 3);
    lemma_member_single(members, "rollLeft"@, 4);
    lemma_member_single(members, "rollRight"@, 5);
}

/// An object that lists the five members of settings, each once, is read as
/// the settings that its members stand for.
proof fn lemma_config_assembled(
    config: ConfigView,
    keyboard: ValueView,
    gamepad: ValueView,
)
    requires
        KeyboardBindingsView::decode(keyboard) == Ok::<KeyboardBindingsView, SchemaErrorView>(
            config.keyboard,
        ),
        GamepadBindings::decode(gamepad) == Ok::<GamepadBindings, SchemaErrorView>(
            config.gamepad,
        ),
    ensures
        ConfigView::decode(
            ValueView::Object(
                seq![
                    ("ip"@, ValueView::Text(config.ip)),
                    ("streamPort"@, ValueView::Number(config.stream_port as int)),
                    ("controlPort"@, ValueView::Number(config.control_port as int)),
                    ("keyboard"@, keyboard),
                    ("gamepad"@, gamepad),
                ],
            ),
        ) == Ok::<ConfigView, SchemaErrorView>(config),
{
    lemma_config_lengths();
    let members = seq![
        ("ip"@, ValueView::Text(config.ip)),
        ("streamPort"@, ValueView::Number(config.stream_port as int)),
        ("controlPort"@, ValueView::Number(config.control_port as int)),
        ("keyboard"@, keyboard),
        ("gamepad"@, gamepad),
    ];
    lemma_member_single(members, "ip"@, 0);
    lemma_member_single(members, "streamPort"@, 1);
    lemma_member_single(members, "controlPort"@, 2);
    lemma_member_single(members, "keyboard"@, 3);
    lemma_member_single(members, "gamepad"@, 4);
}

/// Reading the document that stands for settings gives them back, whatever
/// the settings are.
pub proof fn lemma_config_round_trip(config: ConfigView)
    ensures
        ConfigView::decode(config.encode()) == Ok::<ConfigView, SchemaErrorView>(config),
{
    lemma_keyboard_round_trip(config.keyboard);
    lemma_gamepad_round_trip(config.gamepad);
    lemma_config_assembled(config, config.keyboard.encode(), config.gamepad.encode());
}

/// The document that stands for settings is an object whose members bear
/// the names of the fields, each once and in their order, and so are the
/// two objects that stand for its binding schemes.
pub proof fn lemma_member_names(config: ConfigView)
    ensures
        member_names(config.encode()) == ConfigView::names(),
        member_names(config.keyboard.encode()) == KeyboardBindingsView::names(),
        member_names(config.gamepad.encode()) == GamepadBindings::names(),
        member(config.encode()->Object_0, "keyboard"@) == Ok::<ValueView, SchemaErrorKind>(
            config.keyboard.encode(),
        ),
        member(config.encode()->Object_0, "gamepad"@) == Ok::<ValueView, SchemaErrorKind>(
            config.gamepad.encode(),
        ),
        ConfigView::names().no_duplicates(),
        KeyboardBindingsView::names().no_duplicates(),
        GamepadBindings::names().no_duplicates(),
{
    assert(member_names(config.encode()) =~= ConfigView::names());
    assert(member_names(config.keyboard.encode()) =~= KeyboardBindingsView::names());
    assert(member_names(config.gamepad.encode()) =~= GamepadBindings::names());
    lemma_config_lengths();
    lemma_keyboard_marks();
    lemma_gamepad_marks();
    let members = config.encode()->Object_0;
    lemma_member_single(members, "keyboard"@, 3);
    lemma_member_single(members, "gamepad"@, 4);
}

/// The member `key` is read as a port or a button index exactly if it is
/// there once and holds a number between 0 and 65535.
pub proof fn lemma_index_member_bounds(members: Members, key: Seq<char>)
    ensures
        index_member(members, key) is Ok <==> (member(members, key) matches Ok(
            ValueView::Number(n),
        ) && 0 <= n <= 65535),
{
}

/// Two objects give the same for a name if the members that bear it
/// correspond one to one, by `there` and back by `back`, and hold the same
/// values.
proof fn lemma_member_alike(
    a: Members,
    b: Members,
    key: Seq<char>,
    there: spec_fn(int) -> int,
    back: spec_fn(int) -> int,
)
    requires
        forall|i: int| #[trigger]
            named_at(a, key, i) ==> named_at(b, key, there(i)) && back(there(i)) == i && b[there(
                i,
            )].1 == a[i].1,
        forall|j: int| #[trigger]
            named_at(b, key, j) ==> named_at(a, key, back(j)) && there(back(j)) == j,
    ensures
        member(a, key) == member(b, key),
{
    if forall|i: int| !#[trigger] named_at(a, key, i) {
        assert forall|j: int| !#[trigger] named_at(b, key, j) by {
            if named_at(b, key, j) {
                assert(named_at(a, key, back(j)));
            }
        }
    } else if exists|i: int, j: int|
        i != j && #[trigger] named_at(a, key, i) && #[trigger] named_at(a, key, j) {
        let (i, j) = choose|i: int, j: int|
            i != j && #[trigger] named_at(a, key, i) && #[trigger] named_at(a, key, j);
        assert(named_at(b, key, there(i)) && named_at(b, key, there(j)));
        assert(there(i) != there(j));
    } else {
        let i = choose|i: int| named_at(a, key, i);
        assert(named_at(b, key, there(i)));
        assert forall|j: int, k: int|
            j != k && #[trigger] named_at(b, key, j) && #[trigger] named_at(b, key, k) implies false by {
            assert(named_at(a, key, back(j)) && named_at(a, key, back(k)));
        }
        let j = choose|j: int| named_at(b, key, j);
        assert(named_at(a, key, back(j)));
        assert(back(j) == i);
    }
}

/// A member of another name, wherever it is put in, does not change what a
/// lookup of `key` gives.
pub proof fn lemma_member_of_other_name(
    members: Members,
    at: int,
    name: Seq<char>,
    value: ValueView,
    key: Seq<char>,
)
    requires
        0 <= at <= members.len(),
        name != key,
    ensures
        member(members.insert(at, (name, value)), key) == member(members, key),
{
    let there = |i: int|
        if i < at {
            i
        } else {
            i + 1
        };
    let back = |j: int|
        if j < at {
            j
        } else {
            j - 1
        };
    lemma_member_alike(members, members.insert(at, (name, value)), key, there, back);
}

/// Where two members change places, a lookup gives what it gave before.
pub proof fn lemma_member_after_swap(members: Members, first: int, second: int, key: Seq<char>)
    requires
        0 <= first < members.len(),
        0 <= second < members.len(),
    ensures
        member(members.update(first, members[second]).update(second, members[first]), key)
            == member(members, key),
{
    let swap = |i: int|
        if i == first {
            second
        } else if i == second {
            first
        } else {
            i
        };
    lemma_member_alike(
        members,
        members.update(first, members[second]).update(second, members[first]),
        key,
        swap,
        swap,
    );
}

/// Key bindings are read from an object through lookups of the names of
/// their fields alone.
proof fn lemma_keyboard_by_members(a: Members, b: Members)
    requires
        forall|i: int|
            0 <= i < KeyboardBindingsView::names().len() ==> member(a, #[trigger] KeyboardBindingsView::names()[i]) == member(
                b,
                KeyboardBindingsView::names()[i],
            ),
    ensures
        KeyboardBindingsView::decode(ValueView::Object(a)) == KeyboardBindingsView::decode(ValueView::Object(b)),
{
    let names = KeyboardBindingsView::names();
    assert(member(a, names[0]) == member(b, names[0]));
    assert(member(a, names[1]) == member(b, names[1]));
    assert(member(a, names[2]) == member(b, names[2]));
    assert(member(a, names[3]) == member(b, names[3]));
    assert(member(a, names[4]) == member(b, names[4]));
    assert(member(a, names[5]) == member(b, names[5]));
    assert(member(a, names[6]) == member(b, names[6]));
    assert(member(a, names[7]) == member(b, names[7]));
    assert(member(a, names[8]) == member(b, names[8]));
    assert(member(a, names[9]) == member(b, names[9]));
    assert(member(a, names[10]) == member(b, names[10]));
    assert(member(a, names[11]) == member(b, names[11]));
}

/// A member whose name is not that of a field, wherever it is put in, does
/// not change what is read.
pub proof fn lemma_keyboard_passes_over(
    members: Members,
    at: int,
    name: Seq<char>,
    value: ValueView,
)
    requires
        0 <= at <= members.len(),
        !KeyboardBindingsView::names().contains(name),
    ensures
        KeyboardBindingsView::decode(ValueView::Object(members.insert(at, (name, value)))) == KeyboardBindingsView::decode(
            ValueView::Object(members),
        ),
{
    let names = KeyboardBindingsView::names();
    assert forall|i: int| 0 <= i < names.len() implies member(
        members.insert(at, (name, value)),
        #[trigger] names[i],
    ) == member(members, names[i]) by {
        assert(names.contains(names[i]));
        lemma_member_of_other_name(members, at, name, value, names[i]);
    }
    lemma_keyboard_by_members(members.insert(at, (name, value)), members);
}

/// Where two members change places, the same is read as before.
pub proof fn lemma_keyboard_in_any_order(members: Members, first: int, second: int)
    requires
        0 <= first < members.len(),
        0 <= second < members.len(),
    ensures
        KeyboardBindingsView::decode(
            ValueView::Object(
                members.update(first, members[second]).update(second, members[first]),
            ),
        ) == KeyboardBindingsView::decode(ValueView::Object(members)),
{
    let names = KeyboardBindingsView::names();
    let swapped = members.update(first, members[second]).update(second, members[first]);
    assert forall|i: int| 0 <= i < names.len() implies member(swapped, #[trigger] names[i])
        == member(members, names[i]) by {
        lemma_member_after_swap(members, first, second, names[i]);
    }
    lemma_keyboard_by_members(swapped, members);
}

/// Gamepad bindings are read from an object through lookups of the names of
/// their fields alone.
proof fn lemma_gamepad_by_members(a: Members, b: Members)
    requires
        forall|i: int|
            0 <= i < GamepadBindings::names().len() ==> member(a, #[trigger] GamepadBindings::names()[i]) == member(
                b,
                GamepadBindings::names()[i],
            ),
    ensures
        GamepadBindings::decode(ValueView::Object(a)) == GamepadBindings::decode(ValueView::Object(b)),
{
    let names = GamepadBindings::names();
    assert(member(a, names[0]) == member(b, names[0]));
    assert(member(a, names[1]) == member(b, names[1]));
    assert(member(a, names[2]) == member(b, names[2]));
    assert(member(a, names[3]) == member(b, names[3]));
    assert(member(a, names[4]) == member(b, names[4]));
    assert(member(a, names[5]) == member(b, names[5]));
}

/// A member whose name is not that of a field, wherever it is put in, does
/// not change what is read.
pub proof fn lemma_gamepad_passes_over(
    members: Members,
    at: int,
    name: Seq<char>,
    value: ValueView,
)
    requires
        0 <= at <= members.len(),
        !GamepadBindings::names().contains(name),
    ensures
        GamepadBindings::decode(ValueView::Object(members.insert(at, (name, value)))) == GamepadBindings::decode(
            ValueView::Object(members),
        ),
{
    let names = GamepadBindings::names();
    assert forall|i: int| 0 <= i < names.len() implies member(
        members.insert(at, (name, value)),
        #[trigger] names[i],
    ) == member(members, names[i]) by {
        assert(names.contains(names[i]));
        lemma_member_of_other_name(members, at, name, value, names[i]);
    }
    lemma_gamepad_by_members(members.insert(at, (name, value)), members);
}

/// Where two members change places, the same is read as before.
pub proof fn lemma_gamepad_in_any_order(members: Members, first: int, second: int)
    requires
        0 <= first < members.len(),
        0 <= second < members.len(),
    ensures
        GamepadBindings::decode(
            ValueView::Object(
                members.update(first, members[second]).update(second, members[first]),
            ),
        ) == GamepadBindings::decode(ValueView::Object(members)),
{
    let names = GamepadBindings::names();
    let swapped = members.update(first, members[second]).update(second, members[first]);
    assert forall|i: int| 0 <= i < names.len() implies member(swapped, #[trigger] names[i])
        == member(members, names[i]) by {
        lemma_member_after_swap(members, first, second, names[i]);
    }
    lemma_gamepad_by_members(swapped, members);
}

/// Settings are read from an object through lookups of the names of
/// their fields alone.
proof fn lemma_config_by_members(a: Members, b: Members)
    requires
        forall|i: int|
            0 <= i < ConfigView::names().len() ==> member(a, #[trigger] ConfigView::names()[i]) == member(
                b,
                ConfigView::names()[i],
            ),
    ensures
        ConfigView::decode(ValueView::Object(a)) == ConfigView::decode(ValueView::Object(b)),
{
    let names = ConfigView::names();
    assert(member(a, names[0]) == member(b, names[0]));
    assert(member(a, names[1]) == member(b, names[1]));
    assert(member(a, names[2]) == member(b, names[2]));
    assert(member(a, names[3]) == member(b, names[3]));
    assert(member(a, names[4]) == member(b, names[4]));
}

/// A member whose name is not that of a field, wherever it is put in, does
/// not change what is read.
pub proof fn lemma_config_passes_over(
    members: Members,
    at: int,
    name: Seq<char>,
    value: ValueView,
)
    requires
        0 <= at <= members.len(),
        !ConfigView::names().contains(name),
    ensures
        ConfigView::decode(ValueView::Object(members.insert(at, (name, value)))) == ConfigView::decode(
            ValueView::Object(members),
        ),
{
    let names = ConfigView::names();
    assert forall|i: int| 0 <= i < names.len() implies member(
        members.insert(at, (name, value)),
        #[trigger] names[i],
    ) == member(members, names[i]) by {
        assert(names.contains(names[i]));
        lemma_member_of_other_name(members, at, name, value, names[i]);
    }
    lemma_config_by_members(members.insert(at, (name, value)), members);
}

/// Where two members change places, the same is read as before.
pub proof fn lemma_config_in_any_order(members: Members, first: int, second: int)
    requires
        0 <= first < members.len(),
        0 <= second < members.len(),
    ensures
        ConfigView::decode(
            ValueView::Object(
                members.update(first, members[second]).update(second, members[first]),
            ),
        ) == ConfigView::decode(ValueView::Object(members)),
{
    let names = ConfigView::names();
    let swapped = members.update(first, members[second]).update(second, members[first]);
    assert forall|i: int| 0 <= i < names.len() implies member(swapped, #[trigger] names[i])
        == member(members, names[i]) by {
        lemma_member_after_swap(members, first, second, names[i]);
    }
    lemma_config_by_members(swapped, members);
}

} // verus!
