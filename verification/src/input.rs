use vstd::prelude::*;
use crate::text::{str_eq, first_char};
use vstd::utf8::encode_utf8;

verus! {

/// Represents an abstract input event received from the network.
#[derive(Debug, Clone)]
pub enum InputEvent {
    MouseMove { x: i32, y: i32 },
    MouseDown { button: String },
    MouseUp { button: String },
    MouseClick { button: String },
    MouseScroll { x: i32, y: i32 },
    KeyDown { key: String },
    KeyUp { key: String },
    TypeString { text: String },
}

/// A mouse button of the host.
#[derive(Debug, Clone, Copy, PartialEq, Eq, Structural)]
pub enum MouseButton {
    Left,
    Right,
    Middle,
}

/// A key of the host keyboard.
#[derive(Debug, Clone, Copy, PartialEq, Eq, Structural)]
pub enum Key {
    Return,
    Tab,
    Space,
    Backspace,
    Escape,
    Super,
    Shift,
    CapsLock,
    Alt,
    Control,
    /// The key that types this character.
    Layout(char),
}

/// One OS-level input injection.
#[derive(Debug, Clone, PartialEq, Eq)]
pub enum InputAction {
    MoveTo { x: i32, y: i32 },
    Press(MouseButton),
    Release(MouseButton),
    Click(MouseButton),
    ScrollX(i32),
    ScrollY(i32),
    KeyDown(Key),
    KeyUp(Key),
    Type(String),
}

/// The button that a button name selects: `"right"`, `"middle"`, anything else left.
pub open spec fn mouse_button_of(name: Seq<char>) -> MouseButton {
    if name == "right"@ {
        MouseButton::Right
    } else if name == "middle"@ {
        MouseButton::Middle
    } else {
        MouseButton::Left
    }
}

/// The key that a key name selects. Names of one byte (one ASCII character)
/// type that character; any other unknown name falls back to space.
pub open spec fn key_of(k: Seq<char>) -> Key {
    if k == "return"@ || k == "enter"@ {
        Key::Return
    } else if k == "tab"@ {
        Key::Tab
    } else if k == "space"@ {
        Key::Space
    } else if k == "backspace"@ {
        Key::Backspace
    } else if k == "escape"@ {
        Key::Escape
    } else if k == "super"@ || k == "command"@ || k == "windows"@ {
        Key::Super
    } else if k == "shift"@ {
        Key::Shift
    } else if k == "capslock"@ {
        Key::CapsLock
    } else if k == "alt"@ || k == "option"@ {
        Key::Alt
    } else if k == "control"@ || k == "ctrl"@ {
        Key::Control
    } else if encode_utf8(k).len() == 1 {
        Key::Layout(k[0])
    } else {
        Key::Space
    }
}

/// The name by which the client sends a key: the first name of the table for
/// a named key, the character itself for a key that types a character.
pub open spec fn key_name(k: Key) -> Seq<char> {
    match k {
        Key::Return => "return"@,
        Key::Tab => "tab"@,
        Key::Space => "space"@,
        Key::Backspace => "backspace"@,
        Key::Escape => "escape"@,
        Key::Super => "super"@,
        Key::Shift => "shift"@,
        Key::CapsLock => "capslock"@,
        Key::Alt => "alt"@,
        Key::Control => "control"@,
        Key::Layout(c) => seq![c],
    }
}

/// The names of the key table are pairwise different.
proof fn lemma_key_table_names_distinct()
    ensures
        "return"@.len() == 6,
        "enter"@.len() == 5,
        "tab"@.len() == 3,
        "space"@.len() == 5,
        "backspace"@.len() == 9,
        "escape"@.len() == 6,
        "super"@.len() == 5,
        "command"@.len() == 7,
        "windows"@.len() == 7,
        "shift"@.len() == 5,
        "capslock"@.len() == 8,
        "alt"@.len() == 3,
        "option"@.len() == 6,
        "control"@.len() == 7,
        "ctrl"@.len() == 4,
        "enter"@ != "return"@,
        "tab"@ != "return"@,
        "tab"@ != "enter"@,
        "space"@ != "return"@,
        "space"@ != "enter"@,
        "space"@ != "tab"@,
        "backspace"@ != "return"@,
        "backspace"@ != "enter"@,
        "backspace"@ != "tab"@,
        "backspace"@ != "space"@,
        "escape"@ != "return"@,
        "escape"@ != "enter"@,
        "escape"@ != "tab"@,
        "escape"@ != "space"@,
        "escape"@ != "backspace"@,
        "super"@ != "return"@,
        "super"@ != "enter"@,
        "super"@ != "tab"@,
        "super"@ != "space"@,
        "super"@ != "backspace"@,
        "super"@ != "escape"@,
        "command"@ != "return"@,
        "command"@ != "enter"@,
        "command"@ != "tab"@,
        "command"@ != "space"@,
        "command"@ != "backspace"@,
        "command"@ != "escape"@,
        "command"@ != "super"@,
        "windows"@ != "return"@,
        "windows"@ != "enter"@,
        "windows"@ != "tab"@,
        "windows"@ != "space"@,
        "windows"@ != "backspace"@,
        "windows"@ != "escape"@,
        "windows"@ != "super"@,
        "windows"@ != "command"@,
        "shift"@ != "return"@,
        "shift"@ != "enter"@,
        "shift"@ != "tab"@,
        "shift"@ != "space"@,
        "shift"@ != "backspace"@,
        "shift"@ != "escape"@,
        "shift"@ != "super"@,
        "shift"@ != "command"@,
        "shift"@ != "windows"@,
        "capslock"@ != "return"@,
        "capslock"@ != "enter"@,
        "capslock"@ != "tab"@,
        "capslock"@ != "space"@,
        "capslock"@ != "backspace"@,
        "capslock"@ != "escape"@,
        "capslock"@ != "super"@,
        "capslock"@ != "command"@,
        "capslock"@ != "windows"@,
        "capslock"@ != "shift"@,
        "alt"@ != "return"@,
        "alt"@ != "enter"@,
        "alt"@ != "tab"@,
        "alt"@ != "space"@,
        "alt"@ != "backspace"@,
        "alt"@ != "escape"@,
        "alt"@ != "super"@,
        "alt"@ != "command"@,
        "alt"@ != "windows"@,
        "alt"@ != "shift"@,
        "alt"@ != "capslock"@,
        "option"@ != "return"@,
        "option"@ != "enter"@,
        "option"@ != "tab"@,
        "option"@ != "space"@,
        "option"@ != "backspace"@,
        "option"@ != "escape"@,
        "option"@ != "super"@,
        "option"@ != "command"@,
        "option"@ != "windows"@,
        "option"@ != "shift"@,
        "option"@ != "capslock"@,
        "option"@ != "alt"@,
        "control"@ != "return"@,
        "control"@ != "enter"@,
        "control"@ != "tab"@,
        "control"@ != "space"@,
        "control"@ != "backspace"@,
        "control"@ != "escape"@,
        "control"@ != "super"@,
        "control"@ != "command"@,
        "control"@ != "windows"@,
        "control"@ != "shift"@,
        "control"@ != "capslock"@,
        "control"@ != "alt"@,
        "control"@ != "option"@,
        "ctrl"@ != "return"@,
        "ctrl"@ != "enter"@,
        "ctrl"@ != "tab"@,
        "ctrl"@ != "space"@,
        "ctrl"@ != "backspace"@,
        "ctrl"@ != "escape"@,
        "ctrl"@ != "super"@,
        "ctrl"@ != "command"@,
        "ctrl"@ != "windows"@,
        "ctrl"@ != "shift"@,
        "ctrl"@ != "capslock"@,
        "ctrl"@ != "alt"@,
        "ctrl"@ != "option"@,
        "ctrl"@ != "control"@,
{
    reveal_strlit("return");
    reveal_strlit("enter");
    reveal_strlit("tab");
    reveal_strlit("space");
    reveal_strlit("backspace");
    reveal_strlit("escape");
    reveal_strlit("super");
    reveal_strlit("command");
    reveal_strlit("windows");
    reveal_strlit("shift");
    reveal_strlit("capslock");
    reveal_strlit("alt");
    reveal_strlit("option");
    reveal_strlit("control");
    reveal_strlit("ctrl");
    assert("enter"@.len() != "return"@.len());
    assert("tab"@.len() != "return"@.len());
    assert("tab"@.len() != "enter"@.len());
    assert("space"@.len() != "return"@.len());
    assert("space"@[0] != "enter"@[0]);
    assert("space"@.len() != "tab"@.len());
    assert("backspace"@.len() != "return"@.len());
    assert("backspace"@.len() != "enter"@.len());
    assert("backspace"@.len() != "tab"@.len());
    assert("backspace"@.len() != "space"@.len());
    assert("escape"@[0] != "return"@[0]);
    assert("escape"@.len() != "enter"@.len());
    assert("escape"@.len() != "tab"@.len());
    assert("escape"@.len() != "space"@.len());
    assert("escape"@.len() != "backspace"@.len());
    assert("super"@.len() != "return"@.len());
    assert("super"@[0] != "enter"@[0]);
    assert("super"@.len() != "tab"@.len());
    assert("super"@[1] != "space"@[1]);
    assert("super"@.len() != "backspace"@.len());
    assert("super"@.len() != "escape"@.len());
    assert("command"@.len() != "return"@.len());
    assert("command"@.len() != "enter"@.len());
    assert("command"@.len() != "tab"@.len());
    assert("command"@.len() != "space"@.len());
    assert("command"@.len() != "backspace"@.len());
    assert("command"@.len() != "escape"@.len());
    assert("command"@.len() != "super"@.len());
    assert("windows"@.len() != "return"@.len());
    assert("windows"@.len() != "enter"@.len());
    assert("windows"@.len() != "tab"@.len());
    assert("windows"@.len() != "space"@.len());
    assert("windows"@.len() != "backspace"@.len());
    assert("windows"@.len() != "escape"@.len());
    assert("windows"@.len() != "super"@.len());
    assert("windows"@[0] != "command"@[0]);
    assert("shift"@.len() != "return"@.len());
    assert("shift"@[0] != "enter"@[0]);
    assert("shift"@.len() != "tab"@.len());
    assert("shift"@[1] != "space"@[1]);
    assert("shift"@.len() != "backspace"@.len());
    assert("shift"@.len() != "escape"@.len());
    assert("shift"@[1] != "super"@[1]);
    assert("shift"@.len() != "command"@.len());
    assert("shift"@.len() != "windows"@.len());
    assert("capslock"@.len() != "return"@.len());
    assert("capslock"@.len() != "enter"@.len());
    assert("capslock"@.len() != "tab"@.len());
    assert("capslock"@.len() != "space"@.len());
    assert("capslock"@.len() != "backspace"@.len());
    assert("capslock"@.len() != "escape"@.len());
    assert("capslock"@.len() != "super"@.len());
    assert("capslock"@.len() != "command"@.len());
    assert("capslock"@.len() != "windows"@.len());
    assert("capslock"@.len() != "shift"@.len());
    assert("alt"@.len() != "return"@.len());
    assert("alt"@.len() != "enter"@.len());
    assert("alt"@[0] != "tab"@[0]);
    assert("alt"@.len() != "space"@.len());
    assert("alt"@.len() != "backspace"@.len());
    assert("alt"@.len() != "escape"@.len());
    assert("alt"@.len() != "super"@.len());
    assert("alt"@.len() != "command"@.len());
    assert("alt"@.len() != "windows"@.len());
    assert("alt"@.len() != "shift"@.len());
    assert("alt"@.len() != "capslock"@.len());
    assert("option"@[0] != "return"@[0]);
    assert("option"@.len() != "enter"@.len());
    assert("option"@.len() != "tab"@.len());
    assert("option"@.len() != "space"@.len());
    assert("option"@.len() != "backspace"@.len());
    assert("option"@[0] != "escape"@[0]);
    assert("option"@.len() != "super"@.len());
    assert("option"@.len() != "command"@.len());
    assert("option"@.len() != "windows"@.len());
    assert("option"@.len() != "shift"@.len());
    assert("option"@.len() != "capslock"@.len());
    assert("option"@.len() != "alt"@.len());
    assert("control"@.len() != "return"@.len());
    assert("control"@.len() != "enter"@.len());
    assert("control"@.len() != "tab"@.len());
    assert("control"@.len() != "space"@.len());
    assert("control"@.len() != "backspace"@.len());
    assert("control"@.len() != "escape"@.len());
    assert("control"@.len() != "super"@.len());
    assert("control"@[2] != "command"@[2]);
    assert("control"@[0] != "windows"@[0]);
    assert("control"@.len() != "shift"@.len());
    assert("control"@.len() != "capslock"@.len());
    assert("control"@.len() != "alt"@.len());
    assert("control"@.len() != "option"@.len());
    assert("ctrl"@.len() != "return"@.len());
    assert("ctrl"@.len() != "enter"@.len());
    assert("ctrl"@.len() != "tab"@.len());
    assert("ctrl"@.len() != "space"@.len());
    assert("ctrl"@.len() != "backspace"@.len());
    assert("ctrl"@.len() != "escape"@.len());
    assert("ctrl"@.len() != "super"@.len());
    assert("ctrl"@.len() != "command"@.len());
    assert("ctrl"@.len() != "windows"@.len());
    assert("ctrl"@.len() != "shift"@.len());
    assert("ctrl"@.len() != "capslock"@.len());
    assert("ctrl"@.len() != "alt"@.len());
    assert("ctrl"@.len() != "option"@.len());
    assert("ctrl"@.len() != "control"@.len());
}

/// Every key can be sent: the name of a key (for a typed character, any ASCII
/// one) is mapped back to that very key, so no two keys of the table share a
/// name and none of them falls back to another key.
pub proof fn lemma_key_names_round_trip(k: Key)
    requires
        k matches Key::Layout(c) ==> '\0' <= c <= '\u{7f}',
    ensures
        key_of(key_name(k)) == k,
{
    lemma_key_table_names_distinct();
    if let Key::Layout(c) = k {
        let s = seq![c];
        assert(vstd::utf8::is_ascii_chars(s));
        vstd::utf8::is_ascii_chars_encode_utf8(s);
    }
}

/// A name that is not in the table and is not a single one-byte character
/// selects the space key.
pub proof fn lemma_unknown_key_names_are_space(k: Seq<char>)
    requires
        encode_utf8(k).len() != 1,
        k != "return"@,
        k != "enter"@,
        k != "tab"@,
        k != "space"@,
        k != "backspace"@,
        k != "escape"@,
        k != "super"@,
        k != "command"@,
        k != "windows"@,
        k != "shift"@,
        k != "capslock"@,
        k != "alt"@,
        k != "option"@,
        k != "control"@,
        k != "ctrl"@,
    ensures
        key_of(k) == Key::Space,
{
}

/// The aliases of the table select the same keys as the first names.
pub proof fn lemma_key_aliases()
    ensures
        key_of("enter"@) == Key::Return,
        key_of("command"@) == Key::Super,
        key_of("windows"@) == Key::Super,
        key_of("option"@) == Key::Alt,
        key_of("ctrl"@) == Key::Control,
{
    lemma_key_table_names_distinct();
}

/// The name by which the client sends a mouse button.
pub open spec fn button_name(b: MouseButton) -> Seq<char> {
    match b {
        MouseButton::Left => "left"@,
        MouseButton::Right => "right"@,
        MouseButton::Middle => "middle"@,
    }
}

/// Every button can be sent: its name selects it, and any name other than
/// `right` and `middle` selects the left button.
pub proof fn lemma_button_names_round_trip(b: MouseButton, other: Seq<char>)
    requires
        other != "right"@,
        other != "middle"@,
    ensures
        mouse_button_of(button_name(b)) == b,
        mouse_button_of(other) == MouseButton::Left,
{
    reveal_strlit("left");
    reveal_strlit("right");
    reveal_strlit("middle");
    assert("left"@.len() != "right"@.len());
    assert("left"@.len() != "middle"@.len());
    assert("right"@.len() != "middle"@.len());
}

/// Maps a button name to a mouse button.
pub fn map_mouse(btn: &str) -> (b: MouseButton)
    ensures
        b == mouse_button_of(btn@),
{
    if str_eq(btn, "right") {
        MouseButton::Right
    } else if str_eq(btn, "middle") {
        MouseButton::Middle
    } else {
        MouseButton::Left
    }
}

/// Maps a key name to a key.
pub fn map_key(k: &str) -> (key: Key)
    ensures
        key == key_of(k@),
{
    if str_eq(k, "return") || str_eq(k, "enter") {
        Key::Return
    } else if str_eq(k, "tab") {
        Key::Tab
    } else if str_eq(k, "space") {
        Key::Space
    } else if str_eq(k, "backspace") {
        Key::Backspace
    } else if str_eq(k, "escape") {
        Key::Escape
    } else if str_eq(k, "super") || str_eq(k, "command") || str_eq(k, "windows") {
        Key::Super
    } else if str_eq(k, "shift") {
        Key::Shift
    } else if str_eq(k, "capslock") {
        Key::CapsLock
    } else if str_eq(k, "alt") || str_eq(k, "option") {
        Key::Alt
    } else if str_eq(k, "control") || str_eq(k, "ctrl") {
        Key::Control
    } else if k.as_bytes().len() == 1 {
        proof {
            if k@.len() == 0 {
                assert(encode_utf8(k@).len() == 0);
            }
        }
        match first_char(k) {
            Some(c) => Key::Layout(c),
            None => Key::Space,  // unreachable: a one-byte string has a character
        }
    } else {
        Key::Space  // default fallback
    }
}

/// The injections that an event stands for. A scroll event scrolls only along
/// the axes where its amount is not zero.
pub open spec fn actions_of(e: InputEvent) -> Seq<InputAction> {
    match e {
        InputEvent::MouseMove { x, y } => seq![InputAction::MoveTo { x, y }],
        InputEvent::MouseDown { button } => seq![InputAction::Press(mouse_button_of(button@))],
        InputEvent::MouseUp { button } => seq![InputAction::Release(mouse_button_of(button@))],
        InputEvent::MouseClick { button } => seq![InputAction::Click(mouse_button_of(button@))],
        InputEvent::MouseScroll { x, y } => {
            let sx: Seq<InputAction> = if x != 0 { seq![InputAction::ScrollX(x)] } else { seq![] };
            let sy: Seq<InputAction> = if y != 0 { seq![InputAction::ScrollY(y)] } else { seq![] };
            sx + sy
        },
        InputEvent::KeyDown { key } => seq![InputAction::KeyDown(key_of(key@))],
        InputEvent::KeyUp { key } => seq![InputAction::KeyUp(key_of(key@))],
        InputEvent::TypeString { text } => seq![InputAction::Type(text)],
    }
}

/// The OS-level injections that handle an incoming input event, in order.
pub fn input_actions(event: InputEvent) -> (acts: Vec<InputAction>)
    ensures
        acts@ == actions_of(event),
{
    let ghost e = event;
    let mut acts: Vec<InputAction> = Vec::new();
    match event {
        InputEvent::MouseMove { x, y } => {
            acts.push(InputAction::MoveTo { x, y });
        },
        InputEvent::MouseDown { button } => {
            acts.push(InputAction::Press(map_mouse(button.as_str())));
        },
        InputEvent::MouseUp { button } => {
            acts.push(InputAction::Release(map_mouse(button.as_str())));
        },
        InputEvent::MouseClick { button } => {
            acts.push(InputAction::Click(map_mouse(button.as_str())));
        },
        InputEvent::MouseScroll { x, y } => {
            if x != 0 {
                acts.push(InputAction::ScrollX(x));
            }
            if y != 0 {
                acts.push(InputAction::ScrollY(y));
            }
        },
        InputEvent::KeyDown { key } => {
            acts.push(InputAction::KeyDown(map_key(key.as_str())));
        },
        InputEvent::KeyUp { key } => {
            acts.push(InputAction::KeyUp(map_key(key.as_str())));
        },
        InputEvent::TypeString { text } => {
            acts.push(InputAction::Type(text));
        },
    }
    assert(acts@ =~= actions_of(e));
    acts
}

} // verus!
