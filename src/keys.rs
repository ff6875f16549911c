use vstd::prelude::*;
use crate::session::{Message, MessageModel, LayerEvent, KeyboardNav};

verus! {

/// A key, as far as the launcher tells keys apart.
#[derive(Debug, Clone, Copy, PartialEq, Eq)]
pub enum Key {
    /// A digit key of the main row, holding its digit.
    Digit(u8),
    /// A digit key of the numeric keypad, holding its digit.
    NumpadDigit(u8),
    Up,
    Down,
    /// A letter key, as its lower-case letter.
    Letter(char),
    Escape,
    Other,
}

/// A raw input event, as far as the launcher reads it.
#[derive(Debug, Clone, Copy, PartialEq, Eq)]
pub enum InputEvent {
    KeyReleased { key: Key, control: bool },
    /// The pointer moved to this position, rounded to whole units.
    CursorMoved(i32, i32),
    Layer(LayerEvent),
    Other,
}

/// The result index that a digit key selects: 1 to 9 pick 0 to 8, and 0 picks 9.
pub open spec fn digit_index(d: u8) -> usize {
    if d == 0 {
        9
    } else {
        (d - 1) as usize
    }
}

/// The action a key release stands for, if any.
pub open spec fn key_action(key: Key, control: bool) -> Option<MessageModel> {
    match key {
        Key::Digit(d) | Key::NumpadDigit(d) => if control && d <= 9 {
            Some(MessageModel::Activate(digit_index(d)))
        } else {
            None
        },
        Key::Up => Some(MessageModel::KeyboardNav(KeyboardNav::FocusPrevious)),
        Key::Down => Some(MessageModel::KeyboardNav(KeyboardNav::FocusNext)),
        Key::Letter(c) => if control && (c == 'p' || c == 'k') {
            Some(MessageModel::KeyboardNav(KeyboardNav::FocusPrevious))
        } else if control && (c == 'n' || c == 'j') {
            Some(MessageModel::KeyboardNav(KeyboardNav::FocusNext))
        } else {
            None
        },
        Key::Escape => Some(MessageModel::Hide),
        Key::Other => None,
    }
}

/// The action an input event stands for, if any.
pub open spec fn event_action(e: InputEvent) -> Option<MessageModel> {
    match e {
        InputEvent::KeyReleased { key, control } => key_action(key, control),
        InputEvent::CursorMoved(x, y) => Some(MessageModel::CursorMoved(x, y)),
        InputEvent::Layer(l) => Some(MessageModel::Layer(l)),
        InputEvent::Other => None,
    }
}

pub open spec fn message_view(m: Option<Message>) -> Option<MessageModel> {
    match m {
        Some(m) => Some(m@),
        None => None,
    }
}

/// The keybinding dispatcher: maps a raw input event to a session action.
pub fn map_event(e: InputEvent) -> (r: Option<Message>)
    ensures
        message_view(r) == event_action(e),
{
    match e {
        InputEvent::KeyReleased { key, control } => match key {
            Key::Digit(d) | Key::NumpadDigit(d) => {
                if control && d <= 9 {
                    let i: usize = if d == 0 { 9 } else { (d - 1) as usize };
                    Some(Message::Activate(i))
                } else {
                    None
                }
            },
            Key::Up => Some(Message::KeyboardNav(KeyboardNav::FocusPrevious)),
            Key::Down => Some(Message::KeyboardNav(KeyboardNav::FocusNext)),
            Key::Letter(c) => {
                if control && (c == 'p' || c == 'k') {
                    Some(Message::KeyboardNav(KeyboardNav::FocusPrevious))
                } else if control && (c == 'n' || c == 'j') {
                    Some(Message::KeyboardNav(KeyboardNav::FocusNext))
                } else {
                    None
                }
            },
            Key::Escape => Some(Message::Hide),
            Key::Other => None,
        },
        InputEvent::CursorMoved(x, y) => Some(Message::CursorMoved(x, y)),
        InputEvent::Layer(l) => Some(Message::Layer(l)),
        InputEvent::Other => None,
    }
}

/// The digit shown beside the result at `index` as its Ctrl shortcut.
pub fn shortcut_digit(index: usize) -> (r: u8)
    ensures
        r as int == (index as int + 1) % 10,
{
    let d: usize = index % 10;
    if d == 9 {
        0
    } else {
        (d + 1) as u8
    }
}

} // verus!
