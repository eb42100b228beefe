//! The text-editing input state machine: normalized keyboard events resolved
//! into text-buffer actions against the focused text object.

use vstd::prelude::*;

verus! {

#[derive(Clone, Copy, Debug, PartialEq, Eq, Structural)]
pub enum TextInputEvent {
    Character(char),
    Backspace,
    Enter,
    ShiftEnter,
    CursorLeft,
    CursorRight,
    CursorUp,
    CursorDown,
    CtrlEnter,
    Escape,
    CtrlC,
}

#[derive(Clone, Copy, Debug, PartialEq, Eq, Structural)]
pub enum TextInputAction {
    NoTextTarget,
    NoAction,
    InsertCharacter(char),
    DeleteBackward,
    InsertLineBreak,
    MoveCursor,
    Commit,
    ExitFocus,
    CopyRequested,
}

/// The action an event resolves to while a text object has (or lacks) focus.
pub open spec fn spec_resolve_text_input(
    event: TextInputEvent,
    has_text_focus: bool,
) -> TextInputAction {
    if !has_text_focus {
        TextInputAction::NoTextTarget
    } else {
        match event {
            TextInputEvent::Character(c) => TextInputAction::InsertCharacter(c),
            TextInputEvent::Backspace => TextInputAction::DeleteBackward,
            TextInputEvent::Enter => TextInputAction::InsertLineBreak,
            TextInputEvent::ShiftEnter => TextInputAction::InsertLineBreak,
            TextInputEvent::CursorLeft => TextInputAction::MoveCursor,
            TextInputEvent::CursorRight => TextInputAction::MoveCursor,
            TextInputEvent::CursorUp => TextInputAction::MoveCursor,
            TextInputEvent::CursorDown => TextInputAction::MoveCursor,
            TextInputEvent::CtrlEnter => TextInputAction::Commit,
            TextInputEvent::Escape => TextInputAction::ExitFocus,
            TextInputEvent::CtrlC => TextInputAction::CopyRequested,
        }
    }
}

pub fn resolve_text_input(event: TextInputEvent, has_text_focus: bool) -> (action: TextInputAction)
    ensures
        action == spec_resolve_text_input(event, has_text_focus),
{
    if !has_text_focus {
        return TextInputAction::NoTextTarget;
    }
    match event {
        TextInputEvent::Character(c) => TextInputAction::InsertCharacter(c),
        TextInputEvent::Backspace => TextInputAction::DeleteBackward,
        TextInputEvent::Enter | TextInputEvent::ShiftEnter => TextInputAction::InsertLineBreak,
        TextInputEvent::CursorLeft
        | TextInputEvent::CursorRight
        | TextInputEvent::CursorUp
        | TextInputEvent::CursorDown => TextInputAction::MoveCursor,
        TextInputEvent::CtrlEnter => TextInputAction::Commit,
        TextInputEvent::Escape => TextInputAction::ExitFocus,
        TextInputEvent::CtrlC => TextInputAction::CopyRequested,
    }
}

} // verus!
