//! Which keys edit the filter input, and how.
use vstd::prelude::*;
use tui_input::InputRequest as TuiRequest;

verus! {

/// A key, as far as editing text tells keys apart.
#[derive(Debug, Clone, Copy, PartialEq, Eq)]
pub enum KeyCode {
    /// Backspace.
    Backspace,
    /// Delete.
    Delete,
    /// Left arrow.
    Left,
    /// Right arrow.
    Right,
    /// Home.
    Home,
    /// End.
    End,
    /// A character key.
    Char(char),
    /// Any other key.
    Other,
}

/// The Shift modifier bit.
pub const SHIFT: u8 = 0b0000_0001;
/// The Control modifier bit.
pub const CONTROL: u8 = 0b0000_0010;

/// A change to the text being edited, with its cursor.
#[derive(Debug, Clone, Copy, PartialEq, Eq)]
pub enum InputRequest {
    /// Delete the character before the cursor.
    DeletePrevChar,
    /// Delete the character under the cursor.
    DeleteNextChar,
    /// Move the cursor one character left.
    GoToPrevChar,
    /// Move the cursor one word left.
    GoToPrevWord,
    /// Move the cursor one character right.
    GoToNextChar,
    /// Move the cursor one word right.
    GoToNextWord,
    /// Delete the word before the cursor.
    DeletePrevWord,
    /// Delete the word after the cursor.
    DeleteNextWord,
    /// Delete from the cursor to the end.
    DeleteTillEnd,
    /// Move the cursor to the start.
    GoToStart,
    /// Move the cursor to the end.
    GoToEnd,
    /// Insert a character at the cursor.
    InsertChar(char),
}

/// The edit that a key with the modifier bits `modifiers` asks for: unmodified keys move
/// or delete by character, with Control by word; Control+H deletes a word too, Control+K
/// deletes to the end; characters, alone or with Shift, are inserted.
pub open spec fn spec_input_request(code: KeyCode, modifiers: u8) -> Option<InputRequest> {
    match code {
        KeyCode::Backspace => if modifiers == 0 {
            Some(InputRequest::DeletePrevChar)
        } else if modifiers == CONTROL {
            Some(InputRequest::DeletePrevWord)
        } else {
            None
        },
        KeyCode::Delete => if modifiers == 0 {
            Some(InputRequest::DeleteNextChar)
        } else if modifiers == CONTROL {
            Some(InputRequest::DeleteNextWord)
        } else {
            None
        },
        KeyCode::Left => if modifiers == 0 {
            Some(InputRequest::GoToPrevChar)
        } else if modifiers == CONTROL {
            Some(InputRequest::GoToPrevWord)
        } else {
            None
        },
        KeyCode::Right => if modifiers == 0 {
            Some(InputRequest::GoToNextChar)
        } else if modifiers == CONTROL {
            Some(InputRequest::GoToNextWord)
        } else {
            None
        },
        KeyCode::Home => if modifiers == 0 {
            Some(InputRequest::GoToStart)
        } else {
            None
        },
        KeyCode::End => if modifiers == 0 {
            Some(InputRequest::GoToEnd)
        } else {
            None
        },
        KeyCode::Char(c) => if c == 'h' && modifiers == CONTROL {
            Some(InputRequest::DeletePrevWord)
        } else if c == 'k' && modifiers == CONTROL {
            Some(InputRequest::DeleteTillEnd)
        } else if modifiers == 0 || modifiers == SHIFT {
            Some(InputRequest::InsertChar(c))
        } else {
            None
        },
        KeyCode::Other => None,
    }
}

/// Convert a key to an optional editing request for the filter input.
pub fn keyevent_to_input_request(code: KeyCode, modifiers: u8) -> (r: Option<InputRequest>)
    ensures
        r == spec_input_request(code, modifiers),
{
    match (code, modifiers) {
        (KeyCode::Backspace, 0) => Some(InputRequest::DeletePrevChar),
        (KeyCode::Delete, 0) => Some(InputRequest::DeleteNextChar),
        (KeyCode::Left, 0) => Some(InputRequest::GoToPrevChar),
        (KeyCode::Left, CONTROL) => Some(InputRequest::GoToPrevWord),
        (KeyCode::Right, 0) => Some(InputRequest::GoToNextChar),
        (KeyCode::Right, CONTROL) => Some(InputRequest::GoToNextWord),
        (KeyCode::Backspace, CONTROL) | (KeyCode::Char('h'), CONTROL) => Some(
            InputRequest::DeletePrevWord,
        ),
        (KeyCode::Delete, CONTROL) => Some(InputRequest::DeleteNextWord),
        (KeyCode::Char('k'), CONTROL) => Some(InputRequest::DeleteTillEnd),
        (KeyCode::Home, 0) => Some(InputRequest::GoToStart),
        (KeyCode::End, 0) => Some(InputRequest::GoToEnd),
        (KeyCode::Char(c), 0) | (KeyCode::Char(c), SHIFT) => Some(InputRequest::InsertChar(c)),
        _ => None,
    }
}

/// The text and cursor (in characters) that `tui_input::Input::handle` leaves after the
/// request `req`, on the text `value` with the cursor `cursor`.
pub uninterp spec fn input_edit(value: Seq<char>, cursor: nat, req: InputRequest) -> (Seq<char>, nat);

/// The cursor that `tui_input::Input::with_cursor` keeps: at most the text's length.
pub open spec fn clamped_cursor(value: Seq<char>, cursor: nat) -> nat {
    if cursor <= value.len() {
        cursor
    } else {
        value.len()
    }
}

/// Applies `req` with `tui_input::Input::handle` to the text `value` with the cursor at
/// character `cursor`, and gives the new text and cursor.
/// The contract claims of tui_input that the result depends on these three alone (its cut
/// buffer only serves requests that are never made here) and is named `input_edit`; that a
/// cursor past the end counts as the end; that inserting puts the character at the cursor
/// and moves the cursor past it; that going to the start or the end moves the cursor there;
/// that deleting to the end keeps the text before the cursor; and that the four cursor
/// moves keep the text. Where the other moves and deletions put the cursor (they go by
/// grapheme cluster and word boundary) is left unsaid.
#[verifier::external_body]
pub(crate) fn edit_text(value: &str, cursor: usize, req: InputRequest) -> (r: (String, usize))
    ensures
        (r.0@, r.1 as nat) == input_edit(value@, cursor as nat, req),
        req matches InputRequest::InsertChar(c) ==> r.0@ == value@.take(
            clamped_cursor(value@, cursor as nat) as int,
        ) + seq![c] + value@.skip(clamped_cursor(value@, cursor as nat) as int) && r.1
            == clamped_cursor(value@, cursor as nat) + 1,
        req == InputRequest::GoToStart ==> r.0@ == value@ && r.1 == 0,
        req == InputRequest::GoToEnd ==> r.0@ == value@ && r.1 == value@.len(),
        req == InputRequest::DeleteTillEnd ==> r.0@ == value@.take(
            clamped_cursor(value@, cursor as nat) as int,
        ) && r.1 == clamped_cursor(value@, cursor as nat),
        (req == InputRequest::GoToPrevChar || req == InputRequest::GoToNextChar || req
            == InputRequest::GoToPrevWord || req == InputRequest::GoToNextWord) ==> r.0@ == value@,
{
    let request = match req {
        InputRequest::DeletePrevChar => TuiRequest::DeletePrevChar, InputRequest::DeleteNextChar => TuiRequest::DeleteNextChar,
        InputRequest::GoToPrevChar => TuiRequest::GoToPrevChar, InputRequest::GoToPrevWord => TuiRequest::GoToPrevWord,
        InputRequest::GoToNextChar => TuiRequest::GoToNextChar, InputRequest::GoToNextWord => TuiRequest::GoToNextWord,
        InputRequest::DeletePrevWord => TuiRequest::DeletePrevWord, InputRequest::DeleteNextWord => TuiRequest::DeleteNextWord,
        InputRequest::DeleteTillEnd => TuiRequest::DeleteTillEnd, InputRequest::GoToStart => TuiRequest::GoToStart,
        InputRequest::GoToEnd => TuiRequest::GoToEnd, InputRequest::InsertChar(c) => TuiRequest::InsertChar(c),
    };
    let mut input = tui_input::Input::new(value.to_string()).with_cursor(cursor);
    input.handle(request);
    (input.value().to_string(), input.cursor())
}

/// Keys edit the filter as a text field does: Left and Right move the cursor one character
/// that way (one word with Control), Home and End to the start and the end, Backspace deletes
/// the character before the cursor and Delete the one under it (one word each with Control),
/// Control+K deletes to the end, and a character typed alone or with Shift is inserted. Other
/// keys, and these keys with other modifiers, do not edit.
pub proof fn law_edit_keys(c: char, m: u8)
    ensures
        spec_input_request(KeyCode::Left, 0) == Some(InputRequest::GoToPrevChar),
        spec_input_request(KeyCode::Right, 0) == Some(InputRequest::GoToNextChar),
        spec_input_request(KeyCode::Left, CONTROL) == Some(InputRequest::GoToPrevWord),
        spec_input_request(KeyCode::Right, CONTROL) == Some(InputRequest::GoToNextWord),
        spec_input_request(KeyCode::Home, 0) == Some(InputRequest::GoToStart),
        spec_input_request(KeyCode::End, 0) == Some(InputRequest::GoToEnd),
        spec_input_request(KeyCode::Backspace, 0) == Some(InputRequest::DeletePrevChar),
        spec_input_request(KeyCode::Delete, 0) == Some(InputRequest::DeleteNextChar),
        spec_input_request(KeyCode::Backspace, CONTROL) == Some(InputRequest::DeletePrevWord),
        spec_input_request(KeyCode::Delete, CONTROL) == Some(InputRequest::DeleteNextWord),
        spec_input_request(KeyCode::Char('k'), CONTROL) == Some(InputRequest::DeleteTillEnd),
        spec_input_request(KeyCode::Char(c), 0) == Some(InputRequest::InsertChar(c)),
        spec_input_request(KeyCode::Char(c), SHIFT) == Some(InputRequest::InsertChar(c)),
        spec_input_request(KeyCode::Other, m) is None,
        m != 0 && m != CONTROL ==> spec_input_request(KeyCode::Left, m) is None && spec_input_request(
            KeyCode::Right,
            m,
        ) is None && spec_input_request(KeyCode::Backspace, m) is None && spec_input_request(
            KeyCode::Delete,
            m,
        ) is None,
        m != 0 ==> spec_input_request(KeyCode::Home, m) is None && spec_input_request(KeyCode::End, m)
            is None,
{
}

} // verus!
