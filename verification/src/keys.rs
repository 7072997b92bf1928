use vstd::prelude::*;

verus! {

/// A pressed key, as the terminal event layer reports it.
#[derive(Clone, Copy, PartialEq, Eq, Structural, Debug)]
pub enum Key {
    Enter,
    Esc,
    Backspace,
    Left,
    Right,
    Up,
    Down,
    Home,
    End,
    PageUp,
    PageDown,
    Char(char),
    Ctrl(char),
    Alt(char),
}

/// Keys that move the selection left (out of the table).
pub open spec fn left_event_spec(k: Key) -> bool {
    k == Key::Left || k == Key::Char('h') || k == Key::Ctrl('b')
}

pub fn left_event(k: Key) -> (r: bool)
    ensures
        r == left_event_spec(k),
{
    matches!(k, Key::Left | Key::Char('h') | Key::Ctrl('b'))
}

/// Keys that move the selection down one row.
pub open spec fn down_event_spec(k: Key) -> bool {
    k == Key::Down || k == Key::Char('j') || k == Key::Ctrl('n')
}

pub fn down_event(k: Key) -> (r: bool)
    ensures
        r == down_event_spec(k),
{
    matches!(k, Key::Down | Key::Char('j') | Key::Ctrl('n'))
}

/// Keys that move the selection up one row.
pub open spec fn up_event_spec(k: Key) -> bool {
    k == Key::Up || k == Key::Char('k') || k == Key::Ctrl('p')
}

pub fn up_event(k: Key) -> (r: bool)
    ensures
        r == up_event_spec(k),
{
    matches!(k, Key::Up | Key::Char('k') | Key::Ctrl('p'))
}

/// The key that jumps the selection to the first row on screen.
pub open spec fn high_event_spec(k: Key) -> bool {
    k == Key::Char('H')
}

pub fn high_event(k: Key) -> (r: bool)
    ensures
        r == high_event_spec(k),
{
    matches!(k, Key::Char('H'))
}

/// The key that jumps the selection to the middle row on screen.
pub open spec fn middle_event_spec(k: Key) -> bool {
    k == Key::Char('M')
}

pub fn middle_event(k: Key) -> (r: bool)
    ensures
        r == middle_event_spec(k),
{
    matches!(k, Key::Char('M'))
}

/// The key that jumps the selection to the last row on screen.
pub open spec fn low_event_spec(k: Key) -> bool {
    k == Key::Char('L')
}

pub fn low_event(k: Key) -> (r: bool)
    ensures
        r == low_event_spec(k),
{
    matches!(k, Key::Char('L'))
}

/// Where a down press moves the selection: one row down, wrapping to the
/// top past the last row; an empty list pins the selection at zero.
pub open spec fn next_index_down(len: int, cur: Option<usize>) -> int {
    match cur {
        Option::Some(x) => if x + 1 >= len {
            0
        } else {
            x + 1
        },
        Option::None => 0,
    }
}

pub fn on_down_press_handler<T>(selection: &[T], current_index: Option<usize>) -> (r: usize)
    ensures
        r == next_index_down(selection@.len() as int, current_index),
{
    match current_index {
        Option::Some(x) => {
            if selection.len() == 0 || x >= selection.len() - 1 {
                0
            } else {
                x + 1
            }
        },
        Option::None => 0,
    }
}

/// Where an up press moves the selection: one row up, wrapping to the
/// bottom past the first row; an empty list pins the selection at zero.
pub open spec fn next_index_up(len: int, cur: Option<usize>) -> int {
    match cur {
        Option::Some(x) => if x > 0 {
            x - 1
        } else if len > 0 {
            len - 1
        } else {
            0
        },
        Option::None => 0,
    }
}

pub fn on_up_press_handler<T>(selection: &[T], current_index: Option<usize>) -> (r: usize)
    ensures
        r == next_index_up(selection@.len() as int, current_index),
{
    match current_index {
        Option::Some(x) => {
            if x > 0 {
                x - 1
            } else if selection.len() > 0 {
                selection.len() - 1
            } else {
                0
            }
        },
        Option::None => 0,
    }
}

pub fn on_high_press_handler() -> (r: usize)
    ensures
        r == 0,
{
    0
}

/// The middle row of the list.
pub fn on_middle_press_handler<T>(selection: &[T]) -> (r: usize)
    ensures
        r == selection@.len() / 2,
{
    selection.len() / 2
}

/// The last row of the list; zero when the list is empty.
pub fn on_low_press_handler<T>(selection: &[T]) -> (r: usize)
    ensures
        r == if selection@.len() > 0 {
            selection@.len() - 1
        } else {
            0
        },
{
    if selection.len() > 0 {
        selection.len() - 1
    } else {
        0
    }
}

} // verus!
