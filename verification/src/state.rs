//! The mutable UI state of the dashboard (selected menu index and input
//! buffer) and the keyboard event handler that drives it.

use vstd::prelude::*;

verus! {

/// A keyboard event, as the dashboard understands it. The host translates
/// raw terminal key codes into these before handing them to the library.
#[derive(Clone, Copy, Debug, PartialEq, Eq)]
pub enum InputEvent {
    /// A printable character was typed.
    Char(char),
    /// The backspace key.
    Backspace,
    /// The confirm/enter key.
    Confirm,
    /// The cancel/escape key: asks the loop to quit.
    Cancel,
    /// The arrow-up key.
    MoveUp,
    /// The arrow-down key.
    MoveDown,
    /// Any key the dashboard does not react to.
    Other,
}

/// The whole mutable state of the dashboard: which menu entry is selected
/// and what the input line currently holds.
pub struct UiState {
    /// Index of the selected menu entry; always below the menu's length.
    pub selected: usize,
    /// The characters typed into the input line, oldest first.
    pub input: Vec<char>,
}

impl UiState {
    /// Well-formed against a menu of `menu_len` entries.
    pub open spec fn wf(self, menu_len: nat) -> bool {
        self.selected < menu_len
    }

    /// The initial state: the first menu entry selected, the input line empty.
    pub fn new() -> (s: UiState)
        ensures
            s.selected == 0,
            s.input@ == Seq::<char>::empty(),
    {
        UiState { selected: 0, input: Vec::new() }
    }
}

/// Where the selection moves when `ev` arrives while entry `sel` of a menu
/// with `menu_len` entries is selected: arrow keys move it one step, clamped
/// to the menu's ends; every other event leaves it alone.
pub open spec fn next_selected(sel: int, menu_len: int, ev: InputEvent) -> int {
    match ev {
        InputEvent::MoveUp => if sel > 0 { sel - 1 } else { sel },
        InputEvent::MoveDown => if sel + 1 < menu_len { sel + 1 } else { sel },
        _ => sel,
    }
}

/// What the input line holds after `ev` arrives: a character is appended,
/// backspace drops the last character (a no-op on an empty line), confirm
/// clears the line, and every other event leaves it alone.
pub open spec fn next_input(inp: Seq<char>, ev: InputEvent) -> Seq<char> {
    match ev {
        InputEvent::Char(c) => inp.push(c),
        InputEvent::Backspace => if inp.len() > 0 { inp.drop_last() } else { inp },
        InputEvent::Confirm => Seq::empty(),
        _ => inp,
    }
}

/// Whether `ev` asks the loop to quit: only the cancel key does.
pub open spec fn quits(ev: InputEvent) -> bool {
    ev == InputEvent::Cancel
}

/// Applies one keyboard event to the state and says whether the loop should
/// quit. The selection and the input line change exactly as `next_selected`
/// and `next_input` describe.
pub fn handle_event(state: &mut UiState, menu_len: usize, ev: InputEvent) -> (quit: bool)
    requires
        old(state).wf(menu_len as nat),
    ensures
        final(state).wf(menu_len as nat),
        final(state).selected == next_selected(old(state).selected as int, menu_len as int, ev),
        final(state).input@ == next_input(old(state).input@, ev),
        quit == quits(ev),
{
    match ev {
        InputEvent::Char(c) => {
            state.input.push(c);
            false
        },
        InputEvent::Backspace => {
            state.input.pop();
            false
        },
        InputEvent::Confirm => {
            state.input.clear();
            false
        },
        InputEvent::Cancel => true,
        InputEvent::MoveUp => {
            if state.selected > 0 {
                state.selected = state.selected - 1;
            }
            false
        },
        InputEvent::MoveDown => {
            if state.selected + 1 < menu_len {
                state.selected = state.selected + 1;
            }
            false
        },
        InputEvent::Other => false,
    }
}

/// Moving up at the first entry and moving down at the last entry both leave
/// the selection where it was.
pub proof fn lemma_moves_clamp(sel: int, menu_len: int)
    requires
        0 <= sel < menu_len,
    ensures
        sel == 0 ==> next_selected(sel, menu_len, InputEvent::MoveUp) == sel,
        sel == menu_len - 1 ==> next_selected(sel, menu_len, InputEvent::MoveDown) == sel,
{
}

/// Typing a character and then pressing backspace returns the input line to
/// exactly what it held before.
pub proof fn lemma_backspace_undoes_char(inp: Seq<char>, c: char)
    ensures
        next_input(next_input(inp, InputEvent::Char(c)), InputEvent::Backspace) == inp,
{
    assert(inp.push(c).drop_last() =~= inp);
}

/// Confirm clears the input line, whatever it held.
pub proof fn lemma_confirm_clears(inp: Seq<char>)
    ensures
        next_input(inp, InputEvent::Confirm) == Seq::<char>::empty(),
{
}

} // verus!
