//! The input dispatcher's decision logic: one terminal key event is mapped
//! to a navigation operation on the tab state, to termination, or to
//! nothing at all.

use vstd::prelude::*;
use crate::tabstate::{jump_target, next_index, prev_index, TabsState};

verus! {

/// A terminal key event as the core reads it: a character key, one of the
/// two arrow keys the dashboard uses, or anything else.
#[derive(Clone, Copy, Debug, PartialEq, Eq, Structural)]
pub enum InputEvent {
    Char(char),
    Left,
    Right,
    Other,
}

/// Whether the main loop keeps running after an input event was handled.
#[derive(Clone, Copy, Debug, PartialEq, Eq, Structural)]
pub enum Continuation {
    Continue,
    Finish,
}

/// Whether `c` is a numeric tab shortcut.
pub open spec fn is_digit_key(c: char) -> bool {
    '1' as u32 <= c as u32 <= '9' as u32
}

/// The tab number a numeric shortcut selects.
pub open spec fn digit_value(c: char) -> nat
    recommends
        is_digit_key(c),
{
    (c as u32 - '0' as u32) as nat
}

/// Handles one key event. The quit key finishes the loop; the left and
/// right keys move the selection one tab; a digit key jumps to that tab,
/// clamped to the last one; every other event changes nothing and asks for
/// no redraw. `Some(_)` asks the caller to act (redraw or finish); `None`
/// keeps blocking for the next event.
pub fn handle_key(tabs: &mut TabsState, key: InputEvent) -> (r: Option<Continuation>)
    requires
        old(tabs).wf(),
    ensures
        final(tabs).wf(),
        final(tabs).titles == old(tabs).titles,
        match key {
            InputEvent::Char(c) => if c == 'q' {
                r == Some(Continuation::Finish) && *final(tabs) == *old(tabs)
            } else if is_digit_key(c) {
                r == Some(Continuation::Continue) && final(tabs).index == jump_target(
                    digit_value(c),
                    old(tabs).titles@.len(),
                )
            } else {
                r == None::<Continuation> && *final(tabs) == *old(tabs)
            },
            InputEvent::Left => r == Some(Continuation::Continue) && final(tabs).index
                == prev_index(old(tabs).index as nat, old(tabs).titles@.len()),
            InputEvent::Right => r == Some(Continuation::Continue) && final(tabs).index
                == next_index(old(tabs).index as nat, old(tabs).titles@.len()),
            InputEvent::Other => r == None::<Continuation> && *final(tabs) == *old(tabs),
        },
{
    match key {
        InputEvent::Char(c) => {
            if c == 'q' {
                Some(Continuation::Finish)
            } else if '1' <= c && c <= '9' {
                let d = (c as u32 - '0' as u32) as usize;
                tabs.jump(d);
                Some(Continuation::Continue)
            } else {
                None
            }
        },
        InputEvent::Left => {
            tabs.previous();
            Some(Continuation::Continue)
        },
        InputEvent::Right => {
            tabs.next();
            Some(Continuation::Continue)
        },
        InputEvent::Other => None,
    }
}

} // verus!
