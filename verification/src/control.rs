//! Decisions of the refresh/input loop: how a key press is interpreted, and
//! how the hybrid poll-with-deadline schedule computes its timeout and its
//! periodic tick.
//!
//! The loop itself (terminal drawing, blocking input polls) lives outside the
//! library; it feeds plain values in and performs the actions decided here.

use vstd::prelude::*;

verus! {

/// Interval of the periodic child-list refresh, in milliseconds.
pub const TICK_RATE_MS: u64 = 250;

/// A key press, reduced to what the loop distinguishes: the arrow keys, a
/// printable character, or anything else.
#[derive(Clone, Copy, PartialEq, Eq, Structural, Debug)]
pub enum Key {
    Up,
    Down,
    Char(char),
    Other,
}

/// What the loop does in response to one key press.
#[derive(Clone, Copy, PartialEq, Eq, Structural, Debug)]
pub enum KeyAction {
    /// Leave the loop.
    Quit,
    /// Move the top-level selection up and re-derive the child list.
    MoveUp,
    /// Move the top-level selection down and re-derive the child list.
    MoveDown,
    /// Re-enumerate the top-level list, then re-derive the child list.
    RefreshTop,
    /// Anything else is inert.
    Ignore,
}

/// The key map: quit on 'q' (any modifiers) or control-'c'; arrows move the
/// selection; 'r' forces a top-level refresh; every other key is ignored.
pub open spec fn spec_classify_key(ctrl: bool, key: Key) -> KeyAction {
    match key {
        Key::Up => KeyAction::MoveUp,
        Key::Down => KeyAction::MoveDown,
        Key::Char(c) => if ctrl && c == 'c' {
            KeyAction::Quit
        } else if c == 'q' {
            KeyAction::Quit
        } else if c == 'r' {
            KeyAction::RefreshTop
        } else {
            KeyAction::Ignore
        },
        Key::Other => KeyAction::Ignore,
    }
}

/// Decide the action for one key press with its control-modifier flag.
pub fn classify_key(ctrl: bool, key: Key) -> (action: KeyAction)
    ensures
        action == spec_classify_key(ctrl, key),
{
    match key {
        Key::Up => KeyAction::MoveUp,
        Key::Down => KeyAction::MoveDown,
        Key::Char(c) => {
            if ctrl && c == 'c' {
                KeyAction::Quit
            } else if c == 'q' {
                KeyAction::Quit
            } else if c == 'r' {
                KeyAction::RefreshTop
            } else {
                KeyAction::Ignore
            }
        },
        Key::Other => KeyAction::Ignore,
    }
}

/// How long the loop may block waiting for input: the time left until the
/// next scheduled tick. Never negative; zero as soon as the interval has
/// already elapsed, so an overdue tick is served immediately.
pub fn poll_timeout_ms(rate_ms: u64, elapsed_ms: u64) -> (timeout_ms: u64)
    ensures
        timeout_ms == if elapsed_ms >= rate_ms {
            0u64
        } else {
            (rate_ms - elapsed_ms) as u64
        },
{
    if elapsed_ms >= rate_ms {
        0
    } else {
        rate_ms - elapsed_ms
    }
}

/// Whether the periodic tick interval has elapsed, which triggers the
/// automatic re-derivation of the child list.
pub fn tick_due(rate_ms: u64, elapsed_ms: u64) -> (due: bool)
    ensures
        due == (elapsed_ms >= rate_ms),
{
    elapsed_ms >= rate_ms
}

} // verus!
