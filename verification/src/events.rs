//! Abstract input events and the key-binding table that maps key presses to
//! them. The terminal layer turns raw key codes into [`Key`] values; the
//! table here decides, exactly and totally, which action each key means.

use vstd::prelude::*;

verus! {

/// The actions an operator can request.
#[derive(Debug, Clone, Copy, PartialEq, Eq)]
pub enum AppEvent {
    Quit,
    Refresh,
    NextQueue,
    PreviousQueue,
    ToggleFilter,
    PurgeQueue,
    ConfirmPurge,
    CancelPurge,
}

/// A key press, reduced to what the binding table distinguishes: a printable
/// character, the arrow keys, escape, or anything else.
#[derive(Debug, Clone, Copy, PartialEq, Eq)]
pub enum Key {
    Char(char),
    Esc,
    Up,
    Down,
    Other,
}

/// The binding table: quit on `q` or escape, refresh on `r`, filter on `f`,
/// navigation on the arrows or `j`/`k`, purge request on `X`, confirmation
/// on `y`/`Y`, cancellation on `n`/`N`; any other key means nothing.
pub open spec fn spec_key_action(key: Key) -> Option<AppEvent> {
    match key {
        Key::Char(c) => if c == 'q' {
            Some(AppEvent::Quit)
        } else if c == 'r' {
            Some(AppEvent::Refresh)
        } else if c == 'f' {
            Some(AppEvent::ToggleFilter)
        } else if c == 'j' {
            Some(AppEvent::NextQueue)
        } else if c == 'k' {
            Some(AppEvent::PreviousQueue)
        } else if c == 'X' {
            Some(AppEvent::PurgeQueue)
        } else if c == 'y' || c == 'Y' {
            Some(AppEvent::ConfirmPurge)
        } else if c == 'n' || c == 'N' {
            Some(AppEvent::CancelPurge)
        } else {
            None
        },
        Key::Esc => Some(AppEvent::Quit),
        Key::Down => Some(AppEvent::NextQueue),
        Key::Up => Some(AppEvent::PreviousQueue),
        Key::Other => None,
    }
}

/// Maps one key press to the event it requests, per the binding table.
pub fn handle_key_event(key: Key) -> (r: Option<AppEvent>)
    ensures
        r == spec_key_action(key),
{
    match key {
        Key::Char(c) => {
            if c == 'q' {
                Some(AppEvent::Quit)
            } else if c == 'r' {
                Some(AppEvent::Refresh)
            } else if c == 'f' {
                Some(AppEvent::ToggleFilter)
            } else if c == 'j' {
                Some(AppEvent::NextQueue)
            } else if c == 'k' {
                Some(AppEvent::PreviousQueue)
            } else if c == 'X' {
                Some(AppEvent::PurgeQueue)
            } else if c == 'y' || c == 'Y' {
                Some(AppEvent::ConfirmPurge)
            } else if c == 'n' || c == 'N' {
                Some(AppEvent::CancelPurge)
            } else {
                None
            }
        },
        Key::Esc => Some(AppEvent::Quit),
        Key::Down => Some(AppEvent::NextQueue),
        Key::Up => Some(AppEvent::PreviousQueue),
        Key::Other => None,
    }
}

/// The auto-refresh rule: a refresh is due once the seconds elapsed since
/// the last one reach the configured interval.
pub fn auto_refresh_due(elapsed_secs: u64, interval_secs: u64) -> (r: bool)
    ensures
        r == (elapsed_secs >= interval_secs),
{
    elapsed_secs >= interval_secs
}

} // verus!
