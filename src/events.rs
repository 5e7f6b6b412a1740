//! The coordinator's decisions: how each user or poll event changes the
//! history and what the caller must do next.

use crate::storage::ClipboardStorage;
use vstd::prelude::*;

verus! {

/// A signal from one of the producers: the poller, the shortcuts or the menu.
#[derive(Debug, Clone, Copy, PartialEq, Eq, Structural)]
pub enum AppEvent {
    /// The history grew.
    UpdateMenu,
    /// The user chose the history item at this index.
    PasteItem(usize),
    /// The user asked to clear the history.
    ClearAll,
    /// The user asked to quit.
    Quit,
}

/// What the caller does after an event was handled.
#[derive(Debug, Clone, Copy, PartialEq, Eq, Structural)]
pub enum Reaction {
    /// Rebuild the menu from the current history.
    RebuildMenu,
    /// Put the history item at this index back on the clipboard.
    Paste(usize),
    /// Nothing.
    Ignore,
    /// Stop the event loop.
    Exit,
}

/// Handles one event. Only `ClearAll` changes the history, emptying it; a
/// paste of an index past the end of the history is ignored.
pub fn handle_event(storage: &mut ClipboardStorage, event: AppEvent) -> (r: Reaction)
    ensures
        event is ClearAll ==> final(storage)@ == Seq::<crate::storage::ClipboardItem>::empty(),
        !(event is ClearAll) ==> final(storage)@ == old(storage)@,
        r == match event {
            AppEvent::UpdateMenu => Reaction::RebuildMenu,
            AppEvent::PasteItem(i) => if i < old(storage)@.len() {
                Reaction::Paste(i)
            } else {
                Reaction::Ignore
            },
            AppEvent::ClearAll => Reaction::RebuildMenu,
            AppEvent::Quit => Reaction::Exit,
        },
{
    match event {
        AppEvent::UpdateMenu => Reaction::RebuildMenu,
        AppEvent::PasteItem(i) => {
            if i < storage.len() {
                Reaction::Paste(i)
            } else {
                Reaction::Ignore
            }
        },
        AppEvent::ClearAll => {
            storage.clear();
            Reaction::RebuildMenu
        },
        AppEvent::Quit => Reaction::Exit,
    }
}

} // verus!
