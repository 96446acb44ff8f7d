//! What the activation of a menu item does.

use vstd::prelude::*;
use crate::event::FrontendEvent;
use crate::menu::{
    lemma_identifiers_differ, Edition, ABOUT_ID, EVENT_LOG_ID, EXPORT_CSV_ID, ICON_CREDITS_ID,
    IMPORT_CSV_ID, QUIT_ID, SHARE_CSV_ID,
};
use crate::text::str_eq;

verus! {

/// The status with which the process ends when the user quits.
pub const QUIT_EXIT_CODE: i32 = 0;

/// The one thing that the shell does in answer to an activation.
#[derive(Clone, Copy, Debug, PartialEq, Eq, Hash, Structural)]
pub enum MenuAction {
    /// Send the event, without payload, to the frontend. Whether anyone
    /// receives it is not the shell's concern.
    Emit(FrontendEvent),
    /// End the process at once with this status.
    Exit(i32),
    /// Do nothing.
    Ignore,
}

/// The identifiers that the dispatcher of `edition` knows, each with the
/// action that its activation has.
///
/// Quit ends the process with status 0 and About sends the general About
/// event. A data operation sends its own event, in the edition whose menu
/// offers it.
pub open spec fn bindings(edition: Edition) -> Map<Seq<char>, MenuAction> {
    match edition {
        Edition::ImportExport => map![
            EXPORT_CSV_ID@ => MenuAction::Emit(FrontendEvent::ExportCsv),
            IMPORT_CSV_ID@ => MenuAction::Emit(FrontendEvent::ImportCsv),
            EVENT_LOG_ID@ => MenuAction::Emit(FrontendEvent::EventLog),
            ABOUT_ID@ => MenuAction::Emit(FrontendEvent::About),
            QUIT_ID@ => MenuAction::Exit(QUIT_EXIT_CODE),
        ],
        Edition::Share => map![
            SHARE_CSV_ID@ => MenuAction::Emit(FrontendEvent::ShareCsv),
            ABOUT_ID@ => MenuAction::Emit(FrontendEvent::About),
            EVENT_LOG_ID@ => MenuAction::Emit(FrontendEvent::EventLog),
            ICON_CREDITS_ID@ => MenuAction::Emit(FrontendEvent::IconCredits),
            QUIT_ID@ => MenuAction::Exit(QUIT_EXIT_CODE),
        ],
    }
}

/// The action for the activation of `id` in a shell built with `edition`:
/// the one bound to `id`, and none for an identifier that is not bound.
pub open spec fn dispatch_spec(edition: Edition, id: Seq<char>) -> MenuAction {
    if bindings(edition).contains_key(id) {
        bindings(edition)[id]
    } else {
        MenuAction::Ignore
    }
}

/// Looks up what the activation of the item `id` does while a run goes on.
///
/// The answer reads the edition and the identifier and nothing else. That a
/// run ends with the quit is the part of [`crate::session::Session`], which
/// asks this table for every activation before the quit.
pub fn dispatch(edition: Edition, id: &str) -> (action: MenuAction)
    ensures
        action == dispatch_spec(edition, id@),
{
    proof {
        lemma_identifiers_differ();
    }
    if str_eq(id, QUIT_ID) {
        MenuAction::Exit(QUIT_EXIT_CODE)
    } else if str_eq(id, ABOUT_ID) {
        MenuAction::Emit(FrontendEvent::About)
    } else if str_eq(id, EVENT_LOG_ID) {
        MenuAction::Emit(FrontendEvent::EventLog)
    } else {
        match edition {
            Edition::ImportExport => {
                if str_eq(id, EXPORT_CSV_ID) {
                    MenuAction::Emit(FrontendEvent::ExportCsv)
                } else if str_eq(id, IMPORT_CSV_ID) {
                    MenuAction::Emit(FrontendEvent::ImportCsv)
                } else {
                    MenuAction::Ignore
                }
            },
            Edition::Share => {
                if str_eq(id, SHARE_CSV_ID) {
                    MenuAction::Emit(FrontendEvent::ShareCsv)
                } else if str_eq(id, ICON_CREDITS_ID) {
                    MenuAction::Emit(FrontendEvent::IconCredits)
                } else {
                    MenuAction::Ignore
                }
            },
        }
    }
}

} // verus!
