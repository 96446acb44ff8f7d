//! The notifications that the shell sends to the embedded frontend.

use vstd::prelude::*;

verus! {

/// A notification for the frontend. An event has a name and nothing else:
/// it carries no payload.
#[derive(Clone, Copy, Debug, PartialEq, Eq, Hash, Structural)]
pub enum FrontendEvent {
    ExportCsv,
    ImportCsv,
    ShareCsv,
    EventLog,
    IconCredits,
    About,
}

impl FrontendEvent {
    /// The name under which the frontend listens for this event.
    pub open spec fn name_spec(self) -> Seq<char> {
        match self {
            FrontendEvent::ExportCsv => "menu-export-csv"@,
            FrontendEvent::ImportCsv => "menu-import-csv"@,
            FrontendEvent::ShareCsv => "menu-share-csv"@,
            FrontendEvent::EventLog => "menu-event-log"@,
            FrontendEvent::IconCredits => "menu-icon-credits"@,
            FrontendEvent::About => "menu-about"@,
        }
    }

    /// The name under which the frontend listens for this event.
    pub fn name(self) -> (name: &'static str)
        ensures
            name@ == self.name_spec(),
    {
        match self {
            FrontendEvent::ExportCsv => "menu-export-csv",
            FrontendEvent::ImportCsv => "menu-import-csv",
            FrontendEvent::ShareCsv => "menu-share-csv",
            FrontendEvent::EventLog => "menu-event-log",
            FrontendEvent::IconCredits => "menu-icon-credits",
            FrontendEvent::About => "menu-about",
        }
    }
}

/// Two different events have two different names, so a name received by
/// the frontend tells which event was sent.
pub proof fn event_names_are_distinct(a: FrontendEvent, b: FrontendEvent)
    requires
        a != b,
    ensures
        a.name_spec() != b.name_spec(),
{
    reveal_strlit("menu-export-csv");
    reveal_strlit("menu-import-csv");
    reveal_strlit("menu-share-csv");
    reveal_strlit("menu-event-log");
    reveal_strlit("menu-icon-credits");
    reveal_strlit("menu-about");
    assert("menu-export-csv"@.len() == 15 && "menu-import-csv"@.len() == 15);
    assert("menu-share-csv"@.len() == 14 && "menu-event-log"@.len() == 14);
    assert("menu-icon-credits"@.len() == 17);
    assert("menu-about"@.len() == 10);
    assert("menu-export-csv"@[5] != "menu-import-csv"@[5]);
    assert("menu-share-csv"@[5] != "menu-event-log"@[5]);
}

} // verus!
