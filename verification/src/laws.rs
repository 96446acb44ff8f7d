//! What holds between the declared menu, the dispatcher and a run.
//!
//! The menu and the dispatcher are two hand-written tables. The first
//! statements here are what keeps them in step; each is proved for both
//! editions. The last ones speak of whole runs: of any sequence of
//! activations, whatever its length.

use vstd::prelude::*;
use crate::dispatch::{bindings, dispatch_spec, MenuAction};
use crate::event::FrontendEvent;
use crate::session::Session;
use crate::menu::{
    lemma_identifiers_differ, menu_spec, Edition, ABOUT_ID, EVENT_LOG_ID, EXPORT_CSV_ID,
    ICON_CREDITS_ID, IMPORT_CSV_ID, QUIT_ID, SHARE_CSV_ID,
};

verus! {

/// `id` with each underscore turned into a hyphen.
pub open spec fn hyphenated(id: Seq<char>) -> Seq<char> {
    id.map_values(|c: char| if c == '_' { '-' } else { c })
}

/// The name of the event that belongs to the item `id`: the general About
/// event for the About item, and for a data operation `menu-` followed by
/// the identifier written with hyphens.
pub open spec fn event_name_for(id: Seq<char>) -> Seq<char> {
    if id == ABOUT_ID@ {
        "menu-about"@
    } else {
        "menu-"@ + hyphenated(id)
    }
}

/// Each event carries the name that belongs to the item which sends it.
pub proof fn events_are_named_after_identifiers()
    ensures
        FrontendEvent::ExportCsv.name_spec() == event_name_for(EXPORT_CSV_ID@),
        FrontendEvent::ImportCsv.name_spec() == event_name_for(IMPORT_CSV_ID@),
        FrontendEvent::ShareCsv.name_spec() == event_name_for(SHARE_CSV_ID@),
        FrontendEvent::EventLog.name_spec() == event_name_for(EVENT_LOG_ID@),
        FrontendEvent::IconCredits.name_spec() == event_name_for(ICON_CREDITS_ID@),
        FrontendEvent::About.name_spec() == event_name_for(ABOUT_ID@),
{
    lemma_identifiers_differ();
    reveal_strlit("menu-");
    reveal_strlit("export_csv");
    reveal_strlit("import_csv");
    reveal_strlit("share_csv");
    reveal_strlit("event_log");
    reveal_strlit("icon_credits");
    reveal_strlit("menu-export-csv");
    reveal_strlit("menu-import-csv");
    reveal_strlit("menu-share-csv");
    reveal_strlit("menu-event-log");
    reveal_strlit("menu-icon-credits");
    assert("menu-export-csv"@ =~= "menu-"@ + hyphenated("export_csv"@));
    assert("menu-import-csv"@ =~= "menu-"@ + hyphenated("import_csv"@));
    assert("menu-share-csv"@ =~= "menu-"@ + hyphenated("share_csv"@));
    assert("menu-event-log"@ =~= "menu-"@ + hyphenated("event_log"@));
    assert("menu-icon-credits"@ =~= "menu-"@ + hyphenated("icon_credits"@));
}

/// The dispatcher knows an identifier exactly when the menu declares it:
/// no item is without an action, and no action is without an item.
pub proof fn dispatcher_knows_exactly_the_declared(edition: Edition, id: Seq<char>)
    ensures
        bindings(edition).contains_key(id) <==> menu_spec(edition).declares(id),
{
    lemma_identifiers_differ();
    let menu = menu_spec(edition);
    if bindings(edition).contains_key(id) {
        assert(menu.has_item_at(0, 0) && menu.id_at(0, 0) == ABOUT_ID@);
        assert(menu.has_item_at(0, 1) && menu.has_item_at(1, 0) && menu.has_item_at(1, 1));
        match edition {
            Edition::ImportExport => {
                assert(menu.id_at(0, 1) == QUIT_ID@);
                assert(menu.id_at(1, 0) == EXPORT_CSV_ID@);
                assert(menu.id_at(1, 1) == IMPORT_CSV_ID@);
                assert(menu.has_item_at(1, 2) && menu.id_at(1, 2) == EVENT_LOG_ID@);
            },
            Edition::Share => {
                assert(menu.id_at(0, 1) == ICON_CREDITS_ID@);
                assert(menu.has_item_at(0, 2) && menu.id_at(0, 2) == QUIT_ID@);
                assert(menu.id_at(1, 0) == SHARE_CSV_ID@);
                assert(menu.id_at(1, 1) == EVENT_LOG_ID@);
            },
        }
    }
}

/// Activating a declared item has its effect and no other: the Quit item
/// ends the process with status 0, and every other declared item sends one
/// event, the one named after it.
pub proof fn declared_identifier_takes_effect(edition: Edition, s: int, i: int)
    requires
        menu_spec(edition).has_item_at(s, i),
    ensures
        ({
            let id = menu_spec(edition).id_at(s, i);
            if id == QUIT_ID@ {
                dispatch_spec(edition, id) == MenuAction::Exit(0)
            } else {
                &&& dispatch_spec(edition, id) matches MenuAction::Emit(event)
                &&& event.name_spec() == event_name_for(id)
            }
        }),
{
    lemma_identifiers_differ();
    events_are_named_after_identifiers();
}

/// An activation is ignored exactly when the menu of the edition does not
/// declare its identifier.
pub proof fn ignored_exactly_when_undeclared(edition: Edition, id: Seq<char>)
    ensures
        dispatch_spec(edition, id) == MenuAction::Ignore <==> !menu_spec(edition).declares(id),
{
    lemma_identifiers_differ();
    dispatcher_knows_exactly_the_declared(edition, id);
}

/// Quit is declared in every edition and ends the process with status 0,
/// and it is the only identifier that ends it.
pub proof fn quit_exits_with_status_zero(edition: Edition)
    ensures
        menu_spec(edition).declares(QUIT_ID@),
        dispatch_spec(edition, QUIT_ID@) == MenuAction::Exit(0),
        forall|id: Seq<char>| #[trigger] dispatch_spec(edition, id) is Exit ==> id == QUIT_ID@,
{
    lemma_identifiers_differ();
    dispatcher_knows_exactly_the_declared(edition, QUIT_ID@);
}

/// A run that is over stays over, whatever is activated.
pub proof fn a_run_that_is_over_stays_over(session: Session, ids: Seq<Seq<char>>)
    requires
        session.over,
    ensures
        session.after(ids).over,
        session.after(ids).edition == session.edition,
    decreases ids.len(),
{
    if ids.len() > 0 {
        a_run_that_is_over_stays_over(session, ids.drop_last());
    }
}

/// The state after the first `j` activations of a run continues the state
/// after its first `i`: it is reached from there by the activations in
/// between.
pub proof fn a_run_goes_on_from_each_of_its_states(
    session: Session,
    ids: Seq<Seq<char>>,
    i: int,
    j: int,
)
    requires
        0 <= i <= j <= ids.len(),
    ensures
        session.after(ids.take(j)) == session.after(ids.take(i)).after(ids.subrange(i, j)),
    decreases j - i,
{
    if i == j {
        assert(ids.subrange(i, j) =~= Seq::<Seq<char>>::empty());
    } else {
        a_run_goes_on_from_each_of_its_states(session, ids, i, j - 1);
        assert(ids.take(j).drop_last() =~= ids.take(j - 1));
        assert(ids.take(j).last() == ids[j - 1]);
        assert(ids.subrange(i, j).drop_last() =~= ids.subrange(i, j - 1));
        assert(ids.subrange(i, j).last() == ids[j - 1]);
    }
}

/// In any run, nothing follows the quit: once an activation has ended the
/// process, every later activation is ignored. So no event is sent after
/// the quit, and the process is not asked to end a second time.
pub proof fn nothing_follows_the_quit(edition: Edition, ids: Seq<Seq<char>>, i: int, j: int)
    requires
        0 <= i < j < ids.len(),
        Session::fresh(edition).action_at(ids, i) is Exit,
    ensures
        Session::fresh(edition).action_at(ids, j) == MenuAction::Ignore,
{
    let start = Session::fresh(edition);
    let at_quit = start.after(ids.take(i));
    let past_quit = start.after(ids.take(i + 1));
    assert(ids.take(i + 1).drop_last() =~= ids.take(i));
    assert(ids.take(i + 1).last() == ids[i]);
    assert(past_quit == at_quit.step(ids[i]));
    assert(past_quit.over);
    a_run_goes_on_from_each_of_its_states(start, ids, i + 1, j);
    a_run_that_is_over_stays_over(past_quit, ids.subrange(i + 1, j));
}

/// In any run, every activation before the first quit has the action that
/// the dispatcher binds to it: a declared item takes its effect and an
/// undeclared one is ignored, wherever in the run it stands. The quit
/// itself is one such activation, so it needs nothing to come before it.
pub proof fn before_the_quit_the_dispatcher_decides(
    edition: Edition,
    ids: Seq<Seq<char>>,
    i: int,
)
    requires
        0 <= i < ids.len(),
        forall|k: int| 0 <= k < i ==> ids[k] != QUIT_ID@,
    ensures
        Session::fresh(edition).after(ids.take(i)) == Session::fresh(edition),
        Session::fresh(edition).action_at(ids, i) == dispatch_spec(edition, ids[i]),
    decreases i,
{
    if i == 0 {
        assert(ids.take(0) =~= Seq::<Seq<char>>::empty());
    } else {
        before_the_quit_the_dispatcher_decides(edition, ids, i - 1);
        quit_exits_with_status_zero(edition);
        assert(ids.take(i).drop_last() =~= ids.take(i - 1));
        assert(ids.take(i).last() == ids[i - 1]);
    }
}

} // verus!
