//! One run of the shell: the activations from the start to the quit.
//!
//! The dispatcher is a table and keeps no state. A run does: it ends with
//! the quit. The request to end the process may take effect only after
//! further activations have come in, and those must do nothing.

use vstd::prelude::*;
use crate::dispatch::{dispatch, dispatch_spec, MenuAction};
use crate::menu::Edition;

verus! {

/// The state of one run.
#[derive(Clone, Copy, Debug, PartialEq, Eq, Hash, Structural)]
pub struct Session {
    /// The edition that the shell was built with.
    pub edition: Edition,
    /// Whether the quit has been decided. Once it is, it stays so.
    pub over: bool,
}

impl Session {
    /// The session with which a run of `edition` begins.
    pub open spec fn fresh(edition: Edition) -> Session {
        Session { edition, over: false }
    }

    /// The action for the activation of `id` in this state: what the
    /// dispatcher binds to `id` while the run goes on, and nothing once it
    /// is over.
    pub open spec fn decide(self, id: Seq<char>) -> MenuAction {
        if self.over {
            MenuAction::Ignore
        } else {
            dispatch_spec(self.edition, id)
        }
    }

    /// The state after the activation of `id`: the run is over if it was,
    /// or if this activation is the quit.
    pub open spec fn step(self, id: Seq<char>) -> Session {
        Session { edition: self.edition, over: self.over || self.decide(id) is Exit }
    }

    /// The state after the activations `ids`, taken from left to right.
    pub open spec fn after(self, ids: Seq<Seq<char>>) -> Session
        decreases ids.len(),
    {
        if ids.len() == 0 {
            self
        } else {
            self.after(ids.drop_last()).step(ids.last())
        }
    }

    /// The action for activation `i` of the run `ids` that begins in this
    /// state.
    pub open spec fn action_at(self, ids: Seq<Seq<char>>, i: int) -> MenuAction
        recommends
            0 <= i < ids.len(),
    {
        self.after(ids.take(i)).decide(ids[i])
    }

    /// The session with which a run of `edition` begins.
    pub fn new(edition: Edition) -> (session: Session)
        ensures
            session == Session::fresh(edition),
    {
        Session { edition, over: false }
    }

    /// Decides what the activation of the item `id` does, and takes note of
    /// a quit.
    ///
    /// Until the quit this is the dispatcher's action. The quit ends the
    /// run: every activation after it is ignored, so nothing is sent to the
    /// frontend any more and the process is asked to end only once.
    pub fn activate(&mut self, id: &str) -> (action: MenuAction)
        ensures
            action == old(self).decide(id@),
            *final(self) == old(self).step(id@),
    {
        if self.over {
            return MenuAction::Ignore;
        }
        let action = dispatch(self.edition, id);
        match action {
            MenuAction::Exit(_) => {
                self.over = true;
            },
            _ => {},
        }
        action
    }
}

} // verus!
