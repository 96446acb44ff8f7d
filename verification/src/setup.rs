//! The order of the steps that bring the application up.
//!
//! The program performs one step, reports how it went, and is told the next
//! one. Looking up and maximizing the primary window are best effort: how
//! they go never stops the startup. Constructing and installing the menu
//! must succeed: a failure of either ends the startup.

use vstd::prelude::*;

verus! {

/// The name under which the primary window is registered.
pub const MAIN_WINDOW: &'static str = "main";

/// Why a startup was given up.
#[derive(Clone, Copy, Debug, PartialEq, Eq, Hash, Structural)]
pub enum SetupFailure {
    /// An item, a submenu or the menu itself could not be made.
    MenuConstruction,
    /// The finished menu could not be made the application's menu.
    MenuInstallation,
}

/// How the step that the program was asked to perform went.
#[derive(Clone, Copy, Debug, PartialEq, Eq, Hash, Structural)]
pub enum StepResult {
    /// The step did what it was for. Of the lookup: the window exists.
    Succeeded,
    /// The step did not do it. Of the lookup: there is no such window.
    Failed,
}

/// What the program is to do next.
#[derive(Clone, Copy, Debug, PartialEq, Eq, Hash, Structural)]
pub enum SetupStep {
    /// Look up the window named [`MAIN_WINDOW`].
    FindMainWindow,
    /// Ask the window that was found to be maximized.
    MaximizeMainWindow,
    /// Make the native menu from the declared one.
    ConstructMenu,
    /// Make the constructed menu the application's menu.
    InstallMenu,
    /// Nothing is left to do: the event loop may start.
    Complete,
    /// Give the startup up.
    Abort(SetupFailure),
}

impl SetupStep {
    /// Whether the startup is over with this step.
    pub open spec fn is_final_spec(self) -> bool {
        self is Complete || self is Abort
    }

    /// Whether the startup is over with this step.
    pub fn is_final(self) -> (over: bool)
        ensures
            over == self.is_final_spec(),
    {
        match self {
            SetupStep::Complete => true,
            SetupStep::Abort(_) => true,
            _ => false,
        }
    }

    /// An upper bound on the number of steps that can still follow this one.
    pub open spec fn remaining(self) -> nat {
        match self {
            SetupStep::FindMainWindow => 4,
            SetupStep::MaximizeMainWindow => 3,
            SetupStep::ConstructMenu => 2,
            SetupStep::InstallMenu => 1,
            SetupStep::Complete => 0,
            SetupStep::Abort(_) => 0,
        }
    }
}

/// The step that follows `step` once it went as `result` says.
pub open spec fn next_step_spec(step: SetupStep, result: StepResult) -> SetupStep {
    match step {
        SetupStep::FindMainWindow => match result {
            StepResult::Succeeded => SetupStep::MaximizeMainWindow,
            StepResult::Failed => SetupStep::ConstructMenu,
        },
        SetupStep::MaximizeMainWindow => SetupStep::ConstructMenu,
        SetupStep::ConstructMenu => match result {
            StepResult::Succeeded => SetupStep::InstallMenu,
            StepResult::Failed => SetupStep::Abort(SetupFailure::MenuConstruction),
        },
        SetupStep::InstallMenu => match result {
            StepResult::Succeeded => SetupStep::Complete,
            StepResult::Failed => SetupStep::Abort(SetupFailure::MenuInstallation),
        },
        SetupStep::Complete => SetupStep::Complete,
        SetupStep::Abort(failure) => SetupStep::Abort(failure),
    }
}

/// The step with which every startup begins.
pub fn first_step() -> (step: SetupStep)
    ensures
        step == SetupStep::FindMainWindow,
{
    SetupStep::FindMainWindow
}

/// The step that follows `step` once it went as `result` says.
///
/// A missing window only skips the maximizing, and a failed maximizing is
/// passed over. A final step is followed by itself.
pub fn next_step(step: SetupStep, result: StepResult) -> (next: SetupStep)
    ensures
        next == next_step_spec(step, result),
{
    match step {
        SetupStep::FindMainWindow => match result {
            StepResult::Succeeded => SetupStep::MaximizeMainWindow,
            StepResult::Failed => SetupStep::ConstructMenu,
        },
        SetupStep::MaximizeMainWindow => SetupStep::ConstructMenu,
        SetupStep::ConstructMenu => match result {
            StepResult::Succeeded => SetupStep::InstallMenu,
            StepResult::Failed => SetupStep::Abort(SetupFailure::MenuConstruction),
        },
        SetupStep::InstallMenu => match result {
            StepResult::Succeeded => SetupStep::Complete,
            StepResult::Failed => SetupStep::Abort(SetupFailure::MenuInstallation),
        },
        SetupStep::Complete => SetupStep::Complete,
        SetupStep::Abort(failure) => SetupStep::Abort(failure),
    }
}

/// How each step of one startup would go if it were performed.
pub struct Conditions {
    pub window_exists: bool,
    pub window_maximizes: bool,
    pub menu_constructs: bool,
    pub menu_installs: bool,
}

impl Conditions {
    /// The result that `step` has under these conditions.
    pub open spec fn result_of(self, step: SetupStep) -> StepResult {
        let succeeds = match step {
            SetupStep::FindMainWindow => self.window_exists,
            SetupStep::MaximizeMainWindow => self.window_maximizes,
            SetupStep::ConstructMenu => self.menu_constructs,
            SetupStep::InstallMenu => self.menu_installs,
            SetupStep::Complete => true,
            SetupStep::Abort(_) => false,
        };
        if succeeds {
            StepResult::Succeeded
        } else {
            StepResult::Failed
        }
    }

    /// The steps of the startup from `step` on, the final one included.
    pub open spec fn steps_from(self, step: SetupStep) -> Seq<SetupStep>
        decreases step.remaining(),
    {
        if step.is_final_spec() {
            seq![step]
        } else {
            seq![step] + self.steps_from(next_step_spec(step, self.result_of(step)))
        }
    }

    /// The steps of the whole startup, the final one included.
    pub open spec fn steps(self) -> Seq<SetupStep> {
        self.steps_from(SetupStep::FindMainWindow)
    }

    /// The steps before the menu: the lookup, and the maximizing where
    /// there is a window.
    pub open spec fn window_steps(self) -> Seq<SetupStep> {
        if self.window_exists {
            seq![SetupStep::FindMainWindow, SetupStep::MaximizeMainWindow]
        } else {
            seq![SetupStep::FindMainWindow]
        }
    }

    /// The steps from the construction of the menu on.
    pub open spec fn menu_steps(self) -> Seq<SetupStep> {
        if !self.menu_constructs {
            seq![SetupStep::ConstructMenu, SetupStep::Abort(SetupFailure::MenuConstruction)]
        } else if !self.menu_installs {
            seq![
                SetupStep::ConstructMenu,
                SetupStep::InstallMenu,
                SetupStep::Abort(SetupFailure::MenuInstallation),
            ]
        } else {
            seq![SetupStep::ConstructMenu, SetupStep::InstallMenu, SetupStep::Complete]
        }
    }
}

/// Every step that is not final leaves fewer steps to come, so a startup
/// ends and attempts no step twice.
pub proof fn each_step_brings_the_end_nearer(step: SetupStep, result: StepResult)
    requires
        !step.is_final_spec(),
    ensures
        next_step_spec(step, result).remaining() < step.remaining(),
{
}

/// A startup is the window steps followed by the menu steps, whatever the
/// conditions.
pub proof fn startup_runs_window_steps_then_menu_steps(conditions: Conditions)
    ensures
        conditions.steps() == conditions.window_steps() + conditions.menu_steps(),
{
    reveal_with_fuel(Conditions::steps_from, 6);
    assert(conditions.steps() =~= conditions.window_steps() + conditions.menu_steps());
}

/// A startup completes exactly when the menu can be constructed and
/// installed: neither a missing window nor a window that does not maximize
/// makes it fail.
pub proof fn startup_fails_only_through_the_menu(conditions: Conditions)
    ensures
        conditions.steps().last() == SetupStep::Complete <==> conditions.menu_constructs
            && conditions.menu_installs,
{
    startup_runs_window_steps_then_menu_steps(conditions);
}

/// Without a main window the maximizing is skipped and the startup goes on
/// with the menu.
pub proof fn missing_window_skips_maximizing(conditions: Conditions)
    requires
        !conditions.window_exists,
    ensures
        !conditions.steps().contains(SetupStep::MaximizeMainWindow),
        conditions.steps() == seq![SetupStep::FindMainWindow] + conditions.menu_steps(),
        conditions.menu_constructs && conditions.menu_installs ==> conditions.steps().last()
            == SetupStep::Complete,
{
    startup_runs_window_steps_then_menu_steps(conditions);
}

} // verus!
