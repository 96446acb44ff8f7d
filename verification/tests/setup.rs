use shirt_tracker_shell::setup::{
    first_step, next_step, SetupFailure, SetupStep, StepResult, MAIN_WINDOW,
};

/// Runs one startup in which each step goes as the flags say, and gives
/// the steps in the order in which they were asked for.
fn run(exists: bool, maximizes: bool, constructs: bool, installs: bool) -> Vec<SetupStep> {
    let mut steps = vec![first_step()];
    loop {
        let step = *steps.last().unwrap();
        if step.is_final() {
            return steps;
        }
        let succeeded = match step {
            SetupStep::FindMainWindow => exists,
            SetupStep::MaximizeMainWindow => maximizes,
            SetupStep::ConstructMenu => constructs,
            SetupStep::InstallMenu => installs,
            SetupStep::Complete | SetupStep::Abort(_) => unreachable!(),
        };
        let result = if succeeded { StepResult::Succeeded } else { StepResult::Failed };
        steps.push(next_step(step, result));
        assert!(steps.len() <= 5, "the startup does not end");
    }
}

#[test]
fn the_main_window_is_named_main() {
    assert_eq!(MAIN_WINDOW, "main");
}

#[test]
fn startup_begins_with_the_window_lookup() {
    assert_eq!(first_step(), SetupStep::FindMainWindow);
}

#[test]
fn startup_without_main_window_completes() {
    assert_eq!(
        next_step(SetupStep::FindMainWindow, StepResult::Failed),
        SetupStep::ConstructMenu
    );
    for maximizes in [false, true] {
        assert_eq!(
            run(false, maximizes, true, true),
            vec![
                SetupStep::FindMainWindow,
                SetupStep::ConstructMenu,
                SetupStep::InstallMenu,
                SetupStep::Complete,
            ]
        );
    }
}

#[test]
fn startup_with_main_window_maximizes_it_first() {
    assert_eq!(
        next_step(SetupStep::FindMainWindow, StepResult::Succeeded),
        SetupStep::MaximizeMainWindow
    );
    assert_eq!(
        run(true, true, true, true),
        vec![
            SetupStep::FindMainWindow,
            SetupStep::MaximizeMainWindow,
            SetupStep::ConstructMenu,
            SetupStep::InstallMenu,
            SetupStep::Complete,
        ]
    );
}

#[test]
fn a_window_that_does_not_maximize_is_passed_over() {
    assert_eq!(
        next_step(SetupStep::MaximizeMainWindow, StepResult::Failed),
        SetupStep::ConstructMenu
    );
    assert_eq!(
        next_step(SetupStep::MaximizeMainWindow, StepResult::Succeeded),
        SetupStep::ConstructMenu
    );
    assert_eq!(run(true, false, true, true).last(), Some(&SetupStep::Complete));
}

#[test]
fn a_menu_that_cannot_be_constructed_aborts_the_startup() {
    assert_eq!(
        next_step(SetupStep::ConstructMenu, StepResult::Failed),
        SetupStep::Abort(SetupFailure::MenuConstruction)
    );
    for exists in [false, true] {
        for installs in [false, true] {
            let steps = run(exists, true, false, installs);
            assert_eq!(steps.last(), Some(&SetupStep::Abort(SetupFailure::MenuConstruction)));
            assert!(!steps.contains(&SetupStep::InstallMenu));
        }
    }
}

#[test]
fn a_menu_that_cannot_be_installed_aborts_the_startup() {
    assert_eq!(
        next_step(SetupStep::ConstructMenu, StepResult::Succeeded),
        SetupStep::InstallMenu
    );
    assert_eq!(
        next_step(SetupStep::InstallMenu, StepResult::Failed),
        SetupStep::Abort(SetupFailure::MenuInstallation)
    );
    assert_eq!(next_step(SetupStep::InstallMenu, StepResult::Succeeded), SetupStep::Complete);
    assert_eq!(
        run(false, false, true, false),
        vec![
            SetupStep::FindMainWindow,
            SetupStep::ConstructMenu,
            SetupStep::InstallMenu,
            SetupStep::Abort(SetupFailure::MenuInstallation),
        ]
    );
}

#[test]
fn a_final_step_is_followed_by_itself() {
    let finals = [
        SetupStep::Complete,
        SetupStep::Abort(SetupFailure::MenuConstruction),
        SetupStep::Abort(SetupFailure::MenuInstallation),
    ];
    for step in finals {
        assert!(step.is_final());
        assert_eq!(next_step(step, StepResult::Succeeded), step);
        assert_eq!(next_step(step, StepResult::Failed), step);
    }
}

#[test]
fn only_complete_and_abort_are_final() {
    assert!(!SetupStep::FindMainWindow.is_final());
    assert!(!SetupStep::MaximizeMainWindow.is_final());
    assert!(!SetupStep::ConstructMenu.is_final());
    assert!(!SetupStep::InstallMenu.is_final());
    assert!(SetupStep::Complete.is_final());
    assert!(SetupStep::Abort(SetupFailure::MenuConstruction).is_final());
    assert!(SetupStep::Abort(SetupFailure::MenuInstallation).is_final());
}

#[test]
fn startup_fails_only_through_the_menu() {
    for exists in [false, true] {
        for maximizes in [false, true] {
            for constructs in [false, true] {
                for installs in [false, true] {
                    let steps = run(exists, maximizes, constructs, installs);
                    let completed = steps.last() == Some(&SetupStep::Complete);
                    assert_eq!(completed, constructs && installs);
                    assert_eq!(steps.contains(&SetupStep::MaximizeMainWindow), exists);
                }
            }
        }
    }
}

#[test]
fn no_step_is_attempted_twice() {
    for exists in [false, true] {
        for maximizes in [false, true] {
            for constructs in [false, true] {
                for installs in [false, true] {
                    let steps = run(exists, maximizes, constructs, installs);
                    for (i, step) in steps.iter().enumerate() {
                        assert!(!steps[..i].contains(step));
                    }
                }
            }
        }
    }
}
