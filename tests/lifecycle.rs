use tray_app::lifecycle::{start, step, Action, Event, Part, Phase, EXIT_OK};
use tray_app::menu::{is_quit_id, quit_entry};

fn run_builds(outcomes: &[bool]) -> (Phase, Vec<Action>) {
    let (mut phase, first) = start();
    let mut actions = vec![first];
    for &ok in outcomes {
        let ev = if ok { Event::Built } else { Event::BuildFailed };
        let (p, a) = step(phase, &ev);
        phase = p;
        actions.push(a);
    }
    (phase, actions)
}

#[test]
fn quit_entry_has_quit_id_and_label() {
    let e = quit_entry();
    assert_eq!(e.id, "quit");
    assert_eq!(e.label, "Quit");
    assert!(e.enabled);
}

#[test]
fn is_quit_id_matches_only_quit() {
    assert!(is_quit_id("quit"));
    assert!(!is_quit_id("Quit"));
    assert!(!is_quit_id("quit "));
    assert!(!is_quit_id("qui"));
    assert!(!is_quit_id(""));
}

#[test]
fn start_builds_quit_item_first() {
    assert_eq!(start(), (Phase::Building(Part::QuitItem), Action::Build(Part::QuitItem)));
}

#[test]
fn startup_runs_when_all_parts_build() {
    let (phase, actions) = run_builds(&[true, true, true]);
    assert_eq!(phase, Phase::Running);
    assert_eq!(
        actions,
        vec![
            Action::Build(Part::QuitItem),
            Action::Build(Part::Menu),
            Action::Build(Part::Tray),
            Action::Serve,
        ]
    );
}

#[test]
fn startup_aborts_when_quit_item_fails() {
    let (phase, actions) = run_builds(&[false, true, true]);
    assert_eq!(phase, Phase::Aborted(Part::QuitItem));
    assert_eq!(actions[1], Action::Abort(Part::QuitItem));
    assert_eq!(actions[2], Action::Ignore);
    assert_eq!(actions[3], Action::Ignore);
}

#[test]
fn startup_aborts_when_menu_fails() {
    let (phase, actions) = run_builds(&[true, false, true]);
    assert_eq!(phase, Phase::Aborted(Part::Menu));
    assert_eq!(actions[2], Action::Abort(Part::Menu));
    assert_eq!(actions[3], Action::Ignore);
}

#[test]
fn startup_aborts_when_tray_fails() {
    let (phase, actions) = run_builds(&[true, true, false]);
    assert_eq!(phase, Phase::Aborted(Part::Tray));
    assert_eq!(actions[3], Action::Abort(Part::Tray));
}

#[test]
fn startup_in_progress_is_not_running() {
    assert_eq!(run_builds(&[]).0, Phase::Building(Part::QuitItem));
    assert_eq!(run_builds(&[true]).0, Phase::Building(Part::Menu));
    assert_eq!(run_builds(&[true, true]).0, Phase::Building(Part::Tray));
}

#[test]
fn build_reports_while_running_are_ignored() {
    assert_eq!(step(Phase::Running, &Event::Built), (Phase::Running, Action::Ignore));
    assert_eq!(step(Phase::Running, &Event::BuildFailed), (Phase::Running, Action::Ignore));
}

#[test]
fn exit_command_exits_with_zero() {
    assert_eq!(EXIT_OK, 0);
    assert_eq!(step(Phase::Running, &Event::ExitCommand), (Phase::Exited(0), Action::Exit(0)));
    assert_eq!(
        step(Phase::Building(Part::Tray), &Event::ExitCommand),
        (Phase::Exited(0), Action::Exit(0))
    );
}

#[test]
fn quit_menu_event_exits_with_zero() {
    let ev = Event::MenuActivated("quit".to_string());
    assert_eq!(step(Phase::Running, &ev), (Phase::Exited(0), Action::Exit(0)));
}

#[test]
fn other_menu_events_are_ignored() {
    for id in ["Quit", "quit2", "", "settings"] {
        let ev = Event::MenuActivated(id.to_string());
        assert_eq!(step(Phase::Running, &ev), (Phase::Running, Action::Ignore));
    }
}

#[test]
fn second_exit_has_no_further_effect() {
    let (phase, action) = step(Phase::Running, &Event::ExitCommand);
    assert_eq!(action, Action::Exit(0));
    assert_eq!(step(phase, &Event::ExitCommand), (Phase::Exited(0), Action::Ignore));
    let quit = Event::MenuActivated("quit".to_string());
    assert_eq!(step(phase, &quit), (Phase::Exited(0), Action::Ignore));
}

#[test]
fn aborted_startup_ignores_exit_requests() {
    let ph = Phase::Aborted(Part::Menu);
    assert_eq!(step(ph, &Event::ExitCommand), (ph, Action::Ignore));
}
