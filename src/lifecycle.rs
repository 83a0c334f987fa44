use vstd::prelude::*;

use crate::menu::{is_quit_id, quit_id_spec};

verus! {

/// Exit status of a process that quits on request.
pub const EXIT_OK: i32 = 0;

/// The parts that startup builds, in the order it builds them.
#[derive(PartialEq, Eq, Structural, Clone, Copy, Debug)]
pub enum Part {
    QuitItem,
    Menu,
    Tray,
}

/// Where the application stands.
#[derive(PartialEq, Eq, Structural, Clone, Copy, Debug)]
pub enum Phase {
    /// Startup is building this part.
    Building(Part),
    /// Startup finished; the run loop serves events.
    Running,
    /// The process terminated with this exit status.
    Exited(i32),
    /// Startup failed while building this part; the process aborts.
    Aborted(Part),
}

/// What the host reports to the application.
pub enum Event {
    /// The part under construction was built.
    Built,
    /// Building the part under construction returned an error.
    BuildFailed,
    /// The front end invoked the exit command.
    ExitCommand,
    /// A tray menu entry with this identifier was activated.
    MenuActivated(String),
}

/// What the host is asked to do next.
#[derive(PartialEq, Eq, Structural, Clone, Copy, Debug)]
pub enum Action {
    /// Build this part.
    Build(Part),
    /// Hand control to the run loop.
    Serve,
    /// Terminate the process with this exit status.
    Exit(i32),
    /// Give up startup: building this part failed.
    Abort(Part),
    /// Do nothing.
    Ignore,
}

/// The part built after `p`, if any.
pub open spec fn part_after(p: Part) -> Option<Part> {
    match p {
        Part::QuitItem => Some(Part::Menu),
        Part::Menu => Some(Part::Tray),
        Part::Tray => None,
    }
}

/// A phase in which the process is still alive.
pub open spec fn is_live(ph: Phase) -> bool {
    ph is Building || ph is Running
}

/// The phase and action that startup begins with.
pub open spec fn initial() -> (Phase, Action) {
    (Phase::Building(Part::QuitItem), Action::Build(Part::QuitItem))
}

/// How `ev` moves the application from `ph`, and what the host is asked to do.
pub open spec fn next(ph: Phase, ev: Event) -> (Phase, Action) {
    if !is_live(ph) {
        (ph, Action::Ignore)
    } else {
        match ev {
            Event::ExitCommand => (Phase::Exited(EXIT_OK), Action::Exit(EXIT_OK)),
            Event::MenuActivated(id) => if id@ == quit_id_spec() {
                (Phase::Exited(EXIT_OK), Action::Exit(EXIT_OK))
            } else {
                (ph, Action::Ignore)
            },
            Event::Built => match ph {
                Phase::Building(p) => match part_after(p) {
                    Some(q) => (Phase::Building(q), Action::Build(q)),
                    None => (Phase::Running, Action::Serve),
                },
                _ => (ph, Action::Ignore),
            },
            Event::BuildFailed => match ph {
                Phase::Building(p) => (Phase::Aborted(p), Action::Abort(p)),
                _ => (ph, Action::Ignore),
            },
        }
    }
}

/// Begins startup: the quit item is built first.
pub fn start() -> (r: (Phase, Action))
    ensures
        r == initial(),
{
    (Phase::Building(Part::QuitItem), Action::Build(Part::QuitItem))
}

/// The part built after `p`, if any.
pub fn next_part(p: Part) -> (r: Option<Part>)
    ensures
        r == part_after(p),
{
    match p {
        Part::QuitItem => Some(Part::Menu),
        Part::Menu => Some(Part::Tray),
        Part::Tray => None,
    }
}

/// Decides the next phase and the host's next action when `ev` arrives in phase `ph`.
pub fn step(ph: Phase, ev: &Event) -> (r: (Phase, Action))
    ensures
        r == next(ph, *ev),
{
    match ph {
        Phase::Exited(_) | Phase::Aborted(_) => (ph, Action::Ignore),
        _ => match ev {
            Event::ExitCommand => (Phase::Exited(EXIT_OK), Action::Exit(EXIT_OK)),
            Event::MenuActivated(id) => {
                if is_quit_id(id.as_str()) {
                    (Phase::Exited(EXIT_OK), Action::Exit(EXIT_OK))
                } else {
                    (ph, Action::Ignore)
                }
            },
            Event::Built => match ph {
                Phase::Building(p) => match next_part(p) {
                    Some(q) => (Phase::Building(q), Action::Build(q)),
                    None => (Phase::Running, Action::Serve),
                },
                _ => (ph, Action::Ignore),
            },
            Event::BuildFailed => match ph {
                Phase::Building(p) => (Phase::Aborted(p), Action::Abort(p)),
                _ => (ph, Action::Ignore),
            },
        },
    }
}

/// The event that reports one build outcome.
pub open spec fn build_event(ok: bool) -> Event {
    if ok {
        Event::Built
    } else {
        Event::BuildFailed
    }
}

/// The phase reached from the start after the build outcomes `outcomes`, in order.
pub open spec fn after_builds(outcomes: Seq<bool>) -> Phase
    decreases outcomes.len(),
{
    if outcomes.len() == 0 {
        initial().0
    } else {
        next(after_builds(outcomes.drop_last()), build_event(outcomes.last())).0
    }
}

/// The phase of startup stated directly: the first failure among the three builds aborts,
/// and with none the application runs once all three are built.
pub open spec fn startup_phase(outcomes: Seq<bool>) -> Phase {
    if outcomes.len() >= 1 && !outcomes[0] {
        Phase::Aborted(Part::QuitItem)
    } else if outcomes.len() >= 2 && !outcomes[1] {
        Phase::Aborted(Part::Menu)
    } else if outcomes.len() >= 3 && !outcomes[2] {
        Phase::Aborted(Part::Tray)
    } else if outcomes.len() == 0 {
        Phase::Building(Part::QuitItem)
    } else if outcomes.len() == 1 {
        Phase::Building(Part::Menu)
    } else if outcomes.len() == 2 {
        Phase::Building(Part::Tray)
    } else {
        Phase::Running
    }
}

proof fn lemma_after_builds(outcomes: Seq<bool>)
    ensures
        after_builds(outcomes) == startup_phase(outcomes),
    decreases outcomes.len(),
{
    if outcomes.len() > 0 {
        let prev = outcomes.drop_last();
        lemma_after_builds(prev);
        assert(forall|i: int| 0 <= i < prev.len() ==> prev[i] == outcomes[i]);
    }
}

/// The exit command ends every live phase with exit status zero, and leaves the process
/// terminated from any phase.
pub proof fn lemma_exit_command_exits(ph: Phase)
    ensures
        !is_live(next(ph, Event::ExitCommand).0),
        is_live(ph) ==> next(ph, Event::ExitCommand) == (Phase::Exited(0), Action::Exit(0)),
{
}

/// Activating the tray entry identified by "quit" ends every live phase with exit status
/// zero, and leaves the process terminated from any phase.
pub proof fn lemma_quit_entry_exits(ph: Phase, id: String)
    requires
        id@ == quit_id_spec(),
    ensures
        !is_live(next(ph, Event::MenuActivated(id)).0),
        is_live(ph) ==> next(ph, Event::MenuActivated(id)) == (Phase::Exited(0), Action::Exit(0)),
{
}

/// Activating any other tray entry changes nothing and asks the host for nothing.
pub proof fn lemma_other_entry_ignored(ph: Phase, id: String)
    requires
        id@ != quit_id_spec(),
    ensures
        next(ph, Event::MenuActivated(id)) == (ph, Action::Ignore),
{
}

/// Startup reaches the running phase exactly when the quit item, the menu and the tray
/// are all built; once one of them fails, startup aborts and never runs, whatever is
/// reported afterwards.
pub proof fn lemma_startup_runs_iff_all_built(outcomes: Seq<bool>)
    ensures
        (after_builds(outcomes) == Phase::Running) <==> (outcomes.len() >= 3 && outcomes[0]
            && outcomes[1] && outcomes[2]),
        (exists|i: int| 0 <= i < 3 && i < outcomes.len() && !outcomes[i]) ==> after_builds(
            outcomes,
        ) is Aborted,
{
    lemma_after_builds(outcomes);
    if exists|i: int| 0 <= i < 3 && i < outcomes.len() && !outcomes[i] {
        let i = choose|i: int| 0 <= i < 3 && i < outcomes.len() && !outcomes[i];
        assert(i == 0 || i == 1 || i == 2);
    }
}

} // verus!
