//! Decisions of the one-time startup sequence.
//!
//! The host framework owns the window and the event loop; what this module
//! owns is the plan: which styling steps a platform gets, in what order, and
//! how each outside report (window lookup, styling step result) moves startup
//! forward — to readiness only when every step succeeded, to an abort
//! otherwise.

use vstd::prelude::*;

verus! {

/// The corner radius, in pixels, of the translucent material applied to the
/// main window.
pub const VIBRANCY_CORNER_RADIUS: u32 = 16;

/// The compile targets the startup sequence distinguishes: only macOS gets
/// any window styling.
#[derive(Clone, Copy, Debug, PartialEq, Eq, Structural)]
pub enum Platform {
    MacOs,
    Other,
}

/// One styling step of the platform-conditional window setup.
#[derive(Clone, Copy, Debug, PartialEq, Eq, Structural)]
pub enum SetupAction {
    /// Apply the hud-window translucent material to the main window, with no
    /// tint or state override and the given corner radius.
    ApplyVibrancy { corner_radius: u32 },
    /// Remove the native window decorations, so the rounded corners of the
    /// material show.
    RemoveDecorations,
}

/// The styling steps a platform gets, in the order they run.
pub open spec fn spec_setup_actions(platform: Platform) -> Seq<SetupAction> {
    match platform {
        Platform::MacOs => seq![
            SetupAction::ApplyVibrancy { corner_radius: VIBRANCY_CORNER_RADIUS },
            SetupAction::RemoveDecorations,
        ],
        Platform::Other => seq![],
    }
}

/// Returns the styling steps for `platform`, in the order they must run:
/// on macOS the vibrancy material and then the decoration removal, elsewhere
/// no step at all.
pub fn setup_actions(platform: Platform) -> (r: Vec<SetupAction>)
    ensures
        r@ == spec_setup_actions(platform),
{
    match platform {
        Platform::MacOs => {
            let mut r: Vec<SetupAction> = Vec::new();
            r.push(SetupAction::ApplyVibrancy { corner_radius: VIBRANCY_CORNER_RADIUS });
            r.push(SetupAction::RemoveDecorations);
            proof {
                assert(r@ =~= spec_setup_actions(platform));
            }
            r
        },
        Platform::Other => {
            let r: Vec<SetupAction> = Vec::new();
            proof {
                assert(r@ =~= spec_setup_actions(platform));
            }
            r
        },
    }
}

/// The fixed identifier under which the host framework registers the main
/// window.
pub fn main_window_label() -> (r: &'static str)
    ensures
        r@ == "main"@,
{
    "main"
}

/// Why startup aborted. Every abort is fatal by design: it happens once, at
/// boot, before any command becomes invocable.
#[derive(Clone, Copy, Debug, PartialEq, Eq, Structural)]
pub enum StartupFailure {
    /// No window was registered under the fixed main-window identifier.
    MainWindowMissing,
    /// The compositor refused the translucent material.
    VibrancyFailed,
    /// The native decorations could not be removed.
    DecorationsFailed,
}

/// The abort reason when styling step `action` fails.
pub open spec fn spec_action_failure(action: SetupAction) -> StartupFailure {
    match action {
        SetupAction::ApplyVibrancy { .. } => StartupFailure::VibrancyFailed,
        SetupAction::RemoveDecorations => StartupFailure::DecorationsFailed,
    }
}

/// Returns the abort reason for a failure of styling step `action`.
pub fn action_failure(action: SetupAction) -> (r: StartupFailure)
    ensures
        r == spec_action_failure(action),
{
    match action {
        SetupAction::ApplyVibrancy { .. } => StartupFailure::VibrancyFailed,
        SetupAction::RemoveDecorations => StartupFailure::DecorationsFailed,
    }
}

impl StartupFailure {
    /// The diagnostic the process dies with when startup aborts for this
    /// reason.
    pub open spec fn spec_message(self) -> Seq<char> {
        match self {
            StartupFailure::MainWindowMissing => "main window not found"@,
            StartupFailure::VibrancyFailed => "Failed to apply vibrancy effect"@,
            StartupFailure::DecorationsFailed => "Failed to unset decorations"@,
        }
    }

    /// Returns the diagnostic the process dies with for this abort reason.
    pub fn message(&self) -> (r: &'static str)
        ensures
            r@ == self.spec_message(),
    {
        match self {
            StartupFailure::MainWindowMissing => "main window not found",
            StartupFailure::VibrancyFailed => "Failed to apply vibrancy effect",
            StartupFailure::DecorationsFailed => "Failed to unset decorations",
        }
    }
}

/// Where the one-time startup sequence stands. The sequence is strictly
/// sequential: each phase waits for exactly one outside report before it
/// moves on, and `Ready` and `Aborted` are final.
#[derive(Clone, Copy, Debug, PartialEq, Eq, Structural)]
pub enum StartupPhase {
    /// Waiting for the host to report whether the main window was found.
    AwaitingWindow,
    /// Waiting for the result of the styling step at index `next` of the
    /// setup order.
    Styling { next: usize },
    /// Startup is complete: the main window is visible, every styling step
    /// succeeded, and commands may become invocable.
    Ready,
    /// Startup failed; the process terminates before any command becomes
    /// invocable.
    Aborted { failure: StartupFailure },
}

/// A phase is well formed when any styling index it holds points into the
/// platform's setup order.
pub open spec fn phase_wf(platform: Platform, phase: StartupPhase) -> bool {
    phase matches StartupPhase::Styling { next } ==> next < spec_setup_actions(platform).len()
}

/// How one outside report moves startup forward. `ok` is the outcome of the
/// step the phase was waiting for: the window lookup in `AwaitingWindow`, the
/// pending styling step in `Styling`. The final phases stay put.
pub open spec fn spec_advance(platform: Platform, phase: StartupPhase, ok: bool) -> StartupPhase {
    match phase {
        StartupPhase::AwaitingWindow => if !ok {
            StartupPhase::Aborted { failure: StartupFailure::MainWindowMissing }
        } else if spec_setup_actions(platform).len() == 0 {
            StartupPhase::Ready
        } else {
            StartupPhase::Styling { next: 0 }
        },
        StartupPhase::Styling { next } => if !ok {
            StartupPhase::Aborted {
                failure: spec_action_failure(spec_setup_actions(platform)[next as int]),
            }
        } else if next + 1 == spec_setup_actions(platform).len() {
            StartupPhase::Ready
        } else {
            StartupPhase::Styling { next: (next + 1) as usize }
        },
        StartupPhase::Ready => StartupPhase::Ready,
        StartupPhase::Aborted { failure } => StartupPhase::Aborted { failure },
    }
}

/// Moves startup one step forward on an outside report: `ok` is the outcome
/// of the step `phase` was waiting for. Well-formedness of the phase is kept.
pub fn advance(platform: Platform, phase: StartupPhase, ok: bool) -> (next_phase: StartupPhase)
    requires
        phase_wf(platform, phase),
    ensures
        next_phase == spec_advance(platform, phase, ok),
        phase_wf(platform, next_phase),
{
    match phase {
        StartupPhase::AwaitingWindow => {
            if !ok {
                StartupPhase::Aborted { failure: StartupFailure::MainWindowMissing }
            } else {
                let actions = setup_actions(platform);
                if actions.len() == 0 {
                    StartupPhase::Ready
                } else {
                    StartupPhase::Styling { next: 0 }
                }
            }
        },
        StartupPhase::Styling { next } => {
            let actions = setup_actions(platform);
            if !ok {
                StartupPhase::Aborted { failure: action_failure(actions[next]) }
            } else if next + 1 == actions.len() {
                StartupPhase::Ready
            } else {
                StartupPhase::Styling { next: next + 1 }
            }
        },
        StartupPhase::Ready => StartupPhase::Ready,
        StartupPhase::Aborted { failure } => StartupPhase::Aborted { failure },
    }
}

/// The first `count` reports in `events` were all successes.
pub open spec fn all_ok(events: Seq<bool>, count: int) -> bool {
    forall|i: int| 0 <= i < count ==> events[i]
}

/// The phase startup reaches after the outside reports in `events`, in
/// order, starting from `AwaitingWindow`.
pub open spec fn spec_run(platform: Platform, events: Seq<bool>) -> StartupPhase
    decreases events.len(),
{
    if events.len() == 0 {
        StartupPhase::AwaitingWindow
    } else {
        spec_advance(platform, spec_run(platform, events.drop_last()), events.last())
    }
}

/// Exactly where a run of the startup sequence stands after any series of
/// outside reports: still at the window lookup only before the first report;
/// mid-styling exactly while every report so far succeeded and steps remain;
/// ready exactly when the window lookup and every styling step succeeded.
pub proof fn lemma_run_characterization(platform: Platform, events: Seq<bool>)
    ensures
        phase_wf(platform, spec_run(platform, events)),
        spec_run(platform, events) is AwaitingWindow <==> events.len() == 0,
        spec_run(platform, events) matches StartupPhase::Styling { next } ==> {
            &&& next + 1 == events.len()
            &&& events.len() <= spec_setup_actions(platform).len()
            &&& all_ok(events, events.len() as int)
        },
        1 <= events.len() <= spec_setup_actions(platform).len() && all_ok(
            events,
            events.len() as int,
        ) ==> spec_run(platform, events) == (StartupPhase::Styling {
            next: (events.len() - 1) as usize,
        }),
        spec_run(platform, events) is Ready <==> {
            &&& events.len() > spec_setup_actions(platform).len()
            &&& all_ok(events, spec_setup_actions(platform).len() as int + 1)
        },
    decreases events.len(),
{
    let n = spec_setup_actions(platform).len() as int;
    if events.len() > 0 {
        let prefix = events.drop_last();
        lemma_run_characterization(platform, prefix);
        assert(forall|i: int| 0 <= i < prefix.len() ==> events[i] == prefix[i]);
        if spec_run(platform, events) is Ready {
            assert(all_ok(events, n + 1));
        }
        if events.len() > n && all_ok(events, n + 1) {
            if events.len() == n + 1 {
                assert(all_ok(prefix, n));
                assert(events.last() == events[n]);
            } else {
                assert(all_ok(prefix, n + 1));
            }
        }
    }
}

/// Startup is all or nothing: once the window lookup and each styling step
/// have reported, the sequence stands at `Ready` or at `Aborted` — never at a
/// partially initialized phase — and it stands at `Ready` exactly when every
/// one of those reports was a success.
pub proof fn lemma_startup_all_or_nothing(platform: Platform, events: Seq<bool>)
    requires
        events.len() > spec_setup_actions(platform).len(),
    ensures
        spec_run(platform, events) is Ready || spec_run(platform, events) is Aborted,
        spec_run(platform, events) is Ready <==> all_ok(
            events,
            spec_setup_actions(platform).len() as int + 1,
        ),
{
    lemma_run_characterization(platform, events);
}

/// Off macOS there is no styling step at all: the setup order is empty, and
/// a successful window lookup alone completes startup.
pub proof fn lemma_no_styling_off_macos(events: Seq<bool>)
    ensures
        spec_setup_actions(Platform::Other) =~= Seq::<SetupAction>::empty(),
        spec_run(Platform::Other, events) is Ready <==> events.len() >= 1 && events[0],
{
    lemma_run_characterization(Platform::Other, events);
}

} // verus!
