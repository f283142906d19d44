use vstd::prelude::*;

verus! {

/// The step hook's status at and above which the simulation has reached
/// its end and the step loop must leave.
pub const TERMINATION_STATUS: i32 = 3;

/// A fatal start-up failure: the simulation artifact is missing or one of
/// its required entry points cannot be resolved.
#[derive(Clone, Copy, Debug, PartialEq, Eq, Structural)]
pub enum KernelError {
    ArtifactLoadError,
}

/// The lifecycle of one loaded simulation kernel. The states advance in a
/// fixed order; each setup hook is invoked exactly once, then the step
/// hook repeats until the run terminates.
#[derive(Clone, Copy, Debug, PartialEq, Eq, Structural)]
pub enum KernelState {
    NotLoaded,
    Loaded,
    OptionsSet,
    Elaborated,
    Initialized,
    Running,
    Stopped,
}

/// The outside work the driver performs in each state: resolve the
/// artifact's entry points, invoke one setup hook, invoke the step hook,
/// or unload the artifact.
#[derive(Clone, Copy, Debug, PartialEq, Eq, Structural)]
pub enum KernelAction {
    LoadArtifact,
    SetOptions,
    Elaborate,
    InitSimulation,
    Step,
    Teardown,
}

/// The action owed in each state, in the fixed setup order, then stepping
/// while running, then teardown.
pub open spec fn spec_next_action(s: KernelState) -> KernelAction {
    match s {
        KernelState::NotLoaded => KernelAction::LoadArtifact,
        KernelState::Loaded => KernelAction::SetOptions,
        KernelState::OptionsSet => KernelAction::Elaborate,
        KernelState::Elaborated => KernelAction::InitSimulation,
        KernelState::Initialized => KernelAction::Step,
        KernelState::Running => KernelAction::Step,
        KernelState::Stopped => KernelAction::Teardown,
    }
}

/// Whether the step loop takes another step: only while the last step
/// status is below the termination threshold and no stop has been
/// requested.
pub open spec fn spec_step_continue(status: i32, stop_requested: bool) -> bool {
    status < TERMINATION_STATUS && !stop_requested
}

/// The state after the pending action completed, given the step status it
/// returned (meaningful only for a step) and whether the stop flag was
/// observed. Setup transitions are unconditional and never retried; the
/// running state persists exactly while the step loop continues; the
/// stopped state is final.
pub open spec fn spec_advance(s: KernelState, status: i32, stop_requested: bool) -> KernelState {
    match s {
        KernelState::NotLoaded => KernelState::Loaded,
        KernelState::Loaded => KernelState::OptionsSet,
        KernelState::OptionsSet => KernelState::Elaborated,
        KernelState::Elaborated => KernelState::Initialized,
        KernelState::Initialized => if spec_step_continue(status, stop_requested) {
            KernelState::Running
        } else {
            KernelState::Stopped
        },
        KernelState::Running => if spec_step_continue(status, stop_requested) {
            KernelState::Running
        } else {
            KernelState::Stopped
        },
        KernelState::Stopped => KernelState::Stopped,
    }
}

pub fn next_action(s: KernelState) -> (r: KernelAction)
    ensures
        r == spec_next_action(s),
{
    match s {
        KernelState::NotLoaded => KernelAction::LoadArtifact,
        KernelState::Loaded => KernelAction::SetOptions,
        KernelState::OptionsSet => KernelAction::Elaborate,
        KernelState::Elaborated => KernelAction::InitSimulation,
        KernelState::Initialized => KernelAction::Step,
        KernelState::Running => KernelAction::Step,
        KernelState::Stopped => KernelAction::Teardown,
    }
}

pub fn step_continue(status: i32, stop_requested: bool) -> (r: bool)
    ensures
        r == spec_step_continue(status, stop_requested),
{
    status < TERMINATION_STATUS && !stop_requested
}

pub fn advance(s: KernelState, status: i32, stop_requested: bool) -> (r: KernelState)
    ensures
        r == spec_advance(s, status, stop_requested),
{
    match s {
        KernelState::NotLoaded => KernelState::Loaded,
        KernelState::Loaded => KernelState::OptionsSet,
        KernelState::OptionsSet => KernelState::Elaborated,
        KernelState::Elaborated => KernelState::Initialized,
        KernelState::Initialized | KernelState::Running => {
            if step_continue(status, stop_requested) {
                KernelState::Running
            } else {
                KernelState::Stopped
            }
        },
        KernelState::Stopped => KernelState::Stopped,
    }
}

/// Once the stop flag is observed between steps, the loop takes no further
/// step and the machine reaches its final state at that very transition,
/// whatever status the last step returned: stopping is bounded by one
/// transition after the flag is seen.
pub proof fn lemma_stop_terminates(s: KernelState, status: i32)
    requires
        s == KernelState::Initialized || s == KernelState::Running || s == KernelState::Stopped,
    ensures
        !spec_step_continue(status, true),
        spec_advance(s, status, true) == KernelState::Stopped,
{
}

/// A step status at or above the termination threshold ends the run just
/// as a stop request does.
pub proof fn lemma_terminal_status_stops(s: KernelState, status: i32, stop_requested: bool)
    requires
        s == KernelState::Initialized || s == KernelState::Running,
        status >= TERMINATION_STATUS,
    ensures
        spec_advance(s, status, stop_requested) == KernelState::Stopped,
{
}

} // verus!
