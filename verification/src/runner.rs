use crate::config::VulkanoWinitConfig;
use vstd::prelude::*;

verus! {

/// What the event loop does once the current event is handled.
#[derive(Clone, Copy, Debug, PartialEq, Eq, Structural)]
pub enum ControlFlow {
    /// Go on with the next event without waiting.
    Poll,
    /// Leave the loop.
    Exit,
}

/// How the event loop is entered.
#[derive(Clone, Copy, Debug, PartialEq, Eq, Structural)]
pub enum RunMode {
    /// The loop takes over the thread and never returns.
    Run,
    /// The loop hands control back once it has exited.
    RunReturn,
}

/// An event of the window system, as far as the loop's decisions depend on
/// it.
#[derive(Clone, Copy, Debug, PartialEq, Eq, Structural)]
pub enum LoopEvent {
    /// An event addressed to a window; `window_known` tells whether the
    /// window is registered with the application.
    Window { window_known: bool },
    /// Raw mouse motion from a device.
    MouseMotion,
    /// The application was suspended.
    Suspended,
    /// The application was resumed.
    Resumed,
    /// All events of this iteration have been delivered.
    MainEventsCleared,
    /// Anything else.
    Other,
}

/// What the loop does about an event.
#[derive(Clone, Copy, Debug, PartialEq, Eq, Structural)]
pub enum LoopAction {
    /// Nothing.
    Ignore,
    /// Drop the event with a warning: it names a window nobody knows.
    SkipUnknownWindow,
    /// Convert the window event and send it to the application.
    ForwardWindowEvent,
    /// Send the mouse motion to the application.
    ForwardMouseMotion,
    /// Create the windows the application asked for, then, if `update` is
    /// set, run one application update.
    CreateWindows { update: bool },
}

/// The part of the event loop that outlives a single event: whether the
/// application is running or suspended.
#[derive(Clone, Copy, Debug, PartialEq, Eq, Structural)]
pub struct RunnerState {
    active: bool,
}

impl RunnerState {
    /// Whether the application is running.
    pub closed spec fn active(self) -> bool {
        self.active
    }

    /// The runner after `event`: suspension and resumption switch it off and
    /// on, nothing else touches it.
    pub open spec fn after(self, event: LoopEvent) -> bool {
        match event {
            LoopEvent::Suspended => false,
            LoopEvent::Resumed => true,
            _ => self.active(),
        }
    }

    /// What `event` calls for in this state.
    pub open spec fn action(self, event: LoopEvent) -> LoopAction {
        match event {
            LoopEvent::Window { window_known } => if window_known {
                LoopAction::ForwardWindowEvent
            } else {
                LoopAction::SkipUnknownWindow
            },
            LoopEvent::MouseMotion => LoopAction::ForwardMouseMotion,
            LoopEvent::MainEventsCleared => LoopAction::CreateWindows { update: self.active() },
            _ => LoopAction::Ignore,
        }
    }

    /// A runner at the start of the loop: the application is running.
    pub fn new() -> (runner: RunnerState)
        ensures
            runner.active(),
    {
        RunnerState { active: true }
    }

    /// Whether the application is running.
    pub fn is_active(&self) -> (active: bool)
        ensures
            active == self.active(),
    {
        self.active
    }

    /// Handles one event: records suspension and resumption, and tells the
    /// loop what to do. Window events go to the application when their window
    /// is known and are dropped otherwise; at the end of an iteration pending
    /// windows are created and, unless the application is suspended, it is
    /// updated once.
    pub fn handle(&mut self, event: LoopEvent) -> (action: LoopAction)
        ensures
            final(self).active() == old(self).after(event),
            action == old(self).action(event),
    {
        match event {
            LoopEvent::Window { window_known } => {
                if window_known {
                    LoopAction::ForwardWindowEvent
                } else {
                    LoopAction::SkipUnknownWindow
                }
            },
            LoopEvent::MouseMotion => LoopAction::ForwardMouseMotion,
            LoopEvent::Suspended => {
                self.active = false;
                LoopAction::Ignore
            },
            LoopEvent::Resumed => {
                self.active = true;
                LoopAction::Ignore
            },
            LoopEvent::MainEventsCleared => LoopAction::CreateWindows { update: self.active },
            LoopEvent::Other => LoopAction::Ignore,
        }
    }
}

/// The loop leaves as soon as the application has asked to exit and polls
/// otherwise.
pub fn control_flow(exit_requested: bool) -> (flow: ControlFlow)
    ensures
        exit_requested ==> flow == ControlFlow::Exit,
        !exit_requested ==> flow == ControlFlow::Poll,
{
    if exit_requested {
        ControlFlow::Exit
    } else {
        ControlFlow::Poll
    }
}

/// The loop returns to its caller only when a configuration is present and
/// asks for it.
pub fn run_mode(config: Option<&VulkanoWinitConfig>) -> (mode: RunMode)
    ensures
        mode == (if config matches Some(present) && present.return_from_run {
            RunMode::RunReturn
        } else {
            RunMode::Run
        }),
{
    match config {
        Some(present) => {
            if present.return_from_run {
                RunMode::RunReturn
            } else {
                RunMode::Run
            }
        },
        None => RunMode::Run,
    }
}

/// What closing `window_entity` amounts to, as the pair (the application
/// exits, the window is closed).
pub open spec fn close_decision(
    window_entity: u64,
    primary_window: Option<u64>,
    window_is_open: bool,
) -> (bool, bool) {
    if primary_window != Some(window_entity) {
        if primary_window.is_some() {
            (false, window_is_open)
        } else {
            (true, false)
        }
    } else {
        (true, false)
    }
}

/// Decides what a request to close `window_entity` leads to. The
/// application exits when the window is the primary one or when no primary
/// window is left; otherwise the window is closed if it is still open, and
/// nothing happens if it is already gone. The first component tells whether
/// the application exits, the second whether the window is to be closed and
/// removed from the registry.
pub fn close_window(
    window_entity: u64,
    primary_window: Option<u64>,
    window_is_open: bool,
) -> (decision: (bool, bool))
    ensures
        decision == close_decision(window_entity, primary_window, window_is_open),
        !(decision.0 && decision.1),
{
    match primary_window {
        Some(primary) => {
            if window_entity == primary {
                return (true, false);
            }
        },
        None => {
            return (true, false);
        },
    }
    if !window_is_open {
        return (false, false);
    }
    (false, true)
}

} // verus!
