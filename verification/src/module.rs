//! The module dispatch state machine: screens are named by a finite state
//! enumeration, exactly one is active, and each handled event yields a
//! directive naming an optional next state, the possibly remapped event,
//! and an optional exit signal. The dispatcher applies the directive:
//! a requested state becomes active and its activation is owed before the
//! next event; an exit directive ends the loop.

use vstd::prelude::*;

use crate::event::Event;
use crate::view_data::ViewData;

verus! {

/// Name of one screen; transitions only ever target members of this set.
#[derive(Clone, Copy, Debug, PartialEq, Eq, Structural)]
pub enum State {
    ConfirmAbort,
    ConfirmRebase,
    Error,
    Insert,
    List,
}

/// Raw event categories a screen asks to have surfaced rather than
/// filtered away.
#[derive(Clone, Copy, Debug, PartialEq, Eq, Structural)]
pub struct InputOptions {
    /// Surface resize events.
    pub resize: bool,
    /// Surface movement (scroll) keys.
    pub movement: bool,
    /// Surface mouse events.
    pub mouse: bool,
    /// Surface the help key.
    pub help: bool,
}

impl InputOptions {
    pub fn new(resize: bool, movement: bool, mouse: bool, help: bool) -> (r: Self)
        ensures
            r == (InputOptions { resize, movement, mouse, help }),
    {
        InputOptions { resize, movement, mouse, help }
    }
}

/// Directive a screen hands back for one event.
#[derive(Clone, Copy, Debug, PartialEq, Eq, Structural)]
pub struct ProcessResult {
    /// Screen to activate next, if a transition is requested.
    pub state: Option<State>,
    /// The handled, possibly remapped, event.
    pub event: Option<Event>,
    /// Whether the application should end.
    pub exit: bool,
}

impl ProcessResult {
    /// Directive that requests nothing.
    pub fn new() -> (r: Self)
        ensures
            r == (ProcessResult { state: None::<State>, event: None::<Event>, exit: false }),
    {
        ProcessResult { state: None, event: None, exit: false }
    }

    /// Directive that records the handled event and requests nothing else.
    pub fn from_event(event: Event) -> (r: Self)
        ensures
            r == (ProcessResult { state: None::<State>, event: Some(event), exit: false }),
    {
        ProcessResult { state: None, event: Some(event), exit: false }
    }

    /// The same directive, now requesting a transition to `state`.
    pub fn state(self, state: State) -> (r: Self)
        ensures
            r == (ProcessResult { state: Some(state), ..self }),
    {
        ProcessResult { state: Some(state), ..self }
    }

    /// The same directive, now signalling exit.
    pub fn exit(self) -> (r: Self)
        ensures
            r == (ProcessResult { exit: true, ..self }),
    {
        ProcessResult { exit: true, ..self }
    }
}

/// What the dispatcher does with a directive.
#[derive(Clone, Copy, Debug, PartialEq, Eq, Structural)]
pub struct Dispatch {
    /// The screen that is active after the directive.
    pub active: State,
    /// Whether that screen still owes an activation before the next event.
    pub activation_pending: bool,
    /// Whether the loop ends.
    pub exit: bool,
}

/// The dispatcher's reading of a directive: a requested state becomes the
/// active one and owes an activation; otherwise the active screen stays
/// and owes nothing; the exit signal passes through either way.
pub open spec fn spec_apply_directive(active: State, result: ProcessResult) -> Dispatch {
    match result.state {
        Some(next) => Dispatch { active: next, activation_pending: true, exit: result.exit },
        None => Dispatch { active, activation_pending: false, exit: result.exit },
    }
}

/// Apply a screen's directive to the active state: exactly the requested
/// transition happens, the target owes an activation before it handles any
/// event, and an exit directive ends the loop.
pub fn apply_directive(active: State, result: &ProcessResult) -> (r: Dispatch)
    ensures
        r == spec_apply_directive(active, *result),
{
    match result.state {
        Some(next) => Dispatch { active: next, activation_pending: true, exit: result.exit },
        None => Dispatch { active, activation_pending: false, exit: result.exit },
    }
}

/// Terminal extent handed to a screen when it builds its content.
#[derive(Clone, Copy, Debug, PartialEq, Eq, Structural)]
pub struct RenderContext {
    pub width: usize,
    pub height: usize,
}

impl RenderContext {
    pub fn new(width: usize, height: usize) -> (r: Self)
        ensures
            r == (RenderContext { width, height }),
    {
        RenderContext { width, height }
    }

    pub fn width(&self) -> (r: usize)
        ensures
            r == self.width,
    {
        self.width
    }

    pub fn height(&self) -> (r: usize)
        ensures
            r == self.height,
    {
        self.height
    }
}

/// The capability a pluggable screen implements: reset on activation,
/// declarative content, declared input interests, and event handling.
/// The framework performs no implicit reset; `activate` owns it.
pub trait Module {
    /// Called once when this screen becomes active; resets the screen's
    /// transient state.
    fn activate(&mut self, previous: State) -> ProcessResult;

    /// This tick's declarative content; safe to call repeatedly.
    fn build_view_data(&mut self, context: &RenderContext) -> &ViewData;

    /// Which raw event categories this screen wants surfaced.
    fn input_options(&self) -> InputOptions;

    /// Handle one translated event and hand back a directive.
    fn handle_event(&mut self, event: Event) -> ProcessResult;
}

} // verus!
