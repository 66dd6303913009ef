//! The event dispatch bridge's decision logic.
//!
//! The foreign runtime delivers every event through one C-style callback
//! taking a raw integer code and two auxiliary parameters. The bridge
//! around that callback owns the shared handler slot, the containment
//! boundary and the serialization lock; the decisions it takes — whether
//! a handler runs, which sentinel goes back to the runtime, and what
//! follows a handler failure — are fixed here, so that every path hands
//! the runtime a well-defined integer.

use vstd::prelude::*;

verus! {

/// Sentinel returned to the foreign runtime when no handler is registered.
pub const RESULT_UNHANDLED: i32 = -2;

/// Sentinel returned when the raw event code maps to no known event;
/// the handler is not invoked.
pub const RESULT_UNRECOGNIZED: i32 = -1;

/// Sentinel returned after the registered handler failed uncontrolled,
/// distinct from the other sentinels so the runtime cannot mistake a
/// contained failure for a normal negative result.
pub const RESULT_HANDLER_FAILED: i32 = -3;

/// Seconds the bridge stalls after a handler failure, so a human operator
/// can notice the failure notice before control returns to the runtime.
pub const FAILURE_COOLDOWN_SECONDS: u64 = 10;

/// Milliseconds the failure notice stays on screen.
pub const FAILURE_NOTICE_TIMEOUT_MS: i32 = 10000;

/// A typed event decoded from the runtime's raw integer code. The two
/// auxiliary parameters that accompany a code are event-specific and
/// opaque to the bridge; they are forwarded to the handler unchanged.
#[derive(Debug, Copy, Clone, PartialEq, Eq, Structural)]
pub enum Event {
    Init,
    Exit,
    Show,
    Hide,
    KeyDown,
    KeyUp,
    KeyRepeat,
    PointerUp,
    PointerDown,
    PointerMove,
}

/// The raw integer code the foreign runtime uses for each event.
pub open spec fn event_code_spec(e: Event) -> int {
    match e {
        Event::Init => 21,
        Event::Exit => 22,
        Event::Show => 23,
        Event::Hide => 24,
        Event::KeyDown => 25,
        Event::KeyUp => 26,
        Event::KeyRepeat => 28,
        Event::PointerUp => 29,
        Event::PointerDown => 30,
        Event::PointerMove => 31,
    }
}

/// The event a raw code decodes to, `None` for an unmapped code.
pub open spec fn decoded_event(raw: int) -> Option<Event> {
    if raw == 21 {
        Some(Event::Init)
    } else if raw == 22 {
        Some(Event::Exit)
    } else if raw == 23 {
        Some(Event::Show)
    } else if raw == 24 {
        Some(Event::Hide)
    } else if raw == 25 {
        Some(Event::KeyDown)
    } else if raw == 26 {
        Some(Event::KeyUp)
    } else if raw == 28 {
        Some(Event::KeyRepeat)
    } else if raw == 29 {
        Some(Event::PointerUp)
    } else if raw == 30 {
        Some(Event::PointerDown)
    } else if raw == 31 {
        Some(Event::PointerMove)
    } else {
        None
    }
}

impl Event {
    /// The raw integer code of this event.
    pub fn code(&self) -> (c: i32)
        ensures
            c as int == event_code_spec(*self),
    {
        match *self {
            Event::Init => 21,
            Event::Exit => 22,
            Event::Show => 23,
            Event::Hide => 24,
            Event::KeyDown => 25,
            Event::KeyUp => 26,
            Event::KeyRepeat => 28,
            Event::PointerUp => 29,
            Event::PointerDown => 30,
            Event::PointerMove => 31,
        }
    }

    /// Decodes a raw code into its typed event, `None` for a code that
    /// maps to no known event.
    pub fn from_code(raw: i32) -> (r: Option<Event>)
        ensures
            r == decoded_event(raw as int),
    {
        if raw == 21 {
            Some(Event::Init)
        } else if raw == 22 {
            Some(Event::Exit)
        } else if raw == 23 {
            Some(Event::Show)
        } else if raw == 24 {
            Some(Event::Hide)
        } else if raw == 25 {
            Some(Event::KeyDown)
        } else if raw == 26 {
            Some(Event::KeyUp)
        } else if raw == 28 {
            Some(Event::KeyRepeat)
        } else if raw == 29 {
            Some(Event::PointerUp)
        } else if raw == 30 {
            Some(Event::PointerDown)
        } else if raw == 31 {
            Some(Event::PointerMove)
        } else {
            None
        }
    }
}

/// The application-side event handler. Application code implements this
/// trait; the bridge invokes it with the decoded event and the two raw
/// parameters, and hands its integer result back to the foreign runtime.
pub trait EventHandler {
    /// Handles one decoded event; the returned integer goes back to the
    /// foreign runtime unchanged.
    fn handle_event(&mut self, event: Event, par1: i32, par2: i32) -> i32;
}

/// What the bridge does with one callback invocation, decided before any
/// handler code runs.
#[derive(Debug, Copy, Clone, PartialEq, Eq, Structural)]
pub enum Step {
    /// Return this code to the runtime at once; no handler runs.
    Return(i32),
    /// Invoke the registered handler with this decoded event.
    Invoke(Event),
}

/// Decides what one callback invocation does, from the bridge's state
/// (whether a handler is registered) and the raw event code: with no
/// handler registered nothing runs and the unhandled sentinel goes back;
/// with an unmapped code the handler is not invoked and the unrecognized
/// sentinel goes back; otherwise the handler is invoked with the decoded
/// event.
pub fn dispatch_step(handler_registered: bool, raw_code: i32) -> (s: Step)
    ensures
        !handler_registered ==> s == Step::Return(RESULT_UNHANDLED),
        handler_registered ==> s == (match decoded_event(raw_code as int) {
            Some(e) => Step::Invoke(e),
            None => Step::Return(RESULT_UNRECOGNIZED),
        }),
{
    if !handler_registered {
        Step::Return(RESULT_UNHANDLED)
    } else {
        match Event::from_code(raw_code) {
            Some(e) => Step::Invoke(e),
            None => Step::Return(RESULT_UNRECOGNIZED),
        }
    }
}

/// What came of invoking the handler under the containment boundary:
/// either it completed with a result, or it failed uncontrolled and the
/// boundary intercepted the failure.
#[derive(Debug, Copy, Clone, PartialEq, Eq, Structural)]
pub enum HandlerOutcome {
    /// The handler returned this value normally.
    Completed(i32),
    /// The handler failed uncontrolled; the failure was intercepted at
    /// the containment boundary.
    Failed,
}

/// What the bridge does after the handler ran: the integer handed back to
/// the foreign runtime, whether the failure notice is shown, and how long
/// the calling thread stalls before returning.
#[derive(Debug, Copy, Clone, PartialEq, Eq, Structural)]
pub struct Conclusion {
    /// The integer returned to the foreign runtime.
    pub return_code: i32,
    /// Whether the visible failure notice is shown (exactly once per
    /// failing invocation).
    pub notify: bool,
    /// Seconds to stall before control returns to the runtime.
    pub cooldown_seconds: u64,
}

/// Decides how one handler invocation concludes: a completed handler's
/// result goes back unchanged with no notice and no stall; a failed one
/// is reported once, followed by the fixed cooldown, and the distinct
/// handler-failed sentinel goes back in its place.
pub fn conclude(outcome: &HandlerOutcome) -> (c: Conclusion)
    ensures
        (*outcome) matches HandlerOutcome::Completed(v) ==> c == (Conclusion {
            return_code: v,
            notify: false,
            cooldown_seconds: 0,
        }),
        (*outcome) is Failed ==> c == (Conclusion {
            return_code: RESULT_HANDLER_FAILED,
            notify: true,
            cooldown_seconds: FAILURE_COOLDOWN_SECONDS,
        }),
{
    match outcome {
        HandlerOutcome::Completed(v) => Conclusion {
            return_code: *v,
            notify: false,
            cooldown_seconds: 0,
        },
        HandlerOutcome::Failed => Conclusion {
            return_code: RESULT_HANDLER_FAILED,
            notify: true,
            cooldown_seconds: FAILURE_COOLDOWN_SECONDS,
        },
    }
}

} // verus!
