//! Events and the traits that produce and consume them.
use vstd::prelude::*;

verus! {

/// What an event is about.
#[derive(Clone, Copy, Debug, PartialEq, Eq, Structural, Hash)]
pub enum EventType {
    Move,
    RotateCamera,
    KeyboardDown,
    KeyboardUp,
    MouseMove,
}

/// An event: its type and a payload of the application's choosing.
pub struct Event<P> {
    pub event_type: EventType,
    pub payload: P,
}

/// Something that reacts to events it subscribed to.
pub trait EventListener<P> {
    fn update(&self, event: &Event<P>);
}

/// Turns the platform's raw input events, of type `R`, into events.
pub trait NativeEventHandler<R: ?Sized, P>: Send + Sync {
    fn parse_keyboard_event(&self, event: &R) -> Option<Event<P>>;

    fn parse_mouse_event(&self, event: &R) -> Option<Event<P>>;

    fn parse_mouse_click_event(&self, event: &R) -> Option<Event<P>>;

    fn should_process_mouse_movement(&self) -> bool;
}

} // verus!
