//! The event system the whole application shares.
use vstd::prelude::*;
use crate::event_system::event_system::EventSystem;
use crate::event_system::event_types::{Event, EventListener, EventType, NativeEventHandler};

verus! {

/// The application-wide event system. The application keeps the one
/// instance and hands every subscription and event to it.
#[verifier::reject_recursive_types(L)]
#[verifier::reject_recursive_types(H)]
pub struct GlobalEventSystem<L, H> {
    system: EventSystem<L, H>,
}

impl<L, H> GlobalEventSystem<L, H> {
    /// The event system behind this instance.
    pub closed spec fn inner(&self) -> EventSystem<L, H> {
        self.system
    }

    /// The shared event system, with no subscriptions yet and `handler` as
    /// its native handler.
    pub fn initialize(handler: H) -> (res: Self)
        ensures
            res.inner().subscription_types() == Seq::<EventType>::empty(),
            res.inner().listeners() == Seq::<L>::empty(),
            res.inner().handler() == handler,
    {
        GlobalEventSystem { system: EventSystem::new(handler) }
    }

    /// Subscribes `listener` to events of type `event_type`.
    pub fn subscribe(&mut self, event_type: EventType, listener: L)
        ensures
            final(self).inner().subscription_types() == old(self).inner().subscription_types().push(
                event_type,
            ),
            final(self).inner().listeners() == old(self).inner().listeners().push(listener),
            final(self).inner().handler() == old(self).inner().handler(),
    {
        self.system.subscribe(event_type, listener)
    }

    /// Hands `event` to the listeners subscribed to its type, in
    /// subscription order.
    pub fn notify<P>(&self, event: &Event<P>) where L: EventListener<P>
        ensures
            self.inner().dispatched(event),
    {
        self.system.notify(event)
    }

    /// Parses a raw keyboard event and notifies the event it yields, if any.
    pub fn receive_native_keyboard_event<R: ?Sized, P>(&self, raw_event: &R) where
        H: NativeEventHandler<R, P>,
        L: EventListener<P>,
        ensures
            exists|parsed: Option<Event<P>>|
                #[trigger] call_ensures(
                    H::parse_keyboard_event,
                    (&self.inner().handler(), raw_event),
                    parsed,
                ) && (parsed matches Some(e) ==> self.inner().dispatched(&e)),
    {
        self.system.receive_native_keyboard_event(raw_event)
    }

    /// Parses a raw mouse event and notifies the event it yields, if any.
    pub fn receive_native_mouse_event<R: ?Sized, P>(&self, raw_event: &R) where
        H: NativeEventHandler<R, P>,
        L: EventListener<P>,
        ensures
            exists|parsed: Option<Event<P>>|
                #[trigger] call_ensures(
                    H::parse_mouse_event,
                    (&self.inner().handler(), raw_event),
                    parsed,
                ) && (parsed matches Some(e) ==> self.inner().dispatched(&e)),
    {
        self.system.receive_native_mouse_event(raw_event)
    }
}

} // verus!
