//! Dispatch of events to the listeners that subscribed to their type.
use vstd::prelude::*;
use crate::event_system::event_types::{Event, EventListener, EventType, NativeEventHandler};

verus! {

/// The positions, in subscription order, of the subscriptions to `t` in a
/// list of subscription types.
pub open spec fn subscriptions_to(types: Seq<EventType>, t: EventType) -> Seq<int>
    decreases types.len(),
{
    if types.len() == 0 {
        Seq::empty()
    } else {
        let rest = subscriptions_to(types.drop_last(), t);
        if types.last() == t {
            rest.push(types.len() - 1)
        } else {
            rest
        }
    }
}

/// An event system: listeners subscribe to event types, events are handed to
/// the listeners of their type in the order they subscribed, and raw
/// platform events are parsed by a native handler before they are handed on.
///
/// `L` is the type of the listeners and `H` that of the native handler.
#[verifier::reject_recursive_types(L)]
#[verifier::reject_recursive_types(H)]
pub struct EventSystem<L, H> {
    subscribers: Vec<(EventType, L)>,
    native_handler: H,
}

impl<L, H> EventSystem<L, H> {
    /// The event type of each subscription, in subscription order.
    pub closed spec fn subscription_types(&self) -> Seq<EventType> {
        self.subscribers@.map_values(|s: (EventType, L)| s.0)
    }

    /// The listener of each subscription, in subscription order.
    pub closed spec fn listeners(&self) -> Seq<L> {
        self.subscribers@.map_values(|s: (EventType, L)| s.1)
    }

    /// The handler that parses raw platform events.
    pub closed spec fn handler(&self) -> H {
        self.native_handler
    }

    /// An event system with no subscriptions.
    pub fn new(native_handler: H) -> (res: Self)
        ensures
            res.subscription_types() == Seq::<EventType>::empty(),
            res.listeners() == Seq::<L>::empty(),
            res.handler() == native_handler,
    {
        let res = EventSystem { subscribers: Vec::new(), native_handler };
        assert(res.subscription_types() =~= Seq::<EventType>::empty());
        assert(res.listeners() =~= Seq::<L>::empty());
        res
    }

    /// Each subscription has one type and one listener: the two lists are
    /// equally long.
    pub proof fn lemma_aligned(&self)
        ensures
            self.subscription_types().len() == self.listeners().len(),
    {
    }

    /// Subscribes `listener` to events of type `event_type`, after the
    /// listeners already subscribed.
    pub fn subscribe(&mut self, event_type: EventType, listener: L)
        ensures
            final(self).subscription_types() == old(self).subscription_types().push(event_type),
            final(self).listeners() == old(self).listeners().push(listener),
            final(self).handler() == old(self).handler(),
    {
        self.subscribers.push((event_type, listener));
        assert(self.subscription_types() =~= old(self).subscription_types().push(event_type));
        assert(self.listeners() =~= old(self).listeners().push(listener));
    }

    /// The subscriptions that an event of type `event_type` is handed to,
    /// in the order [`EventSystem::notify`] hands it to them.
    pub fn listeners_for(&self, event_type: EventType) -> (res: Vec<usize>)
        ensures
            res@.map_values(|i: usize| i as int) == subscriptions_to(
                self.subscription_types(),
                event_type,
            ),
            forall|j: int| 0 <= j < res@.len() ==> #[trigger] res@[j] < self.listeners().len(),
    {
        let ghost types = self.subscription_types();
        let n = self.subscribers.len();
        let mut res: Vec<usize> = Vec::new();
        for i in 0..n
            invariant
                n == types.len(),
                types == self.subscription_types(),
                n == self.listeners().len(),
                res@.map_values(|i: usize| i as int) == subscriptions_to(types.take(i as int), event_type),
                forall|j: int| 0 <= j < res@.len() ==> #[trigger] res@[j] < i,
        {
            assert(types.take(i + 1).drop_last() =~= types.take(i as int));
            if self.subscribers[i].0 == event_type {
                let ghost before = res@;
                res.push(i);
                assert(res@.map_values(|i: usize| i as int) =~= before.map_values(|i: usize| i as int).push(
                    i as int,
                ));
            }
        }
        assert(types.take(n as int) =~= types);
        res
    }

    /// `event` has been handed to every listener subscribed to its type: for
    /// each such subscription, the listener's `update` has run on it.
    pub open spec fn dispatched<P>(&self, event: &Event<P>) -> bool where L: EventListener<P> {
        forall|j: int|
            0 <= j < subscriptions_to(self.subscription_types(), event.event_type).len()
                ==> #[trigger] call_ensures(
                L::update,
                (&self.listeners()[subscriptions_to(self.subscription_types(), event.event_type)[j]], event),
                (),
            )
    }

    /// Hands `event` to every listener subscribed to its type, in
    /// subscription order: the listeners that
    /// [`EventSystem::listeners_for`] names.
    pub fn notify<P>(&self, event: &Event<P>) where L: EventListener<P>
        ensures
            self.dispatched(event),
    {
        let ghost positions = subscriptions_to(self.subscription_types(), event.event_type);
        let order = self.listeners_for(event.event_type);
        let m = order.len();
        for j in 0..m
            invariant
                m == order@.len(),
                order@.map_values(|i: usize| i as int) == positions,
                positions == subscriptions_to(self.subscription_types(), event.event_type),
                forall|k: int| 0 <= k < order@.len() ==> #[trigger] order@[k] < self.listeners().len(),
                self.listeners().len() == self.subscribers@.len(),
                forall|k: int|
                    0 <= k < j ==> #[trigger] call_ensures(
                        L::update,
                        (&self.listeners()[positions[k]], event),
                        (),
                    ),
        {
            let i = order[j];
            assert(positions[j as int] == i as int);
            assert(self.listeners()[i as int] == self.subscribers@[i as int].1);
            self.subscribers[i].1.update(event);
        }
    }

    /// Parses a raw keyboard event with the native handler and, where it
    /// yields an event, notifies that event.
    pub fn receive_native_keyboard_event<R: ?Sized, P>(&self, event: &R) where
        H: NativeEventHandler<R, P>,
        L: EventListener<P>,
        ensures
            exists|parsed: Option<Event<P>>|
                #[trigger] call_ensures(H::parse_keyboard_event, (&self.handler(), event), parsed) && (
                parsed matches Some(e) ==> self.dispatched(&e)),
    {
        if let Some(evt) = self.native_handler.parse_keyboard_event(event) {
            self.notify(&evt);
        }
    }

    /// Parses a raw mouse event with the native handler and, where it yields
    /// an event, notifies that event.
    pub fn receive_native_mouse_event<R: ?Sized, P>(&self, event: &R) where
        H: NativeEventHandler<R, P>,
        L: EventListener<P>,
        ensures
            exists|parsed: Option<Event<P>>|
                #[trigger] call_ensures(H::parse_mouse_event, (&self.handler(), event), parsed) && (
                parsed matches Some(e) ==> self.dispatched(&e)),
    {
        if let Some(evt) = self.native_handler.parse_mouse_event(event) {
            self.notify(&evt);
        }
    }
}

/// Subscribing to `t` puts the new subscription last among those that an
/// event of type `t` is handed to, and changes nothing for other types.
pub proof fn law_subscribe_dispatch(types: Seq<EventType>, t: EventType, u: EventType)
    ensures
        subscriptions_to(types.push(t), t) == subscriptions_to(types, t).push(types.len() as int),
        u != t ==> subscriptions_to(types.push(t), u) == subscriptions_to(types, u),
{
    assert(types.push(t).drop_last() =~= types);
}

/// After `listener` subscribes to `t`, an event of type `t` is handed to it
/// last, after the listeners it was handed to before, which keep their
/// places.
pub proof fn law_subscribe_reaches<L, H>(
    before: EventSystem<L, H>,
    after: EventSystem<L, H>,
    t: EventType,
    listener: L,
)
    requires
        after.subscription_types() == before.subscription_types().push(t),
        after.listeners() == before.listeners().push(listener),
    ensures
        subscriptions_to(after.subscription_types(), t) == subscriptions_to(
            before.subscription_types(),
            t,
        ).push(before.listeners().len() as int),
        after.listeners()[subscriptions_to(after.subscription_types(), t).last()] == listener,
        forall|i: int|
            0 <= i < before.listeners().len() ==> #[trigger] after.listeners()[i] == before.listeners()[i],
{
    before.lemma_aligned();
    law_subscribe_dispatch(before.subscription_types(), t, t);
}

/// An event of type `t` is handed to exactly the subscriptions to `t`, each
/// once, in subscription order.
pub proof fn law_dispatch_exact(types: Seq<EventType>, t: EventType)
    ensures
        forall|i: int|
            0 <= i < types.len() ==> (types[i] == t <==> subscriptions_to(types, t).contains(i)),
        forall|a: int, b: int|
            0 <= a < b < subscriptions_to(types, t).len() ==> #[trigger] subscriptions_to(types, t)[a]
                < #[trigger] subscriptions_to(types, t)[b],
        forall|a: int|
            0 <= a < subscriptions_to(types, t).len() ==> 0 <= #[trigger] subscriptions_to(types, t)[a]
                < types.len(),
    decreases types.len(),
{
    if types.len() > 0 {
        let d = types.drop_last();
        law_dispatch_exact(d, t);
        let s = subscriptions_to(types, t);
        let sd = subscriptions_to(d, t);
        assert forall|i: int| 0 <= i < types.len() implies (types[i] == t <==> s.contains(i)) by {
            if i < d.len() {
                assert(types[i] == d[i]);
                if sd.contains(i) {
                    let w = choose|w: int| 0 <= w < sd.len() && sd[w] == i;
                    assert(s[w] == i);
                }
                if s.contains(i) {
                    let w = choose|w: int| 0 <= w < s.len() && s[w] == i;
                    if w < sd.len() {
                        assert(s[w] == sd[w]);
                    }
                }
            } else {
                if types.last() == t {
                    assert(s[s.len() - 1] == i);
                } else {
                    if s.contains(i) {
                        let w = choose|w: int| 0 <= w < s.len() && s[w] == i;
                        assert(s[w] == sd[w]);
                    }
                }
            }
        }
    }
}

} // verus!
