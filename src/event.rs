use vstd::prelude::*;

use crate::channel::{post, unbounded_channel};

verus! {

/// Whether a hotkey went down or came up.
#[derive(Clone, Copy, Debug, PartialEq, Eq, PartialOrd, Ord, Hash, Structural)]
pub enum HotKeyState {
    Pressed,
    Released,
}

/// A hotkey went down or came up; `id` is the id of that hotkey.
#[derive(Clone, Copy, Debug, PartialEq, Eq, PartialOrd, Ord, Hash, Structural)]
pub struct GlobalHotKeyEvent {
    pub id: u32,
    pub state: HotKeyState,
}

/// Where the events of a bus go.
pub enum EventRoute<F> {
    /// Nothing was chosen yet.
    Unset,
    /// Events go to the channel, and no handler can be set any more.
    Channel,
    /// Events go to this handler, and never to the channel.
    Handler(F),
}

/// Carries hotkey events from the backends to the application: to a
/// channel that the application polls, or to a handler that it set. The
/// first choice made is the one that holds.
pub struct EventBus<F> {
    route: EventRoute<F>,
    sender: crossbeam_channel::Sender<GlobalHotKeyEvent>,
    receiver: crossbeam_channel::Receiver<GlobalHotKeyEvent>,
    handed: Ghost<Seq<GlobalHotKeyEvent>>,
}

impl<F: Fn(GlobalHotKeyEvent)> EventBus<F> {
    pub closed spec fn route(&self) -> EventRoute<F> {
        self.route
    }

    /// Every event handed to the channel so far, in order.
    pub closed spec fn handed(&self) -> Seq<GlobalHotKeyEvent> {
        self.handed@
    }

    /// The receiving end of the bus's channel.
    pub closed spec fn channel(&self) -> crossbeam_channel::Receiver<GlobalHotKeyEvent> {
        self.receiver
    }

    /// Whether the handler, if one is set, takes every event.
    pub open spec fn wf(&self) -> bool {
        match self.route() {
            EventRoute::Handler(h) => forall|e: GlobalHotKeyEvent| h.requires((e,)),
            _ => true,
        }
    }

    /// A bus with a fresh channel and no choice made yet.
    pub fn new() -> (r: EventBus<F>)
        ensures
            r.route() is Unset,
            r.wf(),
            r.handed() == Seq::<GlobalHotKeyEvent>::empty(),
    {
        let (sender, receiver) = unbounded_channel();
        EventBus { route: EventRoute::Unset, sender, receiver, handed: Ghost(Seq::empty()) }
    }
}

impl GlobalHotKeyEvent {
    /// The channel that the events of `bus` reach while no handler is set.
    pub fn receiver<F: Fn(GlobalHotKeyEvent)>(bus: &EventBus<F>) -> (r:
        &crossbeam_channel::Receiver<GlobalHotKeyEvent>)
        ensures
            *r == bus.channel(),
    {
        &bus.receiver
    }

    /// Chooses where the events of `bus` go: to `f` where it is `Some`, to
    /// the channel otherwise. Only the first choice counts; later ones
    /// change nothing.
    pub fn set_event_handler<F: Fn(GlobalHotKeyEvent)>(bus: &mut EventBus<F>, f: Option<F>)
        requires
            old(bus).wf(),
            f matches Some(h) ==> forall|e: GlobalHotKeyEvent| h.requires((e,)),
        ensures
            final(bus).wf(),
            old(bus).route() is Unset ==> final(bus).route() == match f {
                Some(h) => EventRoute::Handler(h),
                None => EventRoute::<F>::Channel,
            },
            !(old(bus).route() is Unset) ==> final(bus).route() == old(bus).route(),
            final(bus).channel() == old(bus).channel(),
            final(bus).handed() == old(bus).handed(),
    {
        if let EventRoute::Unset = bus.route {
            bus.route = match f {
                Some(h) => EventRoute::Handler(h),
                None => EventRoute::Channel,
            };
        }
    }

    /// Hands `event` to the handler of `bus` where one is set, and puts it
    /// on the channel otherwise; a channel that nobody reads drops it. A
    /// send on a bus with no choice made yet chooses the channel, so no
    /// handler can be set after events went out.
    pub fn send<F: Fn(GlobalHotKeyEvent)>(bus: &mut EventBus<F>, event: GlobalHotKeyEvent)
        requires
            old(bus).wf(),
        ensures
            final(bus).wf(),
            final(bus).channel() == old(bus).channel(),
            old(bus).route() is Unset ==> final(bus).route() is Channel,
            !(old(bus).route() is Unset) ==> final(bus).route() == old(bus).route(),
            old(bus).route() matches EventRoute::Handler(h) ==> h.ensures((event,), ())
                && final(bus).handed() == old(bus).handed(),
            !(old(bus).route() is Handler) ==> final(bus).handed() == old(bus).handed().push(event),
    {
        if let EventRoute::Unset = bus.route {
            bus.route = EventRoute::Channel;
        }
        match &bus.route {
            EventRoute::Handler(h) => {
                h(event);
            },
            _ => {
                let _ = post(&bus.sender, event);
                bus.handed = Ghost(bus.handed@.push(event));
            },
        }
    }
}

} // verus!
