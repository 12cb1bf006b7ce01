use vstd::prelude::*;
use crate::events::{
    decode_event, parse_logs, spec_events, spec_lines, spec_payloads, Event, Notification,
};
use crate::types::{base58_text, Address, EventContext};

verus! {

/// Where a subscription stands in its life.
#[derive(Debug, Clone, Copy, PartialEq, Eq, Structural)]
pub enum SubscriptionState {
    /// The log stream has been asked for and is not open yet.
    Initializing,
    /// The stream is open; nothing has arrived.
    Subscribed,
    /// At least one notification has been handled.
    Delivering,
    /// A stop was asked for; the task has not exited yet.
    Unsubscribing,
    /// The task has exited. Nothing follows.
    Closed,
}

/// What `unsubscribe` does, in order.
#[derive(Debug, Clone, Copy, PartialEq, Eq, Structural)]
pub enum ShutdownStep {
    /// Send the stop signal over the control channel.
    SignalStop,
    /// Wait until the background task has exited.
    AwaitExit,
}

/// The state of the background task of one subscription.
#[derive(Debug, Clone, Copy)]
pub struct Subscription {
    /// The program whose events this subscription delivers.
    pub program: Address,
    /// The tag of the event type that this subscription delivers.
    pub tag: [u8; 8],
    pub state: SubscriptionState,
    /// How many events were handed to the callback so far (saturating).
    pub delivered: u64,
}

/// The handle that stops a subscription. It is used up by `unsubscribe`.
#[derive(Debug)]
pub struct EventUnsubscriber {
    pub subscription: Subscription,
}

/// A finished shutdown: the steps taken, and the task's final state.
#[derive(Debug)]
pub struct Shutdown {
    pub steps: Vec<ShutdownStep>,
    pub subscription: Subscription,
}

impl Subscription {
    /// Whether a notification that arrives in this state is delivered.
    pub open spec fn spec_delivers(&self) -> bool {
        self.state == SubscriptionState::Subscribed || self.state == SubscriptionState::Delivering
    }

    /// The event payloads that a notification gives rise to in this state.
    pub open spec fn spec_deliveries(&self, notification: &Notification) -> Seq<Seq<u8>> {
        if self.spec_delivers() {
            spec_events(spec_lines(notification.logs@), self.tag@, base58_text(self.program.bytes@))
        } else {
            Seq::empty()
        }
    }

    /// The state that follows a notification.
    pub open spec fn spec_after(&self, notification: &Notification) -> Subscription {
        if self.spec_delivers() {
            let n = self.spec_deliveries(notification).len();
            Subscription {
                program: self.program,
                tag: self.tag,
                state: SubscriptionState::Delivering,
                delivered: if self.delivered + n > u64::MAX {
                    u64::MAX
                } else {
                    (self.delivered + n) as u64
                },
            }
        } else {
            *self
        }
    }

    /// This subscription after its task has exited.
    pub open spec fn spec_closed(&self) -> Subscription {
        Subscription {
            program: self.program,
            tag: self.tag,
            state: SubscriptionState::Closed,
            delivered: self.delivered,
        }
    }

    /// Everything that a run of notifications gives rise to, one after the
    /// other, from this state on.
    pub open spec fn spec_deliveries_of_all(&self, notifications: Seq<Notification>) -> Seq<
        Seq<u8>,
    >
        decreases notifications.len(),
    {
        if notifications.len() == 0 {
            Seq::empty()
        } else {
            self.spec_deliveries(&notifications[0]) + self.spec_after(
                &notifications[0],
            ).spec_deliveries_of_all(notifications.skip(1))
        }
    }

    /// A subscription to the events of `program` of the type tagged `tag`,
    /// before its stream opens.
    pub fn new(program: Address, tag: [u8; 8]) -> (s: Subscription)
        ensures
            s == (Subscription {
                program,
                tag,
                state: SubscriptionState::Initializing,
                delivered: 0,
            }),
    {
        Subscription { program, tag, state: SubscriptionState::Initializing, delivered: 0 }
    }

    /// The answer to the stream request has come: an open stream makes an
    /// initializing subscription subscribed, a refusal closes it. In any
    /// other state nothing changes.
    pub fn stream_opened(&mut self, opened: bool)
        ensures
            final(self).program == old(self).program,
            final(self).tag == old(self).tag,
            final(self).delivered == old(self).delivered,
            final(self).state == if old(self).state == SubscriptionState::Initializing {
                if opened {
                    SubscriptionState::Subscribed
                } else {
                    SubscriptionState::Closed
                }
            } else {
                old(self).state
            },
    {
        if self.state == SubscriptionState::Initializing {
            if opened {
                self.state = SubscriptionState::Subscribed;
            } else {
                self.state = SubscriptionState::Closed;
            }
        }
    }

    /// Handles one notification: the events of this subscription's type that
    /// its program emitted, in the log's order, to be handed to the codec and
    /// then to the callback. Only
    /// a subscribed or delivering subscription delivers; in every other
    /// state the notification is dropped and nothing changes.
    pub fn deliver(&mut self, notification: &Notification) -> (events: Vec<Event>)
        ensures
            *final(self) == old(self).spec_after(notification),
            spec_payloads(events@) == old(self).spec_deliveries(notification),
            forall|i: int| 0 <= i < events@.len() ==> events@[i].context == (EventContext {
                signature: notification.signature,
                slot: notification.slot,
            }),
    {
        let delivers = self.state == SubscriptionState::Subscribed
            || self.state == SubscriptionState::Delivering;
        if !delivers {
            let none: Vec<Event> = Vec::new();
            assert(spec_payloads(none@) =~= Seq::<Seq<u8>>::empty());
            return none;
        }
        let events = parse_logs(notification, &self.tag, &self.program);
        assert(spec_payloads(events@).len() == events@.len());
        let n: usize = events.len();
        let room: u64 = u64::MAX - self.delivered;
        if n as u64 > room {
            self.delivered = u64::MAX;
        } else {
            self.delivered = self.delivered + n as u64;
        }
        self.state = SubscriptionState::Delivering;
        events
    }

    /// Hands one delivered event to the codec, for the callback. An event
    /// that the codec rejects is fatal to the subscription: it is closed,
    /// its task exits, and nothing is delivered any more.
    pub fn dispatch<T, F: Fn(&Vec<u8>) -> Option<T>>(&mut self, event: &Event, decode: &F) -> (r:
        Option<(EventContext, T)>)
        requires
            forall|data: &Vec<u8>| decode.requires((data,)),
        ensures
            match r {
                Some(pair) => pair.0 == event.context && decode.ensures(
                    (&event.payload,),
                    Some(pair.1),
                ) && *final(self) == *old(self),
                None => decode.ensures((&event.payload,), None::<T>)
                    && *final(self) == old(self).spec_closed(),
            },
    {
        match decode_event(event, decode) {
            Ok(pair) => Some(pair),
            Err(_) => {
                self.state = SubscriptionState::Closed;
                None
            },
        }
    }

    /// The stream ended or failed: the task exits, whatever the state was.
    pub fn stream_ended(&mut self)
        ensures
            *final(self) == old(self).spec_closed(),
    {
        self.state = SubscriptionState::Closed;
    }

    /// A stop signal arrived: a subscription that is not closed yet stops
    /// delivering at once.
    pub fn stop_requested(&mut self)
        ensures
            final(self).program == old(self).program,
            final(self).tag == old(self).tag,
            final(self).delivered == old(self).delivered,
            final(self).state == if old(self).state == SubscriptionState::Closed {
                SubscriptionState::Closed
            } else {
                SubscriptionState::Unsubscribing
            },
            !final(self).spec_delivers(),
    {
        if self.state != SubscriptionState::Closed {
            self.state = SubscriptionState::Unsubscribing;
        }
    }
}

impl EventUnsubscriber {
    /// The handle of `subscription`.
    pub fn new(subscription: Subscription) -> (handle: EventUnsubscriber)
        ensures
            handle.subscription == subscription,
    {
        EventUnsubscriber { subscription }
    }

    /// Stops the subscription: first the stop signal, then the wait for the
    /// task's exit. Whatever state the subscription was in, it is closed
    /// afterwards, with the events it had delivered by then.
    pub fn unsubscribe(self) -> (done: Shutdown)
        ensures
            done.steps@ == seq![ShutdownStep::SignalStop, ShutdownStep::AwaitExit],
            done.subscription == self.subscription.spec_closed(),
    {
        let mut subscription = self.subscription;
        let mut steps: Vec<ShutdownStep> = Vec::new();
        steps.push(ShutdownStep::SignalStop);
        subscription.stop_requested();
        steps.push(ShutdownStep::AwaitExit);
        subscription.stream_ended();
        assert(steps@ =~= seq![ShutdownStep::SignalStop, ShutdownStep::AwaitExit]);
        Shutdown { steps, subscription }
    }
}

} // verus!
