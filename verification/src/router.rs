//! The in-process table of native subscribers.

use crate::effect::{copy_payload, effects_view, option_view, Effect, EffectView};
use crate::ident::next_id;
use vstd::prelude::*;

verus! {

/// One native subscription: the identifier that the subscriber is known by
/// and the event name that it subscribed to.
pub struct Subscription {
    pub subscriber: u64,
    pub event: String,
}

/// The mathematical value of a [`Subscription`].
pub struct SubscriptionView {
    pub subscriber: u64,
    pub event: Seq<char>,
}

impl View for Subscription {
    type V = SubscriptionView;

    open spec fn view(&self) -> SubscriptionView {
        SubscriptionView { subscriber: self.subscriber, event: self.event@ }
    }
}

/// The subscriptions to `event` among `subscriptions`, in registration order.
pub open spec fn subscriptions_to(
    subscriptions: Seq<SubscriptionView>,
    event: Seq<char>,
) -> Seq<SubscriptionView> {
    subscriptions.filter(|s: SubscriptionView| s.event == event)
}

/// The subscriptions that are left when every subscription of `subscriber`
/// has ended, in registration order.
pub open spec fn subscriptions_without(
    subscriptions: Seq<SubscriptionView>,
    subscriber: u64,
) -> Seq<SubscriptionView> {
    subscriptions.filter(|s: SubscriptionView| s.subscriber != subscriber)
}

/// The native deliveries of one event: one for each subscription to `event`,
/// in registration order, each with the event name and the payload as given.
pub open spec fn native_deliveries(
    subscriptions: Seq<SubscriptionView>,
    event: Seq<char>,
    payload: Option<Seq<char>>,
) -> Seq<EffectView> {
    subscriptions_to(subscriptions, event).map_values(
        |s: SubscriptionView| EffectView::NotifyNative { subscriber: s.subscriber, event, payload },
    )
}

/// A subscription made last is delivered to last, and only if it is to the
/// event that is triggered.
pub proof fn lemma_native_deliveries_push(
    subscriptions: Seq<SubscriptionView>,
    last: SubscriptionView,
    event: Seq<char>,
    payload: Option<Seq<char>>,
)
    ensures
        native_deliveries(subscriptions.push(last), event, payload) == if last.event == event {
            native_deliveries(subscriptions, event, payload).push(
                EffectView::NotifyNative { subscriber: last.subscriber, event, payload },
            )
        } else {
            native_deliveries(subscriptions, event, payload)
        },
{
    reveal(Seq::filter);
    assert(subscriptions.push(last).drop_last() =~= subscriptions);
    if last.event == event {
        assert(subscriptions_to(subscriptions.push(last), event) == subscriptions_to(
            subscriptions,
            event,
        ).push(last));
        assert(native_deliveries(subscriptions.push(last), event, payload)
            =~= native_deliveries(subscriptions, event, payload).push(
            EffectView::NotifyNative { subscriber: last.subscriber, event, payload },
        ));
    } else {
        assert(subscriptions_to(subscriptions.push(last), event) == subscriptions_to(
            subscriptions,
            event,
        ));
    }
}

/// The table of native subscribers.
///
/// Its value is the sequence of subscriptions in the order in which they were
/// made. Nothing is buffered: an event reaches the subscriptions that exist
/// when it is triggered. An identifier that was subscribed twice to one event
/// holds two subscriptions and is delivered to twice.
pub struct NativeRouter {
    subscriptions: Vec<Subscription>,
}

impl View for NativeRouter {
    type V = Seq<SubscriptionView>;

    closed spec fn view(&self) -> Seq<SubscriptionView> {
        self.subscriptions@.map_values(|s: Subscription| s@)
    }
}

impl NativeRouter {
    /// A router without subscriptions.
    pub fn new() -> (router: Self)
        ensures
            router@ == Seq::<SubscriptionView>::empty(),
    {
        let router = NativeRouter { subscriptions: Vec::new() };
        assert(router@ =~= Seq::<SubscriptionView>::empty());
        router
    }

    /// Subscribes `subscriber` to `event`, behind all earlier subscriptions.
    pub fn subscribe(&mut self, subscriber: u64, event: String)
        ensures
            final(self)@ == old(self)@.push(SubscriptionView { subscriber, event: event@ }),
    {
        self.subscriptions.push(Subscription { subscriber, event });
        assert(self@ =~= old(self)@.push(SubscriptionView { subscriber, event: event@ }));
    }

    /// Subscribes a new native listener to `event`, behind all earlier
    /// subscriptions, under an identifier drawn at random, and returns the
    /// identifier.
    pub fn listen(&mut self, event: String) -> (subscriber: u64)
        ensures
            final(self)@ == old(self)@.push(SubscriptionView { subscriber, event: event@ }),
    {
        let subscriber = next_id();
        self.subscribe(subscriber, event);
        subscriber
    }

    /// Ends every subscription of `subscriber`. The other subscriptions keep
    /// their order.
    pub fn unsubscribe(&mut self, subscriber: u64)
        ensures
            final(self)@ == subscriptions_without(old(self)@, subscriber),
    {
        let mut kept: Vec<Subscription> = Vec::new();
        let mut i: usize = 0;
        while i < self.subscriptions.len()
            invariant
                i <= self.subscriptions.len(),
                kept@.map_values(|s: Subscription| s@) == subscriptions_without(
                    self@.take(i as int),
                    subscriber,
                ),
            decreases self.subscriptions.len() - i,
        {
            let subscription = &self.subscriptions[i];
            proof {
                reveal(Seq::filter);
                assert(self@.take(i + 1).drop_last() =~= self@.take(i as int));
                assert(self@.take(i + 1).last() == subscription@);
            }
            if subscription.subscriber != subscriber {
                kept.push(
                    Subscription {
                        subscriber: subscription.subscriber,
                        event: subscription.event.clone(),
                    },
                );
                assert(kept@.map_values(|s: Subscription| s@) =~= subscriptions_without(
                    self@.take(i + 1),
                    subscriber,
                ));
            }
            i += 1;
        }
        assert(self@.take(i as int) =~= self@);
        self.subscriptions = kept;
    }

    /// The number of subscriptions.
    pub fn len(&self) -> (n: usize)
        ensures
            n == self@.len(),
    {
        self.subscriptions.len()
    }

    /// Delivers `event` to the native side: lists one delivery for each
    /// subscription to `event`, in registration order. Every delivery carries
    /// a copy of the payload of its own, so that no subscriber can change what
    /// another one receives.
    pub fn trigger(&self, event: &String, payload: &Option<String>) -> (deliveries: Vec<Effect>)
        ensures
            effects_view(deliveries@) == native_deliveries(self@, event@, option_view(*payload)),
    {
        let mut deliveries: Vec<Effect> = Vec::new();
        let mut i: usize = 0;
        while i < self.subscriptions.len()
            invariant
                i <= self.subscriptions.len(),
                effects_view(deliveries@) == native_deliveries(
                    self@.take(i as int),
                    event@,
                    option_view(*payload),
                ),
            decreases self.subscriptions.len() - i,
        {
            let subscription = &self.subscriptions[i];
            proof {
                assert(self@.take(i + 1) =~= self@.take(i as int).push(subscription@));
                lemma_native_deliveries_push(
                    self@.take(i as int),
                    subscription@,
                    event@,
                    option_view(*payload),
                );
            }
            if subscription.event == *event {
                deliveries.push(
                    Effect::NotifyNative {
                        subscriber: subscription.subscriber,
                        event: event.clone(),
                        payload: copy_payload(payload),
                    },
                );
                assert(effects_view(deliveries@) =~= native_deliveries(
                    self@.take(i + 1),
                    event@,
                    option_view(*payload),
                ));
            }
            i += 1;
        }
        assert(self@.take(i as int) =~= self@);
        deliveries
    }
}

} // verus!
