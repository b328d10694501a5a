use crate::inputs::{notification, notification_inputs};
use std::sync::Arc;
use vstd::prelude::*;

verus! {

/// `updates` holds, for each of these subscriptions in order, the input
/// vector that a notification with `data` hands that subscriber.
pub open spec fn delivered<T: ?Sized, O>(
    updates: Seq<Vec<Option<Arc<T>>>>,
    subscriptions: Seq<(usize, O)>,
    data: Arc<T>,
) -> bool {
    &&& updates.len() == subscriptions.len()
    &&& forall|k: int|
        0 <= k < updates.len() ==> (#[trigger] updates[k])@ == notification(
            subscriptions[k].0 as nat,
            data,
        )
}

/// The value a cache holds after the notifications `history`, starting from
/// `initial`: the last notified value, or `initial` if there was none.
pub open spec fn latest_or<T: ?Sized>(initial: Option<Arc<T>>, history: Seq<Arc<T>>) -> Option<
    Arc<T>,
> {
    if history.len() == 0 {
        initial
    } else {
        Some(history.last())
    }
}

/// A publisher that caches the last value it was notified with.
///
/// Subscribers (of any type `O`) are kept in the order they subscribed, each
/// with the input index at which it receives this publisher's values.
pub struct CachedPublisher<T: ?Sized, O> {
    observers: Vec<(usize, O)>,
    current: Option<Arc<T>>,
    initial: Ghost<Option<Arc<T>>>,
    notified: Ghost<Seq<Arc<T>>>,
}

impl<T: ?Sized, O> CachedPublisher<T, O> {
    /// Every subscription index leaves room for an input vector one longer,
    /// and the cache holds the last notified value, or the initial one.
    #[verifier::type_invariant]
    spec fn well_formed(self) -> bool {
        &&& forall|k: int|
            0 <= k < self.observers@.len() ==> (#[trigger] self.observers@[k]).0 < usize::MAX
        &&& self.current == latest_or(self.initial@, self.notified@)
    }

    /// The value the publisher was created with.
    pub closed spec fn initial_value(&self) -> Option<Arc<T>> {
        self.initial@
    }

    /// Every value the publisher was notified with, oldest first.
    pub closed spec fn notifications(&self) -> Seq<Arc<T>> {
        self.notified@
    }

    /// The cached value: the last one this publisher was notified with, or
    /// its initial value before any notification.
    pub open spec fn cached(&self) -> Option<Arc<T>> {
        latest_or(self.initial_value(), self.notifications())
    }

    /// The subscribers, with their input indices, in subscription order.
    pub closed spec fn subscriptions(&self) -> Seq<(usize, O)> {
        self.observers@
    }

    /// A publisher with no subscribers and no notifications whose cache holds
    /// `initial_value`.
    pub fn new(initial_value: Option<Arc<T>>) -> (publisher: Self)
        ensures
            publisher.initial_value() == initial_value,
            publisher.notifications() == Seq::<Arc<T>>::empty(),
            publisher.cached() == initial_value,
            publisher.subscriptions() == Seq::<(usize, O)>::empty(),
    {
        CachedPublisher {
            observers: Vec::new(),
            current: initial_value,
            initial: Ghost(initial_value),
            notified: Ghost(Seq::empty()),
        }
    }

    /// Registers `observer` to receive this publisher's values at
    /// `input_index`, and returns the cached value, which the new subscriber
    /// takes as its first input.
    ///
    /// Every later notification hands the subscriber an input vector of
    /// `input_index + 1` slots, so the index must leave room for that.
    pub fn add_observer(&mut self, observer: O, input_index: usize) -> (current: Option<Arc<T>>)
        requires
            input_index < usize::MAX,
        ensures
            current == old(self).cached(),
            final(self).initial_value() == old(self).initial_value(),
            final(self).notifications() == old(self).notifications(),
            final(self).subscriptions() == old(self).subscriptions().push((input_index, observer)),
    {
        proof {
            use_type_invariant(&*self);
        }
        let current = match &self.current {
            Some(value) => Some(crate::shared::share(value)),
            None => None,
        };
        let mut observers: Vec<(usize, O)> = Vec::new();
        std::mem::swap(&mut observers, &mut self.observers);
        observers.push((input_index, observer));
        self.observers = observers;
        current
    }

    /// Caches `data` and returns, for each subscriber in subscription order,
    /// the input vector to update it with: `index + 1` slots, all empty but the
    /// subscriber's own index, which holds `data`.
    pub fn notify(&mut self, data: Arc<T>) -> (updates: Vec<Vec<Option<Arc<T>>>>)
        ensures
            final(self).initial_value() == old(self).initial_value(),
            final(self).notifications() == old(self).notifications().push(data),
            final(self).subscriptions() == old(self).subscriptions(),
            delivered(updates@, old(self).subscriptions(), data),
    {
        proof {
            use_type_invariant(&*self);
        }
        let mut observers: Vec<(usize, O)> = Vec::new();
        std::mem::swap(&mut observers, &mut self.observers);
        let mut updates: Vec<Vec<Option<Arc<T>>>> = Vec::with_capacity(observers.len());
        let mut k: usize = 0;
        while k < observers.len()
            invariant
                k <= observers@.len(),
                updates@.len() == k,
                forall|j: int| 0 <= j < observers@.len() ==> (#[trigger] observers@[j]).0 < usize::MAX,
                forall|j: int|
                    0 <= j < k ==> (#[trigger] updates@[j])@ == notification(
                        observers@[j].0 as nat,
                        data,
                    ),
            decreases observers@.len() - k,
        {
            let index = observers[k].0;
            updates.push(notification_inputs(index, &data));
            k = k + 1;
        }
        let ghost notified = self.notified@.push(data);
        let initial = self.initial;
        *self = CachedPublisher {
            observers,
            current: Some(data),
            initial,
            notified: Ghost(notified),
        };
        updates
    }

    /// The cached value.
    pub fn get(&self) -> (current: Option<Arc<T>>)
        ensures
            current == self.cached(),
    {
        proof {
            use_type_invariant(self);
        }
        match &self.current {
            Some(value) => Some(crate::shared::share(value)),
            None => None,
        }
    }

    /// The subscribers with their input indices, in subscription order: the
    /// order in which `notify` returns their updates.
    pub fn observers(&self) -> (observers: &Vec<(usize, O)>)
        ensures
            observers@ == self.subscriptions(),
    {
        &self.observers
    }
}

} // verus!
