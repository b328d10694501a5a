use crate::error::ObserverError;
use crate::inputs::{
    collect_inputs, empty_input_slots, empty_inputs, merge_inputs, merged, transform_inputs,
};
use crate::publisher::{delivered, latest_or, CachedPublisher};
use std::sync::Arc;
use vstd::prelude::*;

verus! {

/// An observer of one or more publishers.
///
/// It keeps the latest value received on each of its inputs (input `k` is fed
/// by the publisher it subscribed to at index `k`), the value its transform
/// last produced, and a publisher of its own through which it republishes
/// that value to the observers subscribed to it.
pub struct Observer<T: ?Sized, O> {
    current: Option<Arc<T>>,
    last_inputs: Vec<Option<Arc<T>>>,
    publisher: CachedPublisher<T, O>,
    input_count: Ghost<nat>,
    results: Ghost<Seq<Arc<T>>>,
    notified_directly: Ghost<bool>,
}

impl<T: ?Sized, O> Observer<T, O> {
    /// What every constructor establishes and every method keeps: the number
    /// of inputs is the one the observer was made with, its value is its last
    /// transform result, and as long as no value was published on it directly
    /// (through `notify`), its own publisher has published exactly those
    /// results.
    pub closed spec fn consistent(&self) -> bool {
        &&& self.last_inputs@.len() == self.input_count@
        &&& self.current == latest_or(None, self.results@)
        &&& self.publisher.initial_value() is None
        &&& !self.notified_directly@ ==> self.publisher.notifications() == self.results@
    }

    /// The value the transform last produced, if any.
    pub closed spec fn value(&self) -> Option<Arc<T>> {
        self.current
    }

    /// The latest value received on each input, in input order.
    pub closed spec fn inputs(&self) -> Seq<Option<Arc<T>>> {
        self.last_inputs@
    }

    /// The number of inputs the observer was made with.
    pub closed spec fn input_count(&self) -> nat {
        self.input_count@
    }

    /// Every value the transform produced, oldest first.
    pub closed spec fn results(&self) -> Seq<Arc<T>> {
        self.results@
    }

    /// Whether a value was ever published on this observer through `notify`.
    pub closed spec fn notified_directly(&self) -> bool {
        self.notified_directly@
    }

    /// Every value the observer's own publisher has published, oldest first.
    pub closed spec fn publications(&self) -> Seq<Arc<T>> {
        self.publisher.notifications()
    }

    /// The cache of the observer's own publisher: the value it last
    /// published, if any.
    pub open spec fn cached(&self) -> Option<Arc<T>> {
        latest_or(None, self.publications())
    }

    /// The observers subscribed to this one, with their input indices.
    pub closed spec fn subscriptions(&self) -> Seq<(usize, O)> {
        self.publisher.subscriptions()
    }

    /// The observer's value is empty until its transform first succeeds, and
    /// from then on is the latest value the transform produced.
    pub proof fn value_is_latest_result(&self)
        requires
            self.consistent(),
        ensures
            self.value() == latest_or(None, self.results()),
    {
    }

    /// As long as nothing was published on the observer directly, what it
    /// hands new subscribers is its own value.
    pub proof fn cache_follows_value(&self)
        requires
            self.consistent(),
            !self.notified_directly(),
        ensures
            self.cached() == self.value(),
            self.publications() == self.results(),
    {
    }

    /// The observer keeps one input slot per input it was made with.
    pub proof fn inputs_keep_their_count(&self)
        requires
            self.consistent(),
        ensures
            self.inputs().len() == self.input_count(),
    {
    }

    /// An observer of a single publisher: one empty input, no value yet, no
    /// subscribers, nothing published.
    pub fn new() -> (observer: Self)
        ensures
            observer.consistent(),
            observer.input_count() == 1,
            observer.inputs() == empty_inputs::<T>(1),
            observer.value() is None,
            observer.results() == Seq::<Arc<T>>::empty(),
            observer.publications() == Seq::<Arc<T>>::empty(),
            !observer.notified_directly(),
            observer.subscriptions() == Seq::<(usize, O)>::empty(),
    {
        Self::new_multiparent(1)
    }

    /// An observer of `input_count` publishers: one empty input per
    /// publisher, no value yet, no subscribers, nothing published.
    pub fn new_multiparent(input_count: usize) -> (observer: Self)
        ensures
            observer.consistent(),
            observer.input_count() == input_count,
            observer.inputs() == empty_inputs::<T>(input_count as nat),
            observer.value() is None,
            observer.results() == Seq::<Arc<T>>::empty(),
            observer.publications() == Seq::<Arc<T>>::empty(),
            !observer.notified_directly(),
            observer.subscriptions() == Seq::<(usize, O)>::empty(),
    {
        Observer {
            current: None,
            last_inputs: empty_input_slots(input_count),
            publisher: CachedPublisher::new(None),
            input_count: Ghost(input_count as nat),
            results: Ghost(Seq::empty()),
            notified_directly: Ghost(false),
        }
    }

    /// The value the transform last produced, if any.
    pub fn get(&self) -> (current: Option<Arc<T>>)
        ensures
            current == self.value(),
    {
        match &self.current {
            Some(value) => Some(crate::shared::share(value)),
            None => None,
        }
    }

    /// Takes an update from a publisher: each input for which `update` holds a
    /// value takes that value, the others keep theirs (an empty slot in the
    /// update means that publisher sent nothing). Returns the values to call
    /// the transform with, one per input, once every input holds a value, and
    /// `None` while some input has never received one, in which case the
    /// transform is not called.
    pub fn update(&mut self, update: Vec<Option<Arc<T>>>) -> (ready: Option<Vec<Arc<T>>>)
        requires
            old(self).consistent(),
        ensures
            final(self).consistent(),
            final(self).inputs() == merged(old(self).inputs(), update@),
            final(self).input_count() == old(self).input_count(),
            final(self).value() == old(self).value(),
            final(self).results() == old(self).results(),
            final(self).publications() == old(self).publications(),
            final(self).notified_directly() == old(self).notified_directly(),
            final(self).subscriptions() == old(self).subscriptions(),
            ready matches Some(values) ==> transform_inputs(final(self).inputs()) == Some(values@),
            ready matches Some(values) ==> values@.len() == final(self).input_count(),
            ready is None ==> transform_inputs(final(self).inputs()) is None,
            final(self).inputs().len() == old(self).inputs().len(),
            forall|k: int|
                0 <= k < old(self).inputs().len() && k < update@.len() && (#[trigger] update@[k]) is Some
                    ==> final(self).inputs()[k] == update@[k],
            forall|k: int|
                0 <= k < old(self).inputs().len() && !(k < update@.len() && update@[k] is Some) ==> (
                #[trigger] final(self).inputs()[k]) == old(self).inputs()[k],
            ready is Some <==> forall|k: int|
                0 <= k < final(self).inputs().len() ==> (#[trigger] final(self).inputs()[k]) is Some,
            ready matches Some(values) ==> forall|k: int|
                0 <= k < final(self).inputs().len() ==> final(self).inputs()[k] == Some(
                    #[trigger] values@[k],
                ),
    {
        merge_inputs(&mut self.last_inputs, &update);
        collect_inputs(&self.last_inputs)
    }

    /// Takes what the transform returned. A value becomes the observer's
    /// value and is published to its subscribers: the result holds, in
    /// subscription order, the input vector to update each of them with. An
    /// error leaves the observer as it was and publishes nothing.
    pub fn apply_transform(&mut self, result: Result<Arc<T>, ObserverError>) -> (updates: Vec<
        Vec<Option<Arc<T>>>,
    >)
        requires
            old(self).consistent(),
        ensures
            final(self).consistent(),
            final(self).inputs() == old(self).inputs(),
            final(self).input_count() == old(self).input_count(),
            final(self).notified_directly() == old(self).notified_directly(),
            final(self).subscriptions() == old(self).subscriptions(),
            match result {
                Ok(value) => {
                    &&& final(self).value() == Some(value)
                    &&& final(self).results() == old(self).results().push(value)
                    &&& final(self).publications() == old(self).publications().push(value)
                    &&& delivered(updates@, old(self).subscriptions(), value)
                },
                Err(_) => {
                    &&& final(self).value() == old(self).value()
                    &&& final(self).results() == old(self).results()
                    &&& final(self).publications() == old(self).publications()
                    &&& updates@.len() == 0
                },
            },
    {
        match result {
            Ok(value) => {
                let ghost results = self.results@.push(value);
                self.current = Some(crate::shared::share(&value));
                self.results = Ghost(results);
                self.publisher.notify(value)
            },
            Err(_) => Vec::new(),
        }
    }

    /// Subscribes `observer` to this observer's values at `input_index`, and
    /// returns the value the observer last published, which the subscriber
    /// takes as its first input: as long as nothing was published on the
    /// observer directly, that is the observer's own value.
    pub fn add_observer(&mut self, observer: O, input_index: usize) -> (current: Option<Arc<T>>)
        requires
            old(self).consistent(),
            input_index < usize::MAX,
        ensures
            final(self).consistent(),
            current == old(self).cached(),
            !old(self).notified_directly() ==> current == old(self).value(),
            final(self).publications() == old(self).publications(),
            final(self).subscriptions() == old(self).subscriptions().push((input_index, observer)),
            final(self).value() == old(self).value(),
            final(self).results() == old(self).results(),
            final(self).notified_directly() == old(self).notified_directly(),
            final(self).inputs() == old(self).inputs(),
            final(self).input_count() == old(self).input_count(),
    {
        self.publisher.add_observer(observer, input_index)
    }

    /// Publishes `data` to this observer's subscribers without running the
    /// transform: the publisher caches `data` and the result holds the input
    /// vector for each subscriber, in subscription order. The observer's own
    /// value does not change.
    pub fn notify(&mut self, data: Arc<T>) -> (updates: Vec<Vec<Option<Arc<T>>>>)
        requires
            old(self).consistent(),
        ensures
            final(self).consistent(),
            final(self).notified_directly(),
            final(self).publications() == old(self).publications().push(data),
            final(self).subscriptions() == old(self).subscriptions(),
            final(self).value() == old(self).value(),
            final(self).results() == old(self).results(),
            final(self).inputs() == old(self).inputs(),
            final(self).input_count() == old(self).input_count(),
            delivered(updates@, old(self).subscriptions(), data),
    {
        self.notified_directly = Ghost(true);
        self.publisher.notify(data)
    }

    /// The observers subscribed to this one, with their input indices, in the
    /// order in which `apply_transform` and `notify` return their updates.
    pub fn observers(&self) -> (observers: &Vec<(usize, O)>)
        ensures
            observers@ == self.subscriptions(),
    {
        self.publisher.observers()
    }
}

} // verus!
