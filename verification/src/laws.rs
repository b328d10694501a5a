use crate::inputs::{all_received, merged, notification, transform_inputs};
use crate::publisher::delivered;
use std::sync::Arc;
use vstd::prelude::*;

verus! {

/// The inputs an observer holds after receiving, one after another, the
/// notifications `events` (each an input index and the value published there).
pub open spec fn after_notifications<T: ?Sized>(
    inputs: Seq<Option<Arc<T>>>,
    events: Seq<(nat, Arc<T>)>,
) -> Seq<Option<Arc<T>>>
    decreases events.len(),
{
    if events.len() == 0 {
        inputs
    } else {
        merged(
            after_notifications(inputs, events.drop_last()),
            notification(events.last().0, events.last().1),
        )
    }
}

/// The value of the last of `events` published at `index`, if any.
pub open spec fn latest_at<T: ?Sized>(events: Seq<(nat, Arc<T>)>, index: nat) -> Option<Arc<T>>
    decreases events.len(),
{
    if events.len() == 0 {
        None
    } else if events.last().0 == index {
        Some(events.last().1)
    } else {
        latest_at(events.drop_last(), index)
    }
}

/// A notification changes only the input slot of the publisher that sent it:
/// that slot takes the published value, every other slot keeps its own. A
/// notification for an index past the last input changes nothing.
pub proof fn notification_sets_only_its_input<T: ?Sized>(
    inputs: Seq<Option<Arc<T>>>,
    index: nat,
    data: Arc<T>,
)
    ensures
        index < inputs.len() ==> merged(inputs, notification(index, data)) == inputs.update(
            index as int,
            Some(data),
        ),
        index >= inputs.len() ==> merged(inputs, notification(index, data)) == inputs,
{
    if index < inputs.len() {
        assert(merged(inputs, notification(index, data)) =~= inputs.update(index as int, Some(data)));
    } else {
        assert(merged(inputs, notification(index, data)) =~= inputs);
    }
}

/// An observer of a single publisher calls its transform with exactly the
/// value it was last notified with, whatever it held before.
pub proof fn single_input_follows_publisher<T: ?Sized>(inputs: Seq<Option<Arc<T>>>, data: Arc<T>)
    requires
        inputs.len() == 1,
    ensures
        transform_inputs(merged(inputs, notification(0, data))) == Some(seq![data]),
{
    let after = merged(inputs, notification(0, data));
    assert(after[0] == Some(data));
    assert(all_received(after));
    assert(crate::inputs::received_values(after) =~= seq![data]);
}

/// Once every input has received a value, every later update leaves every
/// input holding one: an observer that is ready stays ready.
pub proof fn readiness_is_kept<T: ?Sized>(inputs: Seq<Option<Arc<T>>>, update: Seq<Option<Arc<T>>>)
    requires
        all_received(inputs),
    ensures
        all_received(merged(inputs, update)),
{
    assert forall|k: int| 0 <= k < merged(inputs, update).len() implies (#[trigger] merged(
        inputs,
        update,
    )[k]) is Some by {
        assert(inputs[k] is Some);
    }
}

/// An update that carries no value for any input leaves the inputs as they
/// are (an empty update in particular).
pub proof fn valueless_update_keeps_inputs<T: ?Sized>(
    inputs: Seq<Option<Arc<T>>>,
    update: Seq<Option<Arc<T>>>,
)
    requires
        forall|k: int| 0 <= k < update.len() ==> (#[trigger] update[k]) is None,
    ensures
        merged(inputs, update) == inputs,
{
    assert(merged(inputs, update) =~= inputs);
}

/// Of two notifications from the same publisher, the later one wins: the
/// earlier one leaves no trace.
pub proof fn later_notification_wins<T: ?Sized>(
    inputs: Seq<Option<Arc<T>>>,
    index: nat,
    first: Arc<T>,
    second: Arc<T>,
)
    ensures
        merged(merged(inputs, notification(index, first)), notification(index, second)) == merged(
            inputs,
            notification(index, second),
        ),
{
    assert(merged(merged(inputs, notification(index, first)), notification(index, second))
        =~= merged(inputs, notification(index, second)));
}

/// After any sequence of notifications, each input holds the value last
/// published at its index, or what it held before if nothing was published
/// there; the number of inputs does not change.
pub proof fn inputs_hold_latest_notifications<T: ?Sized>(
    inputs: Seq<Option<Arc<T>>>,
    events: Seq<(nat, Arc<T>)>,
)
    ensures
        after_notifications(inputs, events).len() == inputs.len(),
        forall|k: int|
            0 <= k < inputs.len() ==> #[trigger] after_notifications(inputs, events)[k] == match latest_at(
                events,
                k as nat,
            ) {
                Some(data) => Some(data),
                None => inputs[k],
            },
    decreases events.len(),
{
    if events.len() > 0 {
        let earlier = events.drop_last();
        inputs_hold_latest_notifications(inputs, earlier);
        let before = after_notifications(inputs, earlier);
        notification_sets_only_its_input(before, events.last().0, events.last().1);
        assert forall|k: int| 0 <= k < inputs.len() implies #[trigger] after_notifications(
            inputs,
            events,
        )[k] == match latest_at(events, k as nat) {
            Some(data) => Some(data),
            None => inputs[k],
        } by {
            assert(before[k] == match latest_at(earlier, k as nat) {
                Some(data) => Some(data),
                None => inputs[k],
            });
        }
    }
}

/// An observer of several publishers calls its transform only once every one
/// of them has notified it (or had handed it a value when it subscribed), and
/// then with the latest value from each, in input order.
pub proof fn transform_waits_for_every_input<T: ?Sized>(
    inputs: Seq<Option<Arc<T>>>,
    events: Seq<(nat, Arc<T>)>,
)
    ensures
        transform_inputs(after_notifications(inputs, events)) is Some <==> forall|k: int|
            0 <= k < inputs.len() ==> (latest_at(events, k as nat) is Some || #[trigger] inputs[k] is Some),
        transform_inputs(after_notifications(inputs, events)) matches Some(values) ==> forall|k: int|
            0 <= k < inputs.len() ==> #[trigger] values[k] == match latest_at(events, k as nat) {
                Some(data) => data,
                None => inputs[k]->0,
            },
{
    inputs_hold_latest_notifications(inputs, events);
    let after = after_notifications(inputs, events);
    if forall|k: int|
        0 <= k < inputs.len() ==> (latest_at(events, k as nat) is Some || #[trigger] inputs[k] is Some) {
        assert forall|k: int| 0 <= k < after.len() implies (#[trigger] after[k]) is Some by {
            assert(latest_at(events, k as nat) is Some || inputs[k] is Some);
        }
    }
    if all_received(after) {
        assert forall|k: int| 0 <= k < inputs.len() implies (latest_at(events, k as nat) is Some
            || #[trigger] inputs[k] is Some) by {
            assert(after[k] is Some);
        }
    }
}

/// What a publisher hands a subscriber on notify sets that subscriber's input
/// at its subscription index to the published value and leaves its other
/// inputs alone: observers chained after a publisher or another observer see
/// every value it publishes.
pub proof fn subscriber_receives_published_value<T: ?Sized, O>(
    updates: Seq<Vec<Option<Arc<T>>>>,
    subscriptions: Seq<(usize, O)>,
    data: Arc<T>,
    k: int,
    inputs: Seq<Option<Arc<T>>>,
)
    requires
        delivered(updates, subscriptions, data),
        0 <= k < subscriptions.len(),
        subscriptions[k].0 < inputs.len(),
    ensures
        merged(inputs, updates[k]@) == inputs.update(subscriptions[k].0 as int, Some(data)),
{
    notification_sets_only_its_input(inputs, subscriptions[k].0 as nat, data);
}

/// Merging an update, whatever it holds, keeps the number of inputs, gives
/// every input for which the update carries a value that value, and leaves
/// every other input as it was: an empty slot in an update never hides the
/// values after it.
pub proof fn merge_takes_every_value<T: ?Sized>(
    inputs: Seq<Option<Arc<T>>>,
    update: Seq<Option<Arc<T>>>,
)
    ensures
        merged(inputs, update).len() == inputs.len(),
        forall|k: int|
            0 <= k < inputs.len() && k < update.len() && (#[trigger] update[k]) is Some
                ==> merged(inputs, update)[k] == update[k],
        forall|k: int|
            0 <= k < inputs.len() && !(k < update.len() && update[k] is Some) ==> (
            #[trigger] merged(inputs, update)[k]) == inputs[k],
{
}

/// Merging two updates one after the other leaves each input with the value
/// of the later update where it has one, else of the earlier one, else what it
/// held: the order in which publishers' values arrive decides only which of
/// two values for the same input wins.
pub proof fn merges_compose<T: ?Sized>(
    inputs: Seq<Option<Arc<T>>>,
    first: Seq<Option<Arc<T>>>,
    second: Seq<Option<Arc<T>>>,
)
    ensures
        forall|k: int|
            0 <= k < inputs.len() ==> #[trigger] merged(merged(inputs, first), second)[k] == if k
                < second.len() && second[k] is Some {
                second[k]
            } else if k < first.len() && first[k] is Some {
                first[k]
            } else {
                inputs[k]
            },
{
    merge_takes_every_value(inputs, first);
    merge_takes_every_value(merged(inputs, first), second);
}

/// The transform is handed values exactly when every input holds one, and
/// then the value of each input, in input order.
pub proof fn transform_gets_every_input_in_order<T: ?Sized>(inputs: Seq<Option<Arc<T>>>)
    ensures
        transform_inputs(inputs) is Some <==> forall|k: int|
            0 <= k < inputs.len() ==> (#[trigger] inputs[k]) is Some,
        transform_inputs(inputs) matches Some(values) ==> values.len() == inputs.len() && forall|
            k: int,
        |
            0 <= k < inputs.len() ==> inputs[k] == Some(#[trigger] values[k]),
{
}

} // verus!
