use crate::shared::share;
use std::sync::Arc;
use vstd::prelude::*;

verus! {

/// The input vector a publisher hands to a subscriber registered at input
/// `index` when it is notified with `data`: `index + 1` slots, all empty but
/// the one at `index`, which holds `data`.
pub open spec fn notification<T: ?Sized>(index: nat, data: Arc<T>) -> Seq<Option<Arc<T>>> {
    Seq::new(index + 1, |k: int| if k == index { Some(data) } else { None })
}

/// The latest inputs after an update: slot `k` takes `update[k]` where the
/// update has a value there, and keeps its previous content otherwise. Slots
/// the update does not reach, and update entries beyond the last slot, have no
/// effect.
pub open spec fn merged<T: ?Sized>(
    last: Seq<Option<Arc<T>>>,
    update: Seq<Option<Arc<T>>>,
) -> Seq<Option<Arc<T>>> {
    Seq::new(
        last.len(),
        |k: int|
            if k < update.len() && update[k] is Some {
                update[k]
            } else {
                last[k]
            },
    )
}

/// Every input slot holds a value.
pub open spec fn all_received<T: ?Sized>(inputs: Seq<Option<Arc<T>>>) -> bool {
    forall|k: int| 0 <= k < inputs.len() ==> (#[trigger] inputs[k]) is Some
}

/// The values held by the input slots, in slot order.
pub open spec fn received_values<T: ?Sized>(inputs: Seq<Option<Arc<T>>>) -> Seq<Arc<T>> {
    Seq::new(inputs.len(), |k: int| inputs[k]->0)
}

/// What a transform is called with for these inputs: the values of all slots
/// once each slot holds one, and nothing before that.
pub open spec fn transform_inputs<T: ?Sized>(inputs: Seq<Option<Arc<T>>>) -> Option<Seq<Arc<T>>> {
    if all_received(inputs) {
        Some(received_values(inputs))
    } else {
        None
    }
}

/// `count` empty input slots.
pub open spec fn empty_inputs<T: ?Sized>(count: nat) -> Seq<Option<Arc<T>>> {
    Seq::new(count, |k: int| None)
}

/// Builds the input vector for a subscriber registered at `index`, carrying
/// `data` (see `notification`).
pub fn notification_inputs<T: ?Sized>(index: usize, data: &Arc<T>) -> (inputs: Vec<Option<Arc<T>>>)
    requires
        index < usize::MAX,
    ensures
        inputs@ == notification(index as nat, *data),
{
    let mut inputs: Vec<Option<Arc<T>>> = Vec::new();
    let mut k: usize = 0;
    while k <= index
        invariant
            k <= index + 1,
            index < usize::MAX,
            inputs@ == notification(index as nat, *data).take(k as int),
        decreases index + 1 - k,
    {
        if k == index {
            inputs.push(Some(share(data)));
        } else {
            inputs.push(None);
        }
        proof {
            assert(inputs@ =~= notification(index as nat, *data).take(k + 1));
        }
        k = k + 1;
    }
    assert(inputs@ =~= notification(index as nat, *data));
    inputs
}

/// Records an update in the latest inputs: every slot that the update carries
/// a value for takes it; all other slots keep theirs.
pub fn merge_inputs<T: ?Sized>(last: &mut Vec<Option<Arc<T>>>, update: &Vec<Option<Arc<T>>>)
    ensures
        final(last)@ == merged(old(last)@, update@),
        final(last)@.len() == old(last)@.len(),
        forall|k: int|
            0 <= k < old(last)@.len() && k < update@.len() && (#[trigger] update@[k]) is Some
                ==> final(last)@[k] == update@[k],
        forall|k: int|
            0 <= k < old(last)@.len() && !(k < update@.len() && update@[k] is Some) ==> (
            #[trigger] final(last)@[k]) == old(last)@[k],
{
    let ghost before = last@;
    let mut k: usize = 0;
    while k < last.len() && k < update.len()
        invariant
            before.len() == last@.len(),
            k <= last@.len(),
            forall|j: int| 0 <= j < k ==> last@[j] == #[trigger] merged(before, update@)[j],
            forall|j: int| k <= j < last@.len() ==> last@[j] == before[j],
        decreases last@.len() - k,
    {
        match &update[k] {
            Some(value) => {
                let value = share(value);
                last[k] = Some(value);
            },
            None => {},
        }
        k = k + 1;
    }
    assert(last@ =~= merged(before, update@));
}

/// The values to hand to a transform: all slot values in order once every slot
/// holds one, `None` while some slot is still empty.
pub fn collect_inputs<T: ?Sized>(inputs: &Vec<Option<Arc<T>>>) -> (values: Option<Vec<Arc<T>>>)
    ensures
        values matches Some(v) ==> transform_inputs(inputs@) == Some(v@),
        values is None ==> transform_inputs(inputs@) is None,
        values is Some <==> forall|k: int| 0 <= k < inputs@.len() ==> (#[trigger] inputs@[k]) is Some,
        values matches Some(v) ==> v@.len() == inputs@.len() && forall|k: int|
            0 <= k < inputs@.len() ==> inputs@[k] == Some(#[trigger] v@[k]),
{
    let mut values: Vec<Arc<T>> = Vec::with_capacity(inputs.len());
    let mut k: usize = 0;
    while k < inputs.len()
        invariant
            k <= inputs@.len(),
            values@.len() == k,
            forall|j: int| 0 <= j < k ==> (#[trigger] inputs@[j]) is Some,
            forall|j: int| 0 <= j < k ==> values@[j] == #[trigger] received_values(inputs@)[j],
        decreases inputs@.len() - k,
    {
        match &inputs[k] {
            Some(value) => {
                values.push(share(value));
            },
            None => {
                return None;
            },
        }
        k = k + 1;
    }
    assert(values@ =~= received_values(inputs@));
    Some(values)
}

/// `count` empty input slots.
pub fn empty_input_slots<T: ?Sized>(count: usize) -> (slots: Vec<Option<Arc<T>>>)
    ensures
        slots@ == empty_inputs::<T>(count as nat),
{
    let mut slots: Vec<Option<Arc<T>>> = Vec::with_capacity(count);
    let mut k: usize = 0;
    while k < count
        invariant
            k <= count,
            slots@ =~= empty_inputs::<T>(k as nat),
        decreases count - k,
    {
        slots.push(None);
        k = k + 1;
    }
    slots
}

} // verus!
