//! What holds of every generated builder, whatever the record and whatever
//! the setters that are called on it.

use vstd::prelude::*;
use crate::construct::{all_present, build_spec, initial_slots, step, ValueView};
use crate::classify::{
    arguments_of_spec, classify_spec, collection_head, optional_head, StrategyView,
};
use crate::generate::{all_classify, derive_spec, ArtifactView};
use crate::schema::{FieldView, GenerationError, SourceView};

verus! {

/// The slots of a builder after a fresh start and the setter calls `calls`,
/// each a field's position and the value handed to its setter, in call order.
/// A fresh builder holds `initial_slots`, and each call of `Builder::set_at`
/// takes one `step`.
pub open spec fn run<T>(fields: Seq<StrategyView>, calls: Seq<(int, T)>) -> Seq<
    Option<ValueView<T>>,
>
    decreases calls.len(),
{
    if calls.len() == 0 {
        initial_slots(fields)
    } else {
        step(fields, run(fields, calls.drop_last()), calls.last().0, calls.last().1)
    }
}

/// The values handed to the setter of the field at `index`, in call order.
pub open spec fn values_for<T>(calls: Seq<(int, T)>, index: int) -> Seq<T>
    decreases calls.len(),
{
    if calls.len() == 0 {
        Seq::empty()
    } else if calls.last().0 == index {
        values_for(calls.drop_last(), index).push(calls.last().1)
    } else {
        values_for(calls.drop_last(), index)
    }
}

/// Whether the setter of the field at `index` is called at all.
pub open spec fn called<T>(calls: Seq<(int, T)>, index: int) -> bool {
    exists|k: int| 0 <= k < calls.len() && (#[trigger] calls[k]).0 == index
}

/// The calls that hand `values`, one after the other, to the setter of the
/// field at `index`.
pub open spec fn calls_to<T>(index: int, values: Seq<T>) -> Seq<(int, T)> {
    Seq::new(values.len(), |k: int| (index, values[k]))
}

/// What the slot of a field holds once its setter has been handed `values`:
/// a required field holds the last value, or nothing without one; an optional
/// field holds the last value, or "no value" without one; an accumulating
/// field holds them all.
pub open spec fn slot_after<T>(strategy: StrategyView, values: Seq<T>) -> Option<ValueView<T>> {
    match strategy {
        StrategyView::Required(_) => if values.len() == 0 {
            None
        } else {
            Some(ValueView::Value(values.last()))
        },
        StrategyView::OptionalWrapped(_, _) => if values.len() == 0 {
            Some(ValueView::Optional(None))
        } else {
            Some(ValueView::Optional(Some(values.last())))
        },
        StrategyView::Accumulating(_, _, _) => Some(ValueView::Collection(values)),
    }
}

/// After any calls a builder has one slot per field, and each slot holds
/// what its own setter was handed, untouched by the other setters.
pub proof fn law_slot_after_calls<T>(fields: Seq<StrategyView>, calls: Seq<(int, T)>)
    ensures
        run(fields, calls).len() == fields.len(),
        forall|i: int|
            0 <= i < fields.len() ==> (#[trigger] run(fields, calls)[i]) == slot_after(
                fields[i],
                values_for(calls, i),
            ),
    decreases calls.len(),
{
    if calls.len() > 0 {
        law_slot_after_calls(fields, calls.drop_last());
        let before = run(fields, calls.drop_last());
        let index = calls.last().0;
        assert forall|i: int| 0 <= i < fields.len() implies (#[trigger] run(fields, calls)[i])
            == slot_after(fields[i], values_for(calls, i)) by {
            assert(before[i] == slot_after(fields[i], values_for(calls.drop_last(), i)));
            if i == index {
                let earlier = values_for(calls.drop_last(), i);
                assert(values_for(calls, i) == earlier.push(calls.last().1));
                assert(values_for(calls, i).last() == calls.last().1);
            }
        }
    }
}

/// A setter was handed at least one value exactly when it was called.
pub proof fn law_called<T>(calls: Seq<(int, T)>, index: int)
    ensures
        values_for(calls, index).len() > 0 <==> called(calls, index),
    decreases calls.len(),
{
    if calls.len() > 0 {
        let earlier = calls.drop_last();
        law_called(earlier, index);
        if called(earlier, index) {
            let k = choose|k: int| 0 <= k < earlier.len() && (#[trigger] earlier[k]).0 == index;
            assert(calls[k] == earlier[k]);
        }
        if called(calls, index) && calls.last().0 != index {
            let k = choose|k: int| 0 <= k < calls.len() && (#[trigger] calls[k]).0 == index;
            assert(earlier[k] == calls[k]);
        }
        if calls.last().0 == index {
            assert(calls[calls.len() - 1].0 == index);
        }
    }
}

/// The values handed to one setter alone are found again as they were.
pub proof fn law_values_of_calls_to<T>(index: int, values: Seq<T>)
    ensures
        values_for(calls_to(index, values), index) == values,
    decreases values.len(),
{
    let calls = calls_to(index, values);
    if values.len() > 0 {
        law_values_of_calls_to(index, values.drop_last());
        assert(calls.drop_last() =~= calls_to(index, values.drop_last()));
        assert(values_for(calls, index) =~= values);
    } else {
        assert(values_for(calls, index) =~= values);
    }
}

/// A record of required fields only is constructed exactly when every
/// setter has been called, and then each field holds the value that its
/// setter was handed last.
pub proof fn law_required_only<T>(fields: Seq<StrategyView>, calls: Seq<(int, T)>)
    requires
        forall|i: int| 0 <= i < fields.len() ==> (#[trigger] fields[i]) is Required,
    ensures
        build_spec(run(fields, calls)).is_some() <==> (forall|i: int|
            0 <= i < fields.len() ==> called(calls, i)),
        build_spec(run(fields, calls)).is_some() ==> {
            let record = build_spec(run(fields, calls))->Some_0;
            &&& record.len() == fields.len()
            &&& forall|i: int|
                0 <= i < fields.len() ==> (#[trigger] record[i]) == ValueView::Value(
                    values_for(calls, i).last(),
                )
        },
{
    let slots = run(fields, calls);
    law_slot_after_calls(fields, calls);
    assert forall|i: int| 0 <= i < fields.len() implies ((#[trigger] slots[i]).is_some()
        <==> called(calls, i)) by {
        law_called(calls, i);
        assert(fields[i] is Required);
    }
    if forall|i: int| 0 <= i < fields.len() ==> called(calls, i) {
        assert(all_present(slots));
    }
    if all_present(slots) {
        assert forall|i: int| 0 <= i < fields.len() implies called(calls, i) by {
            assert(slots[i].is_some());
        }
        let record = build_spec(slots)->Some_0;
        assert forall|i: int| 0 <= i < fields.len() implies (#[trigger] record[i])
            == ValueView::Value(values_for(calls, i).last()) by {
            assert(fields[i] is Required);
            assert(slots[i].is_some());
        }
    }
}

/// An optional field whose setter is never called holds "no value" in its
/// slot from the start: it never stands in the way of construction, which
/// succeeds exactly when the other slots are satisfied, and the constructed
/// record holds "no value" in that field.
pub proof fn law_optional_never_set<T>(
    fields: Seq<StrategyView>,
    calls: Seq<(int, T)>,
    index: int,
)
    requires
        0 <= index < fields.len(),
        fields[index] is OptionalWrapped,
        !called(calls, index),
    ensures
        run(fields, calls)[index] == Some(ValueView::<T>::Optional(None)),
        build_spec(run(fields, calls)).is_some() <==> (forall|j: int|
            0 <= j < fields.len() && j != index ==> (#[trigger] run(fields, calls)[j]).is_some()),
        build_spec(run(fields, calls)).is_some() ==> build_spec(
            run(fields, calls),
        )->Some_0[index] == ValueView::<T>::Optional(None),
{
    let slots = run(fields, calls);
    law_slot_after_calls(fields, calls);
    law_called(calls, index);
    assert(slots[index] == slot_after(fields[index], values_for(calls, index)));
    if forall|j: int| 0 <= j < fields.len() && j != index ==> (#[trigger] slots[j]).is_some() {
        assert(all_present(slots));
    }
}

/// An accumulating field holds the values that its setter was handed, as
/// many as there were calls and in call order; without a call it holds an
/// empty collection. Its slot is satisfied either way.
pub proof fn law_accumulating<T>(fields: Seq<StrategyView>, calls: Seq<(int, T)>, index: int)
    requires
        0 <= index < fields.len(),
        fields[index] is Accumulating,
    ensures
        run(fields, calls)[index] == Some(ValueView::Collection(values_for(calls, index))),
        !called(calls, index) ==> values_for(calls, index) == Seq::<T>::empty(),
        build_spec(run(fields, calls)).is_some() ==> build_spec(
            run(fields, calls),
        )->Some_0[index] == ValueView::Collection(values_for(calls, index)),
{
    let slots = run(fields, calls);
    law_slot_after_calls(fields, calls);
    law_called(calls, index);
    assert(slots[index] == slot_after(fields[index], values_for(calls, index)));
    if !called(calls, index) {
        assert(values_for(calls, index) =~= Seq::<T>::empty());
    }
}

/// Calling the appending setter of an accumulating field once for each of
/// `values`, and no other setter, leaves exactly `values` in its slot.
pub proof fn law_accumulating_in_call_order<T>(
    fields: Seq<StrategyView>,
    index: int,
    values: Seq<T>,
)
    requires
        0 <= index < fields.len(),
        fields[index] is Accumulating,
    ensures
        run(fields, calls_to(index, values))[index] == Some(ValueView::Collection(values)),
{
    law_accumulating(fields, calls_to(index, values), index);
    law_values_of_calls_to(index, values);
}

/// A strategy keeps the field that it was assigned to.
pub proof fn law_strategy_keeps_field(f: FieldView)
    requires
        classify_spec(f).is_ok(),
    ensures
        classify_spec(f)->Ok_0.field() == f,
{
}

/// The builder's layout follows the record: it has one entry per field, and
/// the entry at a position is the one of the field declared at that position.
/// A fresh builder's slots, and so the fields of a constructed record, stand
/// in that same order.
pub proof fn law_order_preserved<T>(source: SourceView)
    requires
        derive_spec(source).is_ok(),
    ensures
        source.shape is Record,
        derive_spec(source)->Ok_0.fields.len() == source.shape->Record_0.len(),
        forall|i: int|
            0 <= i < source.shape->Record_0.len() ==> (#[trigger] derive_spec(
                source,
            )->Ok_0.fields[i]).field() == source.shape->Record_0[i],
        initial_slots::<T>(derive_spec(source)->Ok_0.fields).len()
            == source.shape->Record_0.len(),
{
    let fields = source.shape->Record_0;
    assert forall|i: int| 0 <= i < fields.len() implies (#[trigger] derive_spec(
        source,
    )->Ok_0.fields[i]).field() == fields[i] by {
        assert(classify_spec(fields[i]).is_ok());
        law_strategy_keeps_field(fields[i]);
    }
}

/// A record with an accumulator configured on a field that is neither an
/// optional nor a collection has no builder at all.
pub proof fn law_misapplied_accumulator(source: SourceView, index: int)
    requires
        source.shape is Record,
        0 <= index < source.shape->Record_0.len(),
        source.shape->Record_0[index].each.is_some(),
        arguments_of_spec(source.shape->Record_0[index].declared_type, optional_head()).is_none(),
        arguments_of_spec(
            source.shape->Record_0[index].declared_type,
            collection_head(),
        ).is_none(),
    ensures
        derive_spec(source) == Err::<ArtifactView, GenerationError>(GenerationError::MisappliedAccumulator),
{
    let fields = source.shape->Record_0;
    assert(classify_spec(fields[index]).is_err());
    assert(!all_classify(fields));
}

/// A target that is not a flat record has no builder.
pub proof fn law_unsupported_shape(source: SourceView)
    requires
        !(source.shape is Record),
    ensures
        derive_spec(source) == Err::<ArtifactView, GenerationError>(GenerationError::UnsupportedShape),
{
}

} // verus!
