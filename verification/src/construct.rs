//! The builder at work: storage slots, setters and the construction of a
//! record from them.

use vstd::prelude::*;
use crate::classify::{InitialValue, SetterAction, StrategyView};
use crate::generate::{ArtifactView, BuilderArtifact};

verus! {

/// What a field of a constructed record holds, and what a satisfied slot of
/// the builder holds.
#[derive(Debug, PartialEq, Eq)]
pub enum FieldValue<T> {
    /// The value of a required field.
    Value(T),
    /// The value of an optional field, or its "no value" state.
    Optional(Option<T>),
    /// The elements of an accumulating field, in the order they were added.
    Collection(Vec<T>),
}

/// The mathematical model of a `FieldValue`.
pub enum ValueView<T> {
    Value(T),
    Optional(Option<T>),
    Collection(Seq<T>),
}

impl<T> View for FieldValue<T> {
    type V = ValueView<T>;

    open spec fn view(&self) -> ValueView<T> {
        match self {
            FieldValue::Value(v) => ValueView::Value(*v),
            FieldValue::Optional(o) => ValueView::Optional(*o),
            FieldValue::Collection(items) => ValueView::Collection(items@),
        }
    }
}

/// The model of a slot: nothing, or the model of what it holds.
pub open spec fn slot_view<T>(slot: Option<FieldValue<T>>) -> Option<ValueView<T>> {
    match slot {
        Some(v) => Some(v@),
        None => None,
    }
}

/// The models of a list of slots, in the same order.
pub open spec fn slot_views<T>(slots: Seq<Option<FieldValue<T>>>) -> Seq<Option<ValueView<T>>> {
    Seq::new(slots.len(), |i: int| slot_view(slots[i]))
}

/// The models of the fields of a record, in the same order.
pub open spec fn record_view<T>(fields: Seq<FieldValue<T>>) -> Seq<ValueView<T>> {
    Seq::new(fields.len(), |i: int| fields[i]@)
}

/// What a slot holds in a fresh builder.
pub open spec fn initial_slot<T>(initial: InitialValue) -> Option<ValueView<T>> {
    match initial {
        InitialValue::Unset => None,
        InitialValue::NoValue => Some(ValueView::Optional(None)),
        InitialValue::EmptyCollection => Some(ValueView::Collection(Seq::empty())),
    }
}

/// The slots of a fresh builder: one per field, in declaration order.
pub open spec fn initial_slots<T>(fields: Seq<StrategyView>) -> Seq<Option<ValueView<T>>> {
    Seq::new(fields.len(), |i: int| initial_slot(fields[i].initial_value()))
}

/// What a slot holds after its setter was called with `value`.
pub open spec fn apply_setter<T>(
    slot: Option<ValueView<T>>,
    action: SetterAction,
    value: T,
) -> Option<ValueView<T>> {
    match action {
        SetterAction::Store => Some(ValueView::Value(value)),
        SetterAction::StoreSome => Some(ValueView::Optional(Some(value))),
        SetterAction::Append => match slot {
            Some(ValueView::Collection(items)) => Some(ValueView::Collection(items.push(value))),
            _ => Some(ValueView::Collection(seq![value])),
        },
    }
}

/// The slots after the setter of the field at `index` was called with
/// `value`. An index that names no field changes nothing.
pub open spec fn step<T>(
    fields: Seq<StrategyView>,
    slots: Seq<Option<ValueView<T>>>,
    index: int,
    value: T,
) -> Seq<Option<ValueView<T>>> {
    if 0 <= index < slots.len() && index < fields.len() {
        slots.update(index, apply_setter(slots[index], fields[index].setter_action(), value))
    } else {
        slots
    }
}

/// Whether `index` is the first field whose setter is named `name`.
pub open spec fn is_first_setter(fields: Seq<StrategyView>, name: Seq<char>, index: int) -> bool {
    &&& 0 <= index < fields.len()
    &&& fields[index].setter_name() == name
    &&& forall|j: int| 0 <= j < index ==> (#[trigger] fields[j]).setter_name() != name
}

/// Whether some field has a setter named `name`.
pub open spec fn offers_setter(fields: Seq<StrategyView>, name: Seq<char>) -> bool {
    exists|i: int| 0 <= i < fields.len() && (#[trigger] fields[i]).setter_name() == name
}

/// Whether every slot is satisfied.
pub open spec fn all_present<T>(slots: Seq<Option<ValueView<T>>>) -> bool {
    forall|i: int| 0 <= i < slots.len() ==> (#[trigger] slots[i]).is_some()
}

/// The record that the slots construct: none while a slot is unsatisfied,
/// else the slots' contents in slot order.
pub open spec fn build_spec<T>(slots: Seq<Option<ValueView<T>>>) -> Option<Seq<ValueView<T>>> {
    if all_present(slots) {
        Some(Seq::new(slots.len(), |i: int| slots[i]->Some_0))
    } else {
        None
    }
}

/// The model of a construction's outcome.
pub open spec fn built_view<T>(r: Option<Vec<FieldValue<T>>>) -> Option<Seq<ValueView<T>>> {
    match r {
        Some(fields) => Some(record_view(fields@)),
        None => None,
    }
}

/// A copy of `items`, element by element.
fn copy_items<T: Copy>(items: &Vec<T>) -> (res: Vec<T>)
    ensures
        res@ == items@,
{
    let mut out: Vec<T> = Vec::new();
    let mut i: usize = 0;
    while i < items.len()
        invariant
            i <= items.len(),
            out.len() == i,
            forall|j: int| 0 <= j < i ==> out[j] == items[j],
        decreases items.len() - i,
    {
        out.push(items[i]);
        i += 1;
    }
    assert(out@ =~= items@);
    out
}

impl<T: Copy> FieldValue<T> {
    /// A copy of the value.
    pub fn duplicate(&self) -> (res: FieldValue<T>)
        ensures
            res@ == self@,
    {
        match self {
            FieldValue::Value(v) => FieldValue::Value(*v),
            FieldValue::Optional(o) => FieldValue::Optional(*o),
            FieldValue::Collection(items) => FieldValue::Collection(copy_items(items)),
        }
    }
}

/// A builder for one record: a layout and one storage slot per field.
pub struct Builder<'a, T> {
    plan: &'a BuilderArtifact,
    slots: Vec<Option<FieldValue<T>>>,
}

impl<'a, T> Builder<'a, T> {
    /// The layout that the builder follows.
    pub closed spec fn plan(self) -> ArtifactView {
        self.plan@
    }

    /// What the storage slots hold, in declaration order.
    pub closed spec fn slots(self) -> Seq<Option<ValueView<T>>> {
        slot_views(self.slots@)
    }

    /// A builder is well formed when it has one slot per field of its layout.
    pub open spec fn wf(self) -> bool {
        self.slots().len() == self.plan().fields.len()
    }
}

impl BuilderArtifact {
    /// A fresh builder: every slot holds its field's initial value.
    pub fn builder<'a, T: Copy>(&'a self) -> (res: Builder<'a, T>)
        ensures
            res.wf(),
            res.plan() == self@,
            res.slots() == initial_slots::<T>(self@.fields),
    {
        let mut slots: Vec<Option<FieldValue<T>>> = Vec::new();
        let mut i: usize = 0;
        while i < self.fields.len()
            invariant
                i <= self.fields.len(),
                slots.len() == i,
                forall|j: int|
                    0 <= j < i ==> slot_view(#[trigger] slots[j]) == initial_slot::<T>(
                        self.fields[j]@.initial_value(),
                    ),
            decreases self.fields.len() - i,
        {
            let slot = match self.fields[i].initial_value() {
                InitialValue::Unset => None,
                InitialValue::NoValue => Some(FieldValue::Optional(None)),
                InitialValue::EmptyCollection => Some(FieldValue::Collection(Vec::new())),
            };
            slots.push(slot);
            i += 1;
        }
        assert(slot_views(slots@) =~= initial_slots::<T>(self@.fields));
        Builder { plan: self, slots }
    }
}

impl<'a, T: Copy> Builder<'a, T> {
    /// The number of storage slots, which is the number of fields.
    pub fn len(&self) -> (res: usize)
        ensures
            res == self.slots().len(),
    {
        self.slots.len()
    }

    /// The position of the first field whose setter is named `name`.
    pub fn find_setter(&self, name: &str) -> (res: Option<usize>)
        ensures
            match res {
                Some(index) => is_first_setter(self.plan().fields, name@, index as int),
                None => !offers_setter(self.plan().fields, name@),
            },
    {
        let wanted = String::from_str(name);
        let mut i: usize = 0;
        while i < self.plan.fields.len()
            invariant
                i <= self.plan.fields.len(),
                wanted@ == name@,
                forall|j: int|
                    0 <= j < i ==> (#[trigger] self.plan().fields[j]).setter_name() != name@,
            decreases self.plan.fields.len() - i,
        {
            if *self.plan.fields[i].setter_name() == wanted {
                return Some(i);
            }
            i += 1;
        }
        None
    }

    /// Calls the setter of the field at `index` with `value`.
    pub fn set_at(&mut self, index: usize, value: T)
        requires
            old(self).wf(),
            index < old(self).slots().len(),
        ensures
            final(self).wf(),
            final(self).plan() == old(self).plan(),
            final(self).slots() == step(
                old(self).plan().fields,
                old(self).slots(),
                index as int,
                value,
            ),
    {
        let next = match self.plan.fields[index].setter_action() {
            SetterAction::Store => FieldValue::Value(value),
            SetterAction::StoreSome => FieldValue::Optional(Some(value)),
            SetterAction::Append => match &self.slots[index] {
                Some(FieldValue::Collection(items)) => {
                    let mut grown = copy_items(items);
                    grown.push(value);
                    FieldValue::Collection(grown)
                },
                _ => {
                    let mut one: Vec<T> = Vec::new();
                    one.push(value);
                    assert(one@ =~= seq![value]);
                    FieldValue::Collection(one)
                },
            },
        };
        self.slots.set(index, Some(next));
        assert(slot_views(self.slots@) =~= step(
            old(self).plan().fields,
            old(self).slots(),
            index as int,
            value,
        ));
    }

    /// Calls the setter named `name` with `value`, and says whether the
    /// builder has such a setter. Without one nothing changes.
    pub fn set(&mut self, name: &str, value: T) -> (res: bool)
        requires
            old(self).wf(),
        ensures
            final(self).wf(),
            final(self).plan() == old(self).plan(),
            res == offers_setter(old(self).plan().fields, name@),
            !res ==> final(self).slots() == old(self).slots(),
            forall|index: int|
                is_first_setter(old(self).plan().fields, name@, index) ==> final(self).slots()
                    == step(old(self).plan().fields, old(self).slots(), index, value),
    {
        match self.find_setter(name) {
            Some(index) => {
                self.set_at(index, value);
                true
            },
            None => false,
        }
    }

    /// Constructs the record from the slots as they stand: nothing while a
    /// slot is unsatisfied, else a copy of each slot's contents in
    /// declaration order. The builder stays as it is.
    pub fn build(&self) -> (res: Option<Vec<FieldValue<T>>>)
        ensures
            built_view(res) == build_spec(self.slots()),
    {
        let mut record: Vec<FieldValue<T>> = Vec::new();
        let mut i: usize = 0;
        while i < self.slots.len()
            invariant
                i <= self.slots.len(),
                record.len() == i,
                forall|j: int| 0 <= j < i ==> (#[trigger] self.slots()[j]).is_some(),
                forall|j: int| 0 <= j < i ==> (#[trigger] record[j])@ == self.slots()[j]->Some_0,
            decreases self.slots.len() - i,
        {
            match &self.slots[i] {
                Some(value) => {
                    record.push(value.duplicate());
                },
                None => {
                    assert(self.slots()[i as int].is_none());
                    return None;
                },
            }
            i += 1;
        }
        assert(record_view(record@) =~= build_spec(self.slots())->Some_0);
        Some(record)
    }
}

} // verus!
