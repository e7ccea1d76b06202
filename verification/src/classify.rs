//! Field classification: which population strategy a field gets, and what
//! the builder holds and offers for it.

use vstd::prelude::*;
use crate::schema::{FieldSpec, FieldView, GenerationError, TypeDescriptor, TypeView};

verus! {

/// The head name by which the optional wrapper is recognised.
pub open spec fn optional_head() -> Seq<char> {
    "Option"@
}

/// The head name by which the homogeneous collection is recognised.
pub open spec fn collection_head() -> Seq<char> {
    "Vec"@
}

/// The first generic argument of `t`, where `t` is a wrapper whose head name
/// is exactly `head`.
pub open spec fn arguments_of_spec(t: TypeView, head: Seq<char>) -> Option<TypeView> {
    match t {
        TypeView::Wrapped(h, inner) => if h == head {
            Some(*inner)
        } else {
            None
        },
        TypeView::Plain(_) => None,
    }
}

/// Looks at the shape of `typ`: a wrapper named `ident_s` yields its first
/// generic argument, anything else yields nothing. The match is on the name
/// alone.
pub fn arguments_of(typ: &TypeDescriptor, ident_s: &str) -> (res: Option<TypeDescriptor>)
    ensures
        match res {
            Some(inner) => arguments_of_spec(typ@, ident_s@) == Some(inner@),
            None => arguments_of_spec(typ@, ident_s@).is_none(),
        },
{
    match typ {
        TypeDescriptor::Wrapped(head, inner) => {
            let wanted = String::from_str(ident_s);
            if *head == wanted {
                Some((**inner).clone())
            } else {
                None
            }
        },
        TypeDescriptor::Plain(_) => None,
    }
}

/// How a field of the record gets its value in the builder.
#[derive(Debug, PartialEq, Eq)]
pub enum FieldStrategy {
    /// The field must be set before a record can be constructed.
    Required(FieldSpec),
    /// The field is optional; beside it stands the wrapped type.
    OptionalWrapped(FieldSpec, TypeDescriptor),
    /// The field is a collection that grows one element at a time; beside it
    /// stand the element type and the name of the appending method.
    Accumulating(FieldSpec, TypeDescriptor, String),
}

/// The mathematical model of a `FieldStrategy`.
pub enum StrategyView {
    Required(FieldView),
    OptionalWrapped(FieldView, TypeView),
    Accumulating(FieldView, TypeView, Seq<char>),
}

impl View for FieldStrategy {
    type V = StrategyView;

    open spec fn view(&self) -> StrategyView {
        match self {
            FieldStrategy::Required(f) => StrategyView::Required(f@),
            FieldStrategy::OptionalWrapped(f, inner) => StrategyView::OptionalWrapped(f@, inner@),
            FieldStrategy::Accumulating(f, elem, method) => StrategyView::Accumulating(
                f@,
                elem@,
                method@,
            ),
        }
    }
}

/// What a storage slot holds before any setter is called.
#[derive(Debug, Clone, Copy, PartialEq, Eq, Structural)]
pub enum InitialValue {
    /// Nothing: the slot is not yet satisfied.
    Unset,
    /// Present, holding the explicit "no value" state.
    NoValue,
    /// Present, holding an empty collection.
    EmptyCollection,
}

/// What a setter does with the value it is given.
#[derive(Debug, Clone, Copy, PartialEq, Eq, Structural)]
pub enum SetterAction {
    /// Store the value as present.
    Store,
    /// Store the value as present, wrapped as "has a value".
    StoreSome,
    /// Append the value to the collection, starting one where none is present.
    Append,
}

impl StrategyView {
    /// The field that the strategy was assigned to.
    pub open spec fn field(self) -> FieldView {
        match self {
            StrategyView::Required(f) => f,
            StrategyView::OptionalWrapped(f, _) => f,
            StrategyView::Accumulating(f, _, _) => f,
        }
    }

    /// The initial value of the field's slot.
    pub open spec fn initial_value(self) -> InitialValue {
        match self {
            StrategyView::Required(_) => InitialValue::Unset,
            StrategyView::OptionalWrapped(_, _) => InitialValue::NoValue,
            StrategyView::Accumulating(_, _, _) => InitialValue::EmptyCollection,
        }
    }

    /// The name of the field's one setter.
    pub open spec fn setter_name(self) -> Seq<char> {
        match self {
            StrategyView::Required(f) => f.name,
            StrategyView::OptionalWrapped(f, _) => f.name,
            StrategyView::Accumulating(_, _, method) => method,
        }
    }

    /// The type of the value that the setter takes.
    pub open spec fn setter_param(self) -> TypeView {
        match self {
            StrategyView::Required(f) => f.declared_type,
            StrategyView::OptionalWrapped(_, inner) => inner,
            StrategyView::Accumulating(_, elem, _) => elem,
        }
    }

    /// What the setter does with its value.
    pub open spec fn setter_action(self) -> SetterAction {
        match self {
            StrategyView::Required(_) => SetterAction::Store,
            StrategyView::OptionalWrapped(_, _) => SetterAction::StoreSome,
            StrategyView::Accumulating(_, _, _) => SetterAction::Append,
        }
    }
}

impl FieldStrategy {
    /// The field that the strategy was assigned to. Its name names the
    /// storage slot, and the slot holds an optional value of its declared type.
    pub fn field(&self) -> (res: &FieldSpec)
        ensures
            res@ == self@.field(),
    {
        match self {
            FieldStrategy::Required(f) => f,
            FieldStrategy::OptionalWrapped(f, _) => f,
            FieldStrategy::Accumulating(f, _, _) => f,
        }
    }

    /// The value that the slot holds in a fresh builder.
    pub fn initial_value(&self) -> (res: InitialValue)
        ensures
            res == self@.initial_value(),
    {
        match self {
            FieldStrategy::Required(_) => InitialValue::Unset,
            FieldStrategy::OptionalWrapped(_, _) => InitialValue::NoValue,
            FieldStrategy::Accumulating(_, _, _) => InitialValue::EmptyCollection,
        }
    }

    /// The name of the one setter that the builder offers for the field.
    pub fn setter_name(&self) -> (res: &String)
        ensures
            res@ == self@.setter_name(),
    {
        match self {
            FieldStrategy::Required(f) => &f.name,
            FieldStrategy::OptionalWrapped(f, _) => &f.name,
            FieldStrategy::Accumulating(_, _, method) => method,
        }
    }

    /// The type of the value that the setter takes.
    pub fn setter_param(&self) -> (res: &TypeDescriptor)
        ensures
            res@ == self@.setter_param(),
    {
        match self {
            FieldStrategy::Required(f) => &f.declared_type,
            FieldStrategy::OptionalWrapped(_, inner) => inner,
            FieldStrategy::Accumulating(_, elem, _) => elem,
        }
    }

    /// What the setter does with the value it is given.
    pub fn setter_action(&self) -> (res: SetterAction)
        ensures
            res == self@.setter_action(),
    {
        match self {
            FieldStrategy::Required(_) => SetterAction::Store,
            FieldStrategy::OptionalWrapped(_, _) => SetterAction::StoreSome,
            FieldStrategy::Accumulating(_, _, _) => SetterAction::Append,
        }
    }
}

/// The strategy of a field: an optional wrapper wins, whatever is configured;
/// else a configured accumulator asks for a collection and is an error on
/// anything else; else the field is required.
pub open spec fn classify_spec(f: FieldView) -> Result<StrategyView, GenerationError> {
    match arguments_of_spec(f.declared_type, optional_head()) {
        Some(inner) => Ok(StrategyView::OptionalWrapped(f, inner)),
        None => match f.each {
            Some(method) => match arguments_of_spec(f.declared_type, collection_head()) {
                Some(elem) => Ok(StrategyView::Accumulating(f, elem, method)),
                None => Err(GenerationError::MisappliedAccumulator),
            },
            None => Ok(StrategyView::Required(f)),
        },
    }
}

/// The view of a classification's outcome.
pub open spec fn classified_view(r: Result<FieldStrategy, GenerationError>) -> Result<
    StrategyView,
    GenerationError,
> {
    match r {
        Ok(s) => Ok(s@),
        Err(e) => Err(e),
    }
}

/// Assigns the field its one strategy.
pub fn classify(field: &FieldSpec) -> (res: Result<FieldStrategy, GenerationError>)
    ensures
        classified_view(res) == classify_spec(field@),
{
    match arguments_of(&field.declared_type, "Option") {
        Some(inner) => Ok(FieldStrategy::OptionalWrapped(field.clone(), inner)),
        None => match &field.each {
            Some(method) => match arguments_of(&field.declared_type, "Vec") {
                Some(elem) => Ok(FieldStrategy::Accumulating(field.clone(), elem, method.clone())),
                None => Err(GenerationError::MisappliedAccumulator),
            },
            None => Ok(FieldStrategy::Required(field.clone())),
        },
    }
}

} // verus!
