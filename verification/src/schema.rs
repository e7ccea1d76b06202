//! The schema of a generation target: its fields and their declared types.

use vstd::prelude::*;

verus! {

/// The structural shape of a declared type.
#[derive(Debug, PartialEq, Eq)]
pub enum TypeDescriptor {
    /// An opaque type reference, kept as written.
    Plain(String),
    /// A generic wrapper: the head name and the first generic argument.
    Wrapped(String, Box<TypeDescriptor>),
}

/// The mathematical model of a `TypeDescriptor`.
pub enum TypeView {
    Plain(Seq<char>),
    Wrapped(Seq<char>, Box<TypeView>),
}

/// The model of a type: names become character sequences, level by level.
pub open spec fn type_view(t: TypeDescriptor) -> TypeView
    decreases t,
{
    match t {
        TypeDescriptor::Plain(name) => TypeView::Plain(name@),
        TypeDescriptor::Wrapped(head, inner) => TypeView::Wrapped(
            head@,
            Box::new(type_view(*inner)),
        ),
    }
}

impl View for TypeDescriptor {
    type V = TypeView;

    open spec fn view(&self) -> TypeView {
        type_view(*self)
    }
}

impl Clone for TypeDescriptor {
    fn clone(&self) -> (res: TypeDescriptor)
        ensures
            res@ == self@,
        decreases self,
    {
        match self {
            TypeDescriptor::Plain(name) => TypeDescriptor::Plain(name.clone()),
            TypeDescriptor::Wrapped(head, inner) => {
                let copy = (**inner).clone();
                TypeDescriptor::Wrapped(head.clone(), Box::new(copy))
            },
        }
    }
}

/// One declared field of the source record.
#[derive(Debug, PartialEq, Eq)]
pub struct FieldSpec {
    /// The field's identifier.
    pub name: String,
    /// The visibility marker, passed through untouched.
    pub visibility: String,
    /// The declared type.
    pub declared_type: TypeDescriptor,
    /// The name of the element-accumulator method, where one is configured.
    pub each: Option<String>,
}

/// The mathematical model of a `FieldSpec`.
pub struct FieldView {
    pub name: Seq<char>,
    pub visibility: Seq<char>,
    pub declared_type: TypeView,
    pub each: Option<Seq<char>>,
}

impl View for FieldSpec {
    type V = FieldView;

    open spec fn view(&self) -> FieldView {
        FieldView {
            name: self.name@,
            visibility: self.visibility@,
            declared_type: self.declared_type@,
            each: match self.each {
                Some(s) => Some(s@),
                None => None,
            },
        }
    }
}

impl Clone for FieldSpec {
    fn clone(&self) -> (res: FieldSpec)
        ensures
            res@ == self@,
    {
        let each = match &self.each {
            Some(s) => Some(s.clone()),
            None => None,
        };
        FieldSpec {
            name: self.name.clone(),
            visibility: self.visibility.clone(),
            declared_type: self.declared_type.clone(),
            each,
        }
    }
}

/// The shape of a generation target.
#[derive(Debug, PartialEq, Eq)]
pub enum SourceShape {
    /// A flat record: its fields in declaration order.
    Record(Vec<FieldSpec>),
    /// A tagged union of several variants.
    Variants,
    /// An untagged union.
    Union,
}

/// The mathematical model of a `SourceShape`.
pub enum ShapeView {
    Record(Seq<FieldView>),
    Variants,
    Union,
}

/// The views of a list of fields, in the same order.
pub open spec fn field_views(fields: Seq<FieldSpec>) -> Seq<FieldView> {
    Seq::new(fields.len(), |i: int| fields[i]@)
}

impl View for SourceShape {
    type V = ShapeView;

    open spec fn view(&self) -> ShapeView {
        match self {
            SourceShape::Record(fields) => ShapeView::Record(field_views(fields@)),
            SourceShape::Variants => ShapeView::Variants,
            SourceShape::Union => ShapeView::Union,
        }
    }
}

/// A generation target: the type's name and its shape.
#[derive(Debug, PartialEq, Eq)]
pub struct RecordSource {
    pub name: String,
    pub shape: SourceShape,
}

/// The mathematical model of a `RecordSource`.
pub struct SourceView {
    pub name: Seq<char>,
    pub shape: ShapeView,
}

impl View for RecordSource {
    type V = SourceView;

    open spec fn view(&self) -> SourceView {
        SourceView { name: self.name@, shape: self.shape@ }
    }
}

/// Why no builder could be generated.
#[derive(Debug, Clone, Copy, PartialEq, Eq)]
pub enum GenerationError {
    /// The target is not a flat record.
    UnsupportedShape,
    /// An accumulator is configured on a field that is not a collection.
    MisappliedAccumulator,
}

} // verus!
