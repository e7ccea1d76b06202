//! Emission: the source text of a builder, written from its layout.

use vstd::prelude::*;
use crate::classify::{FieldStrategy, InitialValue, SetterAction, StrategyView};
use crate::generate::{ArtifactView, BuilderArtifact};
use crate::schema::{TypeDescriptor, TypeView};

verus! {

/// The text of a type: a plain type as it was written, a wrapper as its head
/// name with its argument in angle brackets.
pub open spec fn type_text(t: TypeView) -> Seq<char>
    decreases t,
{
    match t {
        TypeView::Plain(name) => name,
        TypeView::Wrapped(head, inner) => head + "<"@ + type_text(*inner) + ">"@,
    }
}

/// Writes a type as text.
pub fn render_type(t: &TypeDescriptor) -> (res: String)
    ensures
        res@ == type_text(t@),
    decreases t,
{
    match t {
        TypeDescriptor::Plain(name) => name.clone(),
        TypeDescriptor::Wrapped(head, inner) => {
            let inner_text = render_type(inner);
            let mut out = head.clone();
            out.append("<");
            out.append(inner_text.as_str());
            out.append(">");
            out
        },
    }
}

/// The pieces that are written once for each field.
#[derive(Debug, Clone, Copy, PartialEq, Eq, Structural)]
pub enum Part {
    /// The declaration of the storage slot.
    Slot,
    /// The setter method.
    Setter,
    /// The slot's entry in a fresh builder.
    Initial,
    /// The statement that takes the slot's value out during construction.
    Extraction,
    /// The field's entry in the constructed record.
    Assignment,
}

/// The text of a slot declaration: the slot has the field's visibility and
/// name, and holds an optional value of the field's declared type.
pub open spec fn slot_text(s: StrategyView) -> Seq<char> {
    s.field().visibility + " "@ + s.field().name + ": std::option::Option<"@ + type_text(
        s.field().declared_type,
    ) + ">,\n"@
}

/// The text of what a setter does to its slot.
pub open spec fn setter_body_text(s: StrategyView) -> Seq<char> {
    match s.setter_action() {
        SetterAction::Store => "self."@ + s.field().name
            + " = std::option::Option::Some(value);"@,
        SetterAction::StoreSome => "self."@ + s.field().name
            + " = std::option::Option::Some(std::option::Option::Some(value));"@,
        SetterAction::Append => "match self."@ + s.field().name
            + ".as_mut() { std::option::Option::Some(vec) => vec.push(value), std::option::Option::None => self."@
            + s.field().name + " = std::option::Option::Some(vec![value]), }"@,
    }
}

/// The text of a setter: a method of the setter's name that takes one value
/// of the setter's parameter type and hands the builder back.
pub open spec fn setter_text(s: StrategyView, builder_name: Seq<char>) -> Seq<char> {
    "pub fn "@ + s.setter_name() + "(&mut self, value: "@ + type_text(s.setter_param())
        + ") -> &mut "@ + builder_name + " { "@ + setter_body_text(s) + " self }\n"@
}

/// The text of an initial value.
pub open spec fn initial_value_text(initial: InitialValue) -> Seq<char> {
    match initial {
        InitialValue::Unset => "std::option::Option::None"@,
        InitialValue::NoValue => "std::option::Option::Some(std::option::Option::None)"@,
        InitialValue::EmptyCollection => "std::option::Option::Some(Vec::new())"@,
    }
}

/// The text of a slot's entry in a fresh builder.
pub open spec fn initial_text(s: StrategyView) -> Seq<char> {
    s.field().name + ": "@ + initial_value_text(s.initial_value()) + ",\n"@
}

/// The text of an extraction statement: a copy of the slot's value, or the
/// end of the construction where the slot holds none.
pub open spec fn extraction_text(s: StrategyView) -> Seq<char> {
    "let "@ + s.field().name + " = if let std::option::Option::Some(val) = &self."@
        + s.field().name + " { val.clone() } else { return std::option::Option::None; };\n"@
}

/// The text of a field's entry in the constructed record.
pub open spec fn assignment_text(s: StrategyView) -> Seq<char> {
    s.field().name + ",\n"@
}

/// The text of one piece for one field.
pub open spec fn part_text(part: Part, s: StrategyView, builder_name: Seq<char>) -> Seq<char> {
    match part {
        Part::Slot => slot_text(s),
        Part::Setter => setter_text(s, builder_name),
        Part::Initial => initial_text(s),
        Part::Extraction => extraction_text(s),
        Part::Assignment => assignment_text(s),
    }
}

/// The texts of one piece for all the fields, one after the other in
/// declaration order.
pub open spec fn section_text(part: Part, fields: Seq<StrategyView>, builder_name: Seq<char>) -> Seq<
    char,
>
    decreases fields.len(),
{
    if fields.len() == 0 {
        Seq::empty()
    } else {
        section_text(part, fields.drop_last(), builder_name) + part_text(
            part,
            fields.last(),
            builder_name,
        )
    }
}

/// The source text of a builder: the builder type with its slots, its
/// setters and its construction method, and the factory method on the record.
pub open spec fn builder_text(a: ArtifactView) -> Seq<char> {
    "pub struct "@ + a.builder_name + " {\n"@ + section_text(
        Part::Slot,
        a.fields,
        a.builder_name,
    ) + "}\nimpl "@ + a.builder_name + " {\n"@ + section_text(
        Part::Setter,
        a.fields,
        a.builder_name,
    ) + "pub fn build(&self) -> std::option::Option<"@ + a.record_name + "> {\n"@ + section_text(
        Part::Extraction,
        a.fields,
        a.builder_name,
    ) + "std::option::Option::Some("@ + a.record_name + " {\n"@ + section_text(
        Part::Assignment,
        a.fields,
        a.builder_name,
    ) + "})\n}\n}\nimpl "@ + a.record_name + " {\npub fn builder() -> "@ + a.builder_name
        + " {\n"@ + a.builder_name + " {\n"@ + section_text(
        Part::Initial,
        a.fields,
        a.builder_name,
    ) + "}\n}\n}\n"@
}

/// Writes the declaration of a field's storage slot.
pub fn render_slot(s: &FieldStrategy) -> (res: String)
    ensures
        res@ == slot_text(s@),
{
    let f = s.field();
    let ty = render_type(&f.declared_type);
    let mut out = f.visibility.clone();
    out.append(" ");
    out.append(f.name.as_str());
    out.append(": std::option::Option<");
    out.append(ty.as_str());
    out.append(">,\n");
    out
}

/// Writes a field's setter method, which hands back the builder named
/// `builder_name`.
pub fn render_setter(s: &FieldStrategy, builder_name: &str) -> (res: String)
    ensures
        res@ == setter_text(s@, builder_name@),
{
    let name = s.field().name.as_str();
    let mut body = String::new();
    match s.setter_action() {
        SetterAction::Store => {
            body.append("self.");
            body.append(name);
            body.append(" = std::option::Option::Some(value);");
        },
        SetterAction::StoreSome => {
            body.append("self.");
            body.append(name);
            body.append(" = std::option::Option::Some(std::option::Option::Some(value));");
        },
        SetterAction::Append => {
            body.append("match self.");
            body.append(name);
            body.append(
                ".as_mut() { std::option::Option::Some(vec) => vec.push(value), std::option::Option::None => self.",
            );
            body.append(name);
            body.append(" = std::option::Option::Some(vec![value]), }");
        },
    }
    assert(body@ =~= setter_body_text(s@));
    let param = render_type(s.setter_param());
    let mut out = String::new();
    out.append("pub fn ");
    out.append(s.setter_name().as_str());
    out.append("(&mut self, value: ");
    out.append(param.as_str());
    out.append(") -> &mut ");
    out.append(builder_name);
    out.append(" { ");
    out.append(body.as_str());
    out.append(" self }\n");
    assert(out@ =~= setter_text(s@, builder_name@));
    out
}

/// Writes a field's entry in a fresh builder.
pub fn render_initial(s: &FieldStrategy) -> (res: String)
    ensures
        res@ == initial_text(s@),
{
    let mut out = s.field().name.clone();
    out.append(": ");
    match s.initial_value() {
        InitialValue::Unset => out.append("std::option::Option::None"),
        InitialValue::NoValue => out.append(
            "std::option::Option::Some(std::option::Option::None)",
        ),
        InitialValue::EmptyCollection => out.append("std::option::Option::Some(Vec::new())"),
    }
    out.append(",\n");
    out
}

/// Writes the statement that takes a field's value out of its slot.
pub fn render_extraction(s: &FieldStrategy) -> (res: String)
    ensures
        res@ == extraction_text(s@),
{
    let name = s.field().name.as_str();
    let mut out = String::new();
    out.append("let ");
    out.append(name);
    out.append(" = if let std::option::Option::Some(val) = &self.");
    out.append(name);
    out.append(" { val.clone() } else { return std::option::Option::None; };\n");
    assert(out@ =~= extraction_text(s@));
    out
}

/// Writes a field's entry in the constructed record.
pub fn render_assignment(s: &FieldStrategy) -> (res: String)
    ensures
        res@ == assignment_text(s@),
{
    let mut out = s.field().name.clone();
    out.append(",\n");
    out
}

/// A section grows by one field's piece at a time.
proof fn lemma_section_grows(
    part: Part,
    fields: Seq<StrategyView>,
    builder_name: Seq<char>,
    i: int,
)
    requires
        0 <= i < fields.len(),
    ensures
        section_text(part, fields.take(i + 1), builder_name) == section_text(
            part,
            fields.take(i),
            builder_name,
        ) + part_text(part, fields[i], builder_name),
{
    assert(fields.take(i + 1).drop_last() =~= fields.take(i));
    assert(fields.take(i + 1).last() == fields[i]);
}

/// Writes the source text of the builder that `artifact` lays out.
pub fn render(artifact: &BuilderArtifact) -> (res: String)
    ensures
        res@ == builder_text(artifact@),
{
    let ghost fields = artifact@.fields;
    let ghost bname = artifact@.builder_name;
    let mut slots = String::new();
    let mut setters = String::new();
    let mut initials = String::new();
    let mut extractions = String::new();
    let mut assignments = String::new();
    let mut i: usize = 0;
    assert(fields.take(0) =~= Seq::<StrategyView>::empty());
    while i < artifact.fields.len()
        invariant
            i <= artifact.fields.len(),
            fields == artifact@.fields,
            fields.len() == artifact.fields.len(),
            bname == artifact.builder_name@,
            slots@ == section_text(Part::Slot, fields.take(i as int), bname),
            setters@ == section_text(Part::Setter, fields.take(i as int), bname),
            initials@ == section_text(Part::Initial, fields.take(i as int), bname),
            extractions@ == section_text(Part::Extraction, fields.take(i as int), bname),
            assignments@ == section_text(Part::Assignment, fields.take(i as int), bname),
        decreases artifact.fields.len() - i,
    {
        let s = &artifact.fields[i];
        proof {
            assert(fields[i as int] == s@);
            lemma_section_grows(Part::Slot, fields, bname, i as int);
            lemma_section_grows(Part::Setter, fields, bname, i as int);
            lemma_section_grows(Part::Initial, fields, bname, i as int);
            lemma_section_grows(Part::Extraction, fields, bname, i as int);
            lemma_section_grows(Part::Assignment, fields, bname, i as int);
        }
        slots.append(render_slot(s).as_str());
        setters.append(render_setter(s, artifact.builder_name.as_str()).as_str());
        initials.append(render_initial(s).as_str());
        extractions.append(render_extraction(s).as_str());
        assignments.append(render_assignment(s).as_str());
        i += 1;
    }
    assert(fields.take(i as int) =~= fields);
    let bn = artifact.builder_name.as_str();
    let rn = artifact.record_name.as_str();
    let mut out = String::new();
    out.append("pub struct ");
    out.append(bn);
    out.append(" {\n");
    out.append(slots.as_str());
    out.append("}\nimpl ");
    out.append(bn);
    out.append(" {\n");
    out.append(setters.as_str());
    out.append("pub fn build(&self) -> std::option::Option<");
    out.append(rn);
    out.append("> {\n");
    out.append(extractions.as_str());
    out.append("std::option::Option::Some(");
    out.append(rn);
    out.append(" {\n");
    out.append(assignments.as_str());
    out.append("})\n}\n}\nimpl ");
    out.append(rn);
    out.append(" {\npub fn builder() -> ");
    out.append(bn);
    out.append(" {\n");
    out.append(bn);
    out.append(" {\n");
    out.append(initials.as_str());
    out.append("}\n}\n}\n");
    assert(out@ =~= builder_text(artifact@));
    out
}

} // verus!
