//! The emitter: a builder schema rendered as the declarations of the builder.

use crate::schema::{meta_views, BuilderSchema, BuilderSchemaView, FieldMeta, FieldMetaView};
use vstd::prelude::*;

verus! {

/// The four places where the emitted text has one piece per field.
#[derive(Clone, Copy, Debug, PartialEq, Eq, Structural)]
pub enum Part {
    /// A slot in the builder's declaration.
    SlotDecl,
    /// A slot in the factory's builder value.
    EmptySlot,
    /// A setter.
    Setter,
    /// A field of the record that the finalizer makes.
    Take,
}

/// The piece for one field.
pub open spec fn part_text(part: Part, f: FieldMetaView) -> Seq<char> {
    match part {
        Part::SlotDecl => f.builder_iden + " : std::option::Option<"@ + f.typ + ">"@,
        Part::EmptySlot => f.builder_iden + " : std::option::Option::None"@,
        Part::Setter => "pub fn "@ + f.iden + "(&mut self, arg: "@ + f.typ
            + ") -> &mut Self { self."@ + f.builder_iden
            + " = std::option::Option::Some(arg); self }"@,
        Part::Take => f.iden + " : std::mem::take(&mut self."@ + f.builder_iden + ")?"@,
    }
}

/// What stands between two pieces of the same kind.
pub open spec fn separator(part: Part) -> Seq<char> {
    match part {
        Part::Setter => " "@,
        _ => ", "@,
    }
}

/// The pieces of all fields in declaration order, with the separator between
/// each two and none at either end.
pub open spec fn joined(part: Part, fields: Seq<FieldMetaView>) -> Seq<char>
    decreases fields.len(),
{
    if fields.len() == 0 {
        Seq::empty()
    } else if fields.len() == 1 {
        part_text(part, fields[0])
    } else {
        joined(part, fields.drop_last()) + separator(part) + part_text(part, fields.last())
    }
}

/// The emitted text: the builder's declaration, its setters and finalizer,
/// and the factory on the record.
pub open spec fn emitted(b: BuilderSchemaView) -> Seq<char> {
    "struct "@ + b.name + " { "@ + joined(Part::SlotDecl, b.fields) + " } impl "@ + b.name
        + " { "@ + joined(Part::Setter, b.fields)
        + " pub fn build(&mut self) -> std::option::Option<"@ + b.record
        + "> { std::option::Option::Some("@ + b.record + " { "@ + joined(Part::Take, b.fields)
        + " }) } } impl "@ + b.record + " { pub fn builder() -> "@ + b.name + " { "@ + b.name
        + " { "@ + joined(Part::EmptySlot, b.fields) + " } } }"@
}

/// Renders the piece of kind `part` for the field `f`.
pub fn render_part(part: Part, f: &FieldMeta) -> (out: String)
    ensures
        out@ == part_text(part, f@),
{
    match part {
        Part::SlotDecl => {
            let mut out = f.builder_iden.clone();
            out.append(" : std::option::Option<");
            out.append(f.typ.as_str());
            out.append(">");
            out
        },
        Part::EmptySlot => {
            let mut out = f.builder_iden.clone();
            out.append(" : std::option::Option::None");
            out
        },
        Part::Setter => {
            let mut out = String::from_str("pub fn ");
            out.append(f.iden.as_str());
            out.append("(&mut self, arg: ");
            out.append(f.typ.as_str());
            out.append(") -> &mut Self { self.");
            out.append(f.builder_iden.as_str());
            out.append(" = std::option::Option::Some(arg); self }");
            out
        },
        Part::Take => {
            let mut out = f.iden.clone();
            out.append(" : std::mem::take(&mut self.");
            out.append(f.builder_iden.as_str());
            out.append(")?");
            out
        },
    }
}

/// Renders the pieces of kind `part` for all fields, separated.
pub fn render_list(part: Part, fields: &Vec<FieldMeta>) -> (out: String)
    ensures
        out@ == joined(part, meta_views(fields@)),
{
    let ghost all = meta_views(fields@);
    let mut out = String::new();
    let mut i: usize = 0;
    while i < fields.len()
        invariant
            i <= fields@.len(),
            all == meta_views(fields@),
            out@ == joined(part, all.take(i as int)),
        decreases fields@.len() - i,
    {
        let piece = render_part(part, &fields[i]);
        if i > 0 {
            match part {
                Part::Setter => out.append(" "),
                _ => out.append(", "),
            }
        }
        out.append(piece.as_str());
        proof {
            let next = all.take(i + 1);
            assert(next.drop_last() =~= all.take(i as int));
            assert(next.last() == fields@[i as int]@);
            if i == 0 {
                assert(out@ =~= part_text(part, next[0]));
            }
        }
        i += 1;
    }
    assert(all.take(i as int) =~= all);
    out
}

/// Renders the builder that `schema` lays out.
pub fn emit(schema: &BuilderSchema) -> (out: String)
    ensures
        out@ == emitted(schema@),
{
    let slots = render_list(Part::SlotDecl, &schema.fields);
    let setters = render_list(Part::Setter, &schema.fields);
    let takes = render_list(Part::Take, &schema.fields);
    let empties = render_list(Part::EmptySlot, &schema.fields);
    let mut out = String::from_str("struct ");
    out.append(schema.name.as_str());
    out.append(" { ");
    out.append(slots.as_str());
    out.append(" } impl ");
    out.append(schema.name.as_str());
    out.append(" { ");
    out.append(setters.as_str());
    out.append(" pub fn build(&mut self) -> std::option::Option<");
    out.append(schema.record.as_str());
    out.append("> { std::option::Option::Some(");
    out.append(schema.record.as_str());
    out.append(" { ");
    out.append(takes.as_str());
    out.append(" }) } } impl ");
    out.append(schema.record.as_str());
    out.append(" { pub fn builder() -> ");
    out.append(schema.name.as_str());
    out.append(" { ");
    out.append(schema.name.as_str());
    out.append(" { ");
    out.append(empties.as_str());
    out.append(" } } }");
    out
}

} // verus!
