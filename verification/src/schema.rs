//! From a checked declaration to the layout of its builder.

use crate::instance::{fresh, Builder};
use crate::decl::{distinct_idents, struct_fields, Declaration, Field, FieldView, SchemaError};
use vstd::prelude::*;

verus! {

/// What generation knows of one field: its identifier, the identifier of the
/// builder's slot for it, and its type.
#[derive(Clone, Debug, PartialEq, Eq)]
pub struct FieldMeta {
    pub iden: String,
    pub builder_iden: String,
    pub typ: String,
}

/// A field descriptor as contracts see it.
pub struct FieldMetaView {
    pub iden: Seq<char>,
    pub builder_iden: Seq<char>,
    pub typ: Seq<char>,
}

impl View for FieldMeta {
    type V = FieldMetaView;

    open spec fn view(&self) -> FieldMetaView {
        FieldMetaView { iden: self.iden@, builder_iden: self.builder_iden@, typ: self.typ@ }
    }
}

/// The identifier of the slot that stands for the field `ident`.
pub open spec fn slot_ident(ident: Seq<char>) -> Seq<char> {
    "b_"@ + ident
}

/// The name of the builder type of the record `record`.
pub open spec fn builder_name(record: Seq<char>) -> Seq<char> {
    record + "Builder"@
}

/// The descriptor of a field.
pub open spec fn descriptor(field: FieldView) -> FieldMetaView {
    FieldMetaView { iden: field.ident, builder_iden: slot_ident(field.ident), typ: field.ty }
}

/// The descriptors of a list of fields, in the same order.
pub open spec fn descriptors(fields: Seq<FieldView>) -> Seq<FieldMetaView> {
    Seq::new(fields.len(), |i: int| descriptor(fields[i]))
}

/// The views of a list of descriptors, in order.
pub open spec fn meta_views(fields: Seq<FieldMeta>) -> Seq<FieldMetaView> {
    Seq::new(fields.len(), |i: int| fields[i]@)
}

/// Every slot is named after its field, and no two fields share an
/// identifier.
pub open spec fn well_formed(fields: Seq<FieldMetaView>) -> bool {
    &&& forall|i: int|
        0 <= i < fields.len() ==> (#[trigger] fields[i]).builder_iden == slot_ident(fields[i].iden)
    &&& forall|i: int, j: int|
        0 <= i < j < fields.len() ==> (#[trigger] fields[i]).iden != (#[trigger] fields[j]).iden
}

/// Different fields get different slots.
pub proof fn lemma_slot_ident_injective(a: Seq<char>, b: Seq<char>)
    requires
        slot_ident(a) == slot_ident(b),
    ensures
        a == b,
{
    let p = "b_"@;
    assert(a =~= (p + a).subrange(p.len() as int, (p + a).len() as int));
    assert(b =~= (p + b).subrange(p.len() as int, (p + b).len() as int));
}

/// In a well-formed list of descriptors no two slots share an identifier.
pub proof fn lemma_slots_distinct(fields: Seq<FieldMetaView>)
    requires
        well_formed(fields),
    ensures
        forall|i: int, j: int|
            0 <= i < j < fields.len() ==> (#[trigger] fields[i]).builder_iden
                != (#[trigger] fields[j]).builder_iden,
{
    assert forall|i: int, j: int| 0 <= i < j < fields.len() implies
        (#[trigger] fields[i]).builder_iden != (#[trigger] fields[j]).builder_iden by {
        if fields[i].builder_iden == fields[j].builder_iden {
            lemma_slot_ident_injective(fields[i].iden, fields[j].iden);
        }
    }
}

/// The descriptors of fields with distinct identifiers are well formed.
pub proof fn lemma_descriptors_well_formed(fields: Seq<FieldView>)
    requires
        distinct_idents(fields),
    ensures
        well_formed(descriptors(fields)),
{
    let ds = descriptors(fields);
    assert forall|i: int, j: int| 0 <= i < j < ds.len() implies
        (#[trigger] ds[i]).iden != (#[trigger] ds[j]).iden by {
        assert(fields[i].ident != fields[j].ident);
    }
}

/// The field descriptor deriver: keeps the identifier and the type, and names
/// the slot.
pub fn field_meta(field: &Field) -> (m: FieldMeta)
    ensures
        m@ == descriptor(field@),
{
    let bfid = String::from_str("b_").concat(field.ident.as_str());
    FieldMeta { iden: field.ident.clone(), builder_iden: bfid, typ: field.ty.clone() }
}

/// A record: its name and its fields in declaration order.
#[derive(Clone, Debug, PartialEq, Eq)]
pub struct RecordSchema {
    pub name: String,
    pub fields: Vec<FieldMeta>,
}

/// The builder of a record: its own name, the record's name, and one slot per
/// field, in declaration order. Each field has a setter named after it; the
/// finalizer is named `build`.
#[derive(Clone, Debug, PartialEq, Eq)]
pub struct BuilderSchema {
    pub name: String,
    pub record: String,
    pub fields: Vec<FieldMeta>,
}

/// A record schema as contracts see it.
pub struct RecordSchemaView {
    pub name: Seq<char>,
    pub fields: Seq<FieldMetaView>,
}

/// A builder schema as contracts see it.
pub struct BuilderSchemaView {
    pub name: Seq<char>,
    pub record: Seq<char>,
    pub fields: Seq<FieldMetaView>,
}

impl View for RecordSchema {
    type V = RecordSchemaView;

    open spec fn view(&self) -> RecordSchemaView {
        RecordSchemaView { name: self.name@, fields: meta_views(self.fields@) }
    }
}

impl View for BuilderSchema {
    type V = BuilderSchemaView;

    open spec fn view(&self) -> BuilderSchemaView {
        BuilderSchemaView {
            name: self.name@,
            record: self.record@,
            fields: meta_views(self.fields@),
        }
    }
}

/// The record schema of a declaration named `name` with the named fields
/// `fields`.
pub open spec fn schema_of(name: Seq<char>, fields: Seq<FieldView>) -> RecordSchemaView {
    RecordSchemaView { name, fields: descriptors(fields) }
}

/// The builder schema of a record schema.
pub open spec fn builder_of(record: RecordSchemaView) -> BuilderSchemaView {
    BuilderSchemaView { name: builder_name(record.name), record: record.name, fields: record.fields }
}

impl RecordSchema {
    /// The schema's invariant.
    pub open spec fn wf(&self) -> bool {
        well_formed(self@.fields)
    }

    /// The record schema of `decl`: its name and one descriptor per named
    /// field, in declaration order. A declaration that breaks a shape
    /// constraint gives the error that names it and the constraint, and no
    /// schema.
    pub fn extract(decl: &Declaration) -> (res: Result<RecordSchema, SchemaError>)
        ensures
            match res {
                Ok(s) => decl.violation() is None && s.wf() && s@ == schema_of(
                    decl.ident@,
                    decl.named_fields()->Some_0,
                ),
                Err(e) => decl.violation() == Some(e.violation) && e.declaration@ == decl.ident@,
            },
    {
        match struct_fields(decl) {
            Err(e) => Err(e),
            Ok(fs) => {
                let mut fields: Vec<FieldMeta> = Vec::new();
                let mut i: usize = 0;
                while i < fs.len()
                    invariant
                        i <= fs@.len(),
                        fields@.len() == i,
                        forall|k: int| 0 <= k < i ==> (#[trigger] fields@[k])@ == descriptor(fs@[k]@),
                    decreases fs@.len() - i,
                {
                    fields.push(field_meta(&fs[i]));
                    i += 1;
                }
                let s = RecordSchema { name: decl.ident.clone(), fields };
                proof {
                    let named = decl.named_fields()->Some_0;
                    assert(s@.fields =~= descriptors(named));
                    lemma_descriptors_well_formed(named);
                }
                Ok(s)
            },
        }
    }

    /// The builder schema synthesizer: the builder is named after the record
    /// and has the record's fields as its slots.
    pub fn synthesize(self) -> (b: BuilderSchema)
        ensures
            b@ == builder_of(self@),
            self.wf() ==> b.wf(),
    {
        let name = self.name.clone().concat("Builder");
        BuilderSchema { name, record: self.name, fields: self.fields }
    }
}

impl BuilderSchema {
    /// The schema's invariant.
    pub open spec fn wf(&self) -> bool {
        well_formed(self@.fields)
    }

    /// The number of slots.
    pub fn len(&self) -> (n: usize)
        ensures
            n == self@.fields.len(),
    {
        self.fields.len()
    }

    /// The factory: a builder with one slot per field, every slot empty.
    pub fn builder<V>(&self) -> (b: Builder<V>)
        ensures
            b@ == fresh::<V>(self@.fields.len()),
    {
        Builder::new(self.fields.len())
    }

    /// The slot that the setter named `name` writes: that of the first field
    /// with this identifier, which in a well-formed schema is the only one.
    /// There is no setter of that name when no field has it.
    pub fn setter(&self, name: &String) -> (slot: Option<usize>)
        ensures
            match slot {
                Some(i) => {
                    &&& i < self@.fields.len()
                    &&& self@.fields[i as int].iden == name@
                    &&& forall|k: int| 0 <= k < i ==> (#[trigger] self@.fields[k]).iden != name@
                },
                None => forall|k: int|
                    0 <= k < self@.fields.len() ==> (#[trigger] self@.fields[k]).iden != name@,
            },
    {
        let mut i: usize = 0;
        while i < self.fields.len()
            invariant
                i <= self.fields@.len(),
                forall|k: int| 0 <= k < i ==> (#[trigger] self@.fields[k]).iden != name@,
            decreases self.fields@.len() - i,
        {
            if self.fields[i].iden == *name {
                return Some(i);
            }
            i += 1;
        }
        None
    }
}

} // verus!
