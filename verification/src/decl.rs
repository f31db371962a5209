//! The declaration that generation starts from, and why one may be refused.

use vstd::prelude::*;

verus! {

/// One named field: its identifier and its type, as written. The type is
/// carried along and never looked into.
#[derive(Clone, Debug, PartialEq, Eq)]
pub struct Field {
    pub ident: String,
    pub ty: String,
}

/// A field of a declaration as contracts see it.
pub struct FieldView {
    pub ident: Seq<char>,
    pub ty: Seq<char>,
}

impl View for Field {
    type V = FieldView;

    open spec fn view(&self) -> FieldView {
        FieldView { ident: self.ident@, ty: self.ty@ }
    }
}

/// How a product type lists its fields.
#[derive(Clone, Debug, PartialEq, Eq)]
pub enum Fields {
    /// `{ a: A, b: B }`, in declaration order.
    Named(Vec<Field>),
    /// `(A, B)`.
    Unnamed,
    /// No field list at all.
    Unit,
}

/// The kind of type that is declared.
#[derive(Clone, Debug, PartialEq, Eq)]
pub enum Data {
    Struct(Fields),
    Enum,
    Union,
}

/// A type declaration: its name and its kind.
#[derive(Clone, Debug, PartialEq, Eq)]
pub struct Declaration {
    pub ident: String,
    pub data: Data,
}

/// The shape constraint that a refused declaration breaks.
#[derive(Clone, Copy, Debug, PartialEq, Eq, Structural)]
pub enum Violation {
    /// The declaration is a sum type or a union.
    NotAStruct,
    /// The declaration is a product type without named fields.
    UnnamedFields,
    /// Two fields carry the same identifier, so two slots would collide.
    DuplicateField,
}

/// A refused declaration: which one, and why.
#[derive(Clone, Debug, PartialEq, Eq)]
pub struct SchemaError {
    pub declaration: String,
    pub violation: Violation,
}

/// The views of a list of fields, in order.
pub open spec fn field_views(fields: Seq<Field>) -> Seq<FieldView> {
    Seq::new(fields.len(), |i: int| fields[i]@)
}

/// No two fields share an identifier.
pub open spec fn distinct_idents(fields: Seq<FieldView>) -> bool {
    forall|i: int, j: int|
        0 <= i < j < fields.len() ==> (#[trigger] fields[i]).ident != (#[trigger] fields[j]).ident
}

impl Declaration {
    /// The named fields of a product type that has them.
    pub open spec fn named_fields(&self) -> Option<Seq<FieldView>> {
        match self.data {
            Data::Struct(Fields::Named(fs)) => Some(field_views(fs@)),
            _ => None,
        }
    }

    /// The constraint that the declaration breaks, if it breaks one. The kind
    /// is looked at first, then the field list, then the identifiers.
    pub open spec fn violation(&self) -> Option<Violation> {
        match self.data {
            Data::Struct(Fields::Named(fs)) => if distinct_idents(field_views(fs@)) {
                None
            } else {
                Some(Violation::DuplicateField)
            },
            Data::Struct(_) => Some(Violation::UnnamedFields),
            _ => Some(Violation::NotAStruct),
        }
    }
}

impl Field {
    /// A field with the same identifier and type.
    pub fn duplicate(&self) -> (f: Field)
        ensures
            f@ == self@,
    {
        Field { ident: self.ident.clone(), ty: self.ty.clone() }
    }
}

impl SchemaError {
    /// The text of the diagnostic for this error.
    pub open spec fn message_text(v: Violation) -> Seq<char> {
        match v {
            Violation::NotAStruct => "Not a struct."@,
            Violation::UnnamedFields => "Un-named fields, cannot create builder."@,
            Violation::DuplicateField => "Duplicate field name, cannot create builder."@,
        }
    }

    /// The diagnostic that names the broken constraint.
    pub fn message(&self) -> (s: String)
        ensures
            s@ == Self::message_text(self.violation),
    {
        match self.violation {
            Violation::NotAStruct => String::from_str("Not a struct."),
            Violation::UnnamedFields => String::from_str("Un-named fields, cannot create builder."),
            Violation::DuplicateField => String::from_str(
                "Duplicate field name, cannot create builder.",
            ),
        }
    }
}

/// Whether some field before position `upto` has the identifier `ident`.
pub open spec fn occurs_before(fields: Seq<FieldView>, upto: int, ident: Seq<char>) -> bool {
    exists|i: int| 0 <= i < upto && i < fields.len() && (#[trigger] fields[i]).ident == ident
}

/// Looks for `ident` among the first `upto` fields.
fn seen_before(fields: &Vec<Field>, upto: usize, ident: &String) -> (found: bool)
    requires
        upto <= fields@.len(),
    ensures
        found == occurs_before(field_views(fields@), upto as int, ident@),
{
    let mut i: usize = 0;
    while i < upto
        invariant
            i <= upto <= fields@.len(),
            !occurs_before(field_views(fields@), i as int, ident@),
        decreases upto - i,
    {
        if fields[i].ident == *ident {
            assert(field_views(fields@)[i as int].ident == ident@);
            return true;
        }
        i += 1;
    }
    false
}

/// Decides whether the identifiers of `fields` are pairwise different.
pub fn idents_distinct(fields: &Vec<Field>) -> (ok: bool)
    ensures
        ok == distinct_idents(field_views(fields@)),
{
    let mut j: usize = 0;
    while j < fields.len()
        invariant
            j <= fields@.len(),
            distinct_idents(field_views(fields@).take(j as int)),
        decreases fields@.len() - j,
    {
        if seen_before(fields, j, &fields[j].ident) {
            let ghost i = choose|i: int|
                0 <= i < j && (#[trigger] field_views(fields@)[i]).ident == fields@[j as int].ident@;
            assert(field_views(fields@)[i].ident == field_views(fields@)[j as int].ident);
            return false;
        }
        proof {
            let fv = field_views(fields@);
            let next = fv.take(j + 1);
            assert forall|a: int, b: int| 0 <= a < b < next.len() implies
                (#[trigger] next[a]).ident != (#[trigger] next[b]).ident by {
                if b < j {
                    assert(fv.take(j as int)[a].ident != fv.take(j as int)[b].ident);
                } else {
                    assert(!occurs_before(fv, j as int, fv[j as int].ident));
                    assert(fv[a].ident != fv[j as int].ident);
                }
            }
        }
        j += 1;
    }
    assert(field_views(fields@).take(j as int) =~= field_views(fields@));
    true
}

/// The schema extractor: the named fields of `decl`, in declaration order,
/// when `decl` is a product type with named fields whose identifiers differ;
/// otherwise the error that names `decl` and the first constraint it breaks.
pub fn struct_fields(decl: &Declaration) -> (res: Result<Vec<Field>, SchemaError>)
    ensures
        match res {
            Ok(fs) => decl.violation() is None && decl.named_fields() == Some(field_views(fs@)),
            Err(e) => decl.violation() == Some(e.violation) && e.declaration@ == decl.ident@,
        },
{
    match &decl.data {
        Data::Struct(Fields::Named(named)) => {
            if !idents_distinct(named) {
                return Err(
                    SchemaError {
                        declaration: decl.ident.clone(),
                        violation: Violation::DuplicateField,
                    },
                );
            }
            let mut fs: Vec<Field> = Vec::new();
            let mut i: usize = 0;
            while i < named.len()
                invariant
                    i <= named@.len(),
                    fs@.len() == i,
                    forall|k: int| 0 <= k < i ==> (#[trigger] fs@[k])@ == named@[k]@,
                decreases named@.len() - i,
            {
                fs.push(named[i].duplicate());
                i += 1;
            }
            assert(field_views(fs@) =~= field_views(named@));
            Ok(fs)
        },
        Data::Struct(_) => Err(
            SchemaError { declaration: decl.ident.clone(), violation: Violation::UnnamedFields },
        ),
        _ => Err(SchemaError { declaration: decl.ident.clone(), violation: Violation::NotAStruct }),
    }
}

} // verus!
