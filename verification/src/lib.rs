//! Generation of builder companions for record declarations.
//!
//! [`derive`] takes a [`decl::Declaration`], checks its shape, lays the
//! builder out ([`schema`]) and renders it as source text ([`emit`]). The
//! module [`instance`] holds a builder as a value, with the slots, setters and
//! finalizer that the rendered builder has, and [`laws`] proves what users of
//! such a builder rely on.

pub mod decl;
pub mod emit;
pub mod instance;
pub mod laws;
pub mod schema;

use crate::decl::{Declaration, SchemaError};
use crate::emit::{emit, emitted};
use crate::schema::{builder_of, schema_of, RecordSchema};
use vstd::prelude::*;

verus! {

/// The text that generation gives for a declaration that breaks no shape
/// constraint.
pub open spec fn derived(decl: Declaration) -> Seq<char> {
    emitted(builder_of(schema_of(decl.ident@, decl.named_fields()->Some_0)))
}

/// Generates the builder of `input`: checks the declaration, lays the builder
/// out and renders it. A declaration that breaks a shape constraint gives the
/// error that names it and the constraint, and no text at all.
pub fn derive(input: &Declaration) -> (res: Result<String, SchemaError>)
    ensures
        match res {
            Ok(text) => input.violation() is None && text@ == derived(*input),
            Err(e) => input.violation() == Some(e.violation) && e.declaration@ == input.ident@,
        },
{
    match RecordSchema::extract(input) {
        Err(e) => Err(e),
        Ok(record) => {
            let schema = record.synthesize();
            Ok(emit(&schema))
        },
    }
}

} // verus!
