//! The request shapes that callers invoke this engine through.
//!
//! Two request kinds exist: a compile-only request asking whether a schema
//! set is valid, and a validate request asking whether an instance satisfies
//! a named schema. The two treat a malformed schema set differently, by
//! design: the compile-only predicate swallows every compile failure into a
//! `false` verdict (a malformed schema is simply not a valid schema), while
//! the validate request surfaces it as a fatal error (the request cannot be
//! answered at all, which is not the same as an invalid instance). An absent
//! instance or schema yields no verdict on either kind, distinct from both
//! `false` and an error.

use vstd::prelude::*;
use vstd::string::StringExecFns;

use crate::compiler::CompileFailure;
use crate::compiler::compiles;
use crate::document::SchemaDocument;
use crate::draft::DraftSelector;
use crate::ident::declared_ids;
use crate::ident::has_duplicate_id;
use crate::validator::validate;

verus! {

/// Whether `schema`, standing alone under its own `$id` or the default
/// identifier, is a valid schema. A compile failure is the `false` verdict;
/// an absent schema has no verdict.
pub fn schema_is_valid(selector: &DraftSelector, schema: Option<SchemaDocument>) -> (r: Option<
    bool,
>)
    ensures
        r is Some <==> schema is Some,
{
    match schema {
        None => None,
        Some(doc) => {
            let id = doc.id_or_default().to_owned();
            let mut docs: Vec<SchemaDocument> = Vec::new();
            docs.push(doc);
            Some(compiles(id.as_str(), &docs, selector.get()).is_ok())
        },
    }
}

/// Whether the schema named `id` within the set `schemas` is valid. A
/// compile failure is the `false` verdict — an empty set and an identifier
/// collision included; an absent identifier or set has no verdict.
pub fn schema_set_is_valid(
    selector: &DraftSelector,
    id: Option<&str>,
    schemas: Option<Vec<SchemaDocument>>,
) -> (r: Option<bool>)
    ensures
        r is Some <==> (id is Some && schemas is Some),
        schemas matches Some(docs) && id is Some && docs@.len() == 0 ==> r == Some(false),
        schemas matches Some(docs) && id matches Some(base) && has_duplicate_id(
            declared_ids(docs@),
            base@,
        ) ==> r == Some(false),
{
    match (id, schemas) {
        (Some(target), Some(docs)) => Some(compiles(target, &docs, selector.get()).is_ok()),
        _ => None,
    }
}

/// Whether `instance` satisfies `schema`, standing alone under its own
/// `$id` or the default identifier. An instance mismatch is the normal
/// `false` verdict; a schema that does not compile is a fatal error, always
/// the collaborator's (a one-document set is never empty and never
/// collides); an absent instance or schema has no verdict and raises
/// nothing.
pub fn schema_validates(
    selector: &DraftSelector,
    instance: Option<serde_json::Value>,
    schema: Option<SchemaDocument>,
) -> (r: Result<Option<bool>, CompileFailure>)
    ensures
        instance is None || schema is None ==> r == Ok::<Option<bool>, CompileFailure>(
            None::<bool>,
        ),
        r matches Ok(v) ==> (v is Some <==> (instance is Some && schema is Some)),
        r matches Err(e) ==> e is Collaborator,
{
    match (instance, schema) {
        (Some(inst), Some(doc)) => {
            let id = doc.id_or_default().to_owned();
            let mut docs: Vec<SchemaDocument> = Vec::new();
            docs.push(doc);
            match validate(id.as_str(), &docs, &inst, selector.get()) {
                Ok(b) => Ok(Some(b)),
                Err(e) => Err(e),
            }
        },
        _ => Ok(None),
    }
}

/// Whether `instance` satisfies the schema named `id` within the set
/// `schemas`. An instance mismatch is the normal `false` verdict; a schema
/// set that does not compile is a fatal error — an empty set and an
/// identifier collision as the library's own errors, everything else as the
/// collaborator's; an absent instance, identifier or set has no verdict and
/// raises nothing.
pub fn schema_set_validates(
    selector: &DraftSelector,
    instance: Option<serde_json::Value>,
    id: Option<&str>,
    schemas: Option<Vec<SchemaDocument>>,
) -> (r: Result<Option<bool>, CompileFailure>)
    ensures
        instance is None || id is None || schemas is None ==> r == Ok::<
            Option<bool>,
            CompileFailure,
        >(None::<bool>),
        r matches Ok(v) ==> (v is Some <==> (instance is Some && id is Some && schemas is Some)),
        schemas matches Some(docs) && instance is Some && id is Some && docs@.len() == 0 ==> (r
            matches Err(e) && e is EmptySchemaSet),
        r matches Err(e) && e is EmptySchemaSet ==> (schemas matches Some(docs) && docs@.len()
            == 0),
        schemas matches Some(docs) && id matches Some(base) && instance is Some
            && has_duplicate_id(declared_ids(docs@), base@) ==> (r matches Err(e) && e
            is DuplicateIdentifier),
        r matches Err(e) && e is DuplicateIdentifier ==> (schemas matches Some(docs) && id matches
            Some(base) && has_duplicate_id(declared_ids(docs@), base@)),
{
    match (instance, id, schemas) {
        (Some(inst), Some(target), Some(docs)) => {
            match validate(target, &docs, &inst, selector.get()) {
                Ok(b) => Ok(Some(b)),
                Err(e) => Err(e),
            }
        },
        _ => Ok(None),
    }
}

/// Whether `instance` satisfies `schema`: the validate request with the
/// schema written first.
pub fn matches_schema(
    selector: &DraftSelector,
    schema: Option<SchemaDocument>,
    instance: Option<serde_json::Value>,
) -> (r: Result<Option<bool>, CompileFailure>)
    ensures
        instance is None || schema is None ==> r == Ok::<Option<bool>, CompileFailure>(
            None::<bool>,
        ),
        r matches Ok(v) ==> (v is Some <==> (instance is Some && schema is Some)),
        r matches Err(e) ==> e is Collaborator,
{
    schema_validates(selector, instance, schema)
}

} // verus!
