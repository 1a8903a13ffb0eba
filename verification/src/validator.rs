//! Instance validation against a compiled schema.
//!
//! Validation first compiles the named schema within its document set, then
//! runs the instance through the compiled representation. An instance that
//! fails one or more keywords is a normal, non-fatal outcome carrying a
//! diagnostic; a schema set that does not compile means the request cannot
//! be answered at all and is kept apart from both verdicts.

use vstd::prelude::*;

use crate::compiler::CompileFailure;
use crate::compiler::compile_in;
use crate::compiler::failure_from;
use crate::compiler::new_compiler;
use crate::compiler::schemas_new;
use crate::compiler::validate_in;
use crate::document::SchemaDocument;
use crate::draft::DraftVersion;
use crate::ident::collides;
use crate::ident::declared_ids;
use crate::ident::has_duplicate_id;

verus! {

/// The outcome of validating one instance against a named schema.
pub enum ValidationOutcome {
    /// The instance satisfies the schema.
    Valid,
    /// The instance fails the schema; the diagnostic describes the failing
    /// keyword locations.
    Invalid(String),
    /// The schema set itself is malformed or unresolvable, so there is no
    /// verdict about the instance.
    CompileFailure(CompileFailure),
}

/// Validates `instance` against the schema named `id` within the document
/// set `docs`, under the default `draft`, keeping the three outcomes apart.
/// An empty set and an identifier collision are the library's own compile
/// failures; every other compile failure is the collaborator's.
pub fn validate_outcome(
    id: &str,
    docs: &Vec<SchemaDocument>,
    instance: &serde_json::Value,
    draft: DraftVersion,
) -> (r: ValidationOutcome)
    ensures
        docs@.len() == 0 ==> (r matches ValidationOutcome::CompileFailure(e) && e
            is EmptySchemaSet),
        r matches ValidationOutcome::CompileFailure(e) && e is EmptySchemaSet ==> docs@.len() == 0,
        docs@.len() > 0 && has_duplicate_id(declared_ids(docs@), id@) ==> (r matches
            ValidationOutcome::CompileFailure(e) && e matches CompileFailure::DuplicateIdentifier(
            dup,
        ) && collides(declared_ids(docs@), id@, dup@)),
        r matches ValidationOutcome::CompileFailure(e) && e is DuplicateIdentifier
            ==> has_duplicate_id(declared_ids(docs@), id@),
        r matches ValidationOutcome::CompileFailure(e) && e is Collaborator ==> docs@.len() > 0
            && !has_duplicate_id(declared_ids(docs@), id@),
        !(r is CompileFailure) ==> docs@.len() > 0 && !has_duplicate_id(declared_ids(docs@), id@),
{
    let mut compiler = match new_compiler(id, docs, draft) {
        Ok(c) => c,
        Err(e) => {
            return ValidationOutcome::CompileFailure(e);
        },
    };
    let mut target = schemas_new();
    let idx = match compile_in(&mut compiler, id, &mut target) {
        Ok(idx) => idx,
        Err(e) => {
            return ValidationOutcome::CompileFailure(failure_from(e));
        },
    };
    match validate_in(&target, instance, idx) {
        Ok(()) => ValidationOutcome::Valid,
        Err(detail) => ValidationOutcome::Invalid(detail),
    }
}

/// The boolean verdict of an outcome: a satisfied schema is `true`, an
/// instance mismatch is `false` and never an error, and a schema set that
/// did not compile is an error and never a verdict. The diagnostic of a
/// mismatch is discarded here.
pub fn verdict(outcome: ValidationOutcome) -> (r: Result<bool, CompileFailure>)
    ensures
        outcome is Valid ==> r == Ok::<bool, CompileFailure>(true),
        outcome is Invalid ==> r == Ok::<bool, CompileFailure>(false),
        outcome matches ValidationOutcome::CompileFailure(e) ==> r == Err::<
            bool,
            CompileFailure,
        >(e),
{
    match outcome {
        ValidationOutcome::Valid => Ok(true),
        ValidationOutcome::Invalid(_detail) => Ok(false),
        ValidationOutcome::CompileFailure(e) => Err(e),
    }
}

/// Validates `instance` against the schema named `id` within `docs`, under
/// the default `draft`. An instance mismatch is the normal `false` verdict,
/// while a schema set that does not compile is a fatal error. An empty set
/// and an identifier collision are the library's own errors, and every
/// other compile failure is the collaborator's.
pub fn validate(
    id: &str,
    docs: &Vec<SchemaDocument>,
    instance: &serde_json::Value,
    draft: DraftVersion,
) -> (r: Result<bool, CompileFailure>)
    ensures
        docs@.len() == 0 ==> (r matches Err(e) && e is EmptySchemaSet),
        r matches Err(e) && e is EmptySchemaSet ==> docs@.len() == 0,
        docs@.len() > 0 && has_duplicate_id(declared_ids(docs@), id@) ==> (r matches Err(e)
            && e matches CompileFailure::DuplicateIdentifier(dup) && collides(
            declared_ids(docs@),
            id@,
            dup@,
        )),
        r matches Err(e) && e is DuplicateIdentifier ==> has_duplicate_id(
            declared_ids(docs@),
            id@,
        ),
        r matches Err(e) && e is Collaborator ==> docs@.len() > 0 && !has_duplicate_id(
            declared_ids(docs@),
            id@,
        ),
        r is Ok ==> docs@.len() > 0 && !has_duplicate_id(declared_ids(docs@), id@),
{
    verdict(validate_outcome(id, docs, instance, draft))
}

} // verus!
