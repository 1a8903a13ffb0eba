//! The compilation context and its drivers.
//!
//! A request builds a fresh, isolated `boon` compiler: the session's default
//! draft is installed, the resource loader is replaced by one that refuses
//! all external retrieval (no filesystem, no network), and every supplied
//! document is registered under its assigned identifier. A set that supplies
//! no documents at all, or assigns one identifier to two documents, is
//! rejected by this module itself, before the compiler sees it; everything
//! else — metaschema checking, reference resolution, keyword evaluation —
//! is delegated to `boon`, and this module drives those calls and fixes the
//! error-handling policy around them.

use vstd::prelude::*;
use vstd::string::StringExecFns;

use crate::document::SchemaDocument;
use crate::ident::assign_identifiers;
use crate::ident::assigned_id;
use crate::ident::assigned_id_set;
use crate::ident::collides;
use crate::ident::declared_ids;
use crate::ident::find_duplicate;
use crate::ident::has_duplicate_id;

verus! {

#[verifier::external_type_specification]
#[verifier::external_body]
pub struct ExCompiler(boon::Compiler);

#[verifier::external_type_specification]
#[verifier::external_body]
pub struct ExSchemas(boon::Schemas);

#[verifier::external_type_specification]
#[verifier::external_body]
pub struct ExSchemaIndex(boon::SchemaIndex);

#[verifier::external_type_specification]
#[verifier::external_body]
pub struct ExBoonDraft(boon::Draft);

#[verifier::external_type_specification]
#[verifier::external_body]
pub struct ExCompileError(boon::CompileError);

/// The resource locations that `add_resource` has accepted on `c`, in the
/// form the caller passed them.
pub uninterp spec fn registered(c: boon::Compiler) -> Set<Seq<char>>;

/// The draft that `c` applies to documents that do not declare a `$schema`
/// of their own.
pub uninterp spec fn default_draft_of(c: boon::Compiler) -> crate::draft::DraftVersion;

/// The supported draft that a `boon` draft value stands for.
pub uninterp spec fn version_of(d: boon::Draft) -> crate::draft::DraftVersion;

/// How many compiled schemas `s` holds.
pub uninterp spec fn compiled_count(s: boon::Schemas) -> nat;

/// The position a schema index refers to.
pub uninterp spec fn index_value(i: boon::SchemaIndex) -> nat;

/// Whether the instance `v` satisfies the compiled schema that `idx` names
/// in `s`.
pub uninterp spec fn satisfies(s: boon::Schemas, idx: boon::SchemaIndex, v: serde_json::Value) -> bool;

/// A failure to compile a schema set.
#[derive(Debug)]
pub enum CompileFailure {
    /// The request supplied no schema documents at all.
    EmptySchemaSet,
    /// Two documents of the set are assigned one and the same identifier,
    /// carried here verbatim.
    DuplicateIdentifier(String),
    /// The compiler collaborator reported the failure: a document violates
    /// its metaschema, a reference does not resolve among the registered
    /// documents, the target identifier is absent, or an identifier cannot
    /// be parsed. The message names the offending identifier; the cause,
    /// where the compiler reported one, names the underlying error.
    Collaborator { message: String, cause: Option<String> },
}

impl CompileFailure {
    /// A human-readable description of the failure.
    pub fn describe(&self) -> (m: String)
        ensures
            *self is EmptySchemaSet ==> m@ == "no schemas supplied"@,
            *self matches CompileFailure::DuplicateIdentifier(id) ==> m@
                == "duplicate schema identifier: "@ + id@,
            *self matches CompileFailure::Collaborator { message, cause } ==> m@ == message@,
    {
        match self {
            CompileFailure::EmptySchemaSet => "no schemas supplied".to_owned(),
            CompileFailure::DuplicateIdentifier(id) => {
                let mut m = "duplicate schema identifier: ".to_owned();
                m.append(id.as_str());
                m
            },
            CompileFailure::Collaborator { message, cause: _ } => message.clone(),
        }
    }
}

/// Relies on `boon::Compiler::new`: a fresh compiler with no resources
/// registered, whose default draft starts at the most current supported
/// version.
#[verifier::external_body]
fn compiler_new() -> (c: boon::Compiler)
    ensures
        registered(c) =~= Set::<Seq<char>>::empty(),
        default_draft_of(c) == crate::draft::DraftVersion::V2020,
{
    boon::Compiler::new()
}

/// Relies on `boon::Draft`: maps each supported draft to the `boon` value
/// standing for the same specification revision.
#[verifier::external_body]
pub fn to_boon_draft(d: crate::draft::DraftVersion) -> (r: boon::Draft)
    ensures
        version_of(r) == d,
{
    match d {
        crate::draft::DraftVersion::V4 => boon::Draft::V4,
        crate::draft::DraftVersion::V6 => boon::Draft::V6,
        crate::draft::DraftVersion::V7 => boon::Draft::V7,
        crate::draft::DraftVersion::V2019 => boon::Draft::V2019_09,
        crate::draft::DraftVersion::V2020 => boon::Draft::V2020_12,
    }
}

/// Relies on `boon::Compiler::set_default_draft`: installs `d` as the draft
/// used for documents without a `$schema` of their own and registers
/// nothing.
#[verifier::external_body]
fn set_default_draft(c: &mut boon::Compiler, d: boon::Draft)
    ensures
        registered(*final(c)) == registered(*old(c)),
        default_draft_of(*final(c)) == version_of(d),
{
    c.set_default_draft(d);
}

/// Relies on `boon::Compiler::use_loader` and `boon::SchemeUrlLoader::new`:
/// replaces the resource loader with one that has no scheme handlers, so
/// any location that is neither an added resource nor one of the embedded
/// standard metaschemas fails to load with an unsupported-scheme error
/// instead of touching the filesystem or network. Already-added resources
/// and the configured default draft stay as they are.
#[verifier::external_body]
fn use_empty_loader(c: &mut boon::Compiler)
    ensures
        registered(*final(c)) == registered(*old(c)),
        default_draft_of(*final(c)) == default_draft_of(*old(c)),
{
    c.use_loader(Box::new(boon::SchemeUrlLoader::new()));
}

/// Relies on `boon::Compiler::add_resource`: accepts `loc` and makes the
/// document available for resolution under it (the first document added
/// for a location wins); it fails only when `loc` cannot be parsed as a
/// location, in which case nothing is registered. The configured default
/// draft is untouched either way.
#[verifier::external_body]
fn add_resource(c: &mut boon::Compiler, loc: &str, doc: &SchemaDocument) -> (r: Result<
    (),
    boon::CompileError,
>)
    ensures
        r is Ok ==> registered(*final(c)) == registered(*old(c)).insert(loc@),
        r is Err ==> registered(*final(c)) == registered(*old(c)),
        default_draft_of(*final(c)) == default_draft_of(*old(c)),
{
    c.add_resource(loc, doc.body.clone())
}

/// Relies on `boon::Schemas::new`: an empty collection of compiled schemas.
#[verifier::external_body]
pub(crate) fn schemas_new() -> (s: boon::Schemas)
    ensures
        compiled_count(s) == 0,
{
    boon::Schemas::new()
}

/// Relies on `boon::Compiler::compile`: resolves `loc` and every reference
/// reachable from it among the registered resources, checks each document
/// involved against its applicable metaschema, and on success adds the
/// compiled schemas to `target`, returning an index that `target` holds.
/// It accepts no further caller-supplied resource locations and leaves the
/// configured default draft untouched.
#[verifier::external_body]
pub(crate) fn compile_in(c: &mut boon::Compiler, loc: &str, target: &mut boon::Schemas) -> (r:
    Result<boon::SchemaIndex, boon::CompileError>)
    ensures
        r matches Ok(idx) ==> index_value(idx) < compiled_count(*final(target)),
        registered(*final(c)) == registered(*old(c)),
        default_draft_of(*final(c)) == default_draft_of(*old(c)),
{
    c.compile(loc, target)
}

/// Relies on `boon::Schemas::validate`: runs the instance through the
/// compiled schema's keyword evaluation, returning the diagnostic of the
/// failing keyword locations when the instance does not satisfy the schema.
/// The verdict is a function of the three arguments alone: no loader is
/// consulted at validation time, and keyword evaluation is deterministic.
/// It panics only on an index that `s` does not hold, which the requires
/// rules out.
#[verifier::external_body]
pub(crate) fn validate_in(
    s: &boon::Schemas,
    instance: &serde_json::Value,
    idx: boon::SchemaIndex,
) -> (r: Result<(), String>)
    requires
        index_value(idx) < compiled_count(*s),
    ensures
        r is Ok <==> satisfies(*s, idx, *instance),
{
    s.validate(instance, idx).map_err(|e| format!("{e}"))
}

/// Relies on the `Display` form of `boon::CompileError` (alternate form for
/// the full description) and on `std::error::Error::source` for the
/// underlying cause.
#[verifier::external_body]
pub(crate) fn failure_from(e: boon::CompileError) -> (f: CompileFailure)
    ensures
        f is Collaborator,
{
    let message = format!("{e:#}");
    let cause = std::error::Error::source(&e).map(|c| format!("{c}"));
    CompileFailure::Collaborator { message, cause }
}

/// Builds the compilation context for `docs` under the fallback base `id`:
/// a fresh compiler holding `draft` as its default, a resource loader that
/// refuses all external retrieval, and every document registered under its
/// assigned identifier, in order. An empty document set is rejected
/// outright, and so are two documents assigned one identifier (compared
/// verbatim, as assigned), each with the library's own error; every other
/// failure comes from the collaborator.
pub fn new_compiler(id: &str, docs: &Vec<SchemaDocument>, draft: crate::draft::DraftVersion) -> (r:
    Result<boon::Compiler, CompileFailure>)
    ensures
        docs@.len() == 0 ==> (r matches Err(e) && e is EmptySchemaSet),
        r matches Err(e) && e is EmptySchemaSet ==> docs@.len() == 0,
        docs@.len() > 0 && has_duplicate_id(declared_ids(docs@), id@) ==> (r matches Err(e)
            && e matches CompileFailure::DuplicateIdentifier(dup) && collides(
            declared_ids(docs@),
            id@,
            dup@,
        )),
        r matches Err(e) && e is DuplicateIdentifier ==> has_duplicate_id(
            declared_ids(docs@),
            id@,
        ),
        r matches Err(e) && e is Collaborator ==> docs@.len() > 0 && !has_duplicate_id(
            declared_ids(docs@),
            id@,
        ),
        r matches Ok(c) ==> docs@.len() > 0 && !has_duplicate_id(declared_ids(docs@), id@)
            && registered(c) =~= assigned_id_set(declared_ids(docs@), id@) && default_draft_of(c)
            == draft,
{
    if docs.len() == 0 {
        return Err(CompileFailure::EmptySchemaSet);
    }
    let ids = assign_identifiers(id, docs);
    match find_duplicate(&ids) {
        Some(j) => {
            proof {
                let i = choose|i: int| 0 <= i < j && ids@[i]@ == ids@[j as int]@;
                assert(assigned_id(declared_ids(docs@), id@, i) == assigned_id(
                    declared_ids(docs@),
                    id@,
                    j as int,
                ));
                assert(collides(declared_ids(docs@), id@, ids@[j as int]@));
            }
            return Err(CompileFailure::DuplicateIdentifier(ids[j].clone()));
        },
        None => {},
    }
    proof {
        assert(declared_ids(docs@).len() == docs@.len());
        if has_duplicate_id(declared_ids(docs@), id@) {
            let (x, y) = choose|x: int, y: int|
                0 <= x < y < declared_ids(docs@).len() && assigned_id(declared_ids(docs@), id@, x)
                    == assigned_id(declared_ids(docs@), id@, y);
            assert(ids@[x]@ == assigned_id(declared_ids(docs@), id@, x));
            assert(ids@[y]@ == assigned_id(declared_ids(docs@), id@, y));
            assert(false);
        }
    }
    let mut compiler = compiler_new();
    set_default_draft(&mut compiler, to_boon_draft(draft));
    use_empty_loader(&mut compiler);
    let mut i: usize = 0;
    while i < docs.len()
        invariant
            ids@.len() == docs@.len(),
            forall|j: int|
                0 <= j < docs@.len() ==> #[trigger] ids@[j]@ == assigned_id(
                    declared_ids(docs@),
                    id@,
                    j,
                ),
            i <= docs@.len(),
            docs@.len() > 0,
            !has_duplicate_id(declared_ids(docs@), id@),
            registered(compiler) =~= Set::new(
                |s: Seq<char>|
                    exists|j: int| 0 <= j < i && s == assigned_id(declared_ids(docs@), id@, j),
            ),
            default_draft_of(compiler) == draft,
        decreases docs@.len() - i,
    {
        match add_resource(&mut compiler, ids[i].as_str(), &docs[i]) {
            Ok(()) => {},
            Err(e) => {
                return Err(failure_from(e));
            },
        }
        i += 1;
        proof {
            assert(registered(compiler) =~= Set::new(
                |s: Seq<char>|
                    exists|j: int| 0 <= j < i && s == assigned_id(declared_ids(docs@), id@, j),
            ));
        }
    }
    Ok(compiler)
}

/// Compiles the schema named `id` within the document set `docs`, under the
/// default `draft`. Success means the set is a well-formed schema graph with
/// `id` present in it; an empty set and an identifier collision are the
/// library's own errors, and any malformed document, unresolved reference
/// or missing target is the collaborator's.
pub fn compiles(id: &str, docs: &Vec<SchemaDocument>, draft: crate::draft::DraftVersion) -> (r:
    Result<(), CompileFailure>)
    ensures
        docs@.len() == 0 ==> (r matches Err(e) && e is EmptySchemaSet),
        r matches Err(e) && e is EmptySchemaSet ==> docs@.len() == 0,
        docs@.len() > 0 && has_duplicate_id(declared_ids(docs@), id@) ==> (r matches Err(e)
            && e matches CompileFailure::DuplicateIdentifier(dup) && collides(
            declared_ids(docs@),
            id@,
            dup@,
        )),
        r matches Err(e) && e is DuplicateIdentifier ==> has_duplicate_id(
            declared_ids(docs@),
            id@,
        ),
        r matches Err(e) && e is Collaborator ==> docs@.len() > 0 && !has_duplicate_id(
            declared_ids(docs@),
            id@,
        ),
        r is Ok ==> docs@.len() > 0 && !has_duplicate_id(declared_ids(docs@), id@),
{
    let mut compiler = match new_compiler(id, docs, draft) {
        Ok(c) => c,
        Err(e) => {
            return Err(e);
        },
    };
    let mut target = schemas_new();
    match compile_in(&mut compiler, id, &mut target) {
        Ok(_idx) => Ok(()),
        Err(e) => Err(failure_from(e)),
    }
}

} // verus!
