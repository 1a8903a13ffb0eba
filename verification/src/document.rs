//! The schema documents that a request supplies.
//!
//! A schema document is an immutable JSON value. The only part of it this
//! library reads is its `$id` member, which names the document inside a
//! compilation context; everything else is carried through opaquely to the
//! schema compiler.

use vstd::prelude::*;

verus! {

#[verifier::external_type_specification]
#[verifier::external_body]
pub struct ExValue(serde_json::Value);

/// The `$id` member of `v`, when that member is a string: a function of the
/// value alone.
pub uninterp spec fn id_of(v: serde_json::Value) -> Option<Seq<char>>;

/// One JSON Schema document, together with the identifier it declares.
pub struct SchemaDocument {
    /// The document's `$id` member, when that member is a string.
    pub id: Option<String>,
    /// The full document, handed to the compiler unread.
    pub body: serde_json::Value,
}

impl SchemaDocument {
    /// The declared identifier, as a sequence of characters.
    pub open spec fn spec_id(&self) -> Option<Seq<char>> {
        match self.id {
            Some(s) => Some(s@),
            None => None,
        }
    }

    /// Relies on `serde_json::Value::get` and `serde_json::Value::as_str`:
    /// records the document's `$id` member when it is a string, and no
    /// identifier otherwise — a function of the value alone — while the
    /// document itself is carried through unread.
    #[verifier::external_body]
    pub fn from_value(v: serde_json::Value) -> (d: SchemaDocument)
        ensures
            d.body == v,
            d.spec_id() == id_of(v),
    {
        let id = v.get("$id").and_then(serde_json::Value::as_str).map(str::to_owned);
        SchemaDocument { id, body: v }
    }

    /// The identifier this document is known by when it stands alone: its
    /// own `$id` where it declares one, the default identifier otherwise.
    pub fn id_or_default(&self) -> (r: &str)
        ensures
            r@ == spec_id_or_default(self.spec_id()),
    {
        match &self.id {
            Some(s) => s.as_str(),
            None => default_id(),
        }
    }
}

/// The identifier assumed for a lone schema document without a `$id`.
pub open spec fn spec_default_id() -> Seq<char> {
    "file:///schema.json"@
}

/// The identifier `oid` resolves to under the default fallback.
pub open spec fn spec_id_or_default(oid: Option<Seq<char>>) -> Seq<char> {
    match oid {
        Some(s) => s,
        None => spec_default_id(),
    }
}

/// The fallback identifier for a lone schema document without a `$id`.
pub fn default_id() -> (s: &'static str)
    ensures
        s@ == spec_default_id(),
{
    "file:///schema.json"
}

} // verus!
