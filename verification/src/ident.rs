//! Canonical identifier assignment for schema documents.
//!
//! Each document in an ordered set is known inside a compilation context by
//! one identifier: its own `$id` when it declares one as a string, the
//! caller-supplied base identifier for the first document without one, and
//! the base identifier followed by the document's decimal position for every
//! later document without one.

use vstd::prelude::*;
use vstd::string::StringExecFns;

use crate::document::SchemaDocument;
use crate::draft::str_eq;

verus! {

/// The decimal digit character for `d`.
pub open spec fn spec_digit(d: nat) -> char {
    if d == 0 {
        '0'
    } else if d == 1 {
        '1'
    } else if d == 2 {
        '2'
    } else if d == 3 {
        '3'
    } else if d == 4 {
        '4'
    } else if d == 5 {
        '5'
    } else if d == 6 {
        '6'
    } else if d == 7 {
        '7'
    } else if d == 8 {
        '8'
    } else {
        '9'
    }
}

/// The decimal rendering of `n`, most significant digit first, with no
/// leading zeros (`0` renders as `"0"`).
pub open spec fn spec_decimal(n: nat) -> Seq<char>
    decreases n,
{
    if n < 10 {
        seq![spec_digit(n)]
    } else {
        spec_decimal(n / 10) + seq![spec_digit(n % 10)]
    }
}

/// The one-character string for the decimal digit `d`.
pub fn digit_str(d: usize) -> (s: &'static str)
    requires
        d < 10,
    ensures
        s@ =~= seq![spec_digit(d as nat)],
{
    proof {
        reveal_strlit("0");
        reveal_strlit("1");
        reveal_strlit("2");
        reveal_strlit("3");
        reveal_strlit("4");
        reveal_strlit("5");
        reveal_strlit("6");
        reveal_strlit("7");
        reveal_strlit("8");
        reveal_strlit("9");
    }
    if d == 0 {
        "0"
    } else if d == 1 {
        "1"
    } else if d == 2 {
        "2"
    } else if d == 3 {
        "3"
    } else if d == 4 {
        "4"
    } else if d == 5 {
        "5"
    } else if d == 6 {
        "6"
    } else if d == 7 {
        "7"
    } else if d == 8 {
        "8"
    } else {
        "9"
    }
}

/// Renders `n` in decimal.
pub fn decimal_string(n: usize) -> (s: String)
    ensures
        s@ == spec_decimal(n as nat),
    decreases n,
{
    if n < 10 {
        digit_str(n).to_owned()
    } else {
        assert(n / 10 < n);
        let mut s = decimal_string(n / 10);
        s.append(digit_str(n % 10));
        s
    }
}

/// The identifier assigned to document `i` of a set whose declared
/// identifiers are `ids`, under the fallback base `base`: the declared
/// identifier where there is one, `base` for the first document otherwise,
/// and `base` followed by the decimal position otherwise.
pub open spec fn assigned_id(ids: Seq<Option<Seq<char>>>, base: Seq<char>, i: int) -> Seq<char> {
    match ids[i] {
        Some(s) => s,
        None => if i == 0 {
            base
        } else {
            base + spec_decimal(i as nat)
        },
    }
}

/// The set of identifiers assigned to a whole document set.
pub open spec fn assigned_id_set(ids: Seq<Option<Seq<char>>>, base: Seq<char>) -> Set<Seq<char>> {
    Set::new(|s: Seq<char>| exists|i: int| 0 <= i < ids.len() && s == assigned_id(ids, base, i))
}

/// The declared identifiers of the documents of `docs`, in order.
pub open spec fn declared_ids(docs: Seq<SchemaDocument>) -> Seq<Option<Seq<char>>> {
    docs.map_values(|d: SchemaDocument| d.spec_id())
}

/// Whether two documents of the set are assigned one and the same
/// identifier.
pub open spec fn has_duplicate_id(ids: Seq<Option<Seq<char>>>, base: Seq<char>) -> bool {
    exists|i: int, j: int|
        0 <= i < j < ids.len() && assigned_id(ids, base, i) == assigned_id(ids, base, j)
}

/// Whether `s` is an identifier assigned to two documents of the set, named
/// after the later of the two.
pub open spec fn collides(ids: Seq<Option<Seq<char>>>, base: Seq<char>, s: Seq<char>) -> bool {
    exists|i: int, j: int|
        0 <= i < j < ids.len() && assigned_id(ids, base, i) == assigned_id(ids, base, j) && s
            == assigned_id(ids, base, j)
}

/// Looks for two identifiers that collide: the position of the second
/// member of the first collision, or none when the identifiers are pairwise
/// distinct.
pub fn find_duplicate(ids: &Vec<String>) -> (r: Option<usize>)
    ensures
        r matches Some(j) ==> j < ids@.len() && (exists|i: int|
            0 <= i < j && ids@[i]@ == ids@[j as int]@),
        r is None ==> (forall|i: int, j: int| 0 <= i < j < ids@.len() ==> ids@[i]@ != ids@[j]@),
{
    let mut j: usize = 1;
    while j < ids.len()
        invariant
            j >= 1,
            forall|a: int, b: int| 0 <= a < b < j && b < ids@.len() ==> ids@[a]@ != ids@[b]@,
        decreases ids@.len() - j,
    {
        let mut i: usize = 0;
        while i < j
            invariant
                i <= j < ids@.len(),
                forall|a: int| 0 <= a < i ==> ids@[a]@ != ids@[j as int]@,
            decreases j - i,
        {
            if str_eq(ids[i].as_str(), ids[j].as_str()) {
                return Some(j);
            }
            i += 1;
        }
        j += 1;
    }
    None
}

/// A document without a declared `$id` falls back to the base identifier:
/// as the sole member of a one-document set with fallback base `base` it is
/// assigned `base` itself, and as the second member of a two-document set
/// whose first member also declares none it is assigned `base` followed by
/// `1`.
pub proof fn lemma_fallback_assignment(
    one: Seq<Option<Seq<char>>>,
    two: Seq<Option<Seq<char>>>,
    base: Seq<char>,
)
    requires
        one.len() == 1,
        one[0] is None,
        two.len() == 2,
        two[0] is None,
        two[1] is None,
    ensures
        assigned_id(one, base, 0) == base,
        assigned_id(two, base, 1) == base + "1"@,
{
    reveal_strlit("1");
    assert(spec_decimal(1) =~= "1"@);
    assert(assigned_id(two, base, 1) =~= base + "1"@);
}

/// Computes the canonical identifier of every document of `docs`, in order:
/// the document's own string `$id` verbatim where it declares one, the base
/// identifier `base` for the first document without one, and `base` followed
/// by the document's decimal position for every later document without one.
pub fn assign_identifiers(base: &str, docs: &Vec<SchemaDocument>) -> (ids: Vec<String>)
    ensures
        ids@.len() == docs@.len(),
        forall|i: int|
            0 <= i < docs@.len() ==> #[trigger] ids@[i]@ == assigned_id(
                declared_ids(docs@),
                base@,
                i,
            ),
{
    let mut ids: Vec<String> = Vec::new();
    let mut i: usize = 0;
    while i < docs.len()
        invariant
            i <= docs@.len(),
            ids@.len() == i,
            forall|j: int|
                0 <= j < i ==> #[trigger] ids@[j]@ == assigned_id(declared_ids(docs@), base@, j),
        decreases docs@.len() - i,
    {
        let sid: String = match &docs[i].id {
            Some(s) => s.clone(),
            None => if i == 0 {
                base.to_owned()
            } else {
                let mut synthesized = base.to_owned();
                let suffix = decimal_string(i);
                synthesized.append(suffix.as_str());
                synthesized
            },
        };
        ids.push(sid);
        i += 1;
    }
    ids
}

} // verus!
