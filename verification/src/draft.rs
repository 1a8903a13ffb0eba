//! The default specification draft and its session-scoped selector.
//!
//! A schema document that declares its own `$schema` is compiled under that
//! draft; every other document is compiled under a session-wide default. The
//! selector holds that default. It starts at the most current supported
//! draft and is set through configuration tokens, rejecting any token that
//! is not one of the enumerated draft names.

use vstd::prelude::*;
use vstd::string::StrSliceExecFns;

verus! {

/// Supported draft versions.
#[derive(Debug, Copy, Clone, PartialEq, Eq, Hash, Structural)]
pub enum DraftVersion {
    /// Draft for `http://json-schema.org/draft-04/schema`
    V4,
    /// Draft for `http://json-schema.org/draft-06/schema`
    V6,
    /// Draft for `http://json-schema.org/draft-07/schema`
    V7,
    /// Draft for `https://json-schema.org/draft/2019-09/schema`
    V2019,
    /// Draft for `https://json-schema.org/draft/2020-12/schema`
    V2020,
}

/// The configuration token that names `d`.
pub open spec fn spec_token(d: DraftVersion) -> Seq<char> {
    match d {
        DraftVersion::V4 => "V4"@,
        DraftVersion::V6 => "V6"@,
        DraftVersion::V7 => "V7"@,
        DraftVersion::V2019 => "V2019"@,
        DraftVersion::V2020 => "V2020"@,
    }
}

/// The draft named by the token `t`: exactly the five enumerated names,
/// case-sensitively; every other token names none.
pub open spec fn draft_of_token(t: Seq<char>) -> Option<DraftVersion> {
    if t == "V4"@ {
        Some(DraftVersion::V4)
    } else if t == "V6"@ {
        Some(DraftVersion::V6)
    } else if t == "V7"@ {
        Some(DraftVersion::V7)
    } else if t == "V2019"@ {
        Some(DraftVersion::V2019)
    } else if t == "V2020"@ {
        Some(DraftVersion::V2020)
    } else {
        None
    }
}

impl DraftVersion {
    /// The configuration token that names this draft.
    pub fn token(&self) -> (t: &'static str)
        ensures
            t@ == spec_token(*self),
    {
        match self {
            DraftVersion::V4 => "V4",
            DraftVersion::V6 => "V6",
            DraftVersion::V7 => "V7",
            DraftVersion::V2019 => "V2019",
            DraftVersion::V2020 => "V2020",
        }
    }
}

/// Whether two strings hold the same characters.
pub fn str_eq(a: &str, b: &str) -> (r: bool)
    ensures
        r == (a@ == b@),
{
    let alen = a.unicode_len();
    if alen != b.unicode_len() {
        return false;
    }
    let mut i: usize = 0;
    while i < alen
        invariant
            alen == a@.len(),
            alen == b@.len(),
            i <= alen,
            forall|j: int| 0 <= j < i ==> a@[j] == b@[j],
        decreases alen - i,
    {
        if a.get_char(i) != b.get_char(i) {
            return false;
        }
        i += 1;
    }
    proof {
        assert(a@ =~= b@);
    }
    true
}

/// Parses a draft selector token, accepting exactly the enumerated draft
/// names and rejecting every other token.
pub fn parse_draft(token: &str) -> (r: Option<DraftVersion>)
    ensures
        r == draft_of_token(token@),
{
    if str_eq(token, "V4") {
        Some(DraftVersion::V4)
    } else if str_eq(token, "V6") {
        Some(DraftVersion::V6)
    } else if str_eq(token, "V7") {
        Some(DraftVersion::V7)
    } else if str_eq(token, "V2019") {
        Some(DraftVersion::V2019)
    } else if str_eq(token, "V2020") {
        Some(DraftVersion::V2020)
    } else {
        None
    }
}

/// Session-scoped holder of the default specification draft.
pub struct DraftSelector {
    current: DraftVersion,
}

impl DraftSelector {
    /// The active default draft.
    pub closed spec fn spec_draft(&self) -> DraftVersion {
        self.current
    }

    /// A selector holding the most current supported draft.
    pub fn new() -> (s: Self)
        ensures
            s.spec_draft() == DraftVersion::V2020,
    {
        DraftSelector { current: DraftVersion::V2020 }
    }

    /// The active default draft.
    pub fn get(&self) -> (d: DraftVersion)
        ensures
            d == self.spec_draft(),
    {
        self.current
    }

    /// Sets the default draft from a configuration token. A supported token
    /// commits the draft it names and is accepted; an unsupported token is
    /// rejected and leaves the active draft unchanged.
    pub fn set_token(&mut self, token: &str) -> (ok: bool)
        ensures
            match draft_of_token(token@) {
                Some(d) => ok && final(self).spec_draft() == d,
                None => !ok && final(self).spec_draft() == old(self).spec_draft(),
            },
    {
        match parse_draft(token) {
            Some(d) => {
                self.current = d;
                true
            },
            None => false,
        }
    }
}

} // verus!
