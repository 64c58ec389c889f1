//! The closed set of supported model profiles and the resolution of a model
//! name to one of them. A profile names a fixed, pretrained vocabulary and
//! merge-rule set; any name outside the set is rejected with `UnknownProfile`.

use vstd::prelude::*;

verus! {

/// One of the supported model profiles. Each profile denotes one immutable,
/// process-wide vocabulary store, built at most once and shared thereafter.
#[derive(Clone, Copy, PartialEq, Eq, Structural, Debug)]
pub enum Profile {
    Cl100kBase,
    O200kBase,
    Voyage3Base,
}

impl Profile {
    /// A distinct numeric identity per profile; the profile-dependent
    /// specification functions are indexed by it.
    pub open spec fn id(self) -> int {
        match self {
            Profile::Cl100kBase => 0,
            Profile::O200kBase => 1,
            Profile::Voyage3Base => 2,
        }
    }

    /// Whether encoding under this profile first puts the text into Unicode
    /// normalization form C. Only `Voyage3Base` does; for the other profiles
    /// the text is encoded exactly as given.
    pub open spec fn normalizes(self) -> bool {
        self is Voyage3Base
    }
}

/// The profile a model name denotes, if any. Matching is exact and
/// case-sensitive.
pub open spec fn profile_of_name(name: Seq<char>) -> Option<Profile> {
    if name == "cl100k_base"@ {
        Some(Profile::Cl100kBase)
    } else if name == "o200k_base"@ {
        Some(Profile::O200kBase)
    } else if name == "voyage3_base"@ {
        Some(Profile::Voyage3Base)
    } else {
        None
    }
}

/// Rejection of a model name outside the supported set. Carries the rejected
/// name unchanged.
#[derive(Debug)]
pub struct UnknownProfile {
    pub name: String,
}

} // verus!
