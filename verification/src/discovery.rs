//! The kinds of resource that the cluster serves, as discovery found them.

use crate::text::{eq_ignore_ascii_case, same_ignoring_ascii_case};
use vstd::prelude::*;
use vstd::string::*;

verus! {

/// One kind of resource that the cluster serves.
#[derive(Debug)]
pub struct ApiResourceInfo {
    pub group: String,
    pub version: String,
    pub kind: String,
    /// The name under which resources of this kind stand in a URI.
    pub plural: String,
}

/// Why a lookup brought nothing.
#[derive(Debug)]
pub enum DiscoveryError {
    /// No kind of that name is served.
    UnknownKind(String),
}

/// The text of the error for a kind that is not served.
pub open spec fn unknown_kind_text(kind: Seq<char>) -> Seq<char> {
    "Kind '"@ + kind + "' not found in discovered API resources"@
}

impl DiscoveryError {
    /// The error as text.
    pub fn message(&self) -> (text: String)
        ensures
            self matches DiscoveryError::UnknownKind(kind) && text@ == unknown_kind_text(kind@),
    {
        match self {
            DiscoveryError::UnknownKind(kind) => {
                let mut text = String::from_str("Kind '");
                text.append(kind.as_str());
                text.append("' not found in discovered API resources");
                text
            },
        }
    }
}

/// Whether the entry at `at` is of the kind `kind`, the case of ASCII
/// letters aside.
pub open spec fn is_kind(resources: Seq<ApiResourceInfo>, at: int, kind: Seq<char>) -> bool {
    0 <= at < resources.len() && same_ignoring_ascii_case(resources[at].kind@, kind)
}

/// The kinds that discovery found, groups and versions in the order in which
/// discovery lists them.
pub struct ApiCatalog {
    pub resources: Vec<ApiResourceInfo>,
}

impl ApiCatalog {
    /// The position of the first entry of the kind `kind`.
    pub fn position_of(&self, kind: &str) -> (found: Option<usize>)
        ensures
            match found {
                Some(at) => is_kind(self.resources@, at as int, kind@) && forall|k: int|
                    0 <= k < at ==> !is_kind(self.resources@, k, kind@),
                None => forall|k: int| !is_kind(self.resources@, k, kind@),
            },
    {
        let mut i: usize = 0;
        while i < self.resources.len()
            invariant
                i <= self.resources.len(),
                forall|k: int| 0 <= k < i ==> !is_kind(self.resources@, k, kind@),
            decreases self.resources.len() - i,
        {
            if eq_ignore_ascii_case(self.resources[i].kind.as_str(), kind) {
                return Some(i);
            }
            i += 1;
        }
        None
    }

    /// Looks up a kind by its name, the case of ASCII letters aside: the
    /// first entry of that kind, or `UnknownKind` with the name that was
    /// asked for when there is none.
    pub fn find_api_resource(&self, kind: &str) -> (found: Result<&ApiResourceInfo, DiscoveryError>)
        ensures
            match found {
                Ok(resource) => exists|at: int|
                    #![trigger self.resources@[at]]
                    is_kind(self.resources@, at, kind@) && *resource == self.resources@[at] && (
                    forall|k: int| 0 <= k < at ==> !is_kind(self.resources@, k, kind@)),
                Err(DiscoveryError::UnknownKind(asked)) => asked@ == kind@ && forall|k: int|
                    !is_kind(self.resources@, k, kind@),
            },
    {
        match self.position_of(kind) {
            Some(at) => Ok(&self.resources[at]),
            None => Err(DiscoveryError::UnknownKind(String::from_str(kind))),
        }
    }
}

} // verus!
