//! Display target selection and name resolution.

use vstd::prelude::*;
use crate::error::Error;
use crate::output::PowerState;
use crate::text::{clone_names, spec_is_prefix, str_eq, str_starts_with};

verus! {

/// Which displays an invocation addresses.
#[derive(Debug, Clone, PartialEq, Eq)]
pub enum DisplayTarget {
    /// A specific display, picked by name.
    Named(String),
    /// Every connected display.
    All,
    /// No explicit choice; treated like `All` by the console backend.
    Default,
}

impl DisplayTarget {
    /// Build the target from the optional display name and the all flag;
    /// the flag wins over a name.
    pub fn from_args(display: Option<String>, all: bool) -> (r: DisplayTarget)
        ensures
            all ==> r == DisplayTarget::All,
            !all ==> (display matches Some(name) ==> r == DisplayTarget::Named(name)),
            !all && display is None ==> r == DisplayTarget::Default,
    {
        if all {
            DisplayTarget::All
        } else {
            match display {
                Some(name) => DisplayTarget::Named(name),
                None => DisplayTarget::Default,
            }
        }
    }
}

/// What a status query reports about one display.
#[derive(Debug, Clone, PartialEq, Eq)]
pub struct DisplayInfo {
    pub name: String,
    pub power: PowerState,
    pub description: Option<String>,
    pub make: Option<String>,
    pub model: Option<String>,
}

/// Some discovered name equals the query exactly.
pub open spec fn spec_has_exact(ds: Seq<String>, q: Seq<char>) -> bool {
    exists|i: int| 0 <= i < ds.len() && ds[i]@ == q
}

/// The discovered names that have the query as a prefix, in order.
pub open spec fn spec_prefix_matches(ds: Seq<String>, q: Seq<char>) -> Seq<String>
    decreases ds.len(),
{
    if ds.len() == 0 {
        Seq::empty()
    } else {
        let rest = spec_prefix_matches(ds.drop_last(), q);
        if spec_is_prefix(q, ds.last()@) {
            rest.push(ds.last())
        } else {
            rest
        }
    }
}

/// Resolve a requested display name against the discovered names.
///
/// An exact match wins outright, even when other names share the query as a
/// prefix.  Otherwise the query must be the prefix of exactly one name;
/// zero matches report the available names, several report the candidates.
pub fn find_display_by_name(displays: &Vec<String>, name: &str) -> (r: Result<String, Error>)
    ensures
        spec_has_exact(displays@, name@) ==> (r matches Ok(s) && s@ == name@),
        !spec_has_exact(displays@, name@) && spec_prefix_matches(displays@, name@).len() == 1
            ==> (r matches Ok(s) && s == spec_prefix_matches(displays@, name@)[0]),
        !spec_has_exact(displays@, name@) && spec_prefix_matches(displays@, name@).len() == 0
            ==> (r matches Err(e) && e matches Error::DisplayNotFound { name: n, available }
                && n@ == name@ && available@ == displays@),
        !spec_has_exact(displays@, name@) && spec_prefix_matches(displays@, name@).len() > 1
            ==> (r matches Err(e) && e matches Error::AmbiguousDisplay { name: n, candidates }
                && n@ == name@ && candidates@ == spec_prefix_matches(displays@, name@)),
{
    let n = displays.len();
    let mut i: usize = 0;
    while i < n
        invariant
            n == displays@.len(),
            i <= n,
            forall|j: int| 0 <= j < i ==> displays@[j]@ != name@,
        decreases n - i,
    {
        if str_eq(displays[i].as_str(), name) {
            return Ok(displays[i].clone());
        }
        i += 1;
    }
    assert(!spec_has_exact(displays@, name@));

    let mut matched: Vec<String> = Vec::new();
    let mut i: usize = 0;
    while i < n
        invariant
            n == displays@.len(),
            i <= n,
            matched@ == spec_prefix_matches(displays@.subrange(0, i as int), name@),
        decreases n - i,
    {
        proof {
            assert(displays@.subrange(0, i as int + 1).drop_last()
                =~= displays@.subrange(0, i as int));
            assert(displays@.subrange(0, i as int + 1).last() == displays@[i as int]);
        }
        if str_starts_with(displays[i].as_str(), name) {
            matched.push(displays[i].clone());
        }
        i += 1;
    }
    proof {
        assert(displays@.subrange(0, n as int) =~= displays@);
    }

    if matched.len() == 1 {
        let found = matched[0].clone();
        Ok(found)
    } else if matched.len() == 0 {
        Err(Error::DisplayNotFound { name: name.to_owned(), available: clone_names(displays) })
    } else {
        Err(Error::AmbiguousDisplay { name: name.to_owned(), candidates: matched })
    }
}

} // verus!
