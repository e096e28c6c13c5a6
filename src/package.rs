//! A package description as configured by the user.
use vstd::prelude::*;

verus! {

/// A package: where its sources come from, how to build them, and the
/// metadata passed through to the archive.
pub struct Package {
    pub name: String,
    pub repo: String,
    pub version: Option<String>,
    pub configure: Option<String>,
    pub build: Option<String>,
    pub install: Option<String>,
    pub deps: Option<String>,
    pub build_deps: Option<String>,
    pub maintainer: Option<String>,
    pub description: Option<String>,
}

/// Whether the package at position `i` repeats the name of an earlier one.
pub open spec fn repeats_earlier_name(pkgs: Seq<Package>, i: int) -> bool {
    exists|j: int| 0 <= j < i && pkgs[j].name@ == pkgs[i].name@
}

/// The position of the first package whose name was already taken by an
/// earlier one; `None` when all names are distinct.
pub fn first_duplicate_name(packages: &Vec<Package>) -> (r: Option<usize>)
    ensures
        match r {
            Some(i) => i < packages@.len() && repeats_earlier_name(packages@, i as int) && forall|k: int|
                0 <= k < i ==> !#[trigger] repeats_earlier_name(packages@, k),
            None => forall|k: int|
                0 <= k < packages@.len() ==> !#[trigger] repeats_earlier_name(packages@, k),
        },
{
    let mut i: usize = 0;
    while i < packages.len()
        invariant
            i <= packages.len(),
            forall|k: int| 0 <= k < i ==> !#[trigger] repeats_earlier_name(packages@, k),
        decreases packages.len() - i,
    {
        let mut j: usize = 0;
        while j < i
            invariant
                i < packages.len(),
                j <= i,
                forall|k: int| 0 <= k < i ==> !#[trigger] repeats_earlier_name(packages@, k),
                forall|m: int| 0 <= m < j ==> packages@[m].name@ != packages@[i as int].name@,
            decreases i - j,
        {
            if packages[j].name == packages[i].name {
                assert(packages@[j as int].name@ == packages@[i as int].name@);
                return Some(i);
            }
            j = j + 1;
        }
        i = i + 1;
    }
    None
}

} // verus!
