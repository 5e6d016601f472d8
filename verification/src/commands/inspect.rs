//! Inspecting one catalog entry by name: packages take precedence
//! over collections, and an unknown name is reported as such.

use vstd::prelude::*;
use crate::package::Collection;
use crate::package::Package;
use crate::repo::Repository;
use crate::repo::find_col;
use crate::repo::find_pkg;

verus! {

/// What inspecting a name found.
#[derive(Debug)]
pub enum Inspection {
    /// The name is a package.
    Package(Package),
    /// The name is a collection (and not a package).
    Collection(Collection),
    /// The catalog knows no entry of that name.
    NotFound,
}

/// Looks a name up for display: the first package of that name, else
/// the first collection, else nothing.
pub fn inspect(repo: &Repository, package: &str) -> (r: Inspection)
    ensures
        match r {
            Inspection::Package(p) => find_pkg(repo@.packages, package@) == Some(p@),
            Inspection::Collection(c) => find_pkg(repo@.packages, package@) is None && find_col(
                repo@.collections,
                package@,
            ) == Some(c@),
            Inspection::NotFound => find_pkg(repo@.packages, package@) is None && find_col(
                repo@.collections,
                package@,
            ) is None,
        },
{
    match repo.find_package(package) {
        Some(p) => Inspection::Package(p),
        None => match repo.find_collection(package) {
            Some(c) => Inspection::Collection(c),
            None => Inspection::NotFound,
        },
    }
}

} // verus!
