//! The catalog: every package and collection the tool knows about,
//! queryable by name.
//!
//! Loading the catalog's files from its working copy is the shell's
//! concern; the library receives the already-parsed records.

use vstd::prelude::*;
use crate::package::Collection;
use crate::package::CollectionView;
use crate::package::Package;
use crate::package::PackageView;
use crate::text::str_eq;

verus! {

/// The loaded catalog: read-only input to resolution and
/// synchronization.
#[derive(Debug)]
pub struct Repository {
    pub packages: Vec<Package>,
    pub collections: Vec<Collection>,
}

/// The mathematical shape of a [`Repository`].
pub ghost struct RepositoryView {
    pub packages: Seq<PackageView>,
    pub collections: Seq<CollectionView>,
}

impl View for Repository {
    type V = RepositoryView;

    open spec fn view(&self) -> RepositoryView {
        RepositoryView {
            packages: self.packages@.map_values(|p: Package| p@),
            collections: self.collections@.map_values(|c: Collection| c@),
        }
    }
}

/// The first package of `ps` named `name`, if any.
pub open spec fn find_pkg(ps: Seq<PackageView>, name: Seq<char>) -> Option<PackageView>
    decreases ps.len(),
{
    if ps.len() == 0 {
        None
    } else if ps[0].name == name {
        Some(ps[0])
    } else {
        find_pkg(ps.skip(1), name)
    }
}

/// The first collection of `cs` named `name`, if any.
pub open spec fn find_col(cs: Seq<CollectionView>, name: Seq<char>) -> Option<CollectionView>
    decreases cs.len(),
{
    if cs.len() == 0 {
        None
    } else if cs[0].name == name {
        Some(cs[0])
    } else {
        find_col(cs.skip(1), name)
    }
}

proof fn lemma_find_pkg_skip(ps: Seq<PackageView>, name: Seq<char>, i: int)
    requires
        0 <= i <= ps.len(),
        forall|j: int| 0 <= j < i ==> ps[j].name != name,
    ensures
        find_pkg(ps, name) == find_pkg(ps.skip(i), name),
    decreases i,
{
    if i > 0 {
        lemma_find_pkg_skip(ps.skip(1), name, i - 1);
        assert(ps.skip(1).skip(i - 1) =~= ps.skip(i));
    } else {
        assert(ps.skip(0) =~= ps);
    }
}

proof fn lemma_find_col_skip(cs: Seq<CollectionView>, name: Seq<char>, i: int)
    requires
        0 <= i <= cs.len(),
        forall|j: int| 0 <= j < i ==> cs[j].name != name,
    ensures
        find_col(cs, name) == find_col(cs.skip(i), name),
    decreases i,
{
    if i > 0 {
        lemma_find_col_skip(cs.skip(1), name, i - 1);
        assert(cs.skip(1).skip(i - 1) =~= cs.skip(i));
    } else {
        assert(cs.skip(0) =~= cs);
    }
}

impl Repository {
    /// The first package named `name`, if the catalog has one.
    pub fn find_package(&self, name: &str) -> (r: Option<Package>)
        ensures
            match r {
                Some(p) => find_pkg(self@.packages, name@) == Some(p@),
                None => find_pkg(self@.packages, name@) is None,
            },
    {
        let n = self.packages.len();
        let mut i: usize = 0;
        while i < n
            invariant
                i <= n,
                n == self.packages@.len(),
                forall|j: int| 0 <= j < i ==> self@.packages[j].name != name@,
            decreases n - i,
        {
            if str_eq(self.packages[i].name.as_str(), name) {
                let p = self.packages[i].clone();
                proof {
                    lemma_find_pkg_skip(self@.packages, name@, i as int);
                    assert(self@.packages.skip(i as int)[0] == self@.packages[i as int]);
                }
                return Some(p);
            }
            i = i + 1;
        }
        proof {
            lemma_find_pkg_skip(self@.packages, name@, n as int);
            assert(self@.packages.skip(n as int) =~= Seq::<PackageView>::empty());
        }
        None
    }

    /// The first collection named `name`, if the catalog has one.
    pub fn find_collection(&self, name: &str) -> (r: Option<Collection>)
        ensures
            match r {
                Some(c) => find_col(self@.collections, name@) == Some(c@),
                None => find_col(self@.collections, name@) is None,
            },
    {
        let n = self.collections.len();
        let mut i: usize = 0;
        while i < n
            invariant
                i <= n,
                n == self.collections@.len(),
                forall|j: int| 0 <= j < i ==> self@.collections[j].name != name@,
            decreases n - i,
        {
            if str_eq(self.collections[i].name.as_str(), name) {
                let c = self.collections[i].clone();
                proof {
                    lemma_find_col_skip(self@.collections, name@, i as int);
                    assert(self@.collections.skip(i as int)[0] == self@.collections[i as int]);
                }
                return Some(c);
            }
            i = i + 1;
        }
        proof {
            lemma_find_col_skip(self@.collections, name@, n as int);
            assert(self@.collections.skip(n as int) =~= Seq::<CollectionView>::empty());
        }
        None
    }

    /// The package named `name`. To be called only when the package is
    /// known to exist.
    pub fn get_package_from_string(&self, name: &str) -> (r: Package)
        requires
            find_pkg(self@.packages, name@) is Some,
        ensures
            Some(r@) == find_pkg(self@.packages, name@),
    {
        match self.find_package(name) {
            Some(p) => p,
            None => unreached(),
        }
    }

    /// Every package name in the catalog, in catalog order; the
    /// "install everything" mode requests exactly these.
    pub fn all_package_names(&self) -> (r: Vec<String>)
        ensures
            r.deep_view() == self@.packages.map_values(|p: PackageView| p.name),
    {
        let n = self.packages.len();
        let mut out: Vec<String> = Vec::new();
        let mut i: usize = 0;
        while i < n
            invariant
                i <= n,
                n == self.packages@.len(),
                out.deep_view() =~= self@.packages.map_values(|p: PackageView| p.name).take(
                    i as int,
                ),
            decreases n - i,
        {
            out.push(self.packages[i].name.clone());
            proof {
                let names = self@.packages.map_values(|p: PackageView| p.name);
                assert(names.take(i + 1) =~= names.take(i as int).push(names[i as int]));
                assert(out.deep_view() =~= names.take(i + 1));
            }
            i = i + 1;
        }
        proof {
            let names = self@.packages.map_values(|p: PackageView| p.name);
            assert(names.take(n as int) =~= names);
        }
        out
    }
}

} // verus!
