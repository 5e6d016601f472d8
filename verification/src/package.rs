//! Packages and collections: the records a catalog is made of.

use vstd::prelude::*;
use vstd::string::*;
use crate::remote::Remote;
use crate::remote::RemoteView;
use crate::remote::url_of;
use crate::utils::expand;
use crate::utils::home_expanded;
use crate::text::join_strings;
use crate::text::sep_joined;

verus! {

/// A named, independently synchronizable unit backed by a remote
/// repository and a local install path.
#[derive(Debug)]
pub struct Package {
    pub name: String,
    pub description: String,
    pub repo: Remote,
    pub install_path: String,
    pub dependencies: Vec<String>,
}

/// The mathematical shape of a [`Package`].
pub ghost struct PackageView {
    pub name: Seq<char>,
    pub description: Seq<char>,
    pub repo: RemoteView,
    pub install_path: Seq<char>,
    pub dependencies: Seq<Seq<char>>,
}

impl View for Package {
    type V = PackageView;

    open spec fn view(&self) -> PackageView {
        PackageView {
            name: self.name@,
            description: self.description@,
            repo: self.repo@,
            install_path: self.install_path@,
            dependencies: self.dependencies.deep_view(),
        }
    }
}

impl Clone for Package {
    fn clone(&self) -> (r: Self)
        ensures
            r@ == self@,
    {
        let r = Package {
            name: self.name.clone(),
            description: self.description.clone(),
            repo: self.repo.clone(),
            install_path: self.install_path.clone(),
            dependencies: self.dependencies.clone(),
        };
        proof {
            assert(r.dependencies.deep_view() =~= self.dependencies.deep_view());
        }
        r
    }
}

impl Package {
    /// The URL of the package's remote.
    pub fn url(&self) -> (r: String)
        ensures
            r@ == url_of(self@.repo),
    {
        self.repo.url()
    }

    /// The package's install path with its home-directory placeholders
    /// expanded against `home`.
    pub fn install_path(&self, home: &str) -> (r: String)
        ensures
            r@ == home_expanded(self@.install_path, home@),
    {
        let r = expand(home, "", &self.install_path);
        proof {
            reveal_strlit("");
            reveal_strlit("$HOME");
            reveal_strlit("~");
        }
        r
    }

    /// The descriptive text an interactive shell shows for the package:
    /// its name and description, then its URL and install path.
    pub fn pprint(&self) -> (r: String)
        ensures
            r@ == self@.name + " - "@ + self@.description + "\n  Url: "@ + url_of(self@.repo)
                + "\n  Install Path: "@ + self@.install_path,
    {
        let mut s = self.name.clone();
        s.append(" - ");
        s.append(self.description.as_str());
        s.append("\n  Url: ");
        let url = self.repo.url();
        s.append(url.as_str());
        s.append("\n  Install Path: ");
        s.append(self.install_path.as_str());
        proof {
            assert(s@ =~= self@.name + " - "@ + self@.description + "\n  Url: "@ + url_of(
                self@.repo,
            ) + "\n  Install Path: "@ + self@.install_path);
        }
        s
    }
}

/// A named group of packages, expanded one level during resolution.
#[derive(Debug)]
pub struct Collection {
    pub name: String,
    pub description: String,
    pub packages: Vec<String>,
}

/// The mathematical shape of a [`Collection`].
pub ghost struct CollectionView {
    pub name: Seq<char>,
    pub description: Seq<char>,
    pub packages: Seq<Seq<char>>,
}

impl View for Collection {
    type V = CollectionView;

    open spec fn view(&self) -> CollectionView {
        CollectionView {
            name: self.name@,
            description: self.description@,
            packages: self.packages.deep_view(),
        }
    }
}

impl Clone for Collection {
    fn clone(&self) -> (r: Self)
        ensures
            r@ == self@,
    {
        let r = Collection {
            name: self.name.clone(),
            description: self.description.clone(),
            packages: self.packages.clone(),
        };
        proof {
            assert(r.packages.deep_view() =~= self.packages.deep_view());
        }
        r
    }
}

impl Collection {
    /// The descriptive text an interactive shell shows for the
    /// collection: its name and description, then its members joined
    /// with commas.
    pub fn pprint(&self) -> (r: String)
        ensures
            r@ == self@.name + " - "@ + self@.description + "\n  Packages: "@ + sep_joined(
                self@.packages,
                ", "@,
            ),
    {
        let mut s = self.name.clone();
        s.append(" - ");
        s.append(self.description.as_str());
        s.append("\n  Packages: ");
        let members = join_strings(&self.packages, ", ");
        s.append(members.as_str());
        proof {
            assert(s@ =~= self@.name + " - "@ + self@.description + "\n  Packages: "@ + sep_joined(
                self@.packages,
                ", "@,
            ));
        }
        s
    }
}

/// One catalog entry as loaded from disk: a package or a collection,
/// and valid only if exactly one of the two is present.
#[derive(Debug)]
pub struct PackageFile {
    pub collection: Option<Collection>,
    pub package: Option<Package>,
}

impl PackageFile {
    /// Whether the entry holds a collection.
    pub fn is_collection(&self) -> (r: bool)
        ensures
            r == (self.collection is Some),
    {
        self.collection.is_some()
    }

    /// Whether the entry holds a package.
    pub fn is_package(&self) -> (r: bool)
        ensures
            r == (self.package is Some),
    {
        self.package.is_some()
    }

    /// The collection the entry holds.
    pub fn collection(&self) -> (r: Collection)
        requires
            self.collection is Some,
        ensures
            r@ == self.collection->Some_0@,
    {
        match &self.collection {
            Some(c) => c.clone(),
            None => unreached(),
        }
    }

    /// The package the entry holds.
    pub fn package(&self) -> (r: Package)
        requires
            self.package is Some,
        ensures
            r@ == self.package->Some_0@,
    {
        match &self.package {
            Some(p) => p.clone(),
            None => unreached(),
        }
    }

    /// A catalog entry is well-formed exactly when it holds a package
    /// or a collection but not both.
    pub fn valid(&self) -> (r: bool)
        ensures
            r == ((self.collection is Some) != (self.package is Some)),
    {
        let both = !(self.is_collection() && self.is_package());
        let neither = !(!self.is_collection() && !self.is_package());
        both && neither
    }
}

} // verus!
