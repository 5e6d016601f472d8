//! Searching the catalog: which packages and collections match a
//! query, by case-insensitive, whitespace-insensitive containment.

use vstd::prelude::*;
use crate::package::Collection;
use crate::package::CollectionView;
use crate::package::Package;
use crate::package::PackageView;
use crate::remote::url_of;
use crate::repo::Repository;
use crate::text::chars_of;
use crate::text::contains_chars;
use crate::text::has_sub;
use crate::text::lower_of;
use crate::text::lowercase;
use crate::text::remove_char_str;
use crate::text::removed;
use crate::text::trim_of;
use crate::text::trim_str;

verus! {

/// A string normalized for matching: lowercased, trimmed, and with
/// newlines, tabs and commas removed.
pub open spec fn clean_of(s: Seq<char>) -> Seq<char> {
    removed(removed(removed(trim_of(lower_of(s)), '\n'), '\t'), ',')
}

/// Normalizes a string for matching.
pub fn clean(s: &str) -> (r: String)
    ensures
        r@ == clean_of(s@),
{
    let low = lowercase(s);
    let trimmed = trim_str(low.as_str());
    let a = remove_char_str(trimmed.as_str(), '\n');
    let b = remove_char_str(a.as_str(), '\t');
    remove_char_str(b.as_str(), ',')
}

/// Whether the normalized needle occurs in the normalized haystack.
pub open spec fn matches_spec(needle: Seq<char>, haystack: Seq<char>) -> bool {
    has_sub(clean_of(haystack), clean_of(needle))
}

/// Whether `haystack` matches the query `needle`, both normalized.
pub fn matches(needle: &str, haystack: &str) -> (r: bool)
    ensures
        r == matches_spec(needle@, haystack@),
{
    let h = clean(haystack);
    let n = clean(needle);
    let hv = chars_of(h.as_str());
    let nv = chars_of(n.as_str());
    contains_chars(&hv, &nv)
}

/// Whether a package matches the query in any of its visible fields:
/// name, description, install path or remote URL.
pub open spec fn pkg_hit(q: Seq<char>, p: PackageView) -> bool {
    ||| matches_spec(q, p.name)
    ||| matches_spec(q, p.description)
    ||| matches_spec(q, p.install_path)
    ||| matches_spec(q, url_of(p.repo))
}

/// Whether a collection matches the query in its name or description.
pub open spec fn col_hit(q: Seq<char>, c: CollectionView) -> bool {
    ||| matches_spec(q, c.name)
    ||| matches_spec(q, c.description)
}

/// The packages of `ps` that match the query, in catalog order.
pub open spec fn pkg_filter(ps: Seq<PackageView>, q: Seq<char>) -> Seq<PackageView> {
    ps.filter(|p: PackageView| pkg_hit(q, p))
}

/// The collections of `cs` that match the query, in catalog order.
pub open spec fn col_filter(cs: Seq<CollectionView>, q: Seq<char>) -> Seq<CollectionView> {
    cs.filter(|c: CollectionView| col_hit(q, c))
}

/// What a search found: the matching packages and collections, in
/// catalog order.
#[derive(Debug)]
pub struct SearchResults {
    pub packages: Vec<Package>,
    pub collections: Vec<Collection>,
}

/// Finds every package and collection matching the query.
pub fn search(repo: &Repository, query: &str) -> (r: SearchResults)
    ensures
        r.packages@.map_values(|p: Package| p@) == pkg_filter(repo@.packages, query@),
        r.collections@.map_values(|c: Collection| c@) == col_filter(repo@.collections, query@),
{
    let mut pkgs: Vec<Package> = Vec::new();
    let n = repo.packages.len();
    let mut i: usize = 0;
    proof {
        assert(pkgs@.map_values(|p: Package| p@) =~= pkg_filter(repo@.packages.take(0), query@))
            by {
            reveal(Seq::filter);
            assert(repo@.packages.take(0) =~= Seq::<PackageView>::empty());
        }
    }
    while i < n
        invariant
            i <= n,
            n == repo.packages@.len(),
            repo@.packages.len() == n,
            pkgs@.map_values(|p: Package| p@) == pkg_filter(repo@.packages.take(i as int), query@),
        decreases n - i,
    {
        let p = &repo.packages[i];
        let ghost pv = repo@.packages[i as int];
        assert(pv == repo.packages@[i as int]@);
        let url = p.url();
        let hit = if matches(query, p.name.as_str()) {
            true
        } else if matches(query, p.description.as_str()) {
            true
        } else if matches(query, p.install_path.as_str()) {
            true
        } else {
            matches(query, url.as_str())
        };
        assert(hit == pkg_hit(query@, pv));
        let ghost pre = pkgs@.map_values(|p: Package| p@);
        if hit {
            pkgs.push(p.clone());
        }
        proof {
            let taken = repo@.packages.take(i + 1);
            assert(taken.drop_last() =~= repo@.packages.take(i as int));
            assert(taken.last() == pv);
            reveal(Seq::filter);
            if hit {
                assert(pkgs@.map_values(|p: Package| p@) =~= pre.push(pv));
            }
        }
        i = i + 1;
    }
    proof {
        assert(repo@.packages.take(n as int) =~= repo@.packages);
    }

    let mut cols: Vec<Collection> = Vec::new();
    let cn = repo.collections.len();
    let mut k: usize = 0;
    proof {
        assert(cols@.map_values(|c: Collection| c@) =~= col_filter(
            repo@.collections.take(0),
            query@,
        )) by {
            reveal(Seq::filter);
            assert(repo@.collections.take(0) =~= Seq::<CollectionView>::empty());
        }
    }
    while k < cn
        invariant
            k <= cn,
            cn == repo.collections@.len(),
            repo@.collections.len() == cn,
            cols@.map_values(|c: Collection| c@) == col_filter(
                repo@.collections.take(k as int),
                query@,
            ),
        decreases cn - k,
    {
        let c = &repo.collections[k];
        let ghost cv = repo@.collections[k as int];
        assert(cv == repo.collections@[k as int]@);
        let hit = if matches(query, c.name.as_str()) {
            true
        } else {
            matches(query, c.description.as_str())
        };
        assert(hit == col_hit(query@, cv));
        let ghost pre = cols@.map_values(|c: Collection| c@);
        if hit {
            cols.push(c.clone());
        }
        proof {
            let taken = repo@.collections.take(k + 1);
            assert(taken.drop_last() =~= repo@.collections.take(k as int));
            assert(taken.last() == cv);
            reveal(Seq::filter);
            if hit {
                assert(cols@.map_values(|c: Collection| c@) =~= pre.push(cv));
            }
        }
        k = k + 1;
    }
    proof {
        assert(repo@.collections.take(cn as int) =~= repo@.collections);
    }
    SearchResults { packages: pkgs, collections: cols }
}

} // verus!
