//! Dependency resolution: expanding a requested set of package and
//! collection names into the complete, de-duplicated set of packages
//! that must be synchronized.
//!
//! A requested name is looked up first as a collection (whose effect is
//! its member list, one level only) and then as a package (whose effect
//! is itself plus its direct dependencies). Every name reached that
//! way is then expanded as a package — itself plus its dependencies —
//! until a fixed point, with a visited guard seeded with the requested
//! names themselves, so cycles converge instead of looping.

use vstd::prelude::*;
use crate::errors::Error;
use crate::package::PackageView;
use crate::package::CollectionView;
use crate::repo::Repository;
use crate::repo::RepositoryView;
use crate::repo::find_col;
use crate::repo::find_pkg;
use crate::text::str_eq;

verus! {

/// The effect-set of looking a requested name up in the catalog: a
/// collection contributes its member list, a package contributes itself
/// and its direct dependencies, and an unknown name has no effect-set.
/// A name matching both is taken as the collection.
pub open spec fn effect_of(cat: RepositoryView, name: Seq<char>) -> Option<Seq<Seq<char>>> {
    match find_col(cat.collections, name) {
        Some(c) => Some(c.packages),
        None => match find_pkg(cat.packages, name) {
            Some(p) => Some(p.dependencies.push(p.name)),
            None => None,
        },
    }
}

/// The effect-set of expanding a reached name: only packages may stand
/// as dependency targets, and a package contributes itself and its
/// direct dependencies.
pub open spec fn deps_of(cat: RepositoryView, name: Seq<char>) -> Option<Seq<Seq<char>>> {
    match find_pkg(cat.packages, name) {
        Some(p) => Some(p.dependencies.push(p.name)),
        None => None,
    }
}

/// Whether `n` is reached from the requested set `reqs` within `fuel`
/// expansion steps: either directly by some requested name's
/// effect-set, or through the expansion of a reached name that was not
/// itself requested (requested names are seeded as visited and never
/// re-expanded).
pub open spec fn in_closure(
    cat: RepositoryView,
    reqs: Set<Seq<char>>,
    n: Seq<char>,
    fuel: nat,
) -> bool
    decreases fuel,
{
    (exists|r: Seq<char>|
        reqs.contains(r) && effect_of(cat, r) is Some && effect_of(cat, r)->Some_0.contains(n)) || (
    fuel > 0 && exists|m: Seq<char>|
        in_closure(cat, reqs, m, (fuel - 1) as nat) && !reqs.contains(m) && deps_of(cat, m) is Some
            && deps_of(cat, m)->Some_0.contains(n))
}

/// Whether `n` belongs to the resolved closure of the requested set.
pub open spec fn resolved(cat: RepositoryView, reqs: Set<Seq<char>>, n: Seq<char>) -> bool {
    exists|fuel: nat| in_closure(cat, reqs, n, fuel)
}

/// The resolved closure itself: exactly the names reachable from the
/// requested set.
pub open spec fn resolved_names(cat: RepositoryView, reqs: Set<Seq<char>>) -> Set<Seq<char>> {
    Set::new(|n: Seq<char>| resolved(cat, reqs, n))
}

/// Whether a requested name is known to the catalog at all.
pub open spec fn req_known(cat: RepositoryView, name: Seq<char>) -> bool {
    effect_of(cat, name) is Some
}

/// Whether a reached name can be expanded: requested names are never
/// re-expanded, any other must name a package.
pub open spec fn expandable(cat: RepositoryView, reqs: Set<Seq<char>>, n: Seq<char>) -> bool {
    reqs.contains(n) || deps_of(cat, n) is Some
}

/// Whether resolution succeeds: every requested name is known, and
/// every name the closure reaches can be expanded.
pub open spec fn resolvable(cat: RepositoryView, reqs: Set<Seq<char>>) -> bool {
    (forall|r: Seq<char>| reqs.contains(r) ==> req_known(cat, r)) && (forall|n: Seq<char>|
        resolved(cat, reqs, n) ==> expandable(cat, reqs, n))
}

/// Every name the packages of `ps` mention: their own names and their
/// dependency lists.
pub open spec fn names_in_pkgs(ps: Seq<PackageView>) -> Seq<Seq<char>>
    decreases ps.len(),
{
    if ps.len() == 0 {
        Seq::empty()
    } else {
        (seq![ps[0].name] + ps[0].dependencies) + names_in_pkgs(ps.skip(1))
    }
}

/// Every name the collections of `cs` mention: their member lists.
pub open spec fn names_in_cols(cs: Seq<CollectionView>) -> Seq<Seq<char>>
    decreases cs.len(),
{
    if cs.len() == 0 {
        Seq::empty()
    } else {
        cs[0].packages + names_in_cols(cs.skip(1))
    }
}

/// Every name the catalog mentions anywhere; every name resolution can
/// ever reach lies in this finite pool, which bounds the worklist.
pub open spec fn name_pool(cat: RepositoryView) -> Seq<Seq<char>> {
    names_in_pkgs(cat.packages) + names_in_cols(cat.collections)
}

proof fn lemma_find_pkg_names_in(ps: Seq<PackageView>, name: Seq<char>)
    requires
        find_pkg(ps, name) is Some,
    ensures
        names_in_pkgs(ps).contains(find_pkg(ps, name)->Some_0.name),
        forall|d: Seq<char>|
            find_pkg(ps, name)->Some_0.dependencies.contains(d) ==> names_in_pkgs(ps).contains(d),
    decreases ps.len(),
{
    let p = find_pkg(ps, name)->Some_0;
    let own = seq![ps[0].name] + ps[0].dependencies;
    if ps[0].name == name {
        assert(names_in_pkgs(ps)[0] == p.name);
        assert forall|d: Seq<char>| p.dependencies.contains(d) implies names_in_pkgs(ps).contains(
            d,
        ) by {
            let k = choose|k: int| 0 <= k < p.dependencies.len() && p.dependencies[k] == d;
            assert(names_in_pkgs(ps)[1 + k] == d);
        }
    } else {
        lemma_find_pkg_names_in(ps.skip(1), name);
        let rest = names_in_pkgs(ps.skip(1));
        assert(rest.contains(p.name));
        let k0 = choose|k: int| 0 <= k < rest.len() && rest[k] == p.name;
        assert(names_in_pkgs(ps)[own.len() + k0] == p.name);
        assert forall|d: Seq<char>| p.dependencies.contains(d) implies names_in_pkgs(ps).contains(
            d,
        ) by {
            assert(rest.contains(d));
            let k = choose|k: int| 0 <= k < rest.len() && rest[k] == d;
            assert(names_in_pkgs(ps)[own.len() + k] == d);
        }
    }
}

proof fn lemma_find_col_names_in(cs: Seq<CollectionView>, name: Seq<char>)
    requires
        find_col(cs, name) is Some,
    ensures
        forall|x: Seq<char>|
            find_col(cs, name)->Some_0.packages.contains(x) ==> names_in_cols(cs).contains(x),
    decreases cs.len(),
{
    let c = find_col(cs, name)->Some_0;
    if cs[0].name == name {
        assert forall|x: Seq<char>| c.packages.contains(x) implies names_in_cols(cs).contains(
            x,
        ) by {
            let k = choose|k: int| 0 <= k < c.packages.len() && c.packages[k] == x;
            assert(names_in_cols(cs)[k] == x);
        }
    } else {
        lemma_find_col_names_in(cs.skip(1), name);
        let rest = names_in_cols(cs.skip(1));
        assert forall|x: Seq<char>| c.packages.contains(x) implies names_in_cols(cs).contains(
            x,
        ) by {
            assert(rest.contains(x));
            let k = choose|k: int| 0 <= k < rest.len() && rest[k] == x;
            assert(names_in_cols(cs)[cs[0].packages.len() + k] == x);
        }
    }
}

/// Everything an effect-set or an expansion contributes lies in the
/// catalog's name pool.
proof fn lemma_effect_in_pool(cat: RepositoryView, name: Seq<char>)
    requires
        effect_of(cat, name) is Some,
    ensures
        forall|x: Seq<char>|
            effect_of(cat, name)->Some_0.contains(x) ==> name_pool(cat).contains(x),
{
    let pool = name_pool(cat);
    let pk = names_in_pkgs(cat.packages);
    let cl = names_in_cols(cat.collections);
    if find_col(cat.collections, name) is Some {
        lemma_find_col_names_in(cat.collections, name);
        assert forall|x: Seq<char>| effect_of(cat, name)->Some_0.contains(x) implies pool.contains(
            x,
        ) by {
            assert(cl.contains(x));
            let k = choose|k: int| 0 <= k < cl.len() && cl[k] == x;
            assert(pool[pk.len() + k] == x);
        }
    } else {
        lemma_deps_in_pool(cat, name);
    }
}

/// What expanding a package contributes lies in the catalog's name
/// pool.
proof fn lemma_deps_in_pool(cat: RepositoryView, name: Seq<char>)
    requires
        deps_of(cat, name) is Some,
    ensures
        forall|x: Seq<char>| deps_of(cat, name)->Some_0.contains(x) ==> name_pool(cat).contains(x),
{
    let pool = name_pool(cat);
    let pk = names_in_pkgs(cat.packages);
    lemma_find_pkg_names_in(cat.packages, name);
    let p = find_pkg(cat.packages, name)->Some_0;
    assert forall|x: Seq<char>| deps_of(cat, name)->Some_0.contains(x) implies pool.contains(x) by {
        assert(p.dependencies.push(p.name).contains(x));
        let k = choose|k: int|
            0 <= k < p.dependencies.push(p.name).len() && p.dependencies.push(p.name)[k] == x;
        if k < p.dependencies.len() {
            assert(p.dependencies.contains(x));
            assert(pk.contains(x));
        } else {
            assert(x == p.name);
            assert(pk.contains(x));
        }
        let j = choose|j: int| 0 <= j < pk.len() && pk[j] == x;
        assert(pool[j] == x);
    }
}

/// A duplicate-free sequence drawn from a pool is no longer than the
/// pool.
proof fn lemma_unique_subset_len(s: Seq<Seq<char>>, u: Seq<Seq<char>>)
    requires
        s.no_duplicates(),
        forall|k: int| 0 <= k < s.len() ==> u.contains(s[k]),
    ensures
        s.len() <= u.len(),
{
    broadcast use vstd::seq_lib::seq_to_set_is_finite;

    s.unique_seq_to_set();
    u.lemma_cardinality_of_set();
    assert(s.to_set().subset_of(u.to_set())) by {
        assert forall|x: Seq<char>| s.to_set().contains(x) implies u.to_set().contains(x) by {
            assert(s.contains(x));
            let k = choose|k: int| 0 <= k < s.len() && s[k] == x;
            assert(u.contains(x));
        }
    }
    vstd::set_lib::lemma_len_subset(s.to_set(), u.to_set());
}

proof fn lemma_push_keeps_no_duplicates(s: Seq<Seq<char>>, x: Seq<char>)
    requires
        s.no_duplicates(),
        !s.contains(x),
    ensures
        s.push(x).no_duplicates(),
{
    let t = s.push(x);
    assert forall|i: int, j: int| 0 <= i < t.len() && 0 <= j < t.len() && i != j implies t[i]
        != t[j] by {
        if i < s.len() && j < s.len() {
        } else if i == s.len() {
            assert(!s.contains(t[j]) ==> s[j] != x || true);
            assert(t[j] == s[j]);
            assert(s.contains(s[j]));
        } else {
            assert(t[i] == s[i]);
            assert(s.contains(s[i]));
        }
    }
}

/// Whether some string of `v` has exactly the characters of `s`.
fn vec_contains_str(v: &Vec<String>, s: &str) -> (r: bool)
    ensures
        r == v.deep_view().contains(s@),
{
    let n = v.len();
    let mut i: usize = 0;
    while i < n
        invariant
            i <= n,
            n == v@.len(),
            v.deep_view().len() == n,
            forall|j: int| 0 <= j < i ==> v.deep_view()[j] != s@,
        decreases n - i,
    {
        if str_eq(v[i].as_str(), s) {
            assert(v.deep_view()[i as int] == v@[i as int]@);
            return true;
        }
        assert(v.deep_view()[i as int] == v@[i as int]@);
        i = i + 1;
    }
    false
}

/// Appends `s` unless an equal string is already present; the existing
/// entries stay where they are.
fn push_unique(result: &mut Vec<String>, s: String)
    requires
        old(result).deep_view().no_duplicates(),
    ensures
        final(result).deep_view().no_duplicates(),
        final(result).deep_view().len() >= old(result).deep_view().len(),
        forall|k: int|
            0 <= k < old(result).deep_view().len() ==> final(result).deep_view()[k] == old(
                result,
            ).deep_view()[k],
        forall|n: Seq<char>|
            final(result).deep_view().contains(n) <==> (old(result).deep_view().contains(n) || n
                == s@),
{
    let ghost pre = result.deep_view();
    if !vec_contains_str(result, s.as_str()) {
        proof {
            lemma_push_keeps_no_duplicates(pre, s@);
        }
        result.push(s);
        proof {
            assert(result.deep_view() =~= pre.push(s@));
            assert forall|n: Seq<char>| result.deep_view().contains(n) implies (pre.contains(n)
                || n == s@) by {
                let k = choose|k: int|
                    0 <= k < result.deep_view().len() && result.deep_view()[k] == n;
                if k < pre.len() {
                    assert(pre.contains(n));
                }
            }
            assert(result.deep_view().contains(s@)) by {
                assert(result.deep_view()[pre.len() as int] == s@);
            }
            assert forall|n: Seq<char>| pre.contains(n) implies result.deep_view().contains(n) by {
                let k = choose|k: int| 0 <= k < pre.len() && pre[k] == n;
                assert(result.deep_view()[k] == n);
            }
        }
    }
}

/// Unions every string of `items` into `result`, keeping `result`
/// duplicate-free and its existing entries in place.
fn absorb(result: &mut Vec<String>, items: &Vec<String>)
    requires
        old(result).deep_view().no_duplicates(),
    ensures
        final(result).deep_view().no_duplicates(),
        final(result).deep_view().len() >= old(result).deep_view().len(),
        forall|k: int|
            0 <= k < old(result).deep_view().len() ==> final(result).deep_view()[k] == old(
                result,
            ).deep_view()[k],
        forall|n: Seq<char>|
            final(result).deep_view().contains(n) <==> (old(result).deep_view().contains(n)
                || items.deep_view().contains(n)),
{
    let n = items.len();
    let mut i: usize = 0;
    while i < n
        invariant
            i <= n,
            n == items@.len(),
            items.deep_view().len() == n,
            result.deep_view().no_duplicates(),
            result.deep_view().len() >= old(result).deep_view().len(),
            forall|k: int|
                0 <= k < old(result).deep_view().len() ==> result.deep_view()[k] == old(
                    result,
                ).deep_view()[k],
            forall|m: Seq<char>|
                result.deep_view().contains(m) <==> (old(result).deep_view().contains(m) || exists|
                    j: int,
                |
                    0 <= j < i && items.deep_view()[j] == m),
        decreases n - i,
    {
        assert(items.deep_view()[i as int] == items@[i as int]@);
        push_unique(result, items[i].clone());
        i = i + 1;
    }
    assert forall|m: Seq<char>| items.deep_view().contains(m) implies (exists|j: int|
        0 <= j < n && items.deep_view()[j] == m) by {
        let k = choose|k: int| 0 <= k < items.deep_view().len() && items.deep_view()[k] == m;
    }
}

proof fn lemma_union_push(
    pre: Seq<Seq<char>>,
    mid: Seq<Seq<char>>,
    post: Seq<Seq<char>>,
    deps: Seq<Seq<char>>,
    name: Seq<char>,
)
    requires
        forall|n: Seq<char>| mid.contains(n) <==> (pre.contains(n) || deps.contains(n)),
        forall|n: Seq<char>| post.contains(n) <==> (mid.contains(n) || n == name),
    ensures
        forall|n: Seq<char>| post.contains(n) <==> (pre.contains(n) || deps.push(name).contains(n)),
{
    let items = deps.push(name);
    assert forall|n: Seq<char>| post.contains(n) implies (pre.contains(n) || items.contains(n)) by {
        if !pre.contains(n) {
            if deps.contains(n) {
                let k = choose|k: int| 0 <= k < deps.len() && deps[k] == n;
                assert(items[k] == n);
            } else {
                assert(n == name);
                assert(items[items.len() - 1] == n);
            }
        }
    }
    assert forall|n: Seq<char>| (pre.contains(n) || items.contains(n)) implies post.contains(n) by {
        if items.contains(n) {
            let k = choose|k: int| 0 <= k < items.len() && items[k] == n;
            if k < deps.len() {
                assert(deps.contains(n));
            } else {
                assert(n == name);
            }
        }
    }
}

proof fn lemma_grown_keeps_invariants(
    pre: Seq<Seq<char>>,
    post: Seq<Seq<char>>,
    items: Seq<Seq<char>>,
    cat: RepositoryView,
    reqs: Set<Seq<char>>,
    pool: Seq<Seq<char>>,
)
    requires
        forall|k: int| 0 <= k < pre.len() ==> pool.contains(pre[k]),
        forall|k: int| 0 <= k < pre.len() ==> resolved(cat, reqs, pre[k]),
        forall|x: Seq<char>| items.contains(x) ==> pool.contains(x),
        forall|x: Seq<char>| items.contains(x) ==> resolved(cat, reqs, x),
        forall|n: Seq<char>| post.contains(n) <==> (pre.contains(n) || items.contains(n)),
    ensures
        forall|k: int| 0 <= k < post.len() ==> pool.contains(post[k]),
        forall|k: int| 0 <= k < post.len() ==> resolved(cat, reqs, post[k]),
{
    assert forall|k: int| 0 <= k < post.len() implies pool.contains(post[k]) && resolved(
        cat,
        reqs,
        post[k],
    ) by {
        assert(post.contains(post[k]));
        if pre.contains(post[k]) {
            let i = choose|i: int| 0 <= i < pre.len() && pre[i] == post[k];
        }
    }
}

proof fn lemma_closure_in_result(
    cat: RepositoryView,
    reqseq: Seq<Seq<char>>,
    rv: Seq<Seq<char>>,
    n: Seq<char>,
    fuel: nat,
)
    requires
        in_closure(cat, reqseq.to_set(), n, fuel),
        forall|j: int| 0 <= j < reqseq.len() ==> effect_of(cat, reqseq[j]) is Some,
        forall|j: int, x: Seq<char>|
            0 <= j < reqseq.len() && effect_of(cat, reqseq[j]) is Some && effect_of(
                cat,
                reqseq[j],
            )->Some_0.contains(x) ==> rv.contains(x),
        forall|k: int|
            0 <= k < rv.len() && !reqseq.to_set().contains(rv[k]) ==> deps_of(cat, rv[k]) is Some,
        forall|k: int, d: Seq<char>|
            0 <= k < rv.len() && !reqseq.to_set().contains(rv[k]) && deps_of(cat, rv[k]) is Some
                && deps_of(cat, rv[k])->Some_0.contains(d) ==> rv.contains(d),
    ensures
        rv.contains(n),
    decreases fuel,
{
    let reqs = reqseq.to_set();
    if exists|r: Seq<char>|
        reqs.contains(r) && effect_of(cat, r) is Some && effect_of(cat, r)->Some_0.contains(n) {
        let r = choose|r: Seq<char>|
            reqs.contains(r) && effect_of(cat, r) is Some && effect_of(cat, r)->Some_0.contains(n);
        assert(reqseq.contains(r));
        let j = choose|j: int| 0 <= j < reqseq.len() && reqseq[j] == r;
        assert(rv.contains(n));
    } else {
        let m = choose|m: Seq<char>|
            in_closure(cat, reqs, m, (fuel - 1) as nat) && !reqs.contains(m) && deps_of(cat, m)
                is Some && deps_of(cat, m)->Some_0.contains(n);
        lemma_closure_in_result(cat, reqseq, rv, m, (fuel - 1) as nat);
        let k = choose|k: int| 0 <= k < rv.len() && rv[k] == m;
        assert(rv.contains(n));
    }
}

/// Expands the requested package and collection names into the
/// complete, duplicate-free set of packages to synchronize.
///
/// On success the returned names are exactly the resolved closure of
/// the request, and resolution is possible; on failure no such closure
/// exists, and the reported name is a requested name the catalog does
/// not know, or a reached name that is not a package.
pub fn gather_required_packages(pcs: &Vec<String>, repo: &Repository) -> (r: Result<
    Vec<String>,
    Error,
>)
    ensures
        match r {
            Ok(v) => {
                &&& resolvable(repo@, pcs.deep_view().to_set())
                &&& v.deep_view().no_duplicates()
                &&& v.deep_view().to_set() == resolved_names(repo@, pcs.deep_view().to_set())
            },
            Err(e) => {
                &&& !resolvable(repo@, pcs.deep_view().to_set())
                &&& match e {
                    Error::UnknownPackage(name) => (pcs.deep_view().contains(name@) && !req_known(
                        repo@,
                        name@,
                    )) || (resolved(repo@, pcs.deep_view().to_set(), name@) && !expandable(
                        repo@,
                        pcs.deep_view().to_set(),
                        name@,
                    )),
                    _ => false,
                }
            },
        },
{
    let ghost cat = repo@;
    let ghost reqs = pcs.deep_view().to_set();
    let ghost pool = name_pool(cat);
    let mut result: Vec<String> = Vec::new();

    let pn = pcs.len();
    let mut j: usize = 0;
    while j < pn
        invariant
            j <= pn,
            pn == pcs@.len(),
            pcs.deep_view().len() == pn,
            cat == repo@,
            reqs == pcs.deep_view().to_set(),
            pool == name_pool(cat),
            result.deep_view().no_duplicates(),
            forall|k: int|
                0 <= k < result.deep_view().len() ==> pool.contains(result.deep_view()[k]),
            forall|k: int|
                0 <= k < result.deep_view().len() ==> resolved(cat, reqs, result.deep_view()[k]),
            forall|jj: int| 0 <= jj < j ==> effect_of(cat, pcs.deep_view()[jj]) is Some,
            forall|jj: int, x: Seq<char>|
                0 <= jj < j && effect_of(cat, pcs.deep_view()[jj]) is Some && effect_of(
                    cat,
                    pcs.deep_view()[jj],
                )->Some_0.contains(x) ==> result.deep_view().contains(x),
        decreases pn - j,
    {
        let ghost pcv = pcs.deep_view()[j as int];
        assert(pcv == pcs@[j as int]@);
        assert(reqs.contains(pcv)) by {
            assert(pcs.deep_view().contains(pcv));
        }
        let found_col = repo.find_collection(pcs[j].as_str());
        match found_col {
            Some(c) => {
                let ghost pre = result.deep_view();
                let ghost items = c@.packages;
                assert(effect_of(cat, pcv) == Some(items));
                absorb(&mut result, &c.packages);
                proof {
                    assert forall|x: Seq<char>| items.contains(x) implies resolved(
                        cat,
                        reqs,
                        x,
                    ) by {
                        assert(in_closure(cat, reqs, x, 0));
                    }
                    lemma_effect_in_pool(cat, pcv);
                    lemma_grown_keeps_invariants(pre, result.deep_view(), items, cat, reqs, pool);
                }
            },
            None => {
                let found_pkg = repo.find_package(pcs[j].as_str());
                match found_pkg {
                    Some(p) => {
                        let ghost pre = result.deep_view();
                        let ghost items = p@.dependencies.push(p@.name);
                        assert(effect_of(cat, pcv) == Some(items));
                        absorb(&mut result, &p.dependencies);
                        let ghost mid = result.deep_view();
                        push_unique(&mut result, p.name);
                        proof {
                            lemma_union_push(
                                pre,
                                mid,
                                result.deep_view(),
                                p@.dependencies,
                                p@.name,
                            );
                            assert forall|x: Seq<char>| items.contains(x) implies resolved(
                                cat,
                                reqs,
                                x,
                            ) by {
                                assert(in_closure(cat, reqs, x, 0));
                            }
                            lemma_effect_in_pool(cat, pcv);
                            lemma_grown_keeps_invariants(
                                pre,
                                result.deep_view(),
                                items,
                                cat,
                                reqs,
                                pool,
                            );
                        }
                    },
                    None => {
                        proof {
                            assert(!req_known(cat, pcv));
                            assert(!resolvable(cat, reqs));
                        }
                        return Err(Error::UnknownPackage(pcs[j].clone()));
                    },
                }
            },
        }
        j = j + 1;
    }

    proof {
        lemma_unique_subset_len(result.deep_view(), pool);
    }
    let mut idx: usize = 0;
    while idx < result.len()
        invariant
            idx <= result.deep_view().len(),
            result.deep_view().len() == result@.len(),
            result.deep_view().len() <= pool.len(),
            cat == repo@,
            reqs == pcs.deep_view().to_set(),
            pool == name_pool(cat),
            result.deep_view().no_duplicates(),
            forall|k: int|
                0 <= k < result.deep_view().len() ==> pool.contains(result.deep_view()[k]),
            forall|k: int|
                0 <= k < result.deep_view().len() ==> resolved(cat, reqs, result.deep_view()[k]),
            forall|jj: int|
                0 <= jj < pcs.deep_view().len() ==> effect_of(cat, pcs.deep_view()[jj]) is Some,
            forall|jj: int, x: Seq<char>|
                0 <= jj < pcs.deep_view().len() && effect_of(cat, pcs.deep_view()[jj]) is Some
                    && effect_of(cat, pcs.deep_view()[jj])->Some_0.contains(x)
                    ==> result.deep_view().contains(x),
            forall|k: int|
                0 <= k < idx && !reqs.contains(result.deep_view()[k]) ==> deps_of(
                    cat,
                    result.deep_view()[k],
                ) is Some,
            forall|k: int, d: Seq<char>|
                0 <= k < idx && !reqs.contains(result.deep_view()[k]) && deps_of(
                    cat,
                    result.deep_view()[k],
                ) is Some && deps_of(cat, result.deep_view()[k])->Some_0.contains(d)
                    ==> result.deep_view().contains(d),
        decreases pool.len() - idx,
    {
        let nm = result[idx].clone();
        let ghost nmv = result.deep_view()[idx as int];
        assert(nmv == result@[idx as int]@);
        let in_requested = vec_contains_str(pcs, nm.as_str());
        proof {
            if in_requested {
                assert(reqs.contains(nmv));
            } else {
                assert(!reqs.contains(nmv));
            }
        }
        if !in_requested {
            let found_pkg = repo.find_package(nm.as_str());
            match found_pkg {
                Some(p) => {
                    let ghost pre = result.deep_view();
                    let ghost items = p@.dependencies.push(p@.name);
                    assert(deps_of(cat, nmv) == Some(items));
                    absorb(&mut result, &p.dependencies);
                    let ghost mid = result.deep_view();
                    push_unique(&mut result, p.name);
                    proof {
                        lemma_union_push(pre, mid, result.deep_view(), p@.dependencies, p@.name);
                        let f = choose|f: nat| in_closure(cat, reqs, nmv, f);
                        assert forall|x: Seq<char>| items.contains(x) implies resolved(
                            cat,
                            reqs,
                            x,
                        ) by {
                            assert(in_closure(cat, reqs, x, f + 1));
                        }
                        lemma_deps_in_pool(cat, nmv);
                        lemma_grown_keeps_invariants(
                            pre,
                            result.deep_view(),
                            items,
                            cat,
                            reqs,
                            pool,
                        );
                        lemma_unique_subset_len(result.deep_view(), pool);
                    }
                },
                None => {
                    proof {
                        assert(resolved(cat, reqs, nmv));
                        assert(!expandable(cat, reqs, nmv));
                        assert(!resolvable(cat, reqs));
                    }
                    return Err(Error::UnknownPackage(nm));
                },
            }
        }
        idx = idx + 1;
    }

    proof {
        let rv = result.deep_view();
        let reqseq = pcs.deep_view();
        assert forall|r: Seq<char>| reqs.contains(r) implies req_known(cat, r) by {
            assert(reqseq.contains(r));
            let jj = choose|jj: int| 0 <= jj < reqseq.len() && reqseq[jj] == r;
        }
        assert forall|n: Seq<char>| resolved(cat, reqs, n) implies expandable(cat, reqs, n)
            && rv.contains(n) by {
            let f = choose|f: nat| in_closure(cat, reqs, n, f);
            lemma_closure_in_result(cat, reqseq, rv, n, f);
            let k = choose|k: int| 0 <= k < rv.len() && rv[k] == n;
            if !reqs.contains(n) {
                assert(deps_of(cat, rv[k]) is Some);
            }
        }
        assert(rv.to_set() =~= resolved_names(cat, reqs)) by {
            assert forall|n: Seq<char>| rv.to_set().contains(n) implies resolved_names(
                cat,
                reqs,
            ).contains(n) by {
                assert(rv.contains(n));
                let k = choose|k: int| 0 <= k < rv.len() && rv[k] == n;
            }
        }
    }
    Ok(result)
}

/// Resolution depends on the requested names only through the set they
/// form: two requests over the same set of names succeed together and
/// resolve to the same closure, whatever their order or repetitions.
pub proof fn lemma_resolution_order_independent(
    cat: RepositoryView,
    req1: Seq<Seq<char>>,
    req2: Seq<Seq<char>>,
)
    requires
        req1.to_set() == req2.to_set(),
    ensures
        resolvable(cat, req1.to_set()) == resolvable(cat, req2.to_set()),
        resolved_names(cat, req1.to_set()) == resolved_names(cat, req2.to_set()),
{
}

/// The resolved closure absorbs every requested name's effect-set and
/// is closed under expanding any reached name that was not itself
/// requested.
pub proof fn lemma_resolved_names_closed(cat: RepositoryView, reqs: Set<Seq<char>>)
    ensures
        forall|r: Seq<char>, n: Seq<char>|
            reqs.contains(r) && effect_of(cat, r) is Some && effect_of(cat, r)->Some_0.contains(n)
                ==> resolved_names(cat, reqs).contains(n),
        forall|m: Seq<char>, n: Seq<char>|
            resolved_names(cat, reqs).contains(m) && !reqs.contains(m) && deps_of(cat, m) is Some
                && deps_of(cat, m)->Some_0.contains(n) ==> resolved_names(cat, reqs).contains(n),
{
    assert forall|r: Seq<char>, n: Seq<char>|
        reqs.contains(r) && effect_of(cat, r) is Some && effect_of(cat, r)->Some_0.contains(
            n,
        ) implies resolved_names(cat, reqs).contains(n) by {
        assert(in_closure(cat, reqs, n, 0));
    }
    assert forall|m: Seq<char>, n: Seq<char>|
        resolved_names(cat, reqs).contains(m) && !reqs.contains(m) && deps_of(cat, m) is Some
            && deps_of(cat, m)->Some_0.contains(n) implies resolved_names(cat, reqs).contains(
        n,
    ) by {
        let f = choose|f: nat| in_closure(cat, reqs, m, f);
        assert(in_closure(cat, reqs, n, f + 1));
    }
}

proof fn lemma_in_closure_within(
    cat: RepositoryView,
    reqs: Set<Seq<char>>,
    other: Set<Seq<char>>,
    n: Seq<char>,
    fuel: nat,
)
    requires
        in_closure(cat, reqs, n, fuel),
        forall|r: Seq<char>, x: Seq<char>|
            reqs.contains(r) && effect_of(cat, r) is Some && effect_of(cat, r)->Some_0.contains(x)
                ==> other.contains(x),
        forall|m: Seq<char>, x: Seq<char>|
            other.contains(m) && !reqs.contains(m) && deps_of(cat, m) is Some && deps_of(
                cat,
                m,
            )->Some_0.contains(x) ==> other.contains(x),
    ensures
        other.contains(n),
    decreases fuel,
{
    if exists|r: Seq<char>|
        reqs.contains(r) && effect_of(cat, r) is Some && effect_of(cat, r)->Some_0.contains(n) {
    } else {
        let m = choose|m: Seq<char>|
            in_closure(cat, reqs, m, (fuel - 1) as nat) && !reqs.contains(m) && deps_of(cat, m)
                is Some && deps_of(cat, m)->Some_0.contains(n);
        lemma_in_closure_within(cat, reqs, other, m, (fuel - 1) as nat);
    }
}

/// The resolved closure is the least set with those two closure
/// properties: any other set closed the same way contains it.
pub proof fn lemma_resolved_names_least(
    cat: RepositoryView,
    reqs: Set<Seq<char>>,
    other: Set<Seq<char>>,
)
    requires
        forall|r: Seq<char>, x: Seq<char>|
            reqs.contains(r) && effect_of(cat, r) is Some && effect_of(cat, r)->Some_0.contains(x)
                ==> other.contains(x),
        forall|m: Seq<char>, x: Seq<char>|
            other.contains(m) && !reqs.contains(m) && deps_of(cat, m) is Some && deps_of(
                cat,
                m,
            )->Some_0.contains(x) ==> other.contains(x),
    ensures
        resolved_names(cat, reqs).subset_of(other),
{
    assert forall|n: Seq<char>| resolved_names(cat, reqs).contains(n) implies other.contains(
        n,
    ) by {
        let f = choose|f: nat| in_closure(cat, reqs, n, f);
        lemma_in_closure_within(cat, reqs, other, n, f);
    }
}

} // verus!
