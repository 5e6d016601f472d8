//! Character-level string utilities the rest of the library builds on:
//! extracting the characters of a string, substring containment,
//! whitespace trimming, character removal and pattern replacement, each
//! specified over the string's view.

use vstd::prelude::*;
use vstd::string::*;

verus! {

/// What `str::to_lowercase` returns; the result depends on the
/// characters alone.
pub uninterp spec fn lower_of(s: Seq<char>) -> Seq<char>;

/// What `char::is_whitespace` returns; the result depends on the
/// character alone.
pub uninterp spec fn is_space_char(c: char) -> bool;

/// Relies on `str::to_lowercase`: Unicode lowercasing, a function of
/// the input characters alone.
#[verifier::external_body]
pub(crate) fn lowercase(s: &str) -> (r: String)
    ensures
        r@ == lower_of(s@),
{
    s.to_lowercase()
}

/// Relies on `char::is_whitespace`: the Unicode whitespace property of
/// the character alone.
#[verifier::external_body]
pub(crate) fn is_space(c: char) -> (r: bool)
    ensures
        r == is_space_char(c),
{
    c.is_whitespace()
}

/// The characters of a string, as a vector with the same view.
pub fn chars_of(s: &str) -> (r: Vec<char>)
    ensures
        r@ == s@,
{
    let n = s.unicode_len();
    let mut v: Vec<char> = Vec::new();
    let mut i: usize = 0;
    while i < n
        invariant
            i <= n,
            n == s@.len(),
            v@ == s@.subrange(0, i as int),
        decreases n - i,
    {
        let c = s.get_char(i);
        v.push(c);
        i = i + 1;
        assert(v@ =~= s@.subrange(0, i as int));
    }
    assert(v@ =~= s@);
    v
}

/// Whether the needle `n` occurs in `h` starting at position `i`.
pub open spec fn occurs_at(h: Seq<char>, n: Seq<char>, i: int) -> bool {
    0 <= i && i + n.len() <= h.len() && h.subrange(i, i + n.len()) == n
}

/// Whether the needle `n` occurs somewhere in `h`.
pub open spec fn has_sub(h: Seq<char>, n: Seq<char>) -> bool {
    exists|i: int| occurs_at(h, n, i)
}

/// Whether `n` occurs in `h` at position `i`, decided by comparing
/// characters.
pub fn match_at(h: &Vec<char>, n: &Vec<char>, i: usize) -> (r: bool)
    requires
        i <= h@.len(),
    ensures
        r == occurs_at(h@, n@, i as int),
{
    if h.len() - i < n.len() {
        return false;
    }
    let hl = h.len();
    let mut j: usize = 0;
    while j < n.len()
        invariant
            j <= n@.len(),
            i + n@.len() <= h@.len(),
            hl == h@.len(),
            forall|k: int| 0 <= k < j ==> h@[i + k] == n@[k],
        decreases n@.len() - j,
    {
        if h[i + j] != n[j] {
            assert(h@.subrange(i as int, i + n@.len()) != n@) by {
                assert(h@.subrange(i as int, i + n@.len())[j as int] == h@[i + j]);
            }
            return false;
        }
        j = j + 1;
    }
    assert(h@.subrange(i as int, i + n@.len()) =~= n@);
    true
}

/// Whether the needle occurs anywhere in the haystack.
pub fn contains_chars(h: &Vec<char>, n: &Vec<char>) -> (r: bool)
    ensures
        r == has_sub(h@, n@),
{
    let hl = h.len();
    let mut i: usize = 0;
    loop
        invariant
            i <= h@.len(),
            hl == h@.len(),
            forall|k: int| 0 <= k < i ==> !occurs_at(h@, n@, k),
        decreases h@.len() - i,
    {
        if match_at(h, n, i) {
            return true;
        }
        if i == hl {
            assert(forall|k: int| occurs_at(h@, n@, k) ==> 0 <= k <= h@.len());
            return false;
        }
        i = i + 1;
    }
}

/// `s` without its leading whitespace.
pub open spec fn trim_left_spec(s: Seq<char>) -> Seq<char>
    decreases s.len(),
{
    if s.len() > 0 && is_space_char(s[0]) {
        trim_left_spec(s.skip(1))
    } else {
        s
    }
}

/// `s` without its trailing whitespace.
pub open spec fn trim_right_spec(s: Seq<char>) -> Seq<char>
    decreases s.len(),
{
    if s.len() > 0 && is_space_char(s.last()) {
        trim_right_spec(s.drop_last())
    } else {
        s
    }
}

/// `s` without leading or trailing whitespace, as `str::trim` leaves it.
pub open spec fn trim_of(s: Seq<char>) -> Seq<char> {
    trim_right_spec(trim_left_spec(s))
}

proof fn lemma_trim_left_at(s: Seq<char>, i: int)
    requires
        0 <= i <= s.len(),
        forall|j: int| 0 <= j < i ==> is_space_char(s[j]),
        i < s.len() ==> !is_space_char(s[i]),
    ensures
        trim_left_spec(s) == s.skip(i),
    decreases i,
{
    if i == 0 {
        assert(s.skip(0) =~= s);
    } else {
        lemma_trim_left_at(s.skip(1), i - 1);
        assert(s.skip(1).skip(i - 1) =~= s.skip(i));
    }
}

proof fn lemma_trim_right_at(s: Seq<char>, b: int)
    requires
        0 <= b <= s.len(),
        forall|j: int| b <= j < s.len() ==> is_space_char(s[j]),
        b > 0 ==> !is_space_char(s[b - 1]),
    ensures
        trim_right_spec(s) == s.subrange(0, b),
    decreases s.len() - b,
{
    if b == s.len() {
        assert(s.subrange(0, b) =~= s);
    } else {
        assert(is_space_char(s.last()));
        lemma_trim_right_at(s.drop_last(), b);
        assert(s.drop_last().subrange(0, b) =~= s.subrange(0, b));
    }
}

/// `s` without leading or trailing whitespace, as an owned string.
pub fn trim_str(s: &str) -> (r: String)
    ensures
        r@ == trim_of(s@),
{
    let v = chars_of(s);
    let n = v.len();
    let mut a: usize = 0;
    loop
        invariant
            a <= n,
            n == s@.len(),
            v@ == s@,
            forall|j: int| 0 <= j < a ==> is_space_char(s@[j]),
        ensures
            a <= n,
            forall|j: int| 0 <= j < a ==> is_space_char(s@[j]),
            a == n || !is_space_char(s@[a as int]),
        decreases n - a,
    {
        if a == n {
            break;
        }
        if !is_space(v[a]) {
            break;
        }
        a = a + 1;
    }
    if a == n {
        proof {
            lemma_trim_left_at(s@, n as int);
            assert(s@.skip(n as int) =~= Seq::<char>::empty());
        }
        return String::new();
    }
    let mut b: usize = n;
    loop
        invariant
            a < b <= n,
            n == s@.len(),
            v@ == s@,
            !is_space_char(s@[a as int]),
            forall|j: int| b <= j < n ==> is_space_char(s@[j]),
        ensures
            a < b <= n,
            forall|j: int| b <= j < n ==> is_space_char(s@[j]),
            !is_space_char(s@[b - 1]),
        decreases b,
    {
        if !is_space(v[b - 1]) {
            break;
        }
        assert(b - 1 > a) by {
            assert(is_space_char(s@[b - 1]));
        }
        b = b - 1;
    }
    let r = String::from_str(s.substring_char(a, b));
    proof {
        lemma_trim_left_at(s@, a as int);
        lemma_trim_right_at(s@.skip(a as int), b - a);
        assert(s@.skip(a as int).subrange(0, b - a) =~= s@.subrange(a as int, b as int));
    }
    r
}

/// `s` with every occurrence of the character `c` removed, as
/// `str::replace(c, "")` leaves it.
pub open spec fn removed(s: Seq<char>, c: char) -> Seq<char> {
    s.filter(|x: char| x != c)
}

/// `s` with every occurrence of `c` removed, as an owned string.
pub fn remove_char_str(s: &str, c: char) -> (r: String)
    ensures
        r@ == removed(s@, c),
{
    let n = s.unicode_len();
    let mut out = String::new();
    let mut i: usize = 0;
    while i < n
        invariant
            i <= n,
            n == s@.len(),
            out@ == removed(s@.subrange(0, i as int), c),
        decreases n - i,
    {
        let ch = s.get_char(i);
        if ch != c {
            out.append(s.substring_char(i, i + 1));
        }
        i = i + 1;
        proof {
            let pfx = s@.subrange(0, i - 1);
            let ext = s@.subrange(0, i as int);
            assert(ext.drop_last() =~= pfx);
            assert(ext.last() == s@[i - 1]);
            assert(s@.subrange(i - 1, i as int) =~= seq![s@[i - 1]]);
            reveal(Seq::filter);
        }
    }
    assert(s@.subrange(0, n as int) =~= s@);
    out
}

/// The characters of `v` from `a` up to `b`, as their own vector.
pub fn subvec(v: &Vec<char>, a: usize, b: usize) -> (r: Vec<char>)
    requires
        a <= b <= v@.len(),
    ensures
        r@ == v@.subrange(a as int, b as int),
{
    let mut out: Vec<char> = Vec::new();
    let mut i: usize = a;
    while i < b
        invariant
            a <= i <= b <= v@.len(),
            out@ == v@.subrange(a as int, i as int),
        decreases b - i,
    {
        out.push(v[i]);
        i = i + 1;
        assert(out@ =~= v@.subrange(a as int, i as int));
    }
    out
}

/// The length of the longest prefix of `s` free of the character `c`:
/// the index of the first `c`, or the whole length if there is none.
pub open spec fn prefix_len(s: Seq<char>, c: char) -> nat
    decreases s.len(),
{
    if s.len() == 0 {
        0
    } else if s[0] == c {
        0
    } else {
        1 + prefix_len(s.skip(1), c)
    }
}

/// The first `c`-free prefix never reaches past the end.
pub proof fn lemma_prefix_len_le(s: Seq<char>, c: char)
    ensures
        prefix_len(s, c) <= s.len(),
    decreases s.len(),
{
    if s.len() > 0 && s[0] != c {
        lemma_prefix_len_le(s.skip(1), c);
    }
}

/// `prefix_len` is pinned by its witness: `i` characters free of `c`,
/// then `c` or the end.
pub proof fn lemma_prefix_len_at(s: Seq<char>, c: char, i: int)
    requires
        0 <= i <= s.len(),
        forall|j: int| 0 <= j < i ==> s[j] != c,
        i < s.len() ==> s[i] == c,
    ensures
        prefix_len(s, c) == i,
    decreases i,
{
    if s.len() == 0 {
    } else if i == 0 {
    } else {
        lemma_prefix_len_at(s.skip(1), c, i - 1);
    }
}

/// The first index of `c` in `v` at or after `from`, or the length if
/// `c` does not occur there.
pub fn find_char_from(v: &Vec<char>, c: char, from: usize) -> (r: usize)
    requires
        from <= v@.len(),
    ensures
        from <= r <= v@.len(),
        forall|j: int| from <= j < r ==> v@[j] != c,
        r < v@.len() ==> v@[r as int] == c,
{
    let n = v.len();
    let mut i: usize = from;
    while i < n
        invariant
            from <= i <= n,
            n == v@.len(),
            forall|j: int| from <= j < i ==> v@[j] != c,
        decreases n - i,
    {
        if v[i] == c {
            return i;
        }
        i = i + 1;
    }
    n
}

/// Whether two strings have the same characters, decided by comparing
/// them one by one.
pub fn str_eq(a: &str, b: &str) -> (r: bool)
    ensures
        r == (a@ == b@),
{
    let an = a.unicode_len();
    let bn = b.unicode_len();
    if an != bn {
        return false;
    }
    let mut i: usize = 0;
    while i < an
        invariant
            i <= an,
            an == a@.len(),
            an == b@.len(),
            forall|j: int| 0 <= j < i ==> a@[j] == b@[j],
        decreases an - i,
    {
        if a.get_char(i) != b.get_char(i) {
            return false;
        }
        i = i + 1;
    }
    proof {
        assert(a@ =~= b@);
    }
    true
}

/// The pieces `ss` laid end to end with `sep` between neighbours.
pub open spec fn sep_joined(ss: Seq<Seq<char>>, sep: Seq<char>) -> Seq<char>
    decreases ss.len(),
{
    if ss.len() == 0 {
        Seq::empty()
    } else if ss.len() == 1 {
        ss[0]
    } else {
        ss[0] + sep + sep_joined(ss.skip(1), sep)
    }
}

proof fn lemma_sep_joined_push(ss: Seq<Seq<char>>, sep: Seq<char>, x: Seq<char>)
    ensures
        sep_joined(ss.push(x), sep) == if ss.len() == 0 {
            x
        } else {
            sep_joined(ss, sep) + sep + x
        },
    decreases ss.len(),
{
    if ss.len() == 0 {
        assert(ss.push(x) =~= seq![x]);
    } else {
        assert(ss.push(x).skip(1) =~= ss.skip(1).push(x));
        lemma_sep_joined_push(ss.skip(1), sep, x);
        if ss.len() == 1 {
            assert(sep_joined(ss.push(x), sep) =~= sep_joined(ss, sep) + sep + x);
        } else {
            assert(ss[0] + sep + (sep_joined(ss.skip(1), sep) + sep + x) =~= (ss[0] + sep
                + sep_joined(ss.skip(1), sep)) + sep + x);
        }
    }
}

/// The strings of `v` joined with `sep` between neighbours.
pub fn join_strings(v: &Vec<String>, sep: &str) -> (r: String)
    ensures
        r@ == sep_joined(v.deep_view(), sep@),
{
    let mut out = String::new();
    let mut i: usize = 0;
    let n = v.len();
    proof {
        assert(v.deep_view().take(0) =~= Seq::<Seq<char>>::empty());
    }
    while i < n
        invariant
            i <= n,
            n == v@.len(),
            v.deep_view().len() == n,
            out@ == sep_joined(v.deep_view().take(i as int), sep@),
        decreases n - i,
    {
        if i > 0 {
            out.append(sep);
        }
        out.append(v[i].as_str());
        proof {
            let dv = v.deep_view();
            assert(dv[i as int] == v@[i as int]@);
            assert(dv.take(i + 1) =~= dv.take(i as int).push(dv[i as int]));
            lemma_sep_joined_push(dv.take(i as int), sep@, dv[i as int]);
        }
        i = i + 1;
    }
    proof {
        assert(v.deep_view().take(n as int) =~= v.deep_view());
    }
    out
}

/// `s` with every non-overlapping occurrence of `pat` replaced by
/// `rep`, scanning left to right, as `str::replace` leaves it (for a
/// non-empty pattern).
pub open spec fn replaced(s: Seq<char>, pat: Seq<char>, rep: Seq<char>) -> Seq<char>
    decreases s.len(),
{
    if pat.len() == 0 || s.len() < pat.len() {
        s
    } else if s.subrange(0, pat.len() as int) == pat {
        rep + replaced(s.skip(pat.len() as int), pat, rep)
    } else {
        seq![s[0]] + replaced(s.skip(1), pat, rep)
    }
}

/// `s` with every occurrence of `pat` replaced by `rep`.
pub fn replace_str(s: &str, pat: &str, rep: &str) -> (r: String)
    requires
        pat@.len() > 0,
    ensures
        r@ == replaced(s@, pat@, rep@),
{
    let sv = chars_of(s);
    let pv = chars_of(pat);
    let n = sv.len();
    let plen = pv.len();
    let mut out = String::new();
    let mut i: usize = 0;
    proof {
        assert(s@.skip(0) =~= s@);
        assert(Seq::<char>::empty() + replaced(s@, pat@, rep@) =~= replaced(s@, pat@, rep@));
    }
    while i < n
        invariant
            i <= n,
            n == s@.len(),
            sv@ == s@,
            pv@ == pat@,
            plen == pat@.len(),
            plen > 0,
            out@ + replaced(s@.skip(i as int), pat@, rep@) == replaced(s@, pat@, rep@),
        decreases n - i,
    {
        let ghost pre = out@;
        let ghost tail = s@.skip(i as int);
        if match_at(&sv, &pv, i) {
            out.append(rep);
            proof {
                assert(tail.subrange(0, plen as int) =~= s@.subrange(i as int, i + plen));
                assert(tail.skip(plen as int) =~= s@.skip(i + plen));
                assert(replaced(tail, pat@, rep@) == rep@ + replaced(
                    s@.skip(i + plen),
                    pat@,
                    rep@,
                ));
                assert(pre + (rep@ + replaced(s@.skip(i + plen), pat@, rep@)) =~= (pre + rep@)
                    + replaced(s@.skip(i + plen), pat@, rep@));
            }
            i = i + plen;
        } else {
            out.append(s.substring_char(i, i + 1));
            proof {
                if tail.len() >= plen {
                    assert(tail.subrange(0, plen as int) =~= s@.subrange(i as int, i + plen));
                    assert(replaced(tail, pat@, rep@) == seq![tail[0]] + replaced(
                        tail.skip(1),
                        pat@,
                        rep@,
                    ));
                } else {
                    assert(replaced(tail, pat@, rep@) == tail);
                    assert(replaced(tail.skip(1), pat@, rep@) == tail.skip(1));
                    assert(tail =~= seq![tail[0]] + tail.skip(1));
                }
                assert(tail.skip(1) =~= s@.skip(i + 1));
                assert(seq![tail[0]] =~= s@.subrange(i as int, i + 1));
                assert(pre + (seq![tail[0]] + replaced(s@.skip(i + 1), pat@, rep@)) =~= (pre
                    + s@.subrange(i as int, i + 1)) + replaced(s@.skip(i + 1), pat@, rep@));
            }
            i = i + 1;
        }
    }
    proof {
        assert(s@.skip(n as int) =~= Seq::<char>::empty());
        assert(out@ + Seq::<char>::empty() =~= out@);
    }
    out
}

} // verus!
