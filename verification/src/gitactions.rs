//! The library's half of the source-control client: the handle a
//! working copy is addressed by, and the parsing and classification of
//! what the client's commands print. Running the commands themselves
//! is the shell's concern.

use vstd::prelude::*;
use vstd::string::*;
use crate::errors::GitError;
use crate::text::chars_of;
use crate::text::contains_chars;
use crate::text::find_char_from;
use crate::text::has_sub;
use crate::text::lemma_prefix_len_at;
use crate::text::lemma_prefix_len_le;
use crate::text::prefix_len;
use crate::text::subvec;

verus! {

/// A handle to one working copy: the remote it is synchronized from
/// and the local path it lives at.
#[derive(Debug)]
pub struct GitWrapper {
    pub url: String,
    pub path: String,
}

impl GitWrapper {
    /// A handle for the working copy of `url` at `path`.
    pub fn new(url: &str, path: &str) -> (r: GitWrapper)
        ensures
            r.url@ == url@,
            r.path@ == path@,
    {
        GitWrapper { url: url.to_owned(), path: path.to_owned() }
    }

    /// The local path of the working copy.
    pub fn path(&self) -> (r: String)
        ensures
            r@ == self.path@,
    {
        self.path.clone()
    }

    /// The URL of the remote the working copy is synchronized from.
    pub fn url(&self) -> (r: String)
        ensures
            r@ == self.url@,
    {
        self.url.clone()
    }

    /// Classifies what a failed source-control command printed: a
    /// complaint that the path is no repository becomes
    /// [`GitError::NotARepository`], anything else stays unknown, each
    /// labelled with the working copy's path.
    pub fn classify_stderr(&self, stderr: &str) -> (r: GitError)
        ensures
            has_sub(stderr@, "not a git repository"@) ==> (r matches GitError::NotARepository(m)
                && m@ == self.path@ + " is not a git repo"@),
            !has_sub(stderr@, "not a git repository"@) ==> (r matches GitError::Unknown(m) && m@
                == self.path@ + ": unknown error"@),
{
        let sv = chars_of(stderr);
        let pat = chars_of("not a git repository");
        if contains_chars(&sv, &pat) {
            let mut m = self.path.clone();
            m.append(" is not a git repo");
            GitError::NotARepository(m)
        } else {
            let mut m = self.path.clone();
            m.append(": unknown error");
            GitError::Unknown(m)
        }
    }
}

/// The local remote name on the first line of a `remote -v`-style
/// listing that mentions `url`: the line's text up to its first tab
/// (the whole line if it has none), or nothing when no line mentions
/// the URL.
pub open spec fn remote_name_in(listing: Seq<char>, url: Seq<char>) -> Option<Seq<char>>
    decreases listing.len(),
    via remote_name_in_decreases
{
    let ll = prefix_len(listing, '\n') as int;
    let line = listing.subrange(0, ll);
    if has_sub(line, url) {
        Some(line.subrange(0, prefix_len(line, '\t') as int))
    } else if ll == listing.len() {
        None
    } else {
        remote_name_in(listing.skip(ll + 1), url)
    }
}

#[via_fn]
proof fn remote_name_in_decreases(listing: Seq<char>, url: Seq<char>) {
    lemma_prefix_len_le(listing, '\n');
}

/// Finds the local name of the remote matching `url` in a
/// `remote -v`-style listing: the first tab-field of the first line
/// that mentions the URL.
pub fn remote_name_from_listing(listing: &str, url: &str) -> (r: Option<String>)
    ensures
        match r {
            Some(name) => remote_name_in(listing@, url@) == Some(name@),
            None => remote_name_in(listing@, url@) is None,
        },
{
    let lv = chars_of(listing);
    let uv = chars_of(url);
    let n = lv.len();
    let mut start: usize = 0;
    proof {
        assert(listing@.skip(0) =~= listing@);
    }
    loop
        invariant
            start <= n,
            n == listing@.len(),
            lv@ == listing@,
            uv@ == url@,
            remote_name_in(listing@.skip(start as int), url@) == remote_name_in(listing@, url@),
        decreases n - start,
    {
        let end = find_char_from(&lv, '\n', start);
        let ghost tail = listing@.skip(start as int);
        proof {
            lemma_prefix_len_at(tail, '\n', end - start);
        }
        let line = subvec(&lv, start, end);
        proof {
            assert(line@ =~= tail.subrange(0, end - start));
        }
        if contains_chars(&line, &uv) {
            let t = find_char_from(&line, '\t', 0);
            proof {
                lemma_prefix_len_at(line@, '\t', t as int);
            }
            let name = String::from_str(listing.substring_char(start, start + t));
            proof {
                assert(name@ =~= line@.subrange(0, t as int));
            }
            return Some(name);
        }
        if end == n {
            proof {
                assert(prefix_len(tail, '\n') == tail.len());
            }
            return None;
        }
        proof {
            assert(tail.skip(end - start + 1) =~= listing@.skip(end + 1));
        }
        start = end + 1;
    }
}

} // verus!
