//! Path expression handling: expanding the home-directory placeholders
//! and resolving a path against a working directory.
//!
//! The caller supplies the home directory as a plain string; reading it
//! from the environment is the shell's concern.

use vstd::prelude::*;
use vstd::string::*;
use crate::text::replace_str;
use crate::text::replaced;

verus! {

/// `cwd` and `path` joined the way a path join leaves them: an absolute
/// `path` stands alone; otherwise it is appended to `cwd` with exactly
/// one separator between them.
pub open spec fn joined(cwd: Seq<char>, path: Seq<char>) -> Seq<char> {
    if path.len() > 0 && path[0] == '/' {
        path
    } else if cwd.len() == 0 {
        path
    } else if cwd.last() == '/' {
        cwd + path
    } else {
        cwd + "/"@ + path
    }
}

/// A path expression with each home-directory placeholder replaced by
/// `home`.
pub open spec fn home_expanded(s: Seq<char>, home: Seq<char>) -> Seq<char> {
    replaced(replaced(s, "$HOME"@, home), "~"@, home)
}

/// What a path expression denotes once its placeholders are expanded
/// against `home` and the result is resolved against the expanded
/// `cwd`.
pub open spec fn expanded(home: Seq<char>, cwd: Seq<char>, path: Seq<char>) -> Seq<char> {
    joined(home_expanded(cwd, home), home_expanded(path, home))
}

/// Resolves `path` against `cwd`: an absolute path is returned as it
/// is, any other is appended to `cwd` with a single separator.
pub fn from_cwd(cwd: &str, path: &str) -> (r: String)
    ensures
        r@ == joined(cwd@, path@),
{
    let plen = path.unicode_len();
    if plen > 0 && path.get_char(0) == '/' {
        return path.to_owned();
    }
    let clen = cwd.unicode_len();
    if clen == 0 {
        return path.to_owned();
    }
    let mut s = String::from_str(cwd);
    if cwd.get_char(clen - 1) != '/' {
        s.append("/");
        assert(s@ =~= cwd@ + "/"@);
    }
    s.append(path);
    assert(s@ =~= joined(cwd@, path@));
    s
}

/// Expands the home-directory placeholders in `cwd` and `path` against
/// `home`, then resolves `path` against `cwd`.
pub fn expand(home: &str, cwd: &str, path: &str) -> (r: String)
    ensures
        r@ == expanded(home@, cwd@, path@),
{
    proof {
        reveal_strlit("$HOME");
        reveal_strlit("~");
    }
    let path1 = replace_str(path, "$HOME", home);
    let path2 = replace_str(path1.as_str(), "~", home);
    let cwd1 = replace_str(cwd, "$HOME", home);
    let cwd2 = replace_str(cwd1.as_str(), "~", home);
    from_cwd(cwd2.as_str(), path2.as_str())
}

} // verus!
