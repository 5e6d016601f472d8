//! A source entry: a remote and the path expression its working copy
//! lives at.

use vstd::prelude::*;
use crate::remote::Remote;

verus! {

/// A remote paired with the local path it is checked out to.
#[derive(Debug)]
pub struct Source {
    pub remote: Remote,
    pub path: String,
}

} // verus!
