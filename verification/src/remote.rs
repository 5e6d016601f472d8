//! Where a package lives: a well-known host and an owner/repository
//! pair, or a custom host.

use vstd::prelude::*;
use vstd::string::*;

verus! {

/// The remote location a package is synchronized from.
#[derive(Debug)]
pub enum Remote {
    Github { owner: String, repo: String },
    Gitlab { owner: String, repo: String },
    Custom { owner: String, repo: String, url: String },
}

/// The mathematical shape of a [`Remote`]: its strings as character
/// sequences.
pub ghost enum RemoteView {
    Github { owner: Seq<char>, repo: Seq<char> },
    Gitlab { owner: Seq<char>, repo: Seq<char> },
    Custom { owner: Seq<char>, repo: Seq<char>, url: Seq<char> },
}

impl View for Remote {
    type V = RemoteView;

    open spec fn view(&self) -> RemoteView {
        match self {
            Remote::Github { owner, repo } => RemoteView::Github {
                owner: owner@,
                repo: repo@,
            },
            Remote::Gitlab { owner, repo } => RemoteView::Gitlab {
                owner: owner@,
                repo: repo@,
            },
            Remote::Custom { owner, repo, url } => RemoteView::Custom {
                owner: owner@,
                repo: repo@,
                url: url@,
            },
        }
    }
}

/// The SSH-style URL a remote designates: the host, then
/// `owner/repo.git`.
pub open spec fn url_of(r: RemoteView) -> Seq<char> {
    match r {
        RemoteView::Github { owner, repo } => "git@github.com:"@ + owner + "/"@ + repo + ".git"@,
        RemoteView::Gitlab { owner, repo } => "git@gitlab.com:"@ + owner + "/"@ + repo + ".git"@,
        RemoteView::Custom { owner, repo, url } => "git@"@ + url + ":"@ + owner + "/"@ + repo
            + ".git"@,
    }
}

impl Clone for Remote {
    fn clone(&self) -> (r: Self)
        ensures
            r == *self,
    {
        match self {
            Remote::Github { owner, repo } => Remote::Github {
                owner: owner.clone(),
                repo: repo.clone(),
            },
            Remote::Gitlab { owner, repo } => Remote::Gitlab {
                owner: owner.clone(),
                repo: repo.clone(),
            },
            Remote::Custom { owner, repo, url } => Remote::Custom {
                owner: owner.clone(),
                repo: repo.clone(),
                url: url.clone(),
            },
        }
    }
}

impl Remote {
    /// The URL the remote designates.
    pub fn url(&self) -> (r: String)
        ensures
            r@ == url_of(self@),
    {
        match self {
            Remote::Github { owner, repo } => {
                let mut s = String::from_str("git@github.com:");
                s.append(owner.as_str());
                s.append("/");
                s.append(repo.as_str());
                s.append(".git");
                assert(s@ =~= url_of(self@));
                s
            },
            Remote::Gitlab { owner, repo } => {
                let mut s = String::from_str("git@gitlab.com:");
                s.append(owner.as_str());
                s.append("/");
                s.append(repo.as_str());
                s.append(".git");
                assert(s@ =~= url_of(self@));
                s
            },
            Remote::Custom { owner, repo, url } => {
                let mut s = String::from_str("git@");
                s.append(url.as_str());
                s.append(":");
                s.append(owner.as_str());
                s.append("/");
                s.append(repo.as_str());
                s.append(".git");
                assert(s@ =~= url_of(self@));
                s
            },
        }
    }
}

} // verus!
