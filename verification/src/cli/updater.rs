//! ProteusUpdater: the command-line tool's check for a newer GitHub release.

use vstd::prelude::*;
use crate::services::updater::{ReleaseFetch, check_fails, fetch_error_text, is_newer, latest_release_url, strip_leading_v};
use crate::ai::history::str_eq;

verus! {

/// An available release.
#[derive(Debug)]
pub struct UpdateRelease {
    pub current_version: String,
    pub latest_version: String,
    pub download_url: String,
    pub release_notes: String,
    pub published_at: String,
}

/// The update checker of one repository.
pub struct ProteusUpdater {
    pub owner: String,
    pub repo: String,
    pub current_version: String,
}

impl ProteusUpdater {
    pub fn new(owner: &str, repo: &str, current_version: &str) -> (r: Self)
        ensures
            r.owner@ == owner@,
            r.repo@ == repo@,
            r.current_version@ == current_version@,
    {
        ProteusUpdater {
            owner: String::from_str(owner),
            repo: String::from_str(repo),
            current_version: String::from_str(current_version),
        }
    }

    /// The address of the latest-release API of the repository.
    pub fn release_url(&self) -> (r: String)
        ensures
            r@ == latest_release_url(self.owner@, self.repo@),
    {
        let mut s = String::from_str("https://api.github.com/repos/");
        s.append(self.owner.as_str());
        s.append("/");
        s.append(self.repo.as_str());
        s.append("/releases/latest");
        s
    }

    /// The newer release, if any, that a fetch of the latest release shows:
    /// none when unreachable, on 404, or when it is the running version
    /// (leading `v`s aside); an error for any other failure.
    pub fn check_with(&self, fetch: ReleaseFetch) -> (r: Result<Option<UpdateRelease>, String>)
        ensures
            check_fails(fetch) <==> r is Err,
            r matches Err(m) ==> m@ == fetch_error_text(fetch),
            (r matches Ok(Some(_))) <==> is_newer(fetch, self.current_version@),
            r matches Ok(Some(u)) ==> (fetch matches ReleaseFetch::Release(rel) && u.current_version
                == self.current_version && u.latest_version == rel.tag_name && u.download_url
                == rel.html_url && u.published_at == rel.published_at && u.release_notes@
                == match rel.body {
                Some(b) => b@,
                None => Seq::<char>::empty(),
            }),
    {
        match fetch {
            ReleaseFetch::HttpError { code, text } => {
                if code == 404 {
                    Ok(None)
                } else {
                    let mut s = String::from_str("GitHub API: HTTP ");
                    s.append(text.as_str());
                    Err(s)
                }
            },
            ReleaseFetch::Malformed(m) => {
                let mut s = String::from_str("Failed to parse release: ");
                s.append(m.as_str());
                Err(s)
            },
            ReleaseFetch::Unreachable(_) => Ok(None),
            ReleaseFetch::Release(rel) => {
                let latest = strip_leading_v(rel.tag_name.as_str());
                let current = strip_leading_v(self.current_version.as_str());
                if str_eq(latest.as_str(), current.as_str()) {
                    return Ok(None);
                }
                let notes = match rel.body {
                    Some(b) => b,
                    None => String::new(),
                };
                Ok(Some(UpdateRelease {
                    current_version: self.current_version.clone(),
                    latest_version: rel.tag_name,
                    download_url: rel.html_url,
                    release_notes: notes,
                    published_at: rel.published_at,
                }))
            },
        }
    }
}

} // verus!
