use vstd::prelude::*;
use crate::repo_url::{extract_repo_info, repo_info};
use crate::preview::{preview_image_url, preview_url};

verus! {

/// One entry of a user's repository listing.
#[derive(Clone, PartialEq, Eq, Debug)]
pub struct Repository {
    pub name: String,
    pub description: Option<String>,
    pub html_url: String,
    pub language: Option<String>,
    pub stargazers_count: u32,
    pub forks_count: u32,
    pub image_url: Option<String>,
}

/// The mathematical value of a [`Repository`].
pub struct RepoView {
    pub name: Seq<char>,
    pub description: Option<Seq<char>>,
    pub html_url: Seq<char>,
    pub language: Option<Seq<char>>,
    pub stargazers_count: u32,
    pub forks_count: u32,
    pub image_url: Option<Seq<char>>,
}

pub open spec fn opt_view(o: Option<String>) -> Option<Seq<char>> {
    match o {
        Some(s) => Some(s@),
        None => None,
    }
}

impl View for Repository {
    type V = RepoView;

    open spec fn view(&self) -> RepoView {
        RepoView {
            name: self.name@,
            description: opt_view(self.description),
            html_url: self.html_url@,
            language: opt_view(self.language),
            stargazers_count: self.stargazers_count,
            forks_count: self.forks_count,
            image_url: opt_view(self.image_url),
        }
    }
}

pub open spec fn views(v: Seq<Repository>) -> Seq<RepoView> {
    v.map_values(|r: Repository| r@)
}

/// The preview address that a record gets under `hash`, if its web address
/// names an owner and a repository.
pub open spec fn image_for(html_url: Seq<char>, hash: Seq<char>) -> Option<Seq<char>> {
    match repo_info(html_url) {
        Some((owner, name)) => Some(preview_url(hash, owner, name)),
        None => None,
    }
}

/// A record with its preview address derived from its web address.
pub open spec fn enriched(r: RepoView, hash: Seq<char>) -> RepoView {
    RepoView { image_url: image_for(r.html_url, hash), ..r }
}

pub open spec fn enriched_all(rs: Seq<RepoView>, hash: Seq<char>) -> Seq<RepoView> {
    rs.map_values(|r: RepoView| enriched(r, hash))
}

fn clone_opt(o: &Option<String>) -> (r: Option<String>)
    ensures
        r == *o,
{
    match o {
        Some(s) => Some(s.clone()),
        None => None,
    }
}

impl Repository {
    /// A copy of this record whose preview address is `image_url`.
    pub fn with_image(&self, image_url: Option<String>) -> (r: Repository)
        ensures
            r@ == (RepoView { image_url: opt_view(image_url), ..self@ }),
    {
        Repository {
            name: self.name.clone(),
            description: clone_opt(&self.description),
            html_url: self.html_url.clone(),
            language: clone_opt(&self.language),
            stargazers_count: self.stargazers_count,
            forks_count: self.forks_count,
            image_url,
        }
    }
}

/// The preview address of one record under `hash`; `None` when its web
/// address does not name an owner and a repository.
pub fn image_url_for(html_url: &str, hash: &str) -> (r: Option<String>)
    ensures
        opt_view(r) == image_for(html_url@, hash@),
{
    match extract_repo_info(html_url) {
        Some((owner, name)) => Some(preview_image_url(hash, owner.as_str(), name.as_str())),
        None => None,
    }
}

/// Every record with its preview address set from its web address, all under
/// one shared `hash`. A record whose address cannot be read keeps no preview
/// address; the others are not affected by it.
pub fn enrich_repositories(records: &Vec<Repository>, hash: &str) -> (r: Vec<Repository>)
    ensures
        views(r@) == enriched_all(views(records@), hash@),
{
    let mut out: Vec<Repository> = Vec::new();
    let mut i: usize = 0;
    while i < records.len()
        invariant
            i <= records@.len(),
            out@.len() == i,
            forall|j: int|
                0 <= j < i ==> #[trigger] out@[j]@ == enriched(records@[j]@, hash@),
        decreases records@.len() - i,
    {
        let rec = &records[i];
        let image = image_url_for(rec.html_url.as_str(), hash);
        out.push(rec.with_image(image));
        i = i + 1;
    }
    assert(views(out@) =~= enriched_all(views(records@), hash@));
    out
}

} // verus!
