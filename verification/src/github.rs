use vstd::prelude::*;

verus! {

/// The object a git reference points at, as the GitHub API describes it.
pub struct Object {
    pub sha: String,
    /// The `type` field of the API's answer.
    pub object_type: String,
}

/// A git reference as the GitHub API lists it.
pub struct Ref {
    /// The `ref` field of the API's answer, such as `refs/tags/v1.2.3`.
    pub reference: String,
    pub node_id: String,
    pub url: String,
    pub object: Object,
}

/// The address under which the GitHub API lists the tags of a repository.
pub open spec fn tags_url_text(owner: Seq<char>, repo: Seq<char>) -> Seq<char> {
    "https://api.github.com/repos/"@ + owner + "/"@ + repo + "/git/refs/tags"@
}

/// The address from which the GitHub API serves the tarball of a reference.
pub open spec fn tarball_url_text(owner: Seq<char>, repo: Seq<char>, reference: Seq<char>) -> Seq<
    char,
> {
    "https://api.github.com/repos/"@ + owner + "/"@ + repo + "/tarball/"@ + reference
}

/// The address that `list_tags` requests for `owner/repo`.
pub fn list_tags_url(owner: &str, repo: &str) -> (r: String)
    ensures
        r@ == tags_url_text(owner@, repo@),
{
    let mut url = String::from_str("https://api.github.com/repos/");
    url.append(owner);
    url.append("/");
    url.append(repo);
    url.append("/git/refs/tags");
    proof {
        assert(url@ =~= tags_url_text(owner@, repo@));
    }
    url
}

/// The address that `get_tarball` requests for a reference of `owner/repo`.
pub fn tarball_url(owner: &str, repo: &str, reference: &str) -> (r: String)
    ensures
        r@ == tarball_url_text(owner@, repo@, reference@),
{
    let mut url = String::from_str("https://api.github.com/repos/");
    url.append(owner);
    url.append("/");
    url.append(repo);
    url.append("/tarball/");
    url.append(reference);
    proof {
        assert(url@ =~= tarball_url_text(owner@, repo@, reference@));
    }
    url
}

} // verus!
