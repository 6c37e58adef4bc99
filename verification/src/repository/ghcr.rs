use vstd::prelude::*;
use vstd::string::StringExecFns;

use crate::error::Error;
use crate::repository::{tags_view, Repo, RepoView, Tag, TagDetails, TagView};

verus! {

/// The list of tag names that the GitHub container registry answers with.
#[derive(Debug)]
pub struct Ghcr {
    pub tags: Vec<String>,
}

/// The tag that a bare name becomes: nothing is known of its builds or its age.
pub open spec fn named_tag(name: Seq<char>) -> TagView {
    TagView { name, details: Seq::empty(), last_updated: None }
}

impl Ghcr {
    /// The address that hands out a token for reading a repository.
    pub fn token_url(repo: &str) -> (r: String)
        ensures
            r@ == "https://ghcr.io/token?scope=repository:"@ + repo@ + ":pull"@,
    {
        String::from_str("https://ghcr.io/token?scope=repository:").concat(repo).concat(":pull")
    }

    /// The address that lists the tags of a repository.
    pub fn request_url(repo: &str) -> (r: String)
        ensures
            r@ == "https://ghcr.io/v2/"@ + repo@ + "/tags/list?n=100"@,
    {
        String::from_str("https://ghcr.io/v2/").concat(repo).concat("/tags/list?n=100")
    }

    /// The authorization header that carries a token.
    pub fn authorization(token: &str) -> (r: String)
        ensures
            r@ == "Bearer "@ + token@,
    {
        String::from_str("Bearer ").concat(token)
    }

    /// Turns a decoded answer into a page, which is always the last one.
    pub fn into_repo(self) -> (r: Result<Repo, Error>)
        ensures
            self.tags@.len() == 0 ==> r == Err::<Repo, Error>(Error::NoTagsFound),
            self.tags@.len() > 0 ==> r is Ok && r->Ok_0@ == (RepoView {
                tags: Seq::new(self.tags@.len(), |i: int| named_tag(self.tags@[i]@)),
                next_page: None,
            }),
    {
        let mut tags: Vec<Tag> = Vec::new();
        let mut i: usize = 0;
        while i < self.tags.len()
            invariant
                i <= self.tags.len(),
                tags@.len() == i,
                forall|j: int| 0 <= j < i ==> tags@[j]@ == named_tag(self.tags@[j]@),
            decreases self.tags.len() - i,
        {
            let details: Vec<TagDetails> = Vec::new();
            let tag = Tag::new(self.tags[i].clone(), details, None);
            assert(tag@.details =~= Seq::empty());
            tags.push(tag);
            i += 1;
        }
        assert(tags_view(tags@) =~= Seq::new(
            self.tags@.len(),
            |i: int| named_tag(self.tags@[i]@),
        ));
        Repo::with_tags(tags, None)
    }
}

} // verus!
