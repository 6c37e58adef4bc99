use vstd::prelude::*;
use vstd::string::StringExecFns;

use crate::error::{Error, ErrorView};
use crate::repository::{
    page_result, tags_view, text_view, Repo, RepoView, Tag, TagDetails, TagDetailsView, TagView,
};

verus! {

/// One platform build as Docker Hub reports it.
#[derive(Debug)]
pub struct ImageDetails {
    pub architecture: String,
    pub os: String,
    pub variant: Option<String>,
    pub size: usize,
}

/// One tag as Docker Hub reports it.
#[derive(Debug)]
pub struct Images {
    pub images: Vec<ImageDetails>,
    pub tag_name: String,
    pub last_updated: String,
}

/// One page of Docker Hub's answer.
#[derive(Debug)]
pub struct DockerHub {
    pub next_page: Option<String>,
    pub results: Vec<Images>,
}

/// The build that a reported build becomes: every field is present, a missing variant is the
/// empty text.
pub open spec fn detail_of(d: ImageDetails) -> TagDetailsView {
    TagDetailsView {
        arch: Some(d.architecture@),
        variant: Some(
            match d.variant {
                Some(v) => v@,
                None => Seq::empty(),
            },
        ),
        os: Some(d.os@),
        size: Some(d.size),
    }
}

/// The tag that a reported tag becomes.
pub open spec fn tag_of(images: Images) -> TagView {
    TagView {
        name: images.tag_name@,
        details: Seq::new(images.images@.len(), |i: int| detail_of(images.images@[i])),
        last_updated: Some(images.last_updated@),
    }
}

/// The page that a decoded answer holds. An answer without tags is what the registry gives
/// for a repository that does not exist.
pub open spec fn page_of(answer: DockerHub) -> Result<RepoView, ErrorView> {
    if answer.results@.len() == 0 {
        Err(ErrorView::NoTagsFound)
    } else {
        Ok(
            RepoView {
                tags: Seq::new(answer.results@.len(), |i: int| tag_of(answer.results@[i])),
                next_page: text_view(answer.next_page),
            },
        )
    }
}

/// The address of the first page of a repository's tags.
pub open spec fn tags_url(repo: Seq<char>) -> Seq<char> {
    "https://hub.docker.com/v2/repositories/"@ + repo + "/tags"@
}

impl Images {
    pub fn from_tag(images: &Self) -> (r: Tag)
        ensures
            r@ == tag_of(*images),
    {
        let mut details: Vec<TagDetails> = Vec::new();
        let mut i: usize = 0;
        while i < images.images.len()
            invariant
                i <= images.images.len(),
                details@.len() == i,
                forall|j: int| 0 <= j < i ==> details@[j]@ == detail_of(images.images@[j]),
            decreases images.images.len() - i,
        {
            let d = &images.images[i];
            let variant = match &d.variant {
                Some(v) => v.clone(),
                None => String::new(),
            };
            details.push(
                TagDetails {
                    arch: Some(d.architecture.clone()),
                    variant: Some(variant),
                    os: Some(d.os.clone()),
                    size: Some(d.size),
                },
            );
            i += 1;
        }
        let tag = Tag::new(
            images.tag_name.clone(),
            details,
            Some(images.last_updated.clone()),
        );
        assert(tag@.details =~= tag_of(*images).details);
        tag
    }
}

impl DockerHub {
    /// The address that is asked for the tags of a repository, named as
    /// organization/repository, or library/repository for an official image.
    pub fn create_repo(repo: &str) -> (r: String)
        ensures
            r@ == tags_url(repo@),
    {
        String::from_str("https://hub.docker.com/v2/repositories/").concat(repo).concat("/tags")
    }

    /// Turns a decoded answer into a page.
    pub fn into_repo(self) -> (r: Result<Repo, Error>)
        ensures
            page_result(r) == page_of(self),
    {
        let mut tags: Vec<Tag> = Vec::new();
        let mut i: usize = 0;
        while i < self.results.len()
            invariant
                i <= self.results.len(),
                tags@.len() == i,
                forall|j: int| 0 <= j < i ==> tags@[j]@ == tag_of(self.results@[j]),
            decreases self.results.len() - i,
        {
            tags.push(Images::from_tag(&self.results[i]));
            i += 1;
        }
        assert(tags_view(tags@) =~= Seq::new(
            self.results@.len(),
            |i: int| tag_of(self.results@[i]),
        ));
        Repo::with_tags(tags, self.next_page)
    }
}

} // verus!
