use vstd::prelude::*;
use vstd::string::StringExecFns;

use crate::common::display_duration_ext::{span_text, DisplayDurationExt, Duration};
use crate::error::{Error, ErrorView};
use crate::repo;

pub mod dockerhub;
pub mod ghcr;

verus! {

/// One platform build of a tag.
#[derive(Debug, PartialEq)]
pub struct TagDetails {
    pub arch: Option<String>,
    pub variant: Option<String>,
    pub os: Option<String>,
    pub size: Option<usize>,
}

/// A platform build as plain values.
pub struct TagDetailsView {
    pub arch: Option<Seq<char>>,
    pub variant: Option<Seq<char>>,
    pub os: Option<Seq<char>>,
    pub size: Option<usize>,
}

/// An optional text as plain values.
pub open spec fn text_view(text: Option<String>) -> Option<Seq<char>> {
    match text {
        Some(s) => Some(s@),
        None => None,
    }
}

impl View for TagDetails {
    type V = TagDetailsView;

    open spec fn view(&self) -> TagDetailsView {
        TagDetailsView {
            arch: text_view(self.arch),
            variant: text_view(self.variant),
            os: text_view(self.os),
            size: self.size,
        }
    }
}

impl Clone for TagDetails {
    fn clone(&self) -> (r: Self)
        ensures
            r@ == self@,
    {
        TagDetails {
            arch: copy_text(&self.arch),
            variant: copy_text(&self.variant),
            os: copy_text(&self.os),
            size: self.size,
        }
    }
}

/// Copies an optional text.
fn copy_text(text: &Option<String>) -> (r: Option<String>)
    ensures
        text_view(r) == text_view(*text),
{
    match text {
        Some(s) => Some(s.clone()),
        None => None,
    }
}

/// The platform builds of a list as plain values.
pub open spec fn details_view(details: Seq<TagDetails>) -> Seq<TagDetailsView> {
    Seq::new(details.len(), |i: int| details[i]@)
}

/// Copies a list of platform builds.
fn copy_details(details: &Vec<TagDetails>) -> (r: Vec<TagDetails>)
    ensures
        details_view(r@) == details_view(details@),
{
    let mut out: Vec<TagDetails> = Vec::new();
    let mut i: usize = 0;
    while i < details.len()
        invariant
            i <= details.len(),
            out@.len() == i,
            forall|j: int| 0 <= j < i ==> out@[j]@ == details@[j]@,
        decreases details.len() - i,
    {
        out.push(details[i].clone());
        i += 1;
    }
    assert(details_view(out@) =~= details_view(details@));
    out
}

/// A named reference to an image within a repository.
#[derive(Debug)]
pub struct Tag {
    name: String,
    details: Vec<TagDetails>,
    last_updated: Option<String>,
}

/// A tag as plain values.
pub struct TagView {
    pub name: Seq<char>,
    pub details: Seq<TagDetailsView>,
    pub last_updated: Option<Seq<char>>,
}

/// The instant that `chrono::DateTime::parse_from_rfc3339` reads from a text, in seconds
/// since the Unix epoch; `None` where the text is no RFC 3339 date and time.
pub uninterp spec fn rfc3339_seconds(text: Seq<char>) -> Option<i64>;

/// Calls `chrono::DateTime::parse_from_rfc3339` and takes the instant's `timestamp`. The
/// contract only names the outcome.
#[verifier::external_body]
pub(crate) fn parse_rfc3339(text: &str) -> (r: Option<i64>)
    ensures
        r == rfc3339_seconds(text@),
{
    match chrono::DateTime::parse_from_rfc3339(text) {
        Ok(at) => Some(at.timestamp()),
        Err(_) => None,
    }
}

/// Calls `chrono::Utc::now` and takes the instant's `timestamp`: the seconds since the Unix
/// epoch on this machine's clock. Nothing is promised of it.
#[verifier::external_body]
pub(crate) fn utc_now() -> i64 {
    chrono::Utc::now().timestamp()
}

/// What a line says of an age at the instant `now`, given the instant of the last update:
/// nothing where that instant is not known or lies too far from `now` to be counted.
pub open spec fn age_of(now: int, updated: Option<i64>) -> Seq<char> {
    match updated {
        Some(at) => if i64::MIN <= now - at <= i64::MAX {
            ", "@ + span_text(now - at) + " old"@
        } else {
            Seq::empty()
        },
        None => Seq::empty(),
    }
}

/// Tells an age at the instant `now`, given the instant of the last update, both in seconds
/// since the Unix epoch.
pub fn age(now: i64, updated: Option<i64>) -> (r: String)
    ensures
        r@ == age_of(now as int, updated),
{
    let mut text = String::new();
    match updated {
        Some(at) => match Duration::between(now, at) {
            Some(dif) => {
                text.append(", ");
                text.append(dif.display().as_str());
                text.append(" old");
                assert(text@ =~= age_of(now as int, updated));
            },
            None => {},
        },
        None => {},
    }
    text
}

impl TagView {
    /// What a line says of the tag's age at the instant `now`: nothing where the time of
    /// the last update is missing or cannot be read.
    pub open spec fn age_text(self, now: int) -> Seq<char> {
        age_of(
            now,
            match self.last_updated {
                Some(text) => rfc3339_seconds(text),
                None => None,
            },
        )
    }

    /// The line that shows the tag at the instant `now`: its name and its age.
    pub open spec fn line_text(self, now: int) -> Seq<char> {
        self.name + self.age_text(now)
    }
}

impl View for Tag {
    type V = TagView;

    closed spec fn view(&self) -> TagView {
        TagView {
            name: self.name@,
            details: details_view(self.details@),
            last_updated: text_view(self.last_updated),
        }
    }
}

impl Clone for Tag {
    fn clone(&self) -> (r: Self)
        ensures
            r@ == self@,
    {
        Tag {
            name: self.name.clone(),
            details: copy_details(&self.details),
            last_updated: copy_text(&self.last_updated),
        }
    }
}

impl Tag {
    /// A tag with the given name, platform builds and time of its last update.
    pub fn new(name: String, details: Vec<TagDetails>, last_updated: Option<String>) -> (r: Tag)
        ensures
            r@ == (TagView {
                name: name@,
                details: details_view(details@),
                last_updated: text_view(last_updated),
            }),
    {
        Tag { name, details, last_updated }
    }

    pub fn get_name(&self) -> (r: &str)
        ensures
            r@ == self@.name,
    {
        self.name.as_str()
    }

    pub fn get_details(&self) -> (r: &Vec<TagDetails>)
        ensures
            details_view(r@) == self@.details,
    {
        &self.details
    }

    /// The name of the tag followed by its age at the instant `now`, given in seconds since
    /// the Unix epoch.
    pub fn name_with_age(&self, now: i64) -> (r: String)
        ensures
            r@ == self@.line_text(now as int),
    {
        let updated = match &self.last_updated {
            Some(text) => parse_rfc3339(text.as_str()),
            None => None,
        };
        self.name.clone().concat(age(now, updated).as_str())
    }

    /// The name of the tag followed by its age on this machine's clock.
    pub fn get_name_with_details(&self) -> (r: String)
        ensures
            exists|now: i64| r@ == self@.line_text(now as int),
    {
        self.name_with_age(utc_now())
    }

    /// The time of the last update as the registry wrote it, if it gave one.
    pub fn get_last_updated(&self) -> (r: &Option<String>)
        ensures
            text_view(*r) == self@.last_updated,
    {
        &self.last_updated
    }
}

/// The tags of a list as plain values.
pub open spec fn tags_view(tags: Seq<Tag>) -> Seq<TagView> {
    Seq::new(tags.len(), |i: int| tags[i]@)
}

/// Copies a list of tags.
fn copy_tags(tags: &Vec<Tag>) -> (r: Vec<Tag>)
    ensures
        tags_view(r@) == tags_view(tags@),
        r@.len() == tags@.len(),
{
    let mut out: Vec<Tag> = Vec::new();
    let mut i: usize = 0;
    while i < tags.len()
        invariant
            i <= tags.len(),
            out@.len() == i,
            forall|j: int| 0 <= j < i ==> out@[j]@ == tags@[j]@,
        decreases tags.len() - i,
    {
        out.push(tags[i].clone());
        i += 1;
    }
    assert(tags_view(out@) =~= tags_view(tags@));
    out
}

/// One page of a repository's tags and the address of the page that follows it.
#[derive(Debug)]
pub struct Repo {
    tags: Vec<Tag>,
    next_page: Option<String>,
}

/// A page as plain values.
pub struct RepoView {
    pub tags: Seq<TagView>,
    pub next_page: Option<Seq<char>>,
}

impl View for Repo {
    type V = RepoView;

    closed spec fn view(&self) -> RepoView {
        RepoView { tags: tags_view(self.tags@), next_page: text_view(self.next_page) }
    }
}

impl Clone for Repo {
    fn clone(&self) -> (r: Self)
        ensures
            r@ == self@,
    {
        proof {
            use_type_invariant(self);
        }
        Repo { tags: copy_tags(&self.tags), next_page: copy_text(&self.next_page) }
    }
}

impl Repo {
    #[verifier::type_invariant]
    closed spec fn inv(self) -> bool {
        self.tags@.len() > 0
    }

    /// A page that holds `tags` and is followed by the page at `next_page`, if any. A page
    /// without tags does not exist: the registry answers an unknown repository with one.
    pub fn with_tags(tags: Vec<Tag>, next_page: Option<String>) -> (r: Result<Repo, Error>)
        ensures
            tags@.len() == 0 ==> r == Err::<Repo, Error>(Error::NoTagsFound),
            tags@.len() > 0 ==> r is Ok && r->Ok_0@ == (RepoView {
                tags: tags_view(tags@),
                next_page: text_view(next_page),
            }),
    {
        if tags.len() == 0 {
            return Err(Error::NoTagsFound);
        }
        Ok(Repo { tags, next_page })
    }

    pub fn get_tags(&self) -> (r: &Vec<Tag>)
        ensures
            tags_view(r@) == self@.tags,
            r@.len() > 0,
    {
        proof {
            use_type_invariant(self);
        }
        &self.tags
    }

    /// The address of the page that follows this one, if the registry named one.
    pub fn next_page(&self) -> (r: Option<&str>)
        ensures
            match r {
                Some(url) => self@.next_page == Some(url@),
                None => self@.next_page is None,
            },
    {
        match &self.next_page {
            Some(url) => Some(url.as_str()),
            None => None,
        }
    }
}

/// A fetched page, or why there is none, as plain values.
pub open spec fn page_result(r: Result<Repo, Error>) -> Result<RepoView, ErrorView> {
    match r {
        Ok(page) => Ok(page@),
        Err(e) => Err(e@),
    }
}

/// The text of an optional result: the views of both sides.
pub open spec fn text_result(r: Result<String, Error>) -> Result<Seq<char>, ErrorView> {
    match r {
        Ok(s) => Ok(s@),
        Err(e) => Err(e@),
    }
}

/// The address that is asked for the first page of a repository, given what its name was
/// read as: Docker Hub serves a name without a server, an official image under `library/`,
/// and no other registry is served.
pub open spec fn request_of(parsed: Result<repo::RepoView, ErrorView>) -> Result<
    Seq<char>,
    ErrorView,
> {
    match parsed {
        Ok(repo::RepoView::WithServer(reg, org, pro)) => if reg.len() == 0 {
            Ok(dockerhub::tags_url(org + "/"@ + pro))
        } else {
            Err(ErrorView::Converting("This registry is not supported yet"@))
        },
        Ok(repo::RepoView::WithOrga(org, pro)) => Ok(dockerhub::tags_url(org + "/"@ + pro)),
        Ok(repo::RepoView::Project(pro)) => Ok(dockerhub::tags_url("library/"@ + pro)),
        Err(e) => Err(ErrorView::Converting(e.text())),
    }
}

impl Repo {
    /// Decides from an identifier which address holds the first page of its tags.
    pub fn new(repo: &str) -> (r: Result<String, Error>)
        ensures
            text_result(r) == request_of(repo::parsed_repo(repo@)),
    {
        Self::request_for(repo::split_repo_without_tag(repo))
    }

    /// Decides which address holds the first page of a repository's tags, given what its
    /// name was read as.
    pub fn request_for(parsed: Result<repo::Repo, Error>) -> (r: Result<String, Error>)
        ensures
            text_result(r) == request_of(repo::repo_result(parsed)),
    {
        let (registry, repo) = match parsed {
            Ok(repo::Repo::WithServer(reg, org, pro)) => (
                Some(reg),
                org.concat("/").concat(pro.as_str()),
            ),
            Ok(repo::Repo::WithOrga(org, pro)) => (None, org.concat("/").concat(pro.as_str())),
            Ok(repo::Repo::Project(pro)) => (
                None,
                String::from_str("library/").concat(pro.as_str()),
            ),
            Err(e) => { return Err(Error::Converting(e.message())); },
        };
        let served = match registry {
            Some(reg) => reg.as_str().is_empty(),
            None => true,
        };
        if served {
            Ok(dockerhub::DockerHub::create_repo(repo.as_str()))
        } else {
            Err(Error::Converting(String::from_str("This registry is not supported yet")))
        }
    }
}

/// The name that the registry knows a repository by, given what the tag pattern and the
/// identifier patterns found in it: an official image gets the prefix `library/`, any other
/// name loses its tag.
pub open spec fn checked_name(
    tagged: Result<(Seq<char>, Seq<char>), ErrorView>,
    parsed: Result<repo::RepoView, ErrorView>,
) -> Result<Seq<char>, ErrorView> {
    match tagged {
        Err(e) => Err(e),
        Ok(parts) => match parsed {
            Ok(repo::RepoView::Project(s)) => Ok("library/"@ + s),
            Ok(_) => Ok(parts.0),
            Err(e) => Err(ErrorView::Converting(e.text())),
        },
    }
}

/// Checks the repo name and may add a prefix for official images.
pub fn check_repo(name: &str) -> (r: Result<String, Error>)
    ensures
        text_result(r) == checked_name(
            repo::tag_parts(repo::regex_captures(repo::TAGGED@, name@)),
            repo::parsed_repo(name@),
        ),
{
    name_of(repo::split_tag_from_repo(name), repo::split_repo_without_tag(name))
}

/// Picks the name that the registry knows a repository by, given what its identifier was
/// split into and what it was read as.
pub fn name_of(tagged: Result<(&str, &str), Error>, parsed: Result<repo::Repo, Error>) -> (r:
    Result<String, Error>)
    ensures
        text_result(r) == checked_name(repo::pair_result(tagged), repo::repo_result(parsed)),
{
    let repo = match tagged {
        Ok(parts) => parts,
        Err(e) => { return Err(e); },
    };
    match parsed {
        Ok(repo::Repo::Project(s)) => Ok(String::from_str("library/").concat(s.as_str())),
        Ok(_) => Ok(String::from_str(repo.0)),
        Err(e) => Err(Error::Converting(e.message())),
    }
}

} // verus!
