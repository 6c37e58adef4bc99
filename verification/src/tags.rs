use vstd::prelude::*;
use vstd::string::StringExecFns;

use crate::common::display_duration_ext::{span_of, Duration, Unit};
use crate::common::format::{decimal, decimal_text, signed_decimal, signed_decimal_text};
use crate::repo::{self, parsed_repo, regex_captures, tag_parts, TAGGED};
use crate::repository::{parse_rfc3339, rfc3339_seconds, text_view};

verus! {

/// One platform build as the registry reports it.
#[derive(Debug)]
pub struct ImageDetails {
    pub architecture: String,
    pub size: usize,
}

/// One tag as the registry reports it.
#[derive(Debug)]
pub struct Images {
    pub images: Vec<ImageDetails>,
    pub tag_name: String,
    pub last_updated: String,
}

/// One page of the registry's answer, with the addresses of the pages before and after it.
#[derive(Debug)]
pub struct Tags {
    count: usize,
    next_page: Option<String>,
    prev_page: Option<String>,
    pub results: Vec<Images>,
}

/// What can go wrong while tags are fetched.
#[derive(Debug, PartialEq)]
pub enum Error {
    /// couldn't fetch json with reqwest
    Fetching(String),
    /// a serde error
    Converting(String),
    /// invalid repos show a valid json with 0 tags
    NoTagsFound,
    NoPrevPage,
    NoNextPage,
}

/// An error as plain values.
pub enum ErrorView {
    Fetching(Seq<char>),
    Converting(Seq<char>),
    NoTagsFound,
    NoPrevPage,
    NoNextPage,
}

impl View for Error {
    type V = ErrorView;

    open spec fn view(&self) -> ErrorView {
        match *self {
            Error::Fetching(s) => ErrorView::Fetching(s@),
            Error::Converting(s) => ErrorView::Converting(s@),
            Error::NoTagsFound => ErrorView::NoTagsFound,
            Error::NoPrevPage => ErrorView::NoPrevPage,
            Error::NoNextPage => ErrorView::NoNextPage,
        }
    }
}

impl ErrorView {
    /// The text that is shown for this error.
    pub open spec fn text(self) -> Seq<char> {
        match self {
            ErrorView::Fetching(s) => "Fetching error: "@ + s,
            ErrorView::Converting(s) => "Converting error: "@ + s,
            ErrorView::NoNextPage => "No next page available"@,
            ErrorView::NoPrevPage => "No previous page available"@,
            ErrorView::NoTagsFound => "Given Repo has 0 tags. Is it valid?"@,
        }
    }
}

impl Error {
    /// Renders the error for display.
    pub fn message(&self) -> (r: String)
        ensures
            r@ == self@.text(),
    {
        match self {
            Error::Fetching(s) => String::from_str("Fetching error: ").concat(s.as_str()),
            Error::Converting(s) => String::from_str("Converting error: ").concat(s.as_str()),
            Error::NoNextPage => String::from_str("No next page available"),
            Error::NoPrevPage => String::from_str("No previous page available"),
            Error::NoTagsFound => String::from_str("Given Repo has 0 tags. Is it valid?"),
        }
    }
}

/// A text or an error as plain values.
pub open spec fn text_result(r: Result<String, Error>) -> Result<Seq<char>, ErrorView> {
    match r {
        Ok(s) => Ok(s@),
        Err(e) => Err(e@),
    }
}

/// The name that the registry knows a repository by, given what the tag pattern and the
/// identifier patterns found in it: an official image gets the prefix `library/`, any other
/// name loses its tag.
pub open spec fn checked_name(
    tagged: Result<(Seq<char>, Seq<char>), crate::error::ErrorView>,
    parsed: Result<repo::RepoView, crate::error::ErrorView>,
) -> Result<Seq<char>, ErrorView> {
    match tagged {
        Err(e) => Err(ErrorView::Converting(e.text())),
        Ok(parts) => match parsed {
            Ok(repo::RepoView::Project(s)) => Ok("library/"@ + s),
            Ok(_) => Ok(parts.0),
            Err(e) => Err(ErrorView::Converting(e.text())),
        },
    }
}

/// The address of the first page of a repository's tags.
pub open spec fn tags_url(repo: Seq<char>) -> Seq<char> {
    "https://hub.docker.com/v2/repositories/"@ + repo + "/tags"@
}

impl Tags {
    /// The number of tags that the repository has on all its pages.
    pub closed spec fn count(self) -> usize {
        self.count
    }

    /// The tags on this page.
    pub closed spec fn tags(self) -> Seq<Images> {
        self.results@
    }

    /// The address of the page after this one.
    pub closed spec fn next(self) -> Option<Seq<char>> {
        text_view(self.next_page)
    }

    /// The address of the page before this one.
    pub closed spec fn previous(self) -> Option<Seq<char>> {
        text_view(self.prev_page)
    }

    /// The address that is asked for the tags of a repository, named as
    /// organization/repository, or library/repository for an official image.
    pub fn new(repo: String) -> (r: String)
        ensures
            r@ == tags_url(repo@),
    {
        String::from_str("https://hub.docker.com/v2/repositories/").concat(repo.as_str()).concat(
            "/tags",
        )
    }

    /// The page that a decoded answer holds. A repository without tags counts as invalid.
    pub fn with_url(
        count: usize,
        next_page: Option<String>,
        prev_page: Option<String>,
        results: Vec<Images>,
    ) -> (r: Result<Self, Error>)
        ensures
            count == 0 ==> r == Err::<Tags, Error>(Error::NoTagsFound),
            count != 0 ==> r is Ok && r->Ok_0.count() == count && r->Ok_0.next() == text_view(
                next_page,
            ) && r->Ok_0.previous() == text_view(prev_page) && r->Ok_0.tags() == results@,
    {
        if count == 0 {
            return Err(Error::NoTagsFound);
        }
        Ok(Tags { count, next_page, prev_page, results })
    }

    /// checks the repo name and may add a prefix for official images
    pub fn check_repo(name: &str) -> (r: Result<String, Error>)
        ensures
            text_result(r) == checked_name(
                tag_parts(regex_captures(TAGGED@, name@)),
                parsed_repo(name@),
            ),
    {
        Self::name_of(repo::split_tag_from_repo(name), repo::split_repo_without_tag(name))
    }

    /// Picks the name that the registry knows a repository by, given what its identifier
    /// was split into and what it was read as.
    pub fn name_of(
        tagged: Result<(&str, &str), crate::error::Error>,
        parsed: Result<repo::Repo, crate::error::Error>,
    ) -> (r: Result<String, Error>)
        ensures
            text_result(r) == checked_name(repo::pair_result(tagged), repo::repo_result(parsed)),
    {
        let repo = match tagged {
            Err(e) => { return Err(Error::Converting(e.message())); },
            Ok((name, _)) => name,
        };
        match parsed {
            Ok(repo::Repo::Project(s)) => Ok(String::from_str("library/").concat(s.as_str())),
            Ok(_) => Ok(String::from_str(repo)),
            Err(e) => Err(Error::Converting(e.message())),
        }
    }

    /// returns the address of the tags of next page
    pub fn next_page(&self) -> (r: Result<String, Error>)
        ensures
            text_result(r) == (match self.next() {
                Some(url) => Ok::<Seq<char>, ErrorView>(url),
                None => Err(ErrorView::NoNextPage),
            }),
    {
        match &self.next_page {
            Some(url) => Ok(url.clone()),
            None => Err(Error::NoNextPage),
        }
    }

    /// returns the address of the tags of previous page
    pub fn prev_page(&self) -> (r: Result<String, Error>)
        ensures
            text_result(r) == (match self.previous() {
                Some(url) => Ok::<Seq<char>, ErrorView>(url),
                None => Err(ErrorView::NoPrevPage),
            }),
    {
        match &self.prev_page {
            Some(url) => Ok(url.clone()),
            None => Err(Error::NoPrevPage),
        }
    }
}

/// The German word for a unit of time, in the case that follows "vor".
pub open spec fn german(unit: Unit) -> Seq<char> {
    match unit {
        Unit::Year => "Jahr"@,
        Unit::Years => "Jahren"@,
        Unit::Day => "Tag"@,
        Unit::Days => "Tagen"@,
        Unit::Hour => "Stunde"@,
        Unit::Hours => "Stunden"@,
        Unit::Minute => "Minute"@,
        Unit::Minutes => "Minuten"@,
        Unit::Seconds => "Sekunden"@,
    }
}

/// A span in German words: the number, a space and the unit.
pub open spec fn nice_time(seconds: int) -> Seq<char> {
    signed_decimal(span_of(seconds).0) + " "@ + german(span_of(seconds).1)
}

/// converts a given duration to a readable string
pub fn format_time_nice(time: Duration) -> (r: String)
    ensures
        r@ == nice_time(time.seconds as int),
{
    let (number, unit) = time.span();
    let word = match unit {
        Unit::Year => "Jahr",
        Unit::Years => "Jahren",
        Unit::Day => "Tag",
        Unit::Days => "Tagen",
        Unit::Hour => "Stunde",
        Unit::Hours => "Stunden",
        Unit::Minute => "Minute",
        Unit::Minutes => "Minuten",
        Unit::Seconds => "Sekunden",
    };
    signed_decimal_text(number).concat(" ").concat(word)
}

/// What is shown of one build: its architecture and its size in whole megabytes.
pub open spec fn build_text(d: ImageDetails) -> Seq<char> {
    d.architecture@ + "|"@ + decimal((d.size / 1024 / 1024) as nat) + "MB"@
}

/// What is shown of a list of builds: one after the other, with a comma between them.
pub open spec fn builds_text(images: Seq<ImageDetails>) -> Seq<char>
    decreases images.len(),
{
    if images.len() == 0 {
        Seq::empty()
    } else if images.len() == 1 {
        build_text(images[0])
    } else {
        builds_text(images.drop_last()) + ", "@ + build_text(images.last())
    }
}

impl ImageDetails {
    /// Renders the build.
    pub fn label(&self) -> (r: String)
        ensures
            r@ == build_text(*self),
    {
        self.architecture.clone().concat("|").concat(
            decimal_text((self.size / 1024 / 1024) as u64).as_str(),
        ).concat("MB")
    }
}

impl Images {
    /// What is shown of the tag at the instant `now`, given the instant of its last update:
    /// its name, its age and its builds. Nothing where that instant is not known or lies too
    /// far from `now` to be counted.
    pub open spec fn text_since(self, now: int, updated: Option<i64>) -> Option<Seq<char>> {
        match updated {
            Some(at) => if i64::MIN <= now - at <= i64::MAX {
                Some(
                    self.tag_name@ + " vor "@ + nice_time(now - at) + " ["@ + builds_text(
                        self.images@,
                    ) + "]"@,
                )
            } else {
                None
            },
            None => None,
        }
    }

    /// What is shown of the tag at the instant `now`, given in seconds since the Unix
    /// epoch. Nothing where the time of the last update cannot be read.
    pub open spec fn text(self, now: int) -> Option<Seq<char>> {
        self.text_since(now, rfc3339_seconds(self.last_updated@))
    }

    /// Renders the tag at the instant `now`.
    pub fn label(&self, now: i64) -> (r: Option<String>)
        ensures
            text_view(r) == self.text(now as int),
    {
        self.label_since(now, parse_rfc3339(self.last_updated.as_str()))
    }

    /// Renders the tag at the instant `now`, given the instant of its last update.
    pub fn label_since(&self, now: i64, updated: Option<i64>) -> (r: Option<String>)
        ensures
            text_view(r) == self.text_since(now as int, updated),
    {
        //architecture infos
        let mut arch = String::new();
        let mut i: usize = 0;
        assert(self.images@.take(0) =~= Seq::<ImageDetails>::empty());
        while i < self.images.len()
            invariant
                i <= self.images.len(),
                arch@ == builds_text(self.images@.take(i as int)),
            decreases self.images.len() - i,
        {
            proof {
                let prefix = self.images@.take(i + 1);
                assert(prefix.drop_last() =~= self.images@.take(i as int));
                assert(prefix.last() == self.images@[i as int]);
                assert(prefix[0] == self.images@[0]);
            }
            if i > 0 {
                arch.append(", ");
            }
            arch.append(self.images[i].label().as_str());
            i += 1;
        }
        assert(self.images@.take(self.images@.len() as int) =~= self.images@);

        let at = match updated {
            Some(at) => at,
            None => { return None; },
        };
        let dif = match Duration::between(now, at) {
            Some(dif) => dif,
            None => { return None; },
        };
        let mut line = self.tag_name.clone();
        line.append(" vor ");
        line.append(format_time_nice(dif).as_str());
        line.append(" [");
        line.append(arch.as_str());
        line.append("]");
        Some(line)
    }
}

} // verus!
