use vstd::prelude::*;
use vstd::string::StringExecFns;

use crate::error::{Error, ErrorView};

verus! {

/// The parts of a repository identifier.
#[derive(Debug, PartialEq)]
pub enum Repo {
    WithServer(String, String, String),
    WithOrga(String, String),
    Project(String),
}

/// The pattern of a manifest line that names an image: the leading key, then the identifier.
pub const YAML_IMAGE: &'static str = r"^( +image *: *)([a-z0-9\-\./:]+)";

/// The capture groups of the leftmost match of `pattern` in `text`, as `regex::Regex` finds
/// them: group 0 is the whole match and a group that took no part is `None`. `None` where
/// the text holds no match or the pattern does not compile.
pub uninterp spec fn regex_captures(pattern: Seq<char>, text: Seq<char>) -> Option<
    Seq<Option<Seq<char>>>,
>;

/// The views of the captured pieces.
pub open spec fn groups_view(groups: Option<Vec<Option<&str>>>) -> Option<Seq<Option<Seq<char>>>> {
    match groups {
        Some(v) => Some(
            Seq::new(
                v@.len(),
                |i: int|
                    match v@[i] {
                        Some(s) => Some(s@),
                        None => None,
                    },
            ),
        ),
        None => None,
    }
}

/// Compiles `pattern` with `regex::Regex::new` and searches `text` with
/// `regex::Regex::captures`. The contract only names the outcome: it is the engine's answer
/// for this pattern and this text, each captured piece a slice of `text`.
#[verifier::external_body]
fn captures<'a>(pattern: &str, text: &'a str) -> (r: Option<Vec<Option<&'a str>>>)
    ensures
        groups_view(r) == regex_captures(pattern@, text@),
{
    match regex::Regex::new(pattern) {
        Ok(re) => re.captures(text).map(|c| c.iter().map(|m| m.map(|m| m.as_str())).collect()),
        Err(_) => None,
    }
}

/// Two pieces of a text, or why there are none, as plain values.
pub open spec fn pair_result(r: Result<(&str, &str), Error>) -> Result<
    (Seq<char>, Seq<char>),
    ErrorView,
> {
    match r {
        Ok(parts) => Ok((parts.0@, parts.1@)),
        Err(e) => Err(e@),
    }
}

/// What a manifest line yields, given the groups that the image pattern captured in it:
/// the first and the second group, where both took part in a match.
pub open spec fn image_parts(groups: Option<Seq<Option<Seq<char>>>>) -> Result<
    (Seq<char>, Seq<char>),
    ErrorView,
> {
    match groups {
        Some(g) => if g.len() >= 3 && g[1] is Some && g[2] is Some {
            Ok((g[1]->0, g[2]->0))
        } else {
            Err(ErrorView::NoTagFound)
        },
        None => Err(ErrorView::NoTagFound),
    }
}

/// Picks the key and the identifier out of the captured groups of a manifest line.
pub fn yaml_image_parts<'a>(groups: Option<Vec<Option<&'a str>>>) -> (r: Result<
    (&'a str, &'a str),
    Error,
>)
    ensures
        pair_result(r) == image_parts(groups_view(groups)),
{
    match groups {
        None => Err(Error::NoTagFound),
        Some(v) => {
            if v.len() < 3 {
                return Err(Error::NoTagFound);
            }
            match (v[1], v[2]) {
                (Some(front), Some(back)) => Ok((front, back)),
                _ => Err(Error::NoTagFound),
            }
        },
    }
}

/// Checks whether a manifest line names an image. On a match the first piece is the line up
/// to the identifier, indentation included, and the second is the identifier.
pub fn match_yaml_image(input: &str) -> (r: Result<(&str, &str), Error>)
    ensures
        pair_result(r) == image_parts(regex_captures(YAML_IMAGE@, input@)),
{
    yaml_image_parts(captures(YAML_IMAGE, input))
}

/// The pattern of an identifier with an optional tag: what stands before the first colon,
/// then the tag.
pub const TAGGED: &'static str = r"^([a-z0-9\./[^:]]*):?([a-z0-9._\-]*)";

/// What an identifier splits into, given the groups that the tag pattern captured in it:
/// the first group, which must have taken part in a match, and the second, which is empty
/// where it did not.
pub open spec fn tag_parts(groups: Option<Seq<Option<Seq<char>>>>) -> Result<
    (Seq<char>, Seq<char>),
    ErrorView,
> {
    match groups {
        Some(g) => if g.len() >= 2 && g[1] is Some {
            Ok((g[1]->0, if g.len() >= 3 && g[2] is Some { g[2]->0 } else { Seq::empty() }))
        } else {
            Err(ErrorView::MisformedInput)
        },
        None => Err(ErrorView::MisformedInput),
    }
}

/// Picks the repository and the tag out of the captured groups of an identifier. A tag group
/// that took no part in the match gives the empty tag.
pub fn tagged_parts<'a>(groups: Option<Vec<Option<&'a str>>>) -> (r: Result<
    (&'a str, &'a str),
    Error,
>)
    ensures
        pair_result(r) == tag_parts(groups_view(groups)),
{
    match groups {
        None => Err(Error::MisformedInput),
        Some(v) => {
            if v.len() < 2 {
                return Err(Error::MisformedInput);
            }
            let front = match v[1] {
                None => { return Err(Error::MisformedInput); },
                Some(cap) => cap,
            };
            let back = if v.len() >= 3 {
                match v[2] {
                    None => "",
                    Some(cap) => cap,
                }
            } else {
                ""
            };
            proof {
                reveal_strlit("");
                assert(""@ =~= Seq::<char>::empty());
            }
            Ok((front, back))
        },
    }
}

/// Takes the identifier and splits off the tag if it exists.
pub fn split_tag_from_repo(input: &str) -> (r: Result<(&str, &str), Error>)
    ensures
        pair_result(r) == tag_parts(regex_captures(TAGGED@, input@)),
{
    tagged_parts(captures(TAGGED, input))
}

/// Whether `c` has the Unicode property White_Space.
pub open spec fn is_white_space(c: char) -> bool {
    let n = c as int;
    ||| 0x09 <= n <= 0x0d
    ||| n == 0x20
    ||| n == 0x85
    ||| n == 0xa0
    ||| n == 0x1680
    ||| 0x2000 <= n <= 0x200a
    ||| n == 0x2028
    ||| n == 0x2029
    ||| n == 0x202f
    ||| n == 0x205f
    ||| n == 0x3000
}

/// `s` without its leading white space.
pub open spec fn trim_start(s: Seq<char>) -> Seq<char>
    decreases s.len(),
{
    if s.len() > 0 && is_white_space(s[0]) {
        trim_start(s.drop_first())
    } else {
        s
    }
}

/// `s` without its trailing white space.
pub open spec fn trim_end(s: Seq<char>) -> Seq<char>
    decreases s.len(),
{
    if s.len() > 0 && is_white_space(s.last()) {
        trim_end(s.drop_last())
    } else {
        s
    }
}

/// `s` without leading and trailing white space.
pub open spec fn trimmed(s: Seq<char>) -> Seq<char> {
    trim_end(trim_start(s))
}

/// The pieces of `s` between the occurrences of `sep`, in order. A text without `sep` is one
/// piece, and two neighbouring separators enclose an empty piece.
pub open spec fn split_on(s: Seq<char>, sep: char) -> Seq<Seq<char>>
    decreases s.len(),
{
    if s.len() == 0 {
        seq![Seq::<char>::empty()]
    } else {
        let before = split_on(s.drop_last(), sep);
        if s.last() == sep {
            before.push(Seq::<char>::empty())
        } else {
            before.drop_last().push(before.last().push(s.last()))
        }
    }
}

/// The views of a list of text slices.
pub open spec fn pieces_view(pieces: Vec<&str>) -> Seq<Seq<char>> {
    Seq::new(pieces@.len(), |i: int| pieces@[i]@)
}

/// Calls `str::trim`: the result is the text without the white space at its two ends, where
/// white space is what Unicode gives the property White_Space.
#[verifier::external_body]
fn trim<'a>(text: &'a str) -> (r: &'a str)
    ensures
        r@ == trimmed(text@),
{
    text.trim()
}

/// Calls `str::split` with a character: the result holds the slices of the text that the
/// separator parts, in order, empty ones included.
#[verifier::external_body]
fn split<'a>(text: &'a str, sep: char) -> (r: Vec<&'a str>)
    ensures
        pieces_view(r) == split_on(text@, sep),
{
    text.split(sep).collect()
}

/// Whether `regex::Regex` finds a match of `pattern` anywhere in `text`; `false` where the
/// pattern does not compile.
pub uninterp spec fn regex_is_match(pattern: Seq<char>, text: Seq<char>) -> bool;

/// Compiles `pattern` with `regex::Regex::new` and asks `regex::Regex::is_match` for `text`.
/// The contract only names the engine's answer.
#[verifier::external_body]
fn is_match(pattern: &str, text: &str) -> (r: bool)
    ensures
        r == regex_is_match(pattern@, text@),
{
    match regex::Regex::new(pattern) {
        Ok(re) => re.is_match(text),
        Err(_) => false,
    }
}

/// The pattern that a bare project name must hold.
pub const PROJECT: &'static str = r"[a-z0-9]+";

/// The pattern that an organisation and a project must hold.
pub const WITH_ORGA: &'static str = r"[a-z0-9]+/[a-z0-9]+";

/// The pattern that a server, an organisation and a project must hold.
pub const WITH_SERVER: &'static str = r"[a-z0-9\.]+/[a-z0-9]+/[a-z0-9]+";

/// A repository identifier as plain text.
pub enum RepoView {
    WithServer(Seq<char>, Seq<char>, Seq<char>),
    WithOrga(Seq<char>, Seq<char>),
    Project(Seq<char>),
}

impl View for Repo {
    type V = RepoView;

    open spec fn view(&self) -> RepoView {
        match *self {
            Repo::WithServer(s, o, p) => RepoView::WithServer(s@, o@, p@),
            Repo::WithOrga(o, p) => RepoView::WithOrga(o@, p@),
            Repo::Project(p) => RepoView::Project(p@),
        }
    }
}

/// The pattern that an identifier of `count` pieces must hold; none where no identifier has
/// that many pieces.
pub open spec fn pattern_for(count: nat) -> Option<Seq<char>> {
    if count == 1 {
        Some(PROJECT@)
    } else if count == 2 {
        Some(WITH_ORGA@)
    } else if count == 3 {
        Some(WITH_SERVER@)
    } else {
        None
    }
}

/// An identifier, or why there is none, as plain values.
pub open spec fn repo_result(r: Result<Repo, Error>) -> Result<RepoView, ErrorView> {
    match r {
        Ok(id) => Ok(id@),
        Err(e) => Err(e@),
    }
}

/// The identifier that one, two or three pieces stand for, where the pattern for their
/// number was found in the text they were cut from.
pub open spec fn repo_of(pieces: Seq<Seq<char>>, found: bool) -> Result<RepoView, ErrorView> {
    if !found {
        Err(ErrorView::MisformedInput)
    } else if pieces.len() == 1 {
        Ok(RepoView::Project(pieces[0]))
    } else if pieces.len() == 2 {
        Ok(RepoView::WithOrga(pieces[0], pieces[1]))
    } else if pieces.len() == 3 {
        Ok(RepoView::WithServer(pieces[0], pieces[1], pieces[2]))
    } else {
        Err(ErrorView::MisformedInput)
    }
}

/// The identifier that `repo` stands for once the white space round it is gone: the text is
/// cut at each `/`, and the pieces are accepted where the pattern for their number is found
/// in the text.
pub open spec fn parsed_repo(repo: Seq<char>) -> Result<RepoView, ErrorView> {
    let text = trimmed(repo);
    let pieces = split_on(text, '/');
    match pattern_for(pieces.len()) {
        Some(pattern) => repo_of(pieces, regex_is_match(pattern, text)),
        None => Err(ErrorView::MisformedInput),
    }
}

/// Builds the identifier from its pieces, given whether the pattern for their number was
/// found.
pub fn repo_from_pieces(pieces: Vec<&str>, found: bool) -> (r: Result<Repo, Error>)
    ensures
        repo_result(r) == repo_of(pieces_view(pieces), found),
{
    proof {
        assert(forall|i: int|
            0 <= i < pieces@.len() ==> pieces@[i]@ == #[trigger] pieces_view(pieces)[i]);
    }
    if !found {
        Err(Error::MisformedInput)
    } else if pieces.len() == 1 {
        Ok(Repo::Project(String::from_str(pieces[0])))
    } else if pieces.len() == 2 {
        Ok(Repo::WithOrga(String::from_str(pieces[0]), String::from_str(pieces[1])))
    } else if pieces.len() == 3 {
        Ok(
            Repo::WithServer(
                String::from_str(pieces[0]),
                String::from_str(pieces[1]),
                String::from_str(pieces[2]),
            ),
        )
    } else {
        Err(Error::MisformedInput)
    }
}

/// Takes an identifier and changes it to a `Repo`.
pub fn split_repo_without_tag(repo: &str) -> (r: Result<Repo, Error>)
    ensures
        repo_result(r) == parsed_repo(repo@),
{
    let repo = trim(repo);
    let split_repo: Vec<&str> = split(repo, '/');
    let found = if split_repo.len() == 1 {
        is_match(PROJECT, repo)
    } else if split_repo.len() == 2 {
        is_match(WITH_ORGA, repo)
    } else if split_repo.len() == 3 {
        is_match(WITH_SERVER, repo)
    } else {
        return Err(Error::MisformedInput);
    };
    repo_from_pieces(split_repo, found)
}

} // verus!
