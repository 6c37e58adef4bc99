use vstd::prelude::*;
use vstd::string::StringExecFns;

use crate::common::format::texts_view;
use crate::error::ErrorView;
use crate::repository::dockerhub::{page_of, DockerHub};
use crate::repository::{
    page_result, utc_now, Repo, RepoView, Tag, TagDetailsView, TagView,
};
use crate::widget::details::{listed, Details};
use crate::widget::{position, Key, ListState};

verus! {

/// Why no tag name can be read at the cursor.
#[derive(Debug, Clone, Copy, PartialEq, Eq, Structural)]
pub enum Error {
    NoneSelected,
    NextPageSelected,
    SelectedStatus,
}

impl Error {
    /// The text that is shown for this error.
    pub open spec fn text(self) -> Seq<char> {
        match self {
            Error::NoneSelected => "No tag selected"@,
            Error::NextPageSelected => "tried to get the next page"@,
            Error::SelectedStatus => "Status message was selected"@,
        }
    }

    /// Renders the error for display.
    pub fn message(&self) -> (r: String)
        ensures
            r@ == self.text(),
    {
        match self {
            Error::NoneSelected => String::from_str("No tag selected"),
            Error::NextPageSelected => String::from_str("tried to get the next page"),
            Error::SelectedStatus => String::from_str("Status message was selected"),
        }
    }
}

/// One line of the list.
#[derive(Debug)]
enum Line {
    Status(String),
    Image(Tag),
    NextPage(String),
}

/// One line of the list as plain values: a message, a tag, or the offer to load more.
pub enum LineView {
    Status(Seq<char>),
    Image(TagView),
    NextPage(Seq<char>),
}

impl View for Line {
    type V = LineView;

    closed spec fn view(&self) -> LineView {
        match *self {
            Line::Status(s) => LineView::Status(s@),
            Line::Image(t) => LineView::Image(t@),
            Line::NextPage(s) => LineView::NextPage(s@),
        }
    }
}

impl LineView {
    /// What the line shows at the instant `now`: a tag shows its name and its age.
    pub open spec fn text(self, now: int) -> Seq<char> {
        match self {
            LineView::Status(s) => s,
            LineView::Image(t) => t.line_text(now),
            LineView::NextPage(s) => s,
        }
    }
}

impl Clone for Line {
    fn clone(&self) -> (r: Self)
        ensures
            r@ == self@,
    {
        match self {
            Line::Status(s) => Line::Status(s.clone()),
            Line::Image(t) => Line::Image(t.clone()),
            Line::NextPage(s) => Line::NextPage(s.clone()),
        }
    }
}

/// The label of the line that offers to load more tags.
pub open spec fn more_label() -> Seq<char> {
    "load more tags"@
}

/// The lines that show the tags of a page, one per tag.
pub open spec fn entry_lines(tags: Seq<TagView>) -> Seq<LineView> {
    Seq::new(tags.len(), |i: int| LineView::Image(tags[i]))
}

/// The list as plain values: its lines, the selected line and the page that was fetched last.
pub struct TagListView {
    pub lines: Seq<LineView>,
    pub cursor: Option<nat>,
    /// the first line that is drawn
    pub offset: nat,
    pub page: Option<RepoView>,
}

impl TagListView {
    /// The list shows one message and nothing else.
    pub open spec fn is_status(self) -> bool {
        self.lines.len() == 1 && self.lines[0] is Status
    }

    /// The list ends with the offer to load more.
    pub open spec fn has_more(self) -> bool {
        self.lines.len() > 0 && self.lines.last() is NextPage
    }

    /// The number of lines that show a tag, in a list that is well formed.
    pub open spec fn entries(self) -> int {
        if self.is_status() {
            0
        } else if self.has_more() {
            self.lines.len() - 1
        } else {
            self.lines.len() as int
        }
    }

    /// What holds of every list: it is either one message without a page, or tags of which
    /// there is at least one, followed by the offer to load more exactly where the page that
    /// was fetched last names a page after it.
    pub open spec fn wf(self) -> bool {
        ||| self.is_status() && self.page is None
        ||| {
            &&& self.page is Some
            &&& self.lines.len() >= 1
            &&& self.lines[0] is Image
            &&& forall|i: int| 0 <= i < self.lines.len() - 1 ==> #[trigger] self.lines[i] is Image
            &&& self.lines.last() is Image || self.lines.last() is NextPage
            &&& self.lines.last() is NextPage <==> self.page->0.next_page is Some
        }
    }

    /// The list of one message.
    pub open spec fn status(text: Seq<char>) -> TagListView {
        TagListView { lines: seq![LineView::Status(text)], cursor: None, offset: 0, page: None }
    }

    /// The list that shows the first page of a repository.
    pub open spec fn first_page(page: RepoView) -> TagListView {
        TagListView {
            lines: if page.next_page is Some {
                entry_lines(page.tags).push(LineView::NextPage(more_label()))
            } else {
                entry_lines(page.tags)
            },
            cursor: None,
            offset: 0,
            page: Some(page),
        }
    }

    /// The list that the answer to the request for a repository's first page gives: its tags,
    /// or one message where the page could not be had.
    pub open spec fn fetched(answer: Result<RepoView, ErrorView>) -> TagListView {
        match answer {
            Ok(page) => TagListView::first_page(page),
            Err(_) => TagListView::status("input repo was not found"@),
        }
    }

    /// The list after `steps` steps forward.
    pub open spec fn advance_by(self, steps: nat) -> TagListView
        decreases steps,
    {
        if steps == 0 {
            self
        } else {
            self.advance().0.advance_by((steps - 1) as nat)
        }
    }

    /// The list after one step forward, and whether more tags are wanted. A message is never
    /// left. Without a selection the first line is taken. From the last tag the step asks for
    /// more where more is offered, and goes back to the first line where it is not.
    pub open spec fn advance(self) -> (TagListView, bool) {
        if self.is_status() {
            (self, false)
        } else {
            match self.cursor {
                None => if self.lines.len() > 0 {
                    (TagListView { cursor: Some(0), ..self }, false)
                } else {
                    (self, false)
                },
                Some(i) => if i + 1 < self.entries() {
                    (TagListView { cursor: Some(i + 1), ..self }, false)
                } else if self.has_more() && i + 1 == self.entries() {
                    (self, true)
                } else {
                    (TagListView { cursor: Some(0), ..self }, false)
                },
            }
        }
    }

    /// The list after one step back. A message is never left. Without a selection the first
    /// line is taken, and from the first line the step goes to the last tag.
    pub open spec fn retreat(self) -> TagListView {
        if self.is_status() || self.entries() <= 0 {
            self
        } else {
            match self.cursor {
                None => TagListView { cursor: Some(0), ..self },
                Some(i) => if 1 <= i <= self.entries() {
                    TagListView { cursor: Some((i - 1) as nat), ..self }
                } else {
                    TagListView { cursor: Some((self.entries() - 1) as nat), ..self }
                },
            }
        }
    }

    /// What the lines show at the instant `now`.
    pub open spec fn texts(self, now: int) -> Seq<Seq<char>> {
        Seq::new(self.lines.len(), |i: int| self.lines[i].text(now))
    }

    /// The cursor is on the offer to load more.
    pub open spec fn on_offer(self) -> bool {
        self.cursor is Some && self.cursor->0 < self.lines.len()
            && self.lines[self.cursor->0 as int] is NextPage
    }

    /// The list after a key, and whether more tags are wanted: down steps forward, up steps
    /// back, return on the offer to load more takes it, and any other key does nothing.
    pub open spec fn input(self, key: Key) -> (TagListView, bool) {
        match key {
            Key::Down => self.advance(),
            Key::Up => (self.retreat(), false),
            Key::Char(c) => (self, c == '\n' && self.on_offer()),
            _ => (self, false),
        }
    }

    /// The list after the answer to a request for the next page has come. Without an answer,
    /// or where no further page was on offer, nothing changes. Else the tags of the new page
    /// follow the ones already shown, the new page is kept, and the offer to load more stays
    /// exactly where the new page names a page after it.
    pub open spec fn merge(self, fetched: Option<RepoView>) -> TagListView {
        if self.page is Some && self.has_more() && fetched is Some {
            let shown = self.lines.drop_last() + entry_lines(fetched->0.tags);
            TagListView {
                lines: if fetched->0.next_page is Some {
                    shown.push(self.lines.last())
                } else {
                    shown
                },
                cursor: self.cursor,
                offset: self.offset,
                page: fetched,
            }
        } else {
            self
        }
    }

    /// The builds that the panel beside the list shows: those of the selected tag, or none
    /// where no tag is selected.
    pub open spec fn selected_details(self) -> Seq<TagDetailsView> {
        match self.cursor {
            Some(i) => if i < self.lines.len() && self.lines[i as int] is Image {
                listed(self.lines[i as int]->Image_0.details)
            } else {
                Seq::empty()
            },
            None => Seq::empty(),
        }
    }

    /// The name of the selected tag, or why there is none.
    pub open spec fn selected_name(self) -> Result<Seq<char>, Error> {
        match self.cursor {
            None => Err(Error::NoneSelected),
            Some(i) => if i < self.lines.len() {
                match self.lines[i as int] {
                    LineView::Status(_) => Err(Error::SelectedStatus),
                    LineView::Image(t) => Ok(t.name),
                    LineView::NextPage(_) => Err(Error::NextPageSelected),
                }
            } else {
                Err(Error::NoneSelected)
            },
        }
    }
}

/// The lines of a list as plain values.
spec fn lines_view(lines: Seq<Line>) -> Seq<LineView> {
    Seq::new(lines.len(), |i: int| lines[i]@)
}

/// The list of a repository's tags with its cursor.
#[derive(Debug)]
pub struct TagList {
    lines: Vec<Line>,
    state: ListState,
    tags: Option<Repo>,
}

impl View for TagList {
    type V = TagListView;

    closed spec fn view(&self) -> TagListView {
        TagListView {
            lines: lines_view(self.lines@),
            cursor: position(self.state.selected),
            offset: self.state.offset as nat,
            page: match self.tags {
                Some(repo) => Some(repo@),
                None => None,
            },
        }
    }
}

impl TagList {
    #[verifier::type_invariant]
    pub open spec fn inv(self) -> bool {
        self@.wf()
    }

    /// shows a text in the list and no tags
    pub fn with_status(status: &str) -> (r: Self)
        ensures
            r@ == TagListView::status(status@),
            r@.wf(),
    {
        let mut lines: Vec<Line> = Vec::new();
        lines.push(Line::Status(String::from_str(status)));
        let list = TagList { lines, state: ListState::default(), tags: None };
        assert(list@.lines =~= seq![LineView::Status(status@)]);
        list
    }

    /// list the tags of the repository if looking it up gave a page
    pub fn with_repo_name(fetched: Result<Repo, crate::error::Error>) -> (r: Self)
        ensures
            r@ == TagListView::fetched(page_result(fetched)),
            r@.wf(),
    {
        match fetched {
            Ok(tags) => Self::with_tags(tags),
            Err(_) => Self::with_status("input repo was not found"),
        }
    }

    /// list the tags of a page
    pub fn with_tags(tags: Repo) -> (r: Self)
        ensures
            r@ == TagListView::first_page(tags@),
            r@.wf(),
            !r@.is_status(),
    {
        let mut lines: Vec<Line> = Vec::new();
        let page = tags.get_tags();
        let mut i: usize = 0;
        while i < page.len()
            invariant
                i <= page.len(),
                lines@.len() == i,
                forall|j: int| 0 <= j < i ==> lines@[j]@ == LineView::Image(page@[j]@),
            decreases page.len() - i,
        {
            lines.push(Line::Image(page[i].clone()));
            i += 1;
        }
        assert(lines_view(lines@) =~= entry_lines(tags@.tags));
        if tags.next_page().is_some() {
            lines.push(Line::NextPage(String::from_str("load more tags")));
            assert(lines_view(lines@) =~= entry_lines(tags@.tags).push(
                LineView::NextPage(more_label()),
            ));
        }
        let list = TagList { lines, state: ListState::default(), tags: Some(tags) };
        assert(list@.lines =~= TagListView::first_page(tags@).lines);
        list
    }

    pub fn set_cursor(&mut self, state: ListState)
        ensures
            final(self)@ == (TagListView {
                cursor: position(state.selected),
                offset: state.offset as nat,
                ..old(self)@
            }),
    {
        proof {
            use_type_invariant(&*self);
        }
        self.state = state;
    }

    pub fn get_cursor(&self) -> (r: &ListState)
        ensures
            position(r.selected) == self@.cursor,
            r.offset == self@.offset,
    {
        &self.state
    }

    /// The texts of the lines at the instant `now`, given in seconds since the Unix epoch.
    pub fn lines_at(&self, now: i64) -> (r: Vec<String>)
        ensures
            texts_view(r@) == self@.texts(now as int),
    {
        let mut out: Vec<String> = Vec::new();
        let mut i: usize = 0;
        while i < self.lines.len()
            invariant
                i <= self.lines.len(),
                out@.len() == i,
                forall|j: int|
                    0 <= j < i ==> (#[trigger] out@[j])@ == self.lines@[j]@.text(now as int),
            decreases self.lines.len() - i,
        {
            let text = match &self.lines[i] {
                Line::Status(s) => s.clone(),
                Line::Image(tag) => tag.name_with_age(now),
                Line::NextPage(s) => s.clone(),
            };
            out.push(text);
            i += 1;
        }
        assert(texts_view(out@) =~= self@.texts(now as int));
        out
    }

    /// The texts of the lines on this machine's clock.
    pub fn get_lines(&self) -> (r: Vec<String>)
        ensures
            exists|now: i64| texts_view(r@) == #[trigger] self@.texts(now as int),
    {
        self.lines_at(utc_now())
    }

    pub fn create_detail_widget(&self) -> (r: Details)
        ensures
            r@ == self@.selected_details(),
    {
        match self.state.selected() {
            None => Details::new(),
            Some(i) => {
                if i >= self.lines.len() {
                    return Details::new();
                }
                match &self.lines[i] {
                    Line::Image(t) => Details::with_list(t.get_details().as_slice()),
                    _ => Details::new(),
                }
            },
        }
    }

    /// The name of the tag under the cursor. A cursor that points at no line selects nothing.
    pub fn get_selected(&self) -> (r: Result<String, Error>)
        ensures
            match self@.selected_name() {
                Ok(name) => r is Ok && r->Ok_0@ == name,
                Err(e) => r == Err::<String, Error>(e),
            },
    {
        match self.state.selected() {
            None => Err(Error::NoneSelected),
            Some(i) => {
                if i >= self.lines.len() {
                    return Err(Error::NoneSelected);
                }
                match &self.lines[i] {
                    Line::Status(_) => Err(Error::SelectedStatus),
                    Line::Image(tag) => Ok(String::from_str(tag.get_name())),
                    Line::NextPage(_) => Err(Error::NextPageSelected),
                }
            },
        }
    }

    /// Moves the cursor and leaves the lines as they are.
    fn move_to(&mut self, index: usize)
        ensures
            final(self)@ == (TagListView { cursor: Some(index as nat), ..old(self)@ }),
    {
        proof {
            use_type_invariant(&*self);
        }
        let mut state = self.state;
        state.select(Some(index));
        self.state = state;
    }

    /// Whether the list shows one message and nothing else.
    fn shows_status(&self) -> (r: bool)
        ensures
            r == self@.is_status(),
    {
        proof {
            use_type_invariant(self);
        }
        if self.lines.len() == 0 {
            return false;
        }
        match &self.lines[0] {
            Line::Status(_) => true,
            _ => false,
        }
    }

    /// Whether the list ends with the offer to load more.
    fn offers_more(&self) -> (r: bool)
        ensures
            r == self@.has_more(),
    {
        if self.lines.len() == 0 {
            return false;
        }
        match &self.lines[self.lines.len() - 1] {
            Line::NextPage(_) => true,
            _ => false,
        }
    }

    /// select next tag
    /// returns Some when more tags need to be fetched otherwise None
    pub fn next(&mut self) -> (r: Option<()>)
        ensures
            final(self)@ == old(self)@.advance().0,
            r is Some == old(self)@.advance().1,
            final(self)@.wf(),
    {
        proof {
            use_type_invariant(&*self);
        }
        if self.shows_status() {
            return None;
        }
        let more = self.offers_more();
        let entries = if more {
            self.lines.len() - 1
        } else {
            self.lines.len()
        };
        match self.state.selected() {
            None => {
                if self.lines.len() > 0 {
                    self.move_to(0);
                }
            },
            Some(i) => {
                if i < entries && i + 1 < entries {
                    self.move_to(i + 1);
                } else if more && i < entries && i + 1 == entries {
                    return Some(());
                } else {
                    self.move_to(0);
                }
            },
        }
        None
    }

    /// select previous tag
    pub fn previous(&mut self)
        ensures
            final(self)@ == old(self)@.retreat(),
            final(self)@.wf(),
    {
        proof {
            use_type_invariant(&*self);
        }
        if self.shows_status() {
            return ;
        }
        let entries = if self.offers_more() {
            self.lines.len() - 1
        } else {
            self.lines.len()
        };
        if entries == 0 {
            return ;
        }
        match self.state.selected() {
            None => self.move_to(0),
            Some(i) => {
                if 1 <= i && i <= entries {
                    self.move_to(i - 1);
                } else {
                    self.move_to(entries - 1);
                }
            },
        }
    }

    /// Whether the cursor is on the offer to load more: then new tags are wanted.
    fn select(&self) -> (r: Option<()>)
        ensures
            r is Some == self@.on_offer(),
    {
        match self.state.selected() {
            Some(i) => {
                if i < self.lines.len() {
                    match &self.lines[i] {
                        Line::NextPage(_) => Some(()),
                        _ => None,
                    }
                } else {
                    None
                }
            },
            None => None,
        }
    }

    /// Applies a key to the list.
    /// returns Some when more tags need to be fetched otherwise None
    pub fn handle_input(&mut self, key: Key) -> (r: Option<()>)
        ensures
            final(self)@ == old(self)@.input(key).0,
            r is Some == old(self)@.input(key).1,
            final(self)@.wf(),
    {
        proof {
            use_type_invariant(&*self);
        }
        match key {
            Key::Down => self.next(),
            Key::Up => {
                self.previous();
                None
            },
            Key::Char(c) => {
                if c == '\n' {
                    self.select()
                } else {
                    None
                }
            },
            _ => None,
        }
    }

    /// The address of the page that follows the one fetched last, where the list offers more.
    pub fn next_page(&self) -> (r: Option<String>)
        ensures
            match r {
                Some(url) => self@.page is Some && self@.page->0.next_page == Some(url@),
                None => self@.page is None || self@.page->0.next_page is None,
            },
            r is Some <==> self@.has_more(),
    {
        proof {
            use_type_invariant(self);
        }
        match &self.tags {
            Some(tags) => match tags.next_page() {
                Some(url) => Some(String::from_str(url)),
                None => None,
            },
            None => None,
        }
    }

    /// load new tags from the next page, once the request for it has been answered
    pub fn load_next_page(&mut self, fetched: Option<Repo>)
        ensures
            final(self)@ == old(self)@.merge(
                match fetched {
                    Some(page) => Some(page@),
                    None => None,
                },
            ),
            final(self)@.wf(),
    {
        proof {
            use_type_invariant(&*self);
        }
        if self.tags.is_none() || !self.offers_more() {
            return ;
        }
        let new_tags = match fetched {
            Some(tags) => tags,
            None => { return ; },
        };
        let ghost before = self@;
        let mut taken = TagList::with_status("");
        core::mem::swap(self, &mut taken);
        let TagList { lines, state, tags: _ } = taken;
        let mut lines = lines;

        //remove "load next page"
        let next_page = lines.pop();
        assert(lines_view(lines@) =~= before.lines.drop_last());

        //add tags
        let page = new_tags.get_tags();
        let ghost kept = lines@.len();
        let mut i: usize = 0;
        while i < page.len()
            invariant
                i <= page.len(),
                lines@.len() == kept + i,
                kept == before.lines.len() - 1,
                forall|j: int| 0 <= j < kept ==> lines@[j]@ == before.lines[j],
                forall|j: int| 0 <= j < i ==> lines@[kept + j]@ == LineView::Image(page@[j]@),
            decreases page.len() - i,
        {
            lines.push(Line::Image(page[i].clone()));
            i += 1;
        }
        assert(lines_view(lines@) =~= before.lines.drop_last() + entry_lines(new_tags@.tags));

        //readd next page item
        if new_tags.next_page().is_some() {
            match next_page {
                Some(line) => {
                    lines.push(line);
                },
                None => {},
            }
            assert(lines_view(lines@) =~= (before.lines.drop_last() + entry_lines(
                new_tags@.tags,
            )).push(before.lines.last()));
        }
        let list = TagList { lines, state, tags: Some(new_tags) };
        assert(list@.lines =~= before.merge(Some(new_tags@)).lines);
        *self = list;
    }
}

impl Clone for TagList {
    fn clone(&self) -> (r: Self)
        ensures
            r@ == self@,
    {
        proof {
            use_type_invariant(self);
        }
        let mut lines: Vec<Line> = Vec::new();
        let mut i: usize = 0;
        while i < self.lines.len()
            invariant
                i <= self.lines.len(),
                lines@.len() == i,
                forall|j: int| 0 <= j < i ==> lines@[j]@ == self.lines@[j]@,
            decreases self.lines.len() - i,
        {
            lines.push(self.lines[i].clone());
            i += 1;
        }
        assert(lines_view(lines@) =~= lines_view(self.lines@));
        let tags = match &self.tags {
            Some(repo) => Some(repo.clone()),
            None => None,
        };
        TagList { lines, state: self.state, tags }
    }
}

/// A list that offers more shows at least one tag.
pub proof fn lemma_more_follows_tags(list: TagListView)
    requires
        list.wf(),
        list.has_more(),
    ensures
        list.entries() >= 1,
        list.lines.len() == list.entries() + 1,
{
}

/// In a list that offers more, a step forward never puts the cursor on the offer: the cursor
/// is then on a tag, wherever it was before.
pub proof fn lemma_advance_avoids_offer(list: TagListView)
    requires
        list.wf(),
        list.has_more(),
    ensures
        list.advance().0.cursor is Some,
        list.advance().0.cursor->0 < list.entries(),
        list.advance().0.lines == list.lines,
        list.advance().0.page == list.page,
{
}

/// In a list of `n` tags that offers more, with the cursor on tag `c`, `steps` steps forward
/// bring the cursor to tag `c + steps`, and no further than the last tag: no step wraps
/// round. The step that follows asks for more exactly if the cursor has reached the last
/// tag, so the first request for more is made by step number `n - c`.
pub proof fn lemma_advance_reaches_last(list: TagListView, steps: nat)
    requires
        list.wf(),
        list.has_more(),
        list.cursor is Some,
        list.cursor->0 < list.entries(),
    ensures
        list.advance_by(steps) == (TagListView {
            cursor: Some(
                if list.cursor->0 + steps < list.entries() {
                    list.cursor->0 + steps
                } else {
                    (list.entries() - 1) as nat
                },
            ),
            ..list
        }),
        list.advance_by(steps).advance().1 <==> list.cursor->0 + steps >= list.entries() - 1,
    decreases steps,
{
    if steps > 0 {
        lemma_advance_reaches_last(list.advance().0, (steps - 1) as nat);
    }
}

/// In a list of `n` tags that offers more and has no selection yet, the first step forward
/// takes the first tag and step number `k` takes tag `k - 1`, up to the last tag. Step
/// number `n + 1` is the first that asks for more, and it leaves the cursor on the last tag.
pub proof fn lemma_advance_from_start(list: TagListView, steps: nat)
    requires
        list.wf(),
        list.has_more(),
        list.cursor is None,
        steps >= 1,
    ensures
        list.advance_by(steps) == (TagListView {
            cursor: Some(
                if steps <= list.entries() {
                    (steps - 1) as nat
                } else {
                    (list.entries() - 1) as nat
                },
            ),
            ..list
        }),
        !list.advance().1,
        list.advance_by(steps).advance().1 <==> steps >= list.entries(),
{
    lemma_advance_reaches_last(list.advance().0, (steps - 1) as nat);
}

/// In a list without the offer to load more, a step forward from the last tag goes back to
/// the first line and never asks for more.
pub proof fn lemma_advance_wraps(list: TagListView)
    requires
        list.wf(),
        !list.is_status(),
        !list.has_more(),
        list.cursor == Some((list.lines.len() - 1) as nat),
    ensures
        list.advance() == ((TagListView { cursor: Some(0), ..list }), false),
{
}

/// A step back never puts the cursor on the offer to load more.
pub proof fn lemma_retreat_avoids_offer(list: TagListView)
    requires
        list.wf(),
        !list.is_status(),
    ensures
        list.retreat().cursor is Some,
        list.retreat().cursor->0 < list.entries(),
        list.retreat().lines == list.lines,
{
}

/// What one answered request for the next page does to the number of tags and to the offer:
/// where more was on offer and a page came, the list grows by the tags of that page and
/// offers more exactly if that page names a page after it. Else nothing changes.
pub proof fn lemma_merge_counts(list: TagListView, fetched: Option<RepoView>)
    requires
        list.wf(),
    ensures
        list.merge(fetched).wf(),
        list.has_more() && fetched is Some ==> {
            &&& list.merge(fetched).entries() == list.entries() + fetched->0.tags.len()
            &&& list.merge(fetched).has_more() <==> fetched->0.next_page is Some
            &&& list.merge(fetched).page == fetched
            &&& forall|i: int|
                0 <= i < list.entries() ==> list.merge(fetched).lines[i] == list.lines[i]
        },
        !(list.has_more() && fetched is Some) ==> list.merge(fetched) == list,
{
    if list.has_more() && fetched is Some {
        let merged = list.merge(fetched);
        let shown = list.lines.drop_last() + entry_lines(fetched->0.tags);
        assert(forall|i: int| 0 <= i < shown.len() ==> #[trigger] shown[i] is Image);
        assert(merged.lines[0] == list.lines[0]);
    }
}

/// Two requests for the next page, answered one after the other, each add the tags of their
/// page to the list, so that the list grows with every page that holds a tag, and after the
/// second the list offers more exactly if the second page names a page after it.
pub proof fn lemma_merge_twice(list: TagListView, first: RepoView, second: RepoView)
    requires
        list.wf(),
        list.has_more(),
        first.next_page is Some,
    ensures
        list.merge(Some(first)).entries() == list.entries() + first.tags.len(),
        list.merge(Some(first)).merge(Some(second)).entries() == list.entries()
            + first.tags.len() + second.tags.len(),
        first.tags.len() > 0 ==> list.merge(Some(first)).entries() > list.entries(),
        second.tags.len() > 0 ==> list.merge(Some(first)).merge(Some(second)).entries()
            > list.merge(Some(first)).entries(),
        list.merge(Some(first)).merge(Some(second)).has_more() <==> second.next_page is Some,
        list.merge(Some(first)).merge(Some(second)).wf(),
{
    lemma_merge_counts(list, Some(first));
    lemma_merge_counts(list.merge(Some(first)), Some(second));
}

/// A registry's answer without tags gives a list of one message, never a list without tags
/// that offers to load more.
pub proof fn lemma_no_tags_is_status(answer: DockerHub)
    requires
        answer.results@.len() == 0,
    ensures
        TagListView::fetched(page_of(answer)).is_status(),
        !TagListView::fetched(page_of(answer)).has_more(),
        TagListView::fetched(page_of(answer)).wf(),
{
}

} // verus!
