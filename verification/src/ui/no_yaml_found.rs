use vstd::prelude::*;
use vstd::string::StringExecFns;

use crate::error::{Error, ErrorView};
use crate::repo::parsed_repo;
use crate::repository::{page_result, request_of, Repo, RepoView, TagDetailsView};
use crate::ui::yaml_found::{Work, WorkView};
use crate::ui::UiEvent;
use crate::widget::async_tag_list::{TagList, TagListView};
use crate::widget::details::Details;
use crate::widget::info::{Info, InfoView};
use crate::widget::repo_entry::{RepoEntry, RepoEntryView};
use crate::widget::Key;

verus! {

/// The widget that receives the keys.
#[derive(Debug, Clone, Copy, PartialEq, Eq, Structural)]
pub enum State {
    EditRepo,
    SelectTag,
}

impl State {
    /// The widget that the cycle key moves on to.
    pub open spec fn successor(self) -> State {
        match self {
            State::EditRepo => State::SelectTag,
            State::SelectTag => State::EditRepo,
        }
    }

    /// The name of the widget as the foot of the screen shows it.
    pub open spec fn text(self) -> Seq<char> {
        match self {
            State::EditRepo => "Edit repository"@,
            State::SelectTag => "Select a tag"@,
        }
    }

    /// Moves on to the next widget and returns it.
    pub fn next(&mut self) -> (r: Option<State>)
        ensures
            *final(self) == old(self).successor(),
            r == Some(*final(self)),
    {
        match self {
            State::EditRepo => *self = State::SelectTag,
            State::SelectTag => *self = State::EditRepo,
        }
        Some(*self)
    }

    /// Renders the name of the widget.
    pub fn label(&self) -> (r: String)
        ensures
            r@ == self.text(),
    {
        match self {
            State::EditRepo => String::from_str("Edit repository"),
            State::SelectTag => String::from_str("Select a tag"),
        }
    }
}

/// A request that is handed to the worker.
#[derive(Debug, PartialEq)]
pub enum DeferredEvent {
    Quit,
    NewRepo(String),
    TagPrevious,
    TagNext,
}

/// A request as plain values.
pub enum DeferredEventView {
    Quit,
    NewRepo(Seq<char>),
    TagPrevious,
    TagNext,
}

impl View for DeferredEvent {
    type V = DeferredEventView;

    open spec fn view(&self) -> DeferredEventView {
        match *self {
            DeferredEvent::Quit => DeferredEventView::Quit,
            DeferredEvent::NewRepo(name) => DeferredEventView::NewRepo(name@),
            DeferredEvent::TagPrevious => DeferredEventView::TagPrevious,
            DeferredEvent::TagNext => DeferredEventView::TagNext,
        }
    }
}

/// What is left to do outside once an event has been applied to the screen.
#[derive(Debug, PartialEq)]
pub enum Action {
    /// nothing: draw and wait for the next event
    Continue,
    /// hand the request to the worker
    Send(DeferredEvent),
    /// tell the worker to quit and leave the loop
    Quit,
}

/// An action as plain values.
pub enum ActionView {
    Continue,
    Send(DeferredEventView),
    Quit,
}

impl View for Action {
    type V = ActionView;

    open spec fn view(&self) -> ActionView {
        match *self {
            Action::Continue => ActionView::Continue,
            Action::Send(event) => ActionView::Send(event@),
            Action::Quit => ActionView::Quit,
        }
    }
}

/// The screen as plain values.
pub struct UiView {
    pub state: State,
    pub repo: RepoEntryView,
    pub tags: TagListView,
    pub details: Seq<TagDetailsView>,
    pub info: InfoView,
}

impl UiView {
    /// The screen with a message at its foot.
    pub open spec fn told(self, text: Seq<char>) -> UiView {
        UiView { info: InfoView { info: text, ..self.info }, ..self }
    }

    /// The cycle key: the other widget takes the keys, and the foot of the screen names it.
    pub open spec fn cycled(self) -> UiView {
        UiView { state: self.state.successor(), ..self.told(self.state.successor().text()) }
    }

    /// Confirming the repository: the text of the field is confirmed and a request for its
    /// tags goes to the worker.
    pub open spec fn confirmed(self) -> (UiView, ActionView) {
        (
            UiView { repo: self.repo.confirm(), ..self },
            ActionView::Send(DeferredEventView::NewRepo(self.repo.text)),
        )
    }

    /// Editing the repository: the key goes to the text field.
    pub open spec fn edited(self, key: Key) -> UiView {
        UiView { repo: self.repo.input(key), ..self.told("Editing Repository"@) }
    }

    /// Moving in the list of tags: the worker is asked to move the cursor, and the panel
    /// shows the builds of the tag that is selected now.
    pub open spec fn moved(self, request: DeferredEventView) -> (UiView, ActionView) {
        (UiView { details: self.tags.selected_details(), ..self }, ActionView::Send(request))
    }

    /// What a key does to the screen and what is left to do outside. The first of these
    /// that applies decides: the quit keys; the cycle key; the reload key; return on the
    /// text field; backspace on the text field; up or down on the list of tags; a character
    /// on the text field. Any other key does nothing.
    pub open spec fn on_key(self, key: Key) -> (UiView, ActionView) {
        let up = key == Key::Up || key == Key::Char('k');
        let down = key == Key::Down || key == Key::Char('j');
        if key == Key::Ctrl('q') || key == Key::Ctrl('c') {
            (self, ActionView::Quit)
        } else if key == Key::Char('\t') {
            (self.cycled(), ActionView::Continue)
        } else if key == Key::Ctrl('r') {
            self.confirmed()
        } else if key == Key::Char('\n') && self.state == State::EditRepo {
            self.confirmed()
        } else if key == Key::Backspace && self.state == State::EditRepo {
            (self.edited(key), ActionView::Continue)
        } else if up && self.state == State::SelectTag {
            self.moved(DeferredEventView::TagPrevious)
        } else if down && self.state == State::SelectTag {
            self.moved(DeferredEventView::TagNext)
        } else if key is Char && self.state == State::EditRepo {
            (self.edited(key), ActionView::Continue)
        } else {
            (self, ActionView::Continue)
        }
    }

    /// What an event does to the screen: a key acts as `on_key` says, and the signal that
    /// data has changed only asks for a redraw.
    pub open spec fn on_event(self, event: UiEvent) -> (UiView, ActionView) {
        match event {
            UiEvent::Input(key) => self.on_key(key),
            UiEvent::RefreshOnNewData => (self, ActionView::Continue),
        }
    }

    /// What a request does to the screen and to the mark that a page is being fetched, and
    /// what is left for the worker to do. A new repository replaces the list by a message
    /// and has its first page fetched, or by the message that it was not found where its
    /// name cannot be read. A step back moves the cursor. A step forward moves it too, and
    /// where it asks for more tags the next page is fetched for a copy of the list, unless
    /// a page is being fetched already: then nothing more happens.
    pub open spec fn on_request(self, fetching: bool, event: DeferredEventView) -> (
        UiView,
        bool,
        WorkView,
    ) {
        match event {
            DeferredEventView::Quit => (self, fetching, WorkView::Stop),
            DeferredEventView::NewRepo(name) => match request_of(parsed_repo(name)) {
                Ok(url) => (
                    UiView { tags: TagListView::status("fetching new tags..."@), ..self },
                    fetching,
                    WorkView::FetchRepo(url),
                ),
                Err(e) => (
                    UiView { tags: TagListView::fetched(Err(e)), ..self },
                    fetching,
                    WorkView::Idle,
                ),
            },
            DeferredEventView::TagPrevious => (
                UiView {
                    tags: self.tags.retreat(),
                    details: self.tags.retreat().selected_details(),
                    ..self
                },
                fetching,
                WorkView::Idle,
            ),
            DeferredEventView::TagNext => if !self.tags.advance().1 {
                (
                    UiView {
                        tags: self.tags.advance().0,
                        details: self.tags.advance().0.selected_details(),
                        ..self
                    },
                    fetching,
                    WorkView::Idle,
                )
            } else if fetching {
                (self, true, WorkView::Idle)
            } else {
                (
                    self.told("Fetching more tags..."@),
                    true,
                    WorkView::FetchPage(
                        self.tags,
                        match self.tags.page {
                            Some(page) => page.next_page,
                            None => None,
                        },
                    ),
                )
            },
        }
    }

    /// The screen after the first page of a repository has come, or has failed to.
    pub open spec fn repo_fetched(self, answer: Result<RepoView, ErrorView>) -> UiView {
        UiView { tags: TagListView::fetched(answer), ..self }
    }

    /// The screen after the next page has come for a copy of the list, or has failed to:
    /// the copy with the page merged in replaces the list, but keeps the cursor where the
    /// list has it now.
    pub open spec fn page_fetched(self, copy: TagListView, fetched: Option<RepoView>) -> UiView {
        let merged = TagListView {
            cursor: self.tags.cursor,
            offset: self.tags.offset,
            ..copy.merge(fetched)
        };
        UiView {
            tags: merged,
            details: merged.selected_details(),
            ..self.told("Fetching tags done"@)
        }
    }
}

/// The text field, the list of tags with its panel and the foot of the screen, with the
/// widget that takes the keys.
#[derive(Debug)]
pub struct Ui {
    state: State,
    repo: RepoEntry,
    tags: TagList,
    details: Details,
    info: Info,
}

impl View for Ui {
    type V = UiView;

    closed spec fn view(&self) -> UiView {
        UiView {
            state: self.state,
            repo: self.repo@,
            tags: self.tags@,
            details: self.details@,
            info: self.info@,
        }
    }
}

impl Ui {
    /// The screen at the start as plain values.
    pub open spec fn start(repo_id: Option<Seq<char>>) -> UiView {
        UiView {
            state: State::EditRepo,
            repo: RepoEntryView::start(repo_id),
            tags: TagListView::status("no tags"@),
            details: Seq::empty(),
            info: InfoView::showing("Select image or edit Repository"@),
        }
    }

    /// The screen at the start: the text field takes the keys and shows the repository
    /// that was asked for, and no tags are listed yet.
    pub fn new(repo_id: Option<&str>) -> (r: Ui)
        ensures
            r@ == Ui::start(
                match repo_id {
                    Some(t) => Some(t@),
                    None => None,
                },
            ),
    {
        Ui {
            state: State::EditRepo,
            repo: RepoEntry::new(repo_id),
            tags: TagList::with_status("no tags"),
            details: Details::new(),
            info: Info::new("Select image or edit Repository"),
        }
    }

    /// The widget that takes the keys.
    pub fn state(&self) -> (r: State)
        ensures
            r == self@.state,
    {
        self.state
    }

    /// The text field.
    pub fn repo(&self) -> (r: &RepoEntry)
        ensures
            r@ == self@.repo,
    {
        &self.repo
    }

    /// The list of tags.
    pub fn tags(&self) -> (r: &TagList)
        ensures
            r@ == self@.tags,
            r@.wf(),
    {
        proof {
            use_type_invariant(&self.tags);
        }
        &self.tags
    }

    /// The panel with the builds of the selected tag.
    pub fn details(&self) -> (r: &Details)
        ensures
            r@ == self@.details,
    {
        &self.details
    }

    /// The foot of the screen.
    pub fn info(&self) -> (r: &Info)
        ensures
            r@ == self@.info,
    {
        &self.info
    }

    /// Shows a message at the foot of the screen.
    pub fn set_info(&mut self, text: &str)
        ensures
            final(self)@ == old(self)@.told(text@),
    {
        self.info.set_info(text);
    }

    /// Confirms the text field and asks for the tags of the repository it names.
    fn confirm(&mut self) -> (r: Action)
        ensures
            (final(self)@, r@) == old(self)@.confirmed(),
    {
        self.repo.confirm();
        Action::Send(DeferredEvent::NewRepo(self.repo.get()))
    }

    /// Applies an event to the screen and says what is left to do outside.
    pub fn handle_event(&mut self, event: UiEvent) -> (r: Action)
        ensures
            (final(self)@, r@) == old(self)@.on_event(event),
            final(self)@.tags.wf(),
    {
        let action = match event {
            UiEvent::Input(key) => self.handle_key(key),
            UiEvent::RefreshOnNewData => Action::Continue,
        };
        proof {
            use_type_invariant(&self.tags);
        }
        action
    }

    /// Applies a key to the screen and says what is left to do outside.
    pub fn handle_key(&mut self, key: Key) -> (r: Action)
        ensures
            (final(self)@, r@) == old(self)@.on_key(key),
    {
        let up = match key {
            Key::Up => true,
            Key::Char(c) => c == 'k',
            _ => false,
        };
        let down = match key {
            Key::Down => true,
            Key::Char(c) => c == 'j',
            _ => false,
        };
        match key {
            //quit without saving
            Key::Ctrl(c) if c == 'q' || c == 'c' => {
                return Action::Quit;
            },
            //cycle widgets
            Key::Char(c) if c == '\t' => {
                self.state.next();
                self.info.set_info(self.state.label().as_str());
                return Action::Continue;
            },
            //refresh repository
            Key::Ctrl(c) if c == 'r' => {
                return self.confirm();
            },
            //enter on editing repository
            Key::Char(c) if c == '\n' && self.state == State::EditRepo => {
                return self.confirm();
            },
            //delete last char on repository
            Key::Backspace if self.state == State::EditRepo => {
                self.info.set_text("Editing Repository");
                self.repo.handle_input(Key::Backspace);
                return Action::Continue;
            },
            _ => {},
        }
        if up && self.state == State::SelectTag {
            //moving up on selecting tags
            self.details = self.tags.create_detail_widget();
            return Action::Send(DeferredEvent::TagPrevious);
        }
        if down && self.state == State::SelectTag {
            //moving down on selecting tags
            self.details = self.tags.create_detail_widget();
            return Action::Send(DeferredEvent::TagNext);
        }
        let typed = match key {
            Key::Char(_) => true,
            _ => false,
        };
        if typed && self.state == State::EditRepo {
            //append character on editing repository
            self.info.set_text("Editing Repository");
            self.repo.handle_input(key);
            return Action::Continue;
        }
        //ignore all else input
        Action::Continue
    }

    /// Applies a request to the screen and says what is left for the worker to do.
    /// `fetching_tags` is the mark that a page is being fetched.
    pub fn work_requests(&mut self, fetching_tags: &mut bool, event: DeferredEvent) -> (r: Work)
        ensures
            (final(self)@, *final(fetching_tags), r@) == old(self)@.on_request(
                *old(fetching_tags),
                event@,
            ),
            final(self)@.tags.wf(),
    {
        let work = match event {
            DeferredEvent::Quit => Work::Stop,
            DeferredEvent::NewRepo(name) => {
                match Repo::new(name.as_str()) {
                    Ok(url) => {
                        self.tags = TagList::with_status("fetching new tags...");
                        Work::FetchRepo(url)
                    },
                    Err(e) => {
                        self.tags = TagList::with_repo_name(Err(e));
                        Work::Idle
                    },
                }
            },
            DeferredEvent::TagPrevious => {
                self.tags.previous();
                self.details = self.tags.create_detail_widget();
                Work::Idle
            },
            DeferredEvent::TagNext => {
                match self.tags.next() {
                    None => {
                        self.details = self.tags.create_detail_widget();
                        Work::Idle
                    },
                    Some(_) => {
                        if !*fetching_tags {
                            *fetching_tags = true;
                            self.info.set_text("Fetching more tags...");
                            let tags_copy = self.tags.clone();
                            let url = tags_copy.next_page();
                            Work::FetchPage(tags_copy, url)
                        } else {
                            // do nothing, as we are already fetching for new tags
                            Work::Idle
                        }
                    },
                }
            },
        };
        proof {
            use_type_invariant(&self.tags);
        }
        work
    }

    /// Shows the first page of a repository, or that it was not found.
    pub fn repo_fetched(&mut self, fetched: Result<Repo, Error>)
        ensures
            final(self)@ == old(self)@.repo_fetched(page_result(fetched)),
            final(self)@.tags.wf(),
    {
        self.tags = TagList::with_repo_name(fetched);
    }

    /// Merges the next page into the copy it was fetched for and shows the copy, with the
    /// cursor where the list has it now. The mark that a page is being fetched is cleared.
    pub fn page_fetched(
        &mut self,
        fetching_tags: &mut bool,
        tags_copy: TagList,
        fetched: Option<Repo>,
    )
        ensures
            final(self)@ == old(self)@.page_fetched(
                tags_copy@,
                match fetched {
                    Some(page) => Some(page@),
                    None => None,
                },
            ),
            !*final(fetching_tags),
            final(self)@.tags.wf(),
    {
        let mut tags_copy = tags_copy;
        tags_copy.load_next_page(fetched);
        //set position to the position of old TagList
        //it may have changed since tag fetching has been invoked
        tags_copy.set_cursor(*self.tags.get_cursor());
        self.tags = tags_copy;
        self.details = self.tags.create_detail_widget();
        self.info.set_text("Fetching tags done");
        *fetching_tags = false;
    }
}

/// While a page is being fetched, a step forward that asks for more tags changes nothing
/// and has nothing fetched.
pub proof fn lemma_request_dropped_while_fetching(ui: UiView)
    requires
        ui.tags.advance().1,
    ensures
        ui.on_request(true, DeferredEventView::TagNext) == (ui, true, WorkView::Idle),
{
}

} // verus!
