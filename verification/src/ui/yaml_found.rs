use vstd::prelude::*;
use vstd::string::StringExecFns;

use crate::error::{Error, ErrorView};
use crate::repo::{parsed_repo, regex_captures, tag_parts, TAGGED};
use crate::repository::{
    self, checked_name, page_result, request_of, Repo, RepoView, TagDetailsView,
};
use crate::ui::UiEvent;
use crate::widget::async_tag_list::{self, TagList, TagListView};
use crate::widget::details::Details;
use crate::widget::info::{Info, InfoView};
use crate::widget::repo_entry::{RepoEntry, RepoEntryView};
use crate::widget::service_switcher::{joined, ServiceSwitcher, ServiceSwitcherView};
use crate::widget::Key;

verus! {

/// The widget that receives the keys.
#[derive(Debug, Clone, Copy, PartialEq, Eq, Structural)]
pub enum State {
    EditRepo,
    SelectTag,
    SelectService,
}

impl State {
    /// The widget that the cycle key moves on to.
    pub open spec fn successor(self) -> State {
        match self {
            State::EditRepo => State::SelectTag,
            State::SelectTag => State::SelectService,
            State::SelectService => State::EditRepo,
        }
    }

    /// The name of the widget as the foot of the screen shows it.
    pub open spec fn text(self) -> Seq<char> {
        match self {
            State::EditRepo => "Edit repository"@,
            State::SelectTag => "Select a tag"@,
            State::SelectService => "Select a image"@,
        }
    }

    /// Moves on to the next widget and returns it.
    pub fn next(&mut self) -> (r: Option<State>)
        ensures
            *final(self) == old(self).successor(),
            r == Some(*final(self)),
    {
        match self {
            State::EditRepo => *self = State::SelectTag,
            State::SelectTag => *self = State::SelectService,
            State::SelectService => *self = State::EditRepo,
        }
        Some(*self)
    }

    /// Renders the name of the widget.
    pub fn label(&self) -> (r: String)
        ensures
            r@ == self.text(),
    {
        match self {
            State::EditRepo => String::from_str("Edit repository"),
            State::SelectTag => String::from_str("Select a tag"),
            State::SelectService => String::from_str("Select a image"),
        }
    }
}

/// A request that needs the network and is handed to the worker.
#[derive(Debug, PartialEq)]
pub enum DeferredEvent {
    Quit,
    NewRepo(String),
    LoadMoreTags,
}

/// A request as plain values.
pub enum DeferredEventView {
    Quit,
    NewRepo(Seq<char>),
    LoadMoreTags,
}

impl View for DeferredEvent {
    type V = DeferredEventView;

    open spec fn view(&self) -> DeferredEventView {
        match *self {
            DeferredEvent::Quit => DeferredEventView::Quit,
            DeferredEvent::NewRepo(name) => DeferredEventView::NewRepo(name@),
            DeferredEvent::LoadMoreTags => DeferredEventView::LoadMoreTags,
        }
    }
}

/// What is left to do outside once an event has been applied to the screen.
#[derive(Debug, PartialEq)]
pub enum Action {
    /// nothing: draw and wait for the next event
    Continue,
    /// hand the request to the worker
    Send(DeferredEvent),
    /// write the text to the manifest file, then report with `Ui::saved`
    Save(String),
    /// tell the worker to quit and leave the loop
    Quit,
}

/// An action as plain values.
pub enum ActionView {
    Continue,
    Send(DeferredEventView),
    Save(Seq<char>),
    Quit,
}

impl View for Action {
    type V = ActionView;

    open spec fn view(&self) -> ActionView {
        match *self {
            Action::Continue => ActionView::Continue,
            Action::Send(event) => ActionView::Send(event@),
            Action::Save(text) => ActionView::Save(text@),
            Action::Quit => ActionView::Quit,
        }
    }
}

/// What is left for the worker to do outside once a request has been applied to the screen.
#[derive(Debug)]
pub enum Work {
    /// leave the loop
    Stop,
    /// nothing to fetch
    Idle,
    /// fetch the first page of a repository from this address, then report with
    /// `Ui::repo_fetched`
    FetchRepo(String),
    /// fetch the next page for this copy of the list from this address, if there is one,
    /// then report with `Ui::page_fetched`
    FetchPage(TagList, Option<String>),
}

/// The worker's task as plain values.
pub enum WorkView {
    Stop,
    Idle,
    FetchRepo(Seq<char>),
    FetchPage(TagListView, Option<Seq<char>>),
}

impl View for Work {
    type V = WorkView;

    open spec fn view(&self) -> WorkView {
        match *self {
            Work::Stop => WorkView::Stop,
            Work::Idle => WorkView::Idle,
            Work::FetchRepo(url) => WorkView::FetchRepo(url@),
            Work::FetchPage(list, url) => WorkView::FetchPage(list@, repository::text_view(url)),
        }
    }
}

/// The screen as plain values.
pub struct UiView {
    pub state: State,
    pub repo: RepoEntryView,
    pub tags: TagListView,
    pub services: ServiceSwitcherView,
    pub details: Seq<TagDetailsView>,
    pub info: InfoView,
}

impl UiView {
    /// Every part of the screen is well formed.
    pub open spec fn wf(self) -> bool {
        self.tags.wf() && self.services.wf()
    }

    /// The screen with a message at its foot.
    pub open spec fn told(self, text: Seq<char>) -> UiView {
        UiView { info: InfoView { info: text, ..self.info }, ..self }
    }

    /// The cycle key: the next widget takes the keys, and the foot of the screen names it.
    pub open spec fn cycled(self) -> UiView {
        UiView { state: self.state.successor(), ..self.told(self.state.successor().text()) }
    }

    /// Confirming the repository: the text of the field is confirmed and a request for its
    /// tags goes to the worker.
    pub open spec fn confirmed(self) -> (UiView, ActionView) {
        (
            UiView { repo: self.repo.confirm(), ..self },
            ActionView::Send(DeferredEventView::NewRepo(self.repo.text)),
        )
    }

    /// Confirming a tag: the selected line of the manifest gets the repository with the
    /// selected tag. Where the cursor is on the offer to load more nothing happens, and
    /// where no tag is selected for another reason the foot of the screen says why.
    pub open spec fn tag_chosen(self) -> UiView {
        match self.tags.selected_name() {
            Err(async_tag_list::Error::NextPageSelected) => self,
            Err(e) => self.told(e.text()),
            Ok(tag) => UiView {
                services: self.services.with_image(self.repo.text + ":"@ + tag),
                ..self
            },
        }
    }

    /// Editing the repository: the key goes to the text field.
    pub open spec fn edited(self, key: Key) -> UiView {
        UiView { repo: self.repo.input(key), ..self.told("Editing Repository"@) }
    }

    /// Moving in the manifest to a line that names an image: the name on that line goes to
    /// the text field and a request for its tags goes to the worker. Where the name cannot
    /// be read or is refused, the foot of the screen says why.
    pub open spec fn service_chosen(self, line: nat) -> (UiView, ActionView) {
        let services = self.services.moved_to(Some(line));
        match services.selected_repo() {
            Err(e) => (UiView { services, ..self.told(e.text()) }, ActionView::Continue),
            Ok(s) => match checked_name(tag_parts(regex_captures(TAGGED@, s)), parsed_repo(s)) {
                Err(e) => (UiView { services, ..self.told(e.text()) }, ActionView::Continue),
                Ok(name) => (
                    UiView {
                        services,
                        repo: RepoEntryView { text: name, old_text: name, ..self.repo },
                        ..self
                    },
                    ActionView::Send(DeferredEventView::NewRepo(name)),
                ),
            },
        }
    }

    /// A step back in the list of tags; the panel shows the builds of the selected tag.
    pub open spec fn tag_up(self) -> UiView {
        UiView {
            tags: self.tags.retreat(),
            details: self.tags.retreat().selected_details(),
            ..self
        }
    }

    /// A step forward in the list of tags; the panel shows the builds of the selected tag.
    /// Where the step asks for more tags, a request for the next page goes to the worker.
    pub open spec fn tag_down(self) -> (UiView, ActionView) {
        (
            UiView {
                tags: self.tags.advance().0,
                details: self.tags.advance().0.selected_details(),
                ..self
            },
            if self.tags.advance().1 {
                ActionView::Send(DeferredEventView::LoadMoreTags)
            } else {
                ActionView::Continue
            },
        )
    }

    /// What a key does to the screen and what is left to do outside. The first of these
    /// that applies decides: the quit keys; the cycle key; the save key; the reload key;
    /// return on the list of tags; return on the text field; backspace on the text field;
    /// up or down on the manifest where a line that names an image is found; up or down on
    /// the list of tags; a character on the text field. Any other key does nothing.
    pub open spec fn on_key(self, key: Key) -> (UiView, ActionView) {
        let up = key == Key::Up || key == Key::Char('k');
        let down = key == Key::Down || key == Key::Char('j');
        if key == Key::Ctrl('q') || key == Key::Ctrl('c') {
            (self, ActionView::Quit)
        } else if key == Key::Char('\t') {
            (self.cycled(), ActionView::Continue)
        } else if key == Key::Ctrl('s') {
            (self, ActionView::Save(joined(self.services.list)))
        } else if key == Key::Ctrl('r') {
            self.confirmed()
        } else if key == Key::Char('\n') && self.state == State::SelectTag {
            (self.tag_chosen(), ActionView::Continue)
        } else if key == Key::Char('\n') && self.state == State::EditRepo {
            self.confirmed()
        } else if key == Key::Backspace && self.state == State::EditRepo {
            (self.edited(key), ActionView::Continue)
        } else if up && self.state == State::SelectService && self.services.previous_match()
            is Some {
            self.service_chosen(self.services.previous_match()->0)
        } else if down && self.state == State::SelectService && self.services.next_match()
            is Some {
            self.service_chosen(self.services.next_match()->0)
        } else if up && self.state == State::SelectTag {
            (self.tag_up(), ActionView::Continue)
        } else if down && self.state == State::SelectTag {
            self.tag_down()
        } else if key is Char && self.state == State::EditRepo {
            (self.edited(key), ActionView::Continue)
        } else {
            (self, ActionView::Continue)
        }
    }

    /// What an event does to the screen: a key acts as `on_key` says, and the signal that
    /// data has changed only asks for a redraw.
    pub open spec fn on_event(self, event: UiEvent) -> (UiView, ActionView) {
        match event {
            UiEvent::Input(key) => self.on_key(key),
            UiEvent::RefreshOnNewData => (self, ActionView::Continue),
        }
    }

    /// What a request does to the screen and to the mark that a page is being fetched, and
    /// what is left for the worker to do. A new repository replaces the list by a message
    /// and has its first page fetched, or by the message that it was not found where its
    /// name cannot be read. A request for more tags is dropped while a page is being
    /// fetched; else the mark is set and the next page is fetched for a copy of the list.
    pub open spec fn on_request(self, fetching: bool, event: DeferredEventView) -> (
        UiView,
        bool,
        WorkView,
    ) {
        match event {
            DeferredEventView::Quit => (self, fetching, WorkView::Stop),
            DeferredEventView::NewRepo(name) => match request_of(parsed_repo(name)) {
                Ok(url) => (
                    UiView { tags: TagListView::status("Fetching new tags..."@), ..self },
                    fetching,
                    WorkView::FetchRepo(url),
                ),
                Err(e) => (
                    UiView { tags: TagListView::fetched(Err(e)), ..self },
                    fetching,
                    WorkView::Idle,
                ),
            },
            DeferredEventView::LoadMoreTags => if fetching {
                (self, true, WorkView::Idle)
            } else {
                (
                    self.told("Fetching more tags..."@),
                    true,
                    WorkView::FetchPage(
                        self.tags,
                        match self.tags.page {
                            Some(page) => page.next_page,
                            None => None,
                        },
                    ),
                )
            },
        }
    }

    /// The screen after the first page of a repository has come, or has failed to.
    pub open spec fn repo_fetched(self, answer: Result<RepoView, ErrorView>) -> UiView {
        UiView { tags: TagListView::fetched(answer), ..self }
    }

    /// The screen after the next page has come for a copy of the list, or has failed to:
    /// the copy with the page merged in replaces the list, but keeps the cursor where the
    /// list has it now.
    pub open spec fn page_fetched(self, copy: TagListView, fetched: Option<RepoView>) -> UiView {
        let merged = TagListView {
            cursor: self.tags.cursor,
            offset: self.tags.offset,
            ..copy.merge(fetched)
        };
        UiView {
            tags: merged,
            details: merged.selected_details(),
            ..self.told("Fetching tags done"@)
        }
    }

    /// The screen after the manifest was written, or could not be.
    pub open spec fn saved(self, written: Result<(), Seq<char>>) -> UiView {
        match written {
            Ok(_) => UiView {
                services: ServiceSwitcherView { changed: false, ..self.services },
                ..self.told("Saved compose file"@)
            },
            Err(e) => self.told(e),
        }
    }
}

/// The three panes, the text field and the foot of the screen, with the widget that takes
/// the keys.
#[derive(Debug)]
pub struct Ui {
    state: State,
    repo: RepoEntry,
    tags: TagList,
    services: ServiceSwitcher,
    details: Details,
    info: Info,
}

impl View for Ui {
    type V = UiView;

    closed spec fn view(&self) -> UiView {
        UiView {
            state: self.state,
            repo: self.repo@,
            tags: self.tags@,
            services: self.services@,
            details: self.details@,
            info: self.info@,
        }
    }
}

impl Ui {
    /// The screen at the start as plain values.
    pub open spec fn start(repo_id: Option<Seq<char>>, manifest: ServiceSwitcherView) -> UiView {
        UiView {
            state: State::SelectService,
            repo: RepoEntryView::start(repo_id),
            tags: TagListView::status("no tags"@),
            services: manifest,
            details: Seq::empty(),
            info: InfoView::showing("Select image or edit Repository"@),
        }
    }

    /// The screen at the start: the manifest takes the keys, the text field shows the
    /// repository that was asked for, and no tags are listed yet.
    pub fn new(repo_id: Option<&str>, switcher: ServiceSwitcher) -> (r: Ui)
        ensures
            r@ == Ui::start(
                match repo_id {
                    Some(t) => Some(t@),
                    None => None,
                },
                switcher@,
            ),
            r@.wf(),
    {
        proof {
            use_type_invariant(&switcher);
        }
        Ui {
            state: State::SelectService,
            repo: RepoEntry::new(repo_id),
            tags: TagList::with_status("no tags"),
            services: switcher,
            details: Details::new(),
            info: Info::new("Select image or edit Repository"),
        }
    }

    /// The widget that takes the keys.
    pub fn state(&self) -> (r: State)
        ensures
            r == self@.state,
    {
        self.state
    }

    /// The text field.
    pub fn repo(&self) -> (r: &RepoEntry)
        ensures
            r@ == self@.repo,
    {
        &self.repo
    }

    /// The list of tags.
    pub fn tags(&self) -> (r: &TagList)
        ensures
            r@ == self@.tags,
            r@.wf(),
    {
        proof {
            use_type_invariant(&self.tags);
        }
        &self.tags
    }

    /// The manifest.
    pub fn services(&self) -> (r: &ServiceSwitcher)
        ensures
            r@ == self@.services,
            r@.wf(),
    {
        proof {
            use_type_invariant(&self.services);
        }
        &self.services
    }

    /// The panel with the builds of the selected tag.
    pub fn details(&self) -> (r: &Details)
        ensures
            r@ == self@.details,
    {
        &self.details
    }

    /// The foot of the screen.
    pub fn info(&self) -> (r: &Info)
        ensures
            r@ == self@.info,
    {
        &self.info
    }

    /// Shows a message at the foot of the screen.
    pub fn set_info(&mut self, text: &str)
        ensures
            final(self)@ == old(self)@.told(text@),
    {
        self.info.set_info(text);
    }

    /// Confirms the text field and asks for the tags of the repository it names.
    fn confirm(&mut self) -> (r: Action)
        ensures
            (final(self)@, r@) == old(self)@.confirmed(),
    {
        self.repo.confirm();
        Action::Send(DeferredEvent::NewRepo(self.repo.get()))
    }

    /// Puts the repository with the selected tag on the selected line of the manifest.
    fn choose_tag(&mut self)
        ensures
            final(self)@ == old(self)@.tag_chosen(),
    {
        let mut repo = self.repo.get();
        let tag = match self.tags.get_selected() {
            Err(async_tag_list::Error::NextPageSelected) => { return ; },
            Err(e) => {
                self.info.set_info(e.message().as_str());
                return ;
            },
            Ok(tag) => tag,
        };
        repo.push(':');
        repo.append(tag.as_str());
        proof {
            reveal_strlit(":");
            assert(repo@ =~= old(self)@.repo.text + ":"@ + tag@);
        }
        self.services.change_current_line(repo);
    }

    /// Takes the name on the selected line of the manifest and asks for its tags.
    fn choose_service(&mut self) -> (r: Action)
        requires
            old(self)@.services.cursor is Some,
            old(self)@.services.wf(),
        ensures
            (final(self)@, r@) == old(self)@.service_chosen(old(self)@.services.cursor->0),
    {
        match self.services.extract_repo() {
            Err(e) => {
                self.info.set_info(e.message().as_str());
                Action::Continue
            },
            Ok(s) => {
                let repo = match repository::check_repo(s.as_str()) {
                    Err(e) => {
                        self.info.set_info(e.message().as_str());
                        return Action::Continue;
                    },
                    Ok(s) => s,
                };
                self.repo.set(repo);
                Action::Send(DeferredEvent::NewRepo(self.repo.get()))
            },
        }
    }

    /// Applies an event to the screen and says what is left to do outside.
    pub fn handle_event(&mut self, event: UiEvent) -> (r: Action)
        ensures
            (final(self)@, r@) == old(self)@.on_event(event),
            final(self)@.wf(),
    {
        let action = match event {
            UiEvent::Input(key) => self.handle_key(key),
            UiEvent::RefreshOnNewData => Action::Continue,
        };
        proof {
            use_type_invariant(&self.tags);
            use_type_invariant(&self.services);
        }
        action
    }

    /// Applies a key to the screen and says what is left to do outside.
    pub fn handle_key(&mut self, key: Key) -> (r: Action)
        ensures
            (final(self)@, r@) == old(self)@.on_key(key),
    {
        proof {
            use_type_invariant(&self.tags);
            use_type_invariant(&self.services);
        }
        let up = match key {
            Key::Up => true,
            Key::Char(c) => c == 'k',
            _ => false,
        };
        let down = match key {
            Key::Down => true,
            Key::Char(c) => c == 'j',
            _ => false,
        };
        match key {
            //quit without saving
            Key::Ctrl(c) if c == 'q' || c == 'c' => {
                return Action::Quit;
            },
            //cycle widgets
            Key::Char(c) if c == '\t' => {
                self.state.next();
                self.info.set_info(self.state.label().as_str());
                return Action::Continue;
            },
            //save file
            Key::Ctrl(c) if c == 's' => {
                return Action::Save(self.services.contents());
            },
            //refresh repository
            Key::Ctrl(c) if c == 'r' => {
                return self.confirm();
            },
            //enter on selecting tags
            Key::Char(c) if c == '\n' && self.state == State::SelectTag => {
                self.choose_tag();
                return Action::Continue;
            },
            //enter on editing repository
            Key::Char(c) if c == '\n' && self.state == State::EditRepo => {
                return self.confirm();
            },
            //delete last char on repository
            Key::Backspace if self.state == State::EditRepo => {
                self.info.set_text("Editing Repository");
                self.repo.handle_input(Key::Backspace);
                return Action::Continue;
            },
            _ => {},
        }
        if up && self.state == State::SelectService {
            //moving up on selecting service
            if self.services.find_previous_match() {
                return self.choose_service();
            }
            assert(self@ == old(self)@);
        }
        if down && self.state == State::SelectService {
            //moving down on selecting service
            if self.services.find_next_match() {
                return self.choose_service();
            }
            assert(self@ == old(self)@);
        }
        if up && self.state == State::SelectTag {
            //moving up on selecting tags
            self.tags.previous();
            self.details = self.tags.create_detail_widget();
            return Action::Continue;
        }
        if down && self.state == State::SelectTag {
            //moving down on selecting tags
            let more = self.tags.next();
            self.details = self.tags.create_detail_widget();
            if more.is_some() {
                return Action::Send(DeferredEvent::LoadMoreTags);
            }
            return Action::Continue;
        }
        let typed = match key {
            Key::Char(_) => true,
            _ => false,
        };
        if typed && self.state == State::EditRepo {
            //append character on editing repository
            self.info.set_text("Editing Repository");
            self.repo.handle_input(key);
            return Action::Continue;
        }
        //ignore all else input
        Action::Continue
    }

    /// Takes note of how writing the manifest went.
    pub fn saved(&mut self, written: Result<(), String>)
        ensures
            final(self)@ == old(self)@.saved(
                match written {
                    Ok(_) => Ok(()),
                    Err(e) => Err(e@),
                },
            ),
    {
        match self.services.save(written) {
            Err(e) => {
                self.info.set_info(e.as_str());
            },
            Ok(_) => self.info.set_text("Saved compose file"),
        }
    }

    /// Applies a request to the screen and says what is left for the worker to do.
    /// `fetching_tags` is the mark that a page is being fetched.
    pub fn work_requests(&mut self, fetching_tags: &mut bool, event: DeferredEvent) -> (r: Work)
        ensures
            (final(self)@, *final(fetching_tags), r@) == old(self)@.on_request(
                *old(fetching_tags),
                event@,
            ),
            final(self)@.wf(),
    {
        proof {
            use_type_invariant(&self.tags);
            use_type_invariant(&self.services);
        }
        match event {
            DeferredEvent::Quit => Work::Stop,
            DeferredEvent::NewRepo(name) => {
                match Repo::new(name.as_str()) {
                    Ok(url) => {
                        self.tags = TagList::with_status("Fetching new tags...");
                        Work::FetchRepo(url)
                    },
                    Err(e) => {
                        self.tags = TagList::with_repo_name(Err(e));
                        Work::Idle
                    },
                }
            },
            DeferredEvent::LoadMoreTags => {
                if *fetching_tags {
                    //do nothing, as we are fetching tags
                    return Work::Idle;
                }
                *fetching_tags = true;
                self.info.set_text("Fetching more tags...");
                let tags_copy = self.tags.clone();
                let url = tags_copy.next_page();
                Work::FetchPage(tags_copy, url)
            },
        }
    }

    /// Shows the first page of a repository, or that it was not found.
    pub fn repo_fetched(&mut self, fetched: Result<Repo, Error>)
        ensures
            final(self)@ == old(self)@.repo_fetched(page_result(fetched)),
            final(self)@.wf(),
    {
        proof {
            use_type_invariant(&self.services);
        }
        self.tags = TagList::with_repo_name(fetched);
    }

    /// Merges the next page into the copy it was fetched for and shows the copy, with the
    /// cursor where the list has it now. The mark that a page is being fetched is cleared.
    pub fn page_fetched(
        &mut self,
        fetching_tags: &mut bool,
        tags_copy: TagList,
        fetched: Option<Repo>,
    )
        ensures
            final(self)@ == old(self)@.page_fetched(
                tags_copy@,
                match fetched {
                    Some(page) => Some(page@),
                    None => None,
                },
            ),
            !*final(fetching_tags),
            final(self)@.wf(),
    {
        proof {
            use_type_invariant(&self.services);
        }
        let mut tags_copy = tags_copy;
        tags_copy.load_next_page(fetched);
        //set position to the position of old TagList
        //it may have changed since tag fetching has been invoked
        tags_copy.set_cursor(*self.tags.get_cursor());
        self.tags = tags_copy;
        self.details = self.tags.create_detail_widget();
        self.info.set_text("Fetching tags done");
        *fetching_tags = false;
    }
}

/// The cycle key brings every widget back after three steps.
pub proof fn lemma_cycle_of_three(state: State)
    ensures
        state.successor() != state,
        state.successor().successor() != state,
        state.successor().successor().successor() == state,
{
}

/// Only the cycle key changes the widget that takes the keys: no other key does, and
/// nothing that the worker does to the screen.
pub proof fn lemma_mode_changes_on_cycle_only(
    ui: UiView,
    key: Key,
    fetching: bool,
    request: DeferredEventView,
    copy: TagListView,
    page: Option<RepoView>,
    answer: Result<RepoView, ErrorView>,
)
    ensures
        key != Key::Char('\t') ==> ui.on_key(key).0.state == ui.state,
        ui.on_request(fetching, request).0.state == ui.state,
        ui.repo_fetched(answer).state == ui.state,
        ui.page_fetched(copy, page).state == ui.state,
{
}

/// While the text field does not take the keys, backspace and the characters that are no
/// commands change nothing and have nothing sent.
pub proof fn lemma_typing_ignored_elsewhere(ui: UiView, key: Key)
    requires
        ui.state != State::EditRepo,
        key == Key::Backspace || (key is Char && key != Key::Char('\t') && key != Key::Char(
            '\n',
        ) && key != Key::Char('j') && key != Key::Char('k')),
    ensures
        ui.on_key(key) == (ui, ActionView::Continue),
{
}

/// Whatever else confirming the text field does, it clears the mark of the field and sends
/// exactly the text of the field as the new repository.
pub proof fn lemma_confirm_sends_the_text(ui: UiView)
    requires
        ui.state == State::EditRepo,
    ensures
        ui.on_key(Key::Char('\n')).1 == ActionView::Send(DeferredEventView::NewRepo(ui.repo.text)),
        !ui.on_key(Key::Char('\n')).0.repo.changed,
        ui.on_key(Key::Char('\n')).0.repo.text == ui.repo.text,
{
}

/// While a page is being fetched, a request for more tags changes nothing and has nothing
/// fetched.
pub proof fn lemma_request_dropped_while_fetching(ui: UiView)
    ensures
        ui.on_request(true, DeferredEventView::LoadMoreTags) == (ui, true, WorkView::Idle),
{
}

/// Of two requests for more tags that come one after the other, only the first has a page
/// fetched. Once that page has come, the list holds the tags it held before and the tags of
/// that page, once, and the mark is set until then.
pub proof fn lemma_one_fetch_in_flight(ui: UiView, page: RepoView)
    requires
        ui.wf(),
        ui.tags.has_more(),
    ensures
        ({
            let first = ui.on_request(false, DeferredEventView::LoadMoreTags);
            let second = first.0.on_request(first.1, DeferredEventView::LoadMoreTags);
            let done = second.0.page_fetched(first.2->FetchPage_0, Some(page));
            &&& first.2 is FetchPage
            &&& first.2->FetchPage_0 == ui.tags
            &&& first.1
            &&& second == (first.0, true, WorkView::Idle)
            &&& done.tags.entries() == ui.tags.entries() + page.tags.len()
            &&& done.tags.lines == ui.tags.merge(Some(page)).lines
            &&& done.tags.wf()
        }),
{
    async_tag_list::lemma_merge_counts(ui.tags, Some(page));
}

/// A request for a new repository replaces the list whatever the mark says, and leaves
/// the mark as it is.
pub proof fn lemma_new_repo_ignores_mark(ui: UiView, fetching: bool, name: Seq<char>)
    ensures
        ui.on_request(fetching, DeferredEventView::NewRepo(name)).1 == fetching,
        ui.on_request(fetching, DeferredEventView::NewRepo(name)).0.tags.is_status(),
        ui.on_request(fetching, DeferredEventView::NewRepo(name)).0
            == ui.on_request(!fetching, DeferredEventView::NewRepo(name)).0,
{
}

} // verus!
