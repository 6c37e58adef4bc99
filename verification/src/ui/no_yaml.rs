use vstd::prelude::*;
use vstd::string::StringExecFns;

use crate::error::{Error, ErrorView};
use crate::repo::parsed_repo;
use crate::repository::{
    page_result, request_of, text_view, Repo, RepoView, TagDetailsView,
};
use crate::widget::async_tag_list::{TagList, TagListView};
use crate::widget::details::Details;
use crate::widget::info::{Info, InfoView};
use crate::widget::repo_entry::{RepoEntry, RepoEntryView};
use crate::widget::Key;

verus! {

/// The widget that receives the keys.
#[derive(Debug, Clone, Copy, PartialEq, Eq, Structural)]
pub enum State {
    EditRepo,
    SelectTag,
}

impl State {
    /// The widget that the cycle key moves on to.
    pub open spec fn successor(self) -> State {
        match self {
            State::EditRepo => State::SelectTag,
            State::SelectTag => State::EditRepo,
        }
    }

    /// The name of the widget as the foot of the screen shows it.
    pub open spec fn text(self) -> Seq<char> {
        match self {
            State::EditRepo => "Edit repository"@,
            State::SelectTag => "Select a tag"@,
        }
    }

    /// Moves on to the next widget and returns it.
    pub fn next(&mut self) -> (r: Option<State>)
        ensures
            *final(self) == old(self).successor(),
            r == Some(*final(self)),
    {
        match self {
            State::EditRepo => *self = State::SelectTag,
            State::SelectTag => *self = State::EditRepo,
        }
        Some(*self)
    }

    /// Renders the name of the widget.
    pub fn label(&self) -> (r: String)
        ensures
            r@ == self.text(),
    {
        match self {
            State::EditRepo => String::from_str("Edit repository"),
            State::SelectTag => String::from_str("Select a tag"),
        }
    }
}

/// What is left to do outside once a key has been applied to the screen.
#[derive(Debug, PartialEq)]
pub enum Action {
    /// nothing: draw and wait for the next key
    Continue,
    /// fetch the first page of a repository from this address, then report with
    /// `NoYaml::repo_fetched`
    FetchRepo(String),
    /// fetch the next page from this address, if there is one, then report with
    /// `NoYaml::page_fetched`
    FetchPage(Option<String>),
    /// leave the loop
    Quit,
}

/// An action as plain values.
pub enum ActionView {
    Continue,
    FetchRepo(Seq<char>),
    FetchPage(Option<Seq<char>>),
    Quit,
}

impl View for Action {
    type V = ActionView;

    open spec fn view(&self) -> ActionView {
        match *self {
            Action::Continue => ActionView::Continue,
            Action::FetchRepo(url) => ActionView::FetchRepo(url@),
            Action::FetchPage(url) => ActionView::FetchPage(text_view(url)),
            Action::Quit => ActionView::Quit,
        }
    }
}

/// The screen as plain values.
pub struct NoYamlView {
    pub state: State,
    pub repo: RepoEntryView,
    pub tags: TagListView,
    pub details: Seq<TagDetailsView>,
    pub info: InfoView,
}

impl NoYamlView {
    /// The screen before anything is loaded.
    pub open spec fn blank(repo_id: Option<Seq<char>>) -> NoYamlView {
        NoYamlView {
            state: State::EditRepo,
            repo: RepoEntryView::start(repo_id),
            tags: TagListView::status("Tags are empty"@),
            details: Seq::empty(),
            info: InfoView::showing("could not find a docker-compose file"@),
        }
    }

    /// Loading the repository that the text field names: its first page is fetched, or the
    /// list says that it was not found where its name cannot be read.
    pub open spec fn loading(self) -> (NoYamlView, ActionView) {
        match request_of(parsed_repo(self.repo.text)) {
            Ok(url) => (self, ActionView::FetchRepo(url)),
            Err(e) => (
                NoYamlView { tags: TagListView::fetched(Err(e)), ..self },
                ActionView::Continue,
            ),
        }
    }

    /// The screen at the start. Where no repository was asked for, the text field shows its
    /// hint and the tags of a repository of that name are loaded.
    pub open spec fn start(repo_id: Option<Seq<char>>) -> (NoYamlView, ActionView) {
        if repo_id is None {
            NoYamlView::blank(repo_id).loading()
        } else {
            (NoYamlView::blank(repo_id), ActionView::Continue)
        }
    }

    /// The screen with a message at its foot.
    pub open spec fn told(self, text: Seq<char>) -> NoYamlView {
        NoYamlView { info: InfoView { info: text, ..self.info }, ..self }
    }

    /// The cycle key: the other widget takes the keys, and the foot of the screen names it.
    pub open spec fn cycled(self) -> NoYamlView {
        NoYamlView { state: self.state.successor(), ..self.told(self.state.successor().text()) }
    }

    /// Confirming the repository: the text of the field is confirmed and its tags are
    /// loaded.
    pub open spec fn confirmed(self) -> (NoYamlView, ActionView) {
        (NoYamlView { repo: self.repo.confirm(), ..self }).loading()
    }

    /// Editing the repository: the key goes to the text field.
    pub open spec fn edited(self, key: Key) -> NoYamlView {
        NoYamlView { repo: self.repo.input(key), ..self.told("Editing Repository"@) }
    }

    /// The action that loads more tags where they are wanted.
    pub open spec fn more(self, wanted: bool) -> ActionView {
        if wanted {
            ActionView::FetchPage(
                match self.tags.page {
                    Some(page) => page.next_page,
                    None => None,
                },
            )
        } else {
            ActionView::Continue
        }
    }

    /// A key that goes to the list of tags.
    pub open spec fn listed(self, key: Key) -> (NoYamlView, ActionView) {
        (NoYamlView { tags: self.tags.input(key).0, ..self }, self.more(self.tags.input(key).1))
    }

    /// An arrow key on the list of tags: the key goes to the list, and the panel shows the
    /// builds of the selected tag.
    pub open spec fn moved(self, key: Key) -> (NoYamlView, ActionView) {
        (
            NoYamlView {
                tags: self.tags.input(key).0,
                details: self.tags.input(key).0.selected_details(),
                ..self
            },
            self.more(self.tags.input(key).1),
        )
    }

    /// What a key does to the screen and what is left to do outside. The quit key quits,
    /// the cycle key changes the widget and the reload key confirms the repository. Return,
    /// characters and backspace go to the text field while it takes the keys; return,
    /// characters and the arrows go to the list of tags while it does. Any other key does
    /// nothing.
    pub open spec fn on_key(self, key: Key) -> (NoYamlView, ActionView) {
        if key == Key::Ctrl('q') {
            (self, ActionView::Quit)
        } else if key == Key::Char('\t') {
            (self.cycled(), ActionView::Continue)
        } else if key == Key::Ctrl('r') {
            self.confirmed()
        } else if self.state == State::EditRepo {
            if key == Key::Char('\n') {
                self.confirmed()
            } else if key is Char || key == Key::Backspace {
                (self.edited(key), ActionView::Continue)
            } else {
                (self, ActionView::Continue)
            }
        } else {
            if key is Char {
                self.listed(key)
            } else if key == Key::Up || key == Key::Down {
                self.moved(key)
            } else {
                (self, ActionView::Continue)
            }
        }
    }

    /// The screen after the first page of a repository has come, or has failed to.
    pub open spec fn repo_fetched(self, answer: Result<RepoView, ErrorView>) -> NoYamlView {
        NoYamlView { tags: TagListView::fetched(answer), ..self }
    }

    /// The screen after the next page has come, or has failed to.
    pub open spec fn page_fetched(self, fetched: Option<RepoView>) -> NoYamlView {
        NoYamlView { tags: self.tags.merge(fetched), ..self }
    }
}

/// The screen for a directory without a manifest: the text field, the list of tags with
/// its panel and the foot of the screen, with the widget that takes the keys.
#[derive(Debug)]
pub struct NoYaml {
    state: State,
    repo: RepoEntry,
    tags: TagList,
    details: Details,
    info: Info,
}

impl View for NoYaml {
    type V = NoYamlView;

    closed spec fn view(&self) -> NoYamlView {
        NoYamlView {
            state: self.state,
            repo: self.repo@,
            tags: self.tags@,
            details: self.details@,
            info: self.info@,
        }
    }
}

impl NoYaml {
    /// Sets up the screen and says what is to be fetched first.
    pub fn new(repo_id: Option<&str>) -> (r: (NoYaml, Action))
        ensures
            (r.0@, r.1@) == NoYamlView::start(
                match repo_id {
                    Some(t) => Some(t@),
                    None => None,
                },
            ),
    {
        let mut ui = NoYaml {
            state: State::EditRepo,
            repo: RepoEntry::new(repo_id),
            tags: TagList::with_status("Tags are empty"),
            details: Details::new(),
            info: Info::new("could not find a docker-compose file"),
        };
        // load tags where no repository was given through a parameter
        if repo_id.is_none() {
            let action = ui.load();
            return (ui, action);
        }
        (ui, Action::Continue)
    }

    /// The widget that takes the keys.
    pub fn state(&self) -> (r: State)
        ensures
            r == self@.state,
    {
        self.state
    }

    /// The text field.
    pub fn repo(&self) -> (r: &RepoEntry)
        ensures
            r@ == self@.repo,
    {
        &self.repo
    }

    /// The list of tags.
    pub fn tags(&self) -> (r: &TagList)
        ensures
            r@ == self@.tags,
            r@.wf(),
    {
        proof {
            use_type_invariant(&self.tags);
        }
        &self.tags
    }

    /// The panel with the builds of the selected tag.
    pub fn details(&self) -> (r: &Details)
        ensures
            r@ == self@.details,
    {
        &self.details
    }

    /// The foot of the screen.
    pub fn info(&self) -> (r: &Info)
        ensures
            r@ == self@.info,
    {
        &self.info
    }

    /// Asks for the tags of the repository that the text field names.
    fn load(&mut self) -> (r: Action)
        ensures
            (final(self)@, r@) == old(self)@.loading(),
    {
        match Repo::new(self.repo.get().as_str()) {
            Ok(url) => Action::FetchRepo(url),
            Err(e) => {
                self.tags = TagList::with_repo_name(Err(e));
                Action::Continue
            },
        }
    }

    /// The action that loads more tags where they are wanted.
    fn load_more(&self, wanted: Option<()>) -> (r: Action)
        ensures
            r@ == self@.more(wanted is Some),
    {
        match wanted {
            Some(_) => Action::FetchPage(self.tags.next_page()),
            None => Action::Continue,
        }
    }

    /// Applies a key to the screen and says what is left to do outside.
    pub fn handle_key(&mut self, key: Key) -> (r: Action)
        ensures
            (final(self)@, r@) == old(self)@.on_key(key),
    {
        proof {
            use_type_invariant(&self.tags);
        }
        match key {
            Key::Ctrl(c) if c == 'q' => {
                return Action::Quit;
            },
            Key::Char(c) if c == '\t' => {
                self.state.next();
                self.info.set_info(self.state.label().as_str());
                return Action::Continue;
            },
            Key::Ctrl(c) if c == 'r' => {
                self.repo.confirm();
                return self.load();
            },
            _ => {},
        }
        match self.state {
            State::EditRepo => {
                match key {
                    Key::Char(c) => {
                        if c == '\n' {
                            self.repo.confirm();
                            return self.load();
                        }
                        self.info.set_text("Editing Repository");
                        self.repo.handle_input(key);
                    },
                    Key::Backspace => {
                        self.info.set_text("Editing Repository");
                        self.repo.handle_input(key);
                    },
                    _ => {},
                }
                Action::Continue
            },
            State::SelectTag => {
                match key {
                    Key::Char(_) => {
                        let wanted = self.tags.handle_input(key);
                        self.load_more(wanted)
                    },
                    Key::Up | Key::Down => {
                        let wanted = self.tags.handle_input(key);
                        self.details = self.tags.create_detail_widget();
                        self.load_more(wanted)
                    },
                    _ => Action::Continue,
                }
            },
        }
    }

    /// Shows the first page of a repository, or that it was not found.
    pub fn repo_fetched(&mut self, fetched: Result<Repo, Error>)
        ensures
            final(self)@ == old(self)@.repo_fetched(page_result(fetched)),
    {
        self.tags = TagList::with_repo_name(fetched);
    }

    /// Adds the tags of the next page to the list, where the page came.
    pub fn page_fetched(&mut self, fetched: Option<Repo>)
        ensures
            final(self)@ == old(self)@.page_fetched(
                match fetched {
                    Some(page) => Some(page@),
                    None => None,
                },
            ),
    {
        self.tags.load_next_page(fetched);
    }
}

} // verus!
