use vstd::prelude::*;
use vstd::string::StringExecFns;

use crate::common::format::texts_view;
use crate::repo::{image_parts, match_yaml_image, regex_captures, YAML_IMAGE};
use crate::widget::{position, ListState};

verus! {

/// Why no repository can be read from the selected line.
#[derive(Debug, PartialEq)]
pub enum Error {
    NoneSelected,
    Parsing(String),
}

/// An error as plain values.
pub enum ErrorView {
    NoneSelected,
    Parsing(Seq<char>),
}

impl View for Error {
    type V = ErrorView;

    open spec fn view(&self) -> ErrorView {
        match *self {
            Error::NoneSelected => ErrorView::NoneSelected,
            Error::Parsing(s) => ErrorView::Parsing(s@),
        }
    }
}

impl ErrorView {
    /// The text that is shown for this error.
    pub open spec fn text(self) -> Seq<char> {
        match self {
            ErrorView::NoneSelected => "None selected"@,
            ErrorView::Parsing(s) => "Parsing error: "@ + s,
        }
    }
}

impl Error {
    /// Renders the error for display.
    pub fn message(&self) -> (r: String)
        ensures
            r@ == self@.text(),
    {
        match self {
            Error::NoneSelected => String::from_str("None selected"),
            Error::Parsing(s) => String::from_str("Parsing error: ").concat(s.as_str()),
        }
    }
}

/// What the image pattern finds in a manifest line: the line up to the identifier and the
/// identifier, or nothing.
pub open spec fn image_of(line: Seq<char>) -> Option<(Seq<char>, Seq<char>)> {
    match image_parts(regex_captures(YAML_IMAGE@, line)) {
        Ok(parts) => Some(parts),
        Err(_) => None,
    }
}

/// The line that stands `k` lines after line `current`, going on at the top after the end.
pub open spec fn ahead(current: nat, k: nat, len: nat) -> nat {
    if current + k < len {
        current + k
    } else {
        (current + k - len) as nat
    }
}

/// The line that stands `k` lines before line `current`, going on at the end above the top.
pub open spec fn behind(current: nat, k: nat, len: nat) -> nat {
    if k <= current {
        (current - k) as nat
    } else {
        (current + len - k) as nat
    }
}

/// The first line that names an image among those `k` or more lines after `current`, once
/// round the file and short of `current` itself.
pub open spec fn search_ahead(list: Seq<Seq<char>>, current: nat, k: nat) -> Option<nat>
    decreases list.len() - k,
{
    if k >= list.len() {
        None
    } else if image_of(list[ahead(current, k, list.len()) as int]) is Some {
        Some(ahead(current, k, list.len()))
    } else {
        search_ahead(list, current, k + 1)
    }
}

/// The first line that names an image among those `k` or more lines before `current`, once
/// round the file and short of `current` itself.
pub open spec fn search_behind(list: Seq<Seq<char>>, current: nat, k: nat) -> Option<nat>
    decreases list.len() - k,
{
    if k >= list.len() {
        None
    } else if image_of(list[behind(current, k, list.len()) as int]) is Some {
        Some(behind(current, k, list.len()))
    } else {
        search_behind(list, current, k + 1)
    }
}

/// The text of a file with the given lines: every line ends with a line feed.
pub open spec fn joined(list: Seq<Seq<char>>) -> Seq<char>
    decreases list.len(),
{
    if list.len() == 0 {
        Seq::empty()
    } else {
        joined(list.drop_last()) + list.last() + "\n"@
    }
}

/// The manifest as plain values: its lines, the selected line, whether it differs from the
/// file, and the path of the file.
pub struct ServiceSwitcherView {
    pub list: Seq<Seq<char>>,
    pub cursor: Option<nat>,
    /// the first line that is drawn
    pub offset: nat,
    pub changed: bool,
    pub opened_file: Seq<char>,
}

impl ServiceSwitcherView {
    /// The selected line is a line of the file.
    pub open spec fn wf(self) -> bool {
        self.cursor is Some ==> self.cursor->0 < self.list.len()
    }

    /// The line from which a search starts: the selected one, or the first.
    pub open spec fn current(self) -> nat {
        match self.cursor {
            Some(i) => i,
            None => 0,
        }
    }

    /// The next line below the selected one that names an image, going on at the top.
    pub open spec fn next_match(self) -> Option<nat> {
        search_ahead(self.list, self.current(), 1)
    }

    /// The next line above the selected one that names an image, going on at the end.
    pub open spec fn previous_match(self) -> Option<nat> {
        search_behind(self.list, self.current(), 1)
    }

    /// The manifest with the cursor on the line that a search found, if it found one.
    pub open spec fn moved_to(self, found: Option<nat>) -> ServiceSwitcherView {
        match found {
            Some(i) => ServiceSwitcherView { cursor: Some(i), ..self },
            None => self,
        }
    }

    /// The repository that the selected line names.
    pub open spec fn selected_repo(self) -> Result<Seq<char>, ErrorView> {
        match self.cursor {
            None => Err(ErrorView::NoneSelected),
            Some(i) => match image_of(self.list[i as int]) {
                None => Err(ErrorView::Parsing("Nothing found"@)),
                Some(parts) => Ok(parts.1),
            },
        }
    }

    /// The manifest after the selected line was given a new identifier: the line keeps what
    /// stands before its identifier. Without a selection the manifest only counts as
    /// changed, and a selected line that names no image leaves it as it is.
    pub open spec fn with_image(self, repo_with_tag: Seq<char>) -> ServiceSwitcherView {
        match self.cursor {
            None => ServiceSwitcherView { changed: true, ..self },
            Some(i) => match image_of(self.list[i as int]) {
                None => self,
                Some(parts) => ServiceSwitcherView {
                    list: self.list.update(i as int, parts.0 + repo_with_tag),
                    changed: true,
                    ..self
                },
            },
        }
    }

    /// The heading of the panel: the path of the file, between stars where the manifest
    /// differs from the file.
    pub open spec fn title(self) -> Seq<char> {
        if self.changed {
            "File: *"@ + self.opened_file + "*"@
        } else {
            "File: "@ + self.opened_file
        }
    }
}

/// The lines of a deployment manifest and the line that is selected in it.
#[derive(Debug)]
pub struct ServiceSwitcher {
    list: Vec<String>,
    state: ListState,
    changed: bool,
    opened_file: String,
}

impl View for ServiceSwitcher {
    type V = ServiceSwitcherView;

    closed spec fn view(&self) -> ServiceSwitcherView {
        ServiceSwitcherView {
            list: texts_view(self.list@),
            cursor: position(self.state.selected),
            offset: self.state.offset as nat,
            changed: self.changed,
            opened_file: self.opened_file@,
        }
    }
}

impl ServiceSwitcher {
    #[verifier::type_invariant]
    pub open spec fn inv(self) -> bool {
        self@.wf()
    }

    /// The paths at which a manifest is looked for, in this order: the one that was asked
    /// for, if any, then the two usual names.
    pub fn candidates(file: Option<String>) -> (r: Vec<String>)
        ensures
            match file {
                Some(path) => texts_view(r@) == seq![
                    path@,
                    "docker-compose.yml"@,
                    "docker-compose.yaml"@,
                ],
                None => texts_view(r@) == seq!["docker-compose.yml"@, "docker-compose.yaml"@],
            },
    {
        let mut file_list: Vec<String> = Vec::new();
        let ghost asked: Option<Seq<char>> = crate::repository::text_view(file);
        match file {
            None => (),
            Some(path) => {
                file_list.push(path);
            },
        }
        file_list.push(String::from_str("docker-compose.yml"));
        file_list.push(String::from_str("docker-compose.yaml"));
        proof {
            match asked {
                Some(path) => {
                    assert(texts_view(file_list@) =~= seq![
                        path,
                        "docker-compose.yml"@,
                        "docker-compose.yaml"@,
                    ]);
                },
                None => {
                    assert(texts_view(file_list@) =~= seq![
                        "docker-compose.yml"@,
                        "docker-compose.yaml"@,
                    ]);
                },
            }
        }
        file_list
    }

    /// The manifest that was read from `opened_file`, with nothing selected.
    pub fn new(opened_file: String, list: Vec<String>) -> (r: Self)
        ensures
            r@ == (ServiceSwitcherView {
                list: texts_view(list@),
                cursor: None,
                offset: 0,
                changed: false,
                opened_file: opened_file@,
            }),
            r@.wf(),
    {
        Self { list, state: ListState::default(), changed: false, opened_file }
    }

    /// The heading of the panel.
    pub fn title(&self) -> (r: String)
        ensures
            r@ == self@.title(),
    {
        if self.changed {
            String::from_str("File: *").concat(self.opened_file.as_str()).concat("*")
        } else {
            String::from_str("File: ").concat(self.opened_file.as_str())
        }
    }

    /// The path of the file that the manifest was read from.
    pub fn get_opened_file(&self) -> (r: &str)
        ensures
            r@ == self@.opened_file,
    {
        self.opened_file.as_str()
    }

    /// Whether the manifest differs from the file.
    pub fn is_changed(&self) -> (r: bool)
        ensures
            r == self@.changed,
    {
        self.changed
    }

    /// The lines of the manifest.
    pub fn get_lines(&self) -> (r: &Vec<String>)
        ensures
            texts_view(r@) == self@.list,
    {
        &self.list
    }

    /// The selected line.
    pub fn get_cursor(&self) -> (r: &ListState)
        ensures
            position(r.selected) == self@.cursor,
            r.offset == self@.offset,
            self@.wf(),
    {
        proof {
            use_type_invariant(self);
        }
        &self.state
    }

    /// Moves the cursor to a line of the file and leaves the rest as it is.
    fn select(&mut self, index: usize)
        requires
            index < old(self)@.list.len(),
        ensures
            final(self)@ == (ServiceSwitcherView { cursor: Some(index as nat), ..old(self)@ }),
    {
        let mut state = self.state;
        state.select(Some(index));
        self.state = state;
    }

    /// finds the next image tag in given file
    pub fn find_next_match(&mut self) -> (r: bool)
        ensures
            r == old(self)@.next_match() is Some,
            final(self)@ == old(self)@.moved_to(old(self)@.next_match()),
            final(self)@.wf(),
    {
        proof {
            use_type_invariant(&*self);
        }
        let len = self.list.len();
        if len == 0 {
            return false;
        }
        let current_line: usize = match self.state.selected() {
            Some(i) => i,
            None => 0,
        };
        let mut i: usize = if current_line + 1 == len {
            0
        } else {
            current_line + 1
        };
        let mut k: usize = 1;
        while k < len
            invariant
                1 <= k <= len,
                len == self.list@.len(),
                current_line < len,
                current_line as nat == self@.current(),
                i < len,
                k < len ==> i == ahead(current_line as nat, k as nat, len as nat),
                *self == *old(self),
                search_ahead(self@.list, current_line as nat, 1) == search_ahead(
                    self@.list,
                    current_line as nat,
                    k as nat,
                ),
            decreases len - k,
        {
            //check if line matches
            assert(self@.list[i as int] == self.list@[i as int]@);
            if match_yaml_image(self.list[i].as_str()).is_ok() {
                self.select(i);
                return true;
            }
            i = if i + 1 == len {
                0
            } else {
                i + 1
            };
            k += 1;
        }
        //nothing found
        false
    }

    /// finds the previous image tag in given file
    pub fn find_previous_match(&mut self) -> (r: bool)
        ensures
            r == old(self)@.previous_match() is Some,
            final(self)@ == old(self)@.moved_to(old(self)@.previous_match()),
            final(self)@.wf(),
    {
        proof {
            use_type_invariant(&*self);
        }
        let len = self.list.len();
        if len == 0 {
            return false;
        }
        let current_line: usize = match self.state.selected() {
            Some(i) => i,
            None => 0,
        };
        let mut i: usize = if current_line == 0 {
            len - 1
        } else {
            current_line - 1
        };
        let mut k: usize = 1;
        while k < len
            invariant
                1 <= k <= len,
                len == self.list@.len(),
                current_line < len,
                current_line as nat == self@.current(),
                i < len,
                k < len ==> i == behind(current_line as nat, k as nat, len as nat),
                *self == *old(self),
                search_behind(self@.list, current_line as nat, 1) == search_behind(
                    self@.list,
                    current_line as nat,
                    k as nat,
                ),
            decreases len - k,
        {
            //check if line matches
            assert(self@.list[i as int] == self.list@[i as int]@);
            if match_yaml_image(self.list[i].as_str()).is_ok() {
                self.select(i);
                return true;
            }
            i = if i == 0 {
                len - 1
            } else {
                i - 1
            };
            k += 1;
        }
        //nothing found
        false
    }

    /// return the repository from currently selected row
    pub fn extract_repo(&self) -> (r: Result<String, Error>)
        ensures
            match self@.selected_repo() {
                Ok(repo) => r is Ok && r->Ok_0@ == repo,
                Err(e) => r is Err && r->Err_0@ == e,
            },
    {
        proof {
            use_type_invariant(self);
        }
        match self.state.selected() {
            None => Err(Error::NoneSelected),
            Some(i) => match match_yaml_image(self.list[i].as_str()) {
                Err(_) => Err(Error::Parsing(String::from_str("Nothing found"))),
                Ok((_, repo)) => Ok(String::from_str(repo)),
            },
        }
    }

    /// replace currently selected line with repo and tag
    pub fn change_current_line(&mut self, repo_with_tag: String)
        ensures
            final(self)@ == old(self)@.with_image(repo_with_tag@),
            final(self)@.wf(),
    {
        proof {
            use_type_invariant(&*self);
        }
        match self.state.selected() {
            None => (),
            Some(i) => {
                let line = match match_yaml_image(self.list[i].as_str()) {
                    Err(_) => { return ; },
                    Ok((front, _)) => String::from_str(front).concat(repo_with_tag.as_str()),
                };
                let ghost before = self@;
                let mut taken = ServiceSwitcher::new(String::new(), Vec::new());
                core::mem::swap(self, &mut taken);
                let ServiceSwitcher { list, state, changed, opened_file } = taken;
                let mut list = list;
                list.set(i, line);
                let switcher = ServiceSwitcher { list, state, changed, opened_file };
                assert(switcher@.list =~= before.list.update(i as int, line@));
                *self = switcher;
            },
        }
        self.changed = true;
    }

    /// The text that saving writes to the file.
    pub fn contents(&self) -> (r: String)
        ensures
            r@ == joined(self@.list),
    {
        let mut text = String::new();
        let mut i: usize = 0;
        assert(texts_view(self.list@).take(0) =~= Seq::<Seq<char>>::empty());
        while i < self.list.len()
            invariant
                i <= self.list.len(),
                text@ == joined(texts_view(self.list@).take(i as int)),
            decreases self.list.len() - i,
        {
            proof {
                let prefix = texts_view(self.list@).take(i + 1);
                assert(prefix.drop_last() =~= texts_view(self.list@).take(i as int));
                assert(prefix.last() == self.list@[i as int]@);
            }
            text.append(self.list[i].as_str());
            text.append("\n");
            i += 1;
        }
        assert(texts_view(self.list@).take(self.list@.len() as int) =~= texts_view(self.list@));
        text
    }

    /// save the currently opened file: takes note of how writing `contents` to it went
    pub fn save(&mut self, written: Result<(), String>) -> (r: Result<(), String>)
        ensures
            r == written,
            final(self)@ == (ServiceSwitcherView {
                changed: old(self)@.changed && written is Err,
                ..old(self)@
            }),
    {
        proof {
            use_type_invariant(&*self);
        }
        if written.is_ok() {
            self.changed = false;
        }
        written
    }
}

} // verus!
