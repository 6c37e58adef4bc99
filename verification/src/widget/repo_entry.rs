use vstd::prelude::*;
use vstd::string::StringExecFns;

use crate::widget::Key;

verus! {

/// `String::push` appends one character to the text.
pub assume_specification[ String::push ](text: &mut String, ch: char)
    ensures
        final(text)@ == old(text)@.push(ch),
;

/// `String::pop` removes the last character of the text and returns it, or returns `None`
/// and leaves the text alone where it is empty.
pub assume_specification[ String::pop ](text: &mut String) -> (r: Option<char>)
    ensures
        old(text)@.len() == 0 ==> r is None && final(text)@ == old(text)@,
        old(text)@.len() > 0 ==> r == Some(old(text)@.last()) && final(text)@ == old(
            text,
        )@.drop_last(),
;

/// The text field that holds the name of the repository.
#[derive(Debug)]
pub struct RepoEntry {
    text: String,
    old_text: String,
    changed: bool,
    default_text: bool,
}

/// The text field as plain values: what it shows, what was confirmed last, whether the two
/// may differ, and whether it still shows the hint it started with.
pub struct RepoEntryView {
    pub text: Seq<char>,
    pub old_text: Seq<char>,
    pub changed: bool,
    pub default_text: bool,
}

/// The hint that an empty field starts with.
pub open spec fn hint() -> Seq<char> {
    "edit me or select a repository"@
}

impl RepoEntryView {
    /// A field that starts with `text`, or with the hint.
    pub open spec fn start(text: Option<Seq<char>>) -> RepoEntryView {
        let shown = match text {
            Some(t) => t,
            None => hint(),
        };
        RepoEntryView { text: shown, old_text: shown, changed: false, default_text: text is None }
    }

    /// The field after a character was typed.
    pub open spec fn append(self, c: char) -> RepoEntryView {
        RepoEntryView { text: self.text.push(c), changed: true, default_text: false, ..self }
    }

    /// The field after the last character was deleted. The hint goes as a whole.
    pub open spec fn delete_last(self) -> RepoEntryView {
        RepoEntryView {
            text: if self.default_text || self.text.len() == 0 {
                Seq::empty()
            } else {
                self.text.drop_last()
            },
            changed: true,
            ..self
        }
    }

    /// The field with the text that was confirmed last.
    pub open spec fn revert(self) -> RepoEntryView {
        RepoEntryView { text: self.old_text, changed: false, ..self }
    }

    /// The field with its text confirmed.
    pub open spec fn confirm(self) -> RepoEntryView {
        RepoEntryView { old_text: self.text, changed: false, ..self }
    }

    /// The field after a key: a character is typed, backspace deletes, escape reverts, and
    /// any other key does nothing.
    pub open spec fn input(self, key: Key) -> RepoEntryView {
        match key {
            Key::Char(c) => self.append(c),
            Key::Backspace => self.delete_last(),
            Key::Esc => self.revert(),
            _ => self,
        }
    }
}

impl View for RepoEntry {
    type V = RepoEntryView;

    closed spec fn view(&self) -> RepoEntryView {
        RepoEntryView {
            text: self.text@,
            old_text: self.old_text@,
            changed: self.changed,
            default_text: self.default_text,
        }
    }
}

impl RepoEntry {
    pub fn new(text: Option<&str>) -> (r: Self)
        ensures
            r@ == RepoEntryView::start(
                match text {
                    Some(t) => Some(t@),
                    None => None,
                },
            ),
    {
        let default_text = "edit me or select a repository";
        let shown = match text {
            Some(t) => t,
            None => default_text,
        };
        Self {
            text: String::from_str(shown),
            old_text: String::from_str(shown),
            changed: false,
            default_text: text.is_none(),
        }
    }

    pub fn get(&self) -> (r: String)
        ensures
            r@ == self@.text,
    {
        self.text.clone()
    }

    pub fn set(&mut self, entry: String)
        ensures
            final(self)@ == (RepoEntryView { text: entry@, old_text: entry@, ..old(self)@ }),
    {
        self.text = entry.clone();
        self.old_text = entry;
    }

    /// Whether the text may differ from the one that was confirmed last.
    pub fn is_changed(&self) -> (r: bool)
        ensures
            r == self@.changed,
    {
        self.changed
    }

    pub fn handle_input(&mut self, key: Key)
        ensures
            final(self)@ == old(self)@.input(key),
    {
        match key {
            Key::Char(c) => {
                self.text.push(c);
                self.changed = true;
                self.default_text = false;
            },
            Key::Backspace => {
                if self.default_text {
                    self.text = String::new();
                } else {
                    let _ = self.text.pop();
                }
                self.changed = true;
                assert(self.text@ =~= old(self)@.delete_last().text);
            },
            Key::Esc => {
                self.text = self.old_text.clone();
                self.changed = false;
            },
            _ => (),
        }
    }

    /// set the widget to unchanged
    pub fn confirm(&mut self)
        ensures
            final(self)@ == old(self)@.confirm(),
    {
        self.old_text = self.text.clone();
        self.changed = false;
    }
}

/// Whatever was typed since the text was confirmed, escape brings the confirmed text back.
pub proof fn lemma_escape_restores(field: RepoEntryView, keys: Seq<char>)
    ensures
        typed(field.confirm(), keys).revert().text == field.text,
        !typed(field.confirm(), keys).revert().changed,
    decreases keys.len(),
{
    lemma_typing_keeps_confirmed(field.confirm(), keys);
}

/// The field after the characters of `keys` were typed one after the other.
pub open spec fn typed(field: RepoEntryView, keys: Seq<char>) -> RepoEntryView
    decreases keys.len(),
{
    if keys.len() == 0 {
        field
    } else {
        typed(field, keys.drop_last()).append(keys.last())
    }
}

/// Typing appends to the text and leaves the confirmed text alone.
pub proof fn lemma_typing_keeps_confirmed(field: RepoEntryView, keys: Seq<char>)
    ensures
        typed(field, keys).old_text == field.old_text,
        typed(field, keys).text == field.text + keys,
        keys.len() > 0 ==> typed(field, keys).changed,
    decreases keys.len(),
{
    if keys.len() > 0 {
        lemma_typing_keeps_confirmed(field, keys.drop_last());
        assert(field.text + keys =~= (field.text + keys.drop_last()).push(keys.last()));
    } else {
        assert(field.text + keys =~= field.text);
    }
}

} // verus!
