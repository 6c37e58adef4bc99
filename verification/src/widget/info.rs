use vstd::prelude::*;
use vstd::string::StringExecFns;

use crate::common::format::texts_view;

verus! {

/// The two lines at the foot of the screen: a message and the key bindings.
#[derive(Debug)]
pub struct Info {
    info: String,
    keys: String,
}

/// The foot of the screen as plain values.
pub struct InfoView {
    pub info: Seq<char>,
    pub keys: Seq<char>,
}

/// The key bindings that the foot of the screen lists.
pub open spec fn key_help() -> Seq<char> {
    "Tab Cycle widgets   C-s Save   C-r Reload   C-q Quit   ↑ ↓ Select tags or image line   Return Select"@
}

impl InfoView {
    /// The foot of the screen with a message and the key bindings.
    pub open spec fn showing(info: Seq<char>) -> InfoView {
        InfoView { info, keys: key_help() }
    }
}

impl View for Info {
    type V = InfoView;

    closed spec fn view(&self) -> InfoView {
        InfoView { info: self.info@, keys: self.keys@ }
    }
}

impl Info {
    pub fn new(info: &str) -> (r: Self)
        ensures
            r@ == InfoView::showing(info@),
    {
        Self {
            info: String::from_str(info),
            keys: String::from_str(
                "Tab Cycle widgets   C-s Save   C-r Reload   C-q Quit   ↑ ↓ Select tags or image line   Return Select",
            ),
        }
    }

    /// The two lines in the order in which they are drawn.
    pub fn get_lines(&self) -> (r: Vec<String>)
        ensures
            texts_view(r@) == seq![self@.info, self@.keys],
    {
        let mut lines: Vec<String> = Vec::new();
        lines.push(self.info.clone());
        lines.push(self.keys.clone());
        assert(texts_view(lines@) =~= seq![self@.info, self@.keys]);
        lines
    }

    /// set a text to display
    pub fn set_text(&mut self, info: &str)
        ensures
            final(self)@ == (InfoView { info: info@, ..old(self)@ }),
    {
        self.info = String::from_str(info);
    }

    /// print a text to display
    pub fn set_info(&mut self, text: &str)
        ensures
            final(self)@ == (InfoView { info: text@, ..old(self)@ }),
    {
        self.info = String::from_str(text);
    }
}

} // verus!
