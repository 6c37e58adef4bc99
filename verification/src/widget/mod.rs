use vstd::prelude::*;

pub mod async_tag_list;
pub mod details;
pub mod info;
pub mod repo_entry;
pub mod service_switcher;

verus! {

/// A key as the terminal reports it. Keys that nothing here reacts to are `Other`.
#[derive(Debug, Clone, Copy, PartialEq, Eq, Structural)]
pub enum Key {
    Backspace,
    Up,
    Down,
    Esc,
    Char(char),
    Ctrl(char),
    Other,
}

/// Which line of a list is selected, and the first line that is drawn.
#[derive(Debug, Clone, Copy, PartialEq, Eq, Structural)]
pub struct ListState {
    pub offset: usize,
    pub selected: Option<usize>,
}

/// The selected line as a number.
pub open spec fn position(selected: Option<usize>) -> Option<nat> {
    match selected {
        Some(i) => Some(i as nat),
        None => None,
    }
}

impl Default for ListState {
    fn default() -> (r: Self)
        ensures
            r.selected is None,
            r.offset == 0,
    {
        ListState { offset: 0, selected: None }
    }
}

impl ListState {
    /// The selected line, if there is one.
    pub fn selected(&self) -> (r: Option<usize>)
        ensures
            r == self.selected,
    {
        self.selected
    }

    /// Selects a line, or none. Without a selection the list is drawn from its first line.
    pub fn select(&mut self, index: Option<usize>)
        ensures
            final(self).selected == index,
            final(self).offset == (if index is None {
                0
            } else {
                old(self).offset
            }),
    {
        self.selected = index;
        if index.is_none() {
            self.offset = 0;
        }
    }
}

} // verus!
