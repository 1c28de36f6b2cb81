//! Plain types the shell around the editor drives: the actions its menu
//! bar offers, the context drawer pages, and the focus state of the hex
//! widget. The shell maps these to its toolkit; nothing here touches it.

use vstd::prelude::*;

verus! {

/// Everything the menu bar can ask for. `OpenRecentFile` carries the
/// index into the recent-files list.
#[derive(Clone, Copy, Debug, PartialEq, Eq, Structural)]
pub enum MenuAction {
    Open,
    CloseFile,
    About,
    OpenRecentFile(usize),
    Save,
    SaveAs,
    SaveAll,
    Quit,
    ShowSettings,
    Find,
    Undo,
    Redo,
}

/// Which page the context drawer shows.
#[derive(Copy, Clone, Debug, Default, Eq, PartialEq, Structural)]
pub enum ContextPage {
    #[default]
    About,
    Settings,
}

impl ContextPage {
    /// The page's title in the source language; localization is the
    /// shell's concern.
    pub fn title(&self) -> (t: String)
        ensures
            self is About ==> t@ == Seq::<char>::empty(),
            self is Settings ==> t@ == "Settings"@,
    {
        match self {
            ContextPage::About => String::new(),
            ContextPage::Settings => "Settings".to_string(),
        }
    }
}

/// The keyboard-focus state of the hex widget.
pub struct State {
    pub is_focused: bool,
}

impl State {
    /// A widget starts unfocused.
    pub fn new() -> (s: State)
        ensures
            !s.is_focused,
    {
        State { is_focused: false }
    }

    pub fn is_focused(&self) -> (b: bool)
        ensures
            b == self.is_focused,
    {
        self.is_focused
    }

    pub fn focus(&mut self)
        ensures
            final(self).is_focused,
    {
        self.is_focused = true;
    }

    pub fn unfocus(&mut self)
        ensures
            !final(self).is_focused,
    {
        self.is_focused = false;
    }
}

} // verus!
