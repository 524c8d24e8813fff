use vstd::prelude::*;
use crate::display_action::DisplayAction;
use crate::helpers;
use crate::screen::Screen;
use crate::window::Window;
use crate::window::WindowHandle;
use crate::workspace::Workspace;

verus! {

/// A reload the surrounding program has been asked to carry out.
#[derive(Clone, Copy, Debug, PartialEq, Eq, Structural)]
pub enum Reload {
    Soft,
    Hard,
}

/// The aggregate root: every managed window, the ordered tag list, the
/// workspaces, the focus histories, and the queue of display actions.
///
/// Each `focused_*_history` list keeps the most recently focused entry
/// first; entry 0, when present, is the current focus.  Focusing what is
/// already current leaves a history unchanged, so neighbouring entries
/// always differ.
pub struct Manager {
    pub windows: Vec<Window>,
    pub tags: Vec<String>,
    pub workspaces: Vec<Workspace>,
    pub screens: Vec<Screen>,
    pub focused_workspace_history: Vec<usize>,
    pub focused_window_history: Vec<WindowHandle>,
    pub focused_tag_history: Vec<String>,
    pub actions: Vec<DisplayAction>,
    pub pending_reload: Option<Reload>,
}

/// The window lists of `a` and `b` hold equal windows in the same order.
pub open spec fn eq_windows(a: Manager, b: Manager) -> bool {
    b.windows@ == a.windows@
}

pub open spec fn eq_tags(a: Manager, b: Manager) -> bool {
    b.tags@ == a.tags@
}

pub open spec fn eq_workspaces(a: Manager, b: Manager) -> bool {
    b.workspaces@ == a.workspaces@
}

pub open spec fn eq_screens(a: Manager, b: Manager) -> bool {
    b.screens@ == a.screens@
}

pub open spec fn eq_ws_history(a: Manager, b: Manager) -> bool {
    b.focused_workspace_history@ == a.focused_workspace_history@
}

pub open spec fn eq_win_history(a: Manager, b: Manager) -> bool {
    b.focused_window_history@ == a.focused_window_history@
}

pub open spec fn eq_tag_history(a: Manager, b: Manager) -> bool {
    b.focused_tag_history@ == a.focused_tag_history@
}

pub open spec fn eq_actions(a: Manager, b: Manager) -> bool {
    b.actions@ == a.actions@
}

pub open spec fn eq_reload(a: Manager, b: Manager) -> bool {
    b.pending_reload == a.pending_reload
}

impl Default for Manager {
    fn default() -> (m: Manager)
        ensures
            m.windows@ == Seq::<Window>::empty(),
            m.tags@ == Seq::<String>::empty(),
            m.workspaces@ == Seq::<Workspace>::empty(),
            m.screens@ == Seq::<Screen>::empty(),
            m.focused_workspace_history@ == Seq::<usize>::empty(),
            m.focused_window_history@ == Seq::<WindowHandle>::empty(),
            m.focused_tag_history@ == Seq::<String>::empty(),
            m.actions@ == Seq::<DisplayAction>::empty(),
            m.pending_reload is None,
    {
        Manager {
            windows: Vec::new(),
            tags: Vec::new(),
            workspaces: Vec::new(),
            screens: Vec::new(),
            focused_workspace_history: Vec::new(),
            focused_window_history: Vec::new(),
            focused_tag_history: Vec::new(),
            actions: Vec::new(),
            pending_reload: None,
        }
    }
}

impl Manager {
    /// The text of the most recently focused tag, if any tag was ever
    /// focused.
    pub open spec fn spec_focused_tag(self) -> Option<Seq<char>> {
        if self.focused_tag_history@.len() > 0 {
            Some(self.focused_tag_history@[0]@)
        } else {
            None
        }
    }

    /// A workspace is current: the history is non-empty and its head is a
    /// valid index into `workspaces`.
    pub open spec fn has_focused_workspace(self) -> bool {
        self.focused_workspace_history@.len() > 0
            && self.focused_workspace_history@[0] < self.workspaces@.len()
    }

    /// Index of the current workspace; meaningful only under
    /// [`Self::has_focused_workspace`].
    pub open spec fn spec_focused_workspace_index(self) -> int {
        self.focused_workspace_history@[0] as int
    }

    /// Handle of the most recently focused window, if any.
    pub open spec fn spec_focused_window_handle(self) -> Option<WindowHandle> {
        if self.focused_window_history@.len() > 0 {
            Some(self.focused_window_history@[0])
        } else {
            None
        }
    }

    /// A window is current: the window history has a head and a managed
    /// window still carries that handle.
    pub open spec fn has_focused_window(self) -> bool {
        self.focused_window_history@.len() > 0 && helpers::has_handle(
            self.windows@,
            self.focused_window_history@[0],
        )
    }

    /// Position in `windows` of the current window; meaningful only under
    /// [`Self::has_focused_window`].
    pub open spec fn spec_focused_window_index(self) -> int {
        helpers::first_handle_match(self.windows@, self.focused_window_history@[0])
    }

    /// The most recently focused tag, as a fresh `String`.
    pub fn focused_tag(&self) -> (r: Option<String>)
        ensures
            match r {
                Some(t) => self.spec_focused_tag() == Some(t@),
                None => self.spec_focused_tag() is None,
            },
    {
        if self.focused_tag_history.len() > 0 {
            Some(self.focused_tag_history[0].clone())
        } else {
            None
        }
    }

    /// Index of the current workspace, or `None` when no valid workspace is
    /// focused.
    pub fn focused_workspace_index(&self) -> (r: Option<usize>)
        ensures
            match r {
                Some(i) => self.has_focused_workspace() && i as int
                    == self.spec_focused_workspace_index(),
                None => !self.has_focused_workspace(),
            },
    {
        if self.focused_workspace_history.len() > 0 {
            let i = self.focused_workspace_history[0];
            if i < self.workspaces.len() {
                return Some(i);
            }
        }
        None
    }

    /// The current workspace, or `None` when no valid workspace is focused.
    pub fn focused_workspace(&self) -> (r: Option<&Workspace>)
        ensures
            match r {
                Some(w) => self.has_focused_workspace() && *w
                    == self.workspaces@[self.spec_focused_workspace_index()],
                None => !self.has_focused_workspace(),
            },
    {
        match self.focused_workspace_index() {
            Some(i) => Some(&self.workspaces[i]),
            None => None,
        }
    }

    /// Handle of the most recently focused window, if any.
    pub fn focused_window_handle(&self) -> (r: Option<WindowHandle>)
        ensures
            r == self.spec_focused_window_handle(),
    {
        if self.focused_window_history.len() > 0 {
            Some(self.focused_window_history[0])
        } else {
            None
        }
    }

    /// Position in `windows` of the current window, or `None` when no
    /// managed window is focused.
    pub fn focused_window_index(&self) -> (r: Option<usize>)
        ensures
            match r {
                Some(i) => self.has_focused_window() && i < self.windows@.len() && i as int
                    == self.spec_focused_window_index(),
                None => !self.has_focused_window(),
            },
    {
        if self.focused_window_history.len() == 0 {
            return None;
        }
        let h = self.focused_window_history[0];
        match helpers::find_handle(&self.windows, h) {
            Some(i) => {
                proof {
                    helpers::lemma_first_handle_match(self.windows@, h);
                }
                Some(i)
            },
            None => None,
        }
    }

    /// The current window, or `None` when no managed window is focused.
    pub fn focused_window(&self) -> (r: Option<&Window>)
        ensures
            match r {
                Some(w) => self.has_focused_window() && *w
                    == self.windows@[self.spec_focused_window_index()],
                None => !self.has_focused_window(),
            },
    {
        match self.focused_window_index() {
            Some(i) => Some(&self.windows[i]),
            None => None,
        }
    }

    /// Records that the surrounding program should re-read its
    /// configuration and re-apply it to the running session.
    pub fn soft_reload(&mut self)
        ensures
            final(self).windows@ == old(self).windows@,
            final(self).tags@ == old(self).tags@,
            final(self).workspaces@ == old(self).workspaces@,
            final(self).screens@ == old(self).screens@,
            final(self).focused_workspace_history@ == old(self).focused_workspace_history@,
            final(self).focused_window_history@ == old(self).focused_window_history@,
            final(self).focused_tag_history@ == old(self).focused_tag_history@,
            final(self).actions@ == old(self).actions@,
            final(self).pending_reload == Some(Reload::Soft),
    {
        self.pending_reload = Some(Reload::Soft);
    }

    /// Records that the surrounding program should restart the session from
    /// scratch.
    pub fn hard_reload(&mut self)
        ensures
            final(self).windows@ == old(self).windows@,
            final(self).tags@ == old(self).tags@,
            final(self).workspaces@ == old(self).workspaces@,
            final(self).screens@ == old(self).screens@,
            final(self).focused_workspace_history@ == old(self).focused_workspace_history@,
            final(self).focused_window_history@ == old(self).focused_window_history@,
            final(self).focused_tag_history@ == old(self).focused_tag_history@,
            final(self).actions@ == old(self).actions@,
            final(self).pending_reload == Some(Reload::Hard),
    {
        self.pending_reload = Some(Reload::Hard);
    }
}

} // verus!
