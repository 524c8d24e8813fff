use vstd::prelude::*;
use crate::focus_handler;
use crate::helpers;
use crate::manager::Manager;
use crate::manager::eq_actions;
use crate::manager::eq_reload;
use crate::manager::eq_screens;
use crate::manager::eq_tag_history;
use crate::manager::eq_tags;
use crate::manager::eq_workspaces;
use crate::manager::eq_ws_history;
use crate::window::Window;
use crate::window::WindowType;

verus! {

/// Whether a freshly created window is given a tag automatically: normal
/// windows that arrive untagged are assigned tags round-robin in creation
/// order, provided any tag exists.
pub open spec fn auto_tagged(m0: Manager, w: Window) -> bool {
    w.type_ == WindowType::Normal && w.tags@.len() == 0 && m0.tags@.len() > 0
}

/// The tag label a freshly created window receives.
pub open spec fn auto_tag_of(m0: Manager) -> String {
    m0.tags@[m0.windows@.len() as int % m0.tags@.len() as int]
}

/// What handling a window-created event does.  A handle already managed is
/// rejected.  Otherwise the window is appended to the window list — tagged
/// round-robin when it is a normal window without tags — and focused.
pub open spec fn created_post(m0: Manager, m1: Manager, w: Window, r: bool) -> bool {
    if helpers::has_handle(m0.windows@, w.handle) {
        m1 == m0 && r == false
    } else {
        let w1 = m1.windows@.last();
        &&& r == true
        &&& eq_tags(m0, m1)
        &&& eq_workspaces(m0, m1)
        &&& eq_screens(m0, m1)
        &&& eq_ws_history(m0, m1)
        &&& eq_tag_history(m0, m1)
        &&& eq_actions(m0, m1)
        &&& eq_reload(m0, m1)
        &&& m1.windows@.len() == m0.windows@.len() + 1
        &&& m1.windows@.take(m0.windows@.len() as int) == m0.windows@
        &&& w1.handle == w.handle
        &&& w1.name == w.name
        &&& w1.type_ == w.type_
        &&& w1.floating == w.floating
        &&& w1.xyhw == w.xyhw
        &&& w1.tags@ == if auto_tagged(m0, w) {
            w.tags@.push(auto_tag_of(m0))
        } else {
            w.tags@
        }
        &&& m1.focused_window_history@ == if m0.spec_focused_window_handle() == Some(w.handle) {
            m0.focused_window_history@
        } else {
            m0.focused_window_history@.insert(0, w.handle)
        }
    }
}

/// Takes a newly created window into management.
pub fn created(manager: &mut Manager, window: Window) -> (r: bool)
    ensures
        created_post(*old(manager), *final(manager), window, r),
{
    if helpers::find_handle(&manager.windows, window.handle).is_some() {
        return false;
    }
    let h = window.handle;
    let mut w = window;
    if w.type_ == WindowType::Normal && w.tags.len() == 0 && manager.tags.len() > 0 {
        let idx = manager.windows.len() % manager.tags.len();
        w.tag(manager.tags[idx].clone());
    }
    manager.windows.push(w);
    proof {
        assert(manager.windows@.take(old(manager).windows@.len() as int)
            =~= old(manager).windows@);
    }
    focus_handler::focus_window(manager, h);
    true
}

} // verus!
