use vstd::prelude::*;
use crate::helpers;
use crate::manager::Manager;
use crate::manager::eq_actions;
use crate::manager::eq_reload;
use crate::manager::eq_screens;
use crate::manager::eq_tag_history;
use crate::manager::eq_tags;
use crate::manager::eq_win_history;
use crate::manager::eq_windows;
use crate::manager::eq_workspaces;
use crate::manager::eq_ws_history;
use crate::window::WindowHandle;
use crate::workspace::Workspace;
use crate::workspace::first_ws_match;
use crate::workspace::has_ws_match;

verus! {

/// What focusing the tag with text `t` does: only the tag history changes,
/// and only when `t` is not already current; then `t` becomes its head and
/// the old history follows unchanged.
pub open spec fn focus_tag_post(m0: Manager, m1: Manager, t: Seq<char>) -> bool {
    &&& eq_windows(m0, m1)
    &&& eq_tags(m0, m1)
    &&& eq_workspaces(m0, m1)
    &&& eq_screens(m0, m1)
    &&& eq_ws_history(m0, m1)
    &&& eq_win_history(m0, m1)
    &&& eq_actions(m0, m1)
    &&& eq_reload(m0, m1)
    &&& if m0.spec_focused_tag() == Some(t) {
        m1.focused_tag_history@ == m0.focused_tag_history@
    } else {
        &&& m1.focused_tag_history@.len() == m0.focused_tag_history@.len() + 1
        &&& m1.focused_tag_history@[0]@ == t
        &&& m1.focused_tag_history@.skip(1) == m0.focused_tag_history@
    }
}

/// Makes the tag with this text the current one.
pub fn focus_tag(manager: &mut Manager, tag: &str)
    ensures
        focus_tag_post(*old(manager), *final(manager), tag@),
{
    if manager.focused_tag_history.len() > 0 {
        if helpers::str_content_eq(manager.focused_tag_history[0].as_str(), tag) {
            return ;
        }
    }
    manager.focused_tag_history.insert(0, tag.to_owned());
    proof {
        assert(manager.focused_tag_history@.skip(1) =~= old(manager).focused_tag_history@);
    }
}

/// What focusing the window with handle `h` does: only the window history
/// changes, and only when `h` is not already current; then `h` becomes its
/// head.
pub open spec fn focus_window_post(m0: Manager, m1: Manager, h: WindowHandle) -> bool {
    &&& eq_windows(m0, m1)
    &&& eq_tags(m0, m1)
    &&& eq_workspaces(m0, m1)
    &&& eq_screens(m0, m1)
    &&& eq_ws_history(m0, m1)
    &&& eq_tag_history(m0, m1)
    &&& eq_actions(m0, m1)
    &&& eq_reload(m0, m1)
    &&& m1.focused_window_history@ == if m0.spec_focused_window_handle() == Some(h) {
        m0.focused_window_history@
    } else {
        m0.focused_window_history@.insert(0, h)
    }
}

/// Makes the window with this handle the current one.
pub fn focus_window(manager: &mut Manager, h: WindowHandle)
    ensures
        focus_window_post(*old(manager), *final(manager), h),
{
    if manager.focused_window_history.len() > 0 {
        if manager.focused_window_history[0] == h {
            return ;
        }
    }
    manager.focused_window_history.insert(0, h);
}

/// What focusing a workspace structurally equal to `t` does: only the
/// workspace history changes.  The handler looks the workspace up by
/// structural equality; when nothing matches, nothing changes, otherwise
/// the position of the first match becomes the history's head unless it is
/// already current.
pub open spec fn focus_workspace_post(m0: Manager, m1: Manager, t: Workspace) -> bool {
    &&& eq_windows(m0, m1)
    &&& eq_tags(m0, m1)
    &&& eq_workspaces(m0, m1)
    &&& eq_screens(m0, m1)
    &&& eq_win_history(m0, m1)
    &&& eq_tag_history(m0, m1)
    &&& eq_actions(m0, m1)
    &&& eq_reload(m0, m1)
    &&& if !has_ws_match(m0.workspaces@, t) {
        m1.focused_workspace_history@ == m0.focused_workspace_history@
    } else {
        let j = first_ws_match(m0.workspaces@, t);
        m1.focused_workspace_history@ == if m0.focused_workspace_history@.len() > 0
            && m0.focused_workspace_history@[0] as int == j {
            m0.focused_workspace_history@
        } else {
            m0.focused_workspace_history@.insert(0, j as usize)
        }
    }
}

/// Makes the first workspace structurally equal to `t` the current one.
pub fn focus_workspace(manager: &mut Manager, t: &Workspace)
    ensures
        focus_workspace_post(*old(manager), *final(manager), *t),
{
    let j = match crate::workspace::find_workspace(&manager.workspaces, t) {
        Some(j) => j,
        None => {
            return ;
        },
    };
    proof {
        crate::workspace::lemma_first_ws_match(manager.workspaces@, *t);
    }
    if manager.focused_workspace_history.len() > 0 {
        if manager.focused_workspace_history[0] == j {
            return ;
        }
    }
    manager.focused_workspace_history.insert(0, j);
}

} // verus!
