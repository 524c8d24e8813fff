use vstd::prelude::*;
use crate::manager::Manager;
use crate::manager::eq_actions;
use crate::manager::eq_reload;
use crate::manager::eq_tag_history;
use crate::manager::eq_tags;
use crate::manager::eq_win_history;
use crate::manager::eq_windows;
use crate::screen::Screen;
use crate::workspace::Workspace;

verus! {

/// What handling a screen-created event does: a workspace covering the
/// screen is appended and focused, showing the next not-yet-shown tag when
/// one exists, and the screen is recorded.
pub open spec fn screen_create_post(m0: Manager, m1: Manager, s: Screen, r: bool) -> bool {
    let idx = m0.workspaces@.len() as int;
    let shows_tag = m0.tags@.len() > m0.workspaces@.len();
    let w1 = m1.workspaces@.last();
    &&& r == true
    &&& eq_windows(m0, m1)
    &&& eq_tags(m0, m1)
    &&& eq_win_history(m0, m1)
    &&& eq_tag_history(m0, m1)
    &&& eq_actions(m0, m1)
    &&& eq_reload(m0, m1)
    &&& m1.screens@ == m0.screens@.push(s)
    &&& m1.workspaces@.len() == m0.workspaces@.len() + 1
    &&& m1.workspaces@.take(idx) == m0.workspaces@
    &&& w1.xyhw == s.bbox
    &&& w1.layout == 0
    &&& w1.tags@ == if shows_tag {
        seq![m0.tags@[idx]]
    } else {
        Seq::<String>::empty()
    }
    &&& m1.focused_workspace_history@ == if m0.focused_workspace_history@.len() > 0
        && m0.focused_workspace_history@[0] as int == idx {
        m0.focused_workspace_history@
    } else {
        m0.focused_workspace_history@.insert(0, idx as usize)
    }
}

/// Takes a newly created screen into management.
pub fn process(manager: &mut Manager, screen: Screen) -> (r: bool)
    ensures
        screen_create_post(*old(manager), *final(manager), screen, r),
{
    let idx = manager.workspaces.len();
    let mut ws = Workspace::new(screen.bbox);
    if manager.tags.len() > idx {
        ws.tags.push(manager.tags[idx].clone());
    }
    manager.workspaces.push(ws);
    manager.screens.push(screen);
    proof {
        assert(manager.workspaces@.take(old(manager).workspaces@.len() as int)
            =~= old(manager).workspaces@);
        assert(seq![old(manager).tags@[idx as int]]
            =~= Seq::<String>::empty().push(old(manager).tags@[idx as int]));
    }
    if manager.focused_workspace_history.len() > 0 {
        if manager.focused_workspace_history[0] == idx {
            return true;
        }
    }
    manager.focused_workspace_history.insert(0, idx);
    true
}

} // verus!
