use vstd::prelude::*;
use crate::digits;
use crate::display_action::DisplayAction;
use crate::focus_handler;
use crate::goto_tag_handler;
use crate::helpers;
use crate::manager::Manager;
use crate::manager::Reload;
use crate::manager::eq_actions;
use crate::manager::eq_reload;
use crate::manager::eq_screens;
use crate::manager::eq_tag_history;
use crate::manager::eq_tags;
use crate::manager::eq_win_history;
use crate::manager::eq_windows;
use crate::manager::eq_workspaces;
use crate::manager::eq_ws_history;
use crate::window::Window;
use crate::window::WindowType;
use crate::workspace::Workspace;
use crate::workspace::next_layout_of;
use crate::workspace::prev_layout_of;
use crate::workspace::ws_matches;

verus! {

/// A user command.  Each is dispatched together with an optional textual
/// argument; commands that need none ignore it.
#[derive(Clone, Copy, Debug)]
pub enum Command {
    MoveToTag,
    GotoTag,
    FocusNextTag,
    FocusPreviousTag,
    Execute,
    CloseWindow,
    SwapTags,
    MoveToLastWorkspace,
    NextLayout,
    PreviousLayout,
    MoveWindowUp,
    MoveWindowDown,
    MoveWindowTop,
    FocusWindowUp,
    FocusWindowDown,
    FocusWorkspaceNext,
    FocusWorkspacePrevious,
    MouseMoveWindow,
    SoftReload,
    HardReload,
}

/// The numeric value of the optional argument: `Some` exactly when the
/// argument is present and is a valid numeral.
pub open spec fn arg_value(val: Option<String>) -> Option<int> {
    match val {
        Some(s) => if digits::numeric(s@) {
            Some(digits::digits_value(s@))
        } else {
            None
        },
        None => None,
    }
}

/// Whether the optional argument holds a valid numeral.
pub fn is_num(val: &Option<String>) -> (r: bool)
    ensures
        r == (arg_value(*val) is Some),
{
    match val {
        Some(s) => digits::parse_usize(s.as_str()).is_some(),
        None => false,
    }
}

/// The numeric value of the optional argument, or zero when it holds none.
pub fn to_num(val: &Option<String>) -> (r: usize)
    ensures
        r as int == (match arg_value(*val) {
            Some(n) => n,
            None => 0,
        }),
{
    match val {
        Some(s) => match digits::parse_usize(s.as_str()) {
            Some(n) => n,
            None => 0,
        },
        None => 0,
    }
}

// ---------------------------------------------------------------------------
// What each command does, as a relation between the manager before and after
// ---------------------------------------------------------------------------

/// The argument addresses an existing tag: it is a numeral within
/// `1..=|tags|`.
pub open spec fn valid_tag_arg(m0: Manager, val: Option<String>) -> bool {
    match arg_value(val) {
        Some(n) => 1 <= n <= m0.tags@.len(),
        None => false,
    }
}

/// Moving the focused window to the addressed tag: outside `1..=|tags|`, or
/// without a focused window, nothing changes; otherwise the window keeps
/// its identity, loses its floating state and all its tags, receives
/// exactly the addressed tag, and one re-tag action is queued.
pub open spec fn move_to_tag_post(m0: Manager, m1: Manager, val: Option<String>, r: bool) -> bool {
    if !valid_tag_arg(m0, val) || !m0.has_focused_window() {
        m1 == m0 && r == false
    } else {
        let n = arg_value(val).unwrap();
        let k = m0.spec_focused_window_index();
        let w0 = m0.windows@[k];
        let w1 = m1.windows@[k];
        let t = m0.tags@[n - 1];
        &&& r == true
        &&& eq_tags(m0, m1)
        &&& eq_workspaces(m0, m1)
        &&& eq_screens(m0, m1)
        &&& eq_ws_history(m0, m1)
        &&& eq_win_history(m0, m1)
        &&& eq_tag_history(m0, m1)
        &&& eq_reload(m0, m1)
        &&& m1.windows@.len() == m0.windows@.len()
        &&& forall|j: int|
            0 <= j < m0.windows@.len() && j != k ==> m1.windows@[j] == m0.windows@[j]
        &&& w1.handle == w0.handle
        &&& w1.name == w0.name
        &&& w1.type_ == w0.type_
        &&& w1.xyhw == w0.xyhw
        &&& w1.floating == false
        &&& w1.tags@ == seq![t]
        &&& m1.actions@ == m0.actions@.push(DisplayAction::SetWindowTags(w0.handle, t))
    }
}

/// Going to a tag by number: a missing or non-numeric argument is rejected
/// here; the range check and the focus switch are the goto-tag handler's.
pub open spec fn goto_tag_cmd_post(m0: Manager, m1: Manager, val: Option<String>, r: bool) -> bool {
    match arg_value(val) {
        Some(n) => goto_tag_handler::goto_tag_post(m0, m1, n, r),
        None => m1 == m0 && r == false,
    }
}

/// The focused tag exists and occurs in the tag list.
pub open spec fn has_focused_tag_pos(m0: Manager) -> bool {
    match m0.spec_focused_tag() {
        Some(t) => helpers::has_tag_content(m0.tags@, t),
        None => false,
    }
}

/// 0-based position of the focused tag in the tag list; meaningful only
/// under [`has_focused_tag_pos`].
pub open spec fn focused_tag_pos(m0: Manager) -> int {
    helpers::first_tag_match(m0.tags@, m0.spec_focused_tag().unwrap())
}

/// The 1-based goto target one tag after the focused one, wrapping from the
/// last position to the first.
pub open spec fn next_tag_num(m0: Manager) -> int {
    if focused_tag_pos(m0) + 2 > m0.tags@.len() {
        1
    } else {
        focused_tag_pos(m0) + 2
    }
}

/// The 1-based goto target one tag before the focused one, wrapping from
/// the first position to the last.
pub open spec fn prev_tag_num(m0: Manager) -> int {
    if focused_tag_pos(m0) == 0 {
        m0.tags@.len() as int
    } else {
        focused_tag_pos(m0)
    }
}

/// Focusing the next tag: without a focused tag, or with one that no
/// longer occurs in the tag list, nothing changes; otherwise this is a goto
/// to the wrapped next position.
pub open spec fn focus_next_tag_post(m0: Manager, m1: Manager, r: bool) -> bool {
    if !has_focused_tag_pos(m0) {
        m1 == m0 && r == false
    } else {
        goto_tag_handler::goto_tag_post(m0, m1, next_tag_num(m0), r)
    }
}

/// Focusing the previous tag, the mirror image of
/// [`focus_next_tag_post`].
pub open spec fn focus_previous_tag_post(m0: Manager, m1: Manager, r: bool) -> bool {
    if !has_focused_tag_pos(m0) {
        m1 == m0 && r == false
    } else {
        goto_tag_handler::goto_tag_post(m0, m1, prev_tag_num(m0), r)
    }
}

/// Closing the focused window: no window, or a dock window, queues
/// nothing; otherwise exactly one kill action is queued.  The window list
/// itself never changes here — removal is driven later by the display
/// layer — and no redraw is reported.
pub open spec fn close_window_post(m0: Manager, m1: Manager, r: bool) -> bool {
    &&& r == false
    &&& if m0.has_focused_window() && m0.windows@[m0.spec_focused_window_index()].type_
        != WindowType::Dock {
        &&& eq_windows(m0, m1)
        &&& eq_tags(m0, m1)
        &&& eq_workspaces(m0, m1)
        &&& eq_screens(m0, m1)
        &&& eq_ws_history(m0, m1)
        &&& eq_win_history(m0, m1)
        &&& eq_tag_history(m0, m1)
        &&& eq_reload(m0, m1)
        &&& m1.actions@ == m0.actions@.push(
            DisplayAction::KillWindow(m0.windows@[m0.spec_focused_window_index()].handle),
        )
    } else {
        m1 == m0
    }
}

/// Both workspaces addressed by the two most recent focus-history entries
/// exist.
pub open spec fn swap_ready(m0: Manager) -> bool {
    &&& m0.workspaces@.len() >= 2
    &&& m0.focused_workspace_history@.len() >= 2
    &&& m0.focused_workspace_history@[0] < m0.workspaces@.len()
    &&& m0.focused_workspace_history@[1] < m0.workspaces@.len()
}

/// `w1` is `w0` with its tag list replaced by `t`.
pub open spec fn ws_retagged(w1: Workspace, w0: Workspace, t: Seq<String>) -> bool {
    w1.xyhw == w0.xyhw && w1.layout == w0.layout && w1.tags@ == t
}

/// Swapping the tag lists of the two most recently focused workspaces;
/// rejected, leaving everything unchanged, unless both exist.
pub open spec fn swap_tags_post(m0: Manager, m1: Manager, r: bool) -> bool {
    if !swap_ready(m0) {
        m1 == m0 && r == false
    } else {
        let i0 = m0.focused_workspace_history@[0] as int;
        let i1 = m0.focused_workspace_history@[1] as int;
        &&& r == true
        &&& eq_windows(m0, m1)
        &&& eq_tags(m0, m1)
        &&& eq_screens(m0, m1)
        &&& eq_ws_history(m0, m1)
        &&& eq_win_history(m0, m1)
        &&& eq_tag_history(m0, m1)
        &&& eq_actions(m0, m1)
        &&& eq_reload(m0, m1)
        &&& m1.workspaces@.len() == m0.workspaces@.len()
        &&& forall|j: int|
            0 <= j < m0.workspaces@.len() && j != i0 && j != i1 ==> m1.workspaces@[j]
                == m0.workspaces@[j]
        &&& (i0 != i1 ==> ws_retagged(m1.workspaces@[i0], m0.workspaces@[i0], m0.workspaces@[i1].tags@)
            && ws_retagged(m1.workspaces@[i1], m0.workspaces@[i1], m0.workspaces@[i0].tags@))
        &&& (i0 == i1 ==> ws_retagged(m1.workspaces@[i0], m0.workspaces@[i0], m0.workspaces@[i0].tags@))
    }
}

/// The second most recently focused workspace exists, has a first tag, and
/// a window is focused.
pub open spec fn move_to_last_ready(m0: Manager) -> bool {
    &&& m0.workspaces@.len() >= 2
    &&& m0.focused_workspace_history@.len() >= 2
    &&& m0.focused_workspace_history@[1] < m0.workspaces@.len()
    &&& m0.workspaces@[m0.focused_workspace_history@[1] as int].tags@.len() > 0
    &&& m0.has_focused_window()
}

/// Sending the focused window to the previous workspace: its tag set
/// becomes the singleton first tag of the second most recently focused
/// workspace; its floating state is kept.
pub open spec fn move_to_last_workspace_post(m0: Manager, m1: Manager, r: bool) -> bool {
    if !move_to_last_ready(m0) {
        m1 == m0 && r == false
    } else {
        let k = m0.spec_focused_window_index();
        let w0 = m0.windows@[k];
        let w1 = m1.windows@[k];
        let t = m0.workspaces@[m0.focused_workspace_history@[1] as int].tags@[0];
        &&& r == true
        &&& eq_tags(m0, m1)
        &&& eq_workspaces(m0, m1)
        &&& eq_screens(m0, m1)
        &&& eq_ws_history(m0, m1)
        &&& eq_win_history(m0, m1)
        &&& eq_tag_history(m0, m1)
        &&& eq_actions(m0, m1)
        &&& eq_reload(m0, m1)
        &&& m1.windows@.len() == m0.windows@.len()
        &&& forall|j: int|
            0 <= j < m0.windows@.len() && j != k ==> m1.windows@[j] == m0.windows@[j]
        &&& w1.handle == w0.handle
        &&& w1.name == w0.name
        &&& w1.type_ == w0.type_
        &&& w1.xyhw == w0.xyhw
        &&& w1.floating == w0.floating
        &&& w1.tags@ == seq![t]
    }
}

/// Cycling the focused workspace's layout: only that workspace's layout
/// selector changes.
pub open spec fn layout_cycle_post(m0: Manager, m1: Manager, forward: bool, r: bool) -> bool {
    if !m0.has_focused_workspace() {
        m1 == m0 && r == false
    } else {
        let i = m0.spec_focused_workspace_index();
        &&& r == true
        &&& eq_windows(m0, m1)
        &&& eq_tags(m0, m1)
        &&& eq_screens(m0, m1)
        &&& eq_ws_history(m0, m1)
        &&& eq_win_history(m0, m1)
        &&& eq_tag_history(m0, m1)
        &&& eq_actions(m0, m1)
        &&& eq_reload(m0, m1)
        &&& m1.workspaces@.len() == m0.workspaces@.len()
        &&& forall|j: int|
            0 <= j < m0.workspaces@.len() && j != i ==> m1.workspaces@[j] == m0.workspaces@[j]
        &&& m1.workspaces@[i].xyhw == m0.workspaces@[i].xyhw
        &&& m1.workspaces@[i].tags@ == m0.workspaces@[i].tags@
        &&& m1.workspaces@[i].layout as int == if forward {
            next_layout_of(m0.workspaces@[i].layout as int)
        } else {
            prev_layout_of(m0.workspaces@[i].layout as int)
        }
    }
}

/// A window and a workspace are focused: what every reorder and relative
/// focus command requires.
pub open spec fn window_move_ready(m0: Manager) -> bool {
    m0.has_focused_window() && m0.has_focused_workspace()
}

/// The tag list of the focused workspace.
pub open spec fn active_ws_tags(m0: Manager) -> Seq<String> {
    m0.workspaces@[m0.spec_focused_workspace_index()].tags@
}

/// Moving the focused window one step within the active workspace's window
/// group, wrapping at the group's ends.  The group is extracted from the
/// window list and re-appended behind the remainder, so the whole group
/// moves to the end of the list; a pointer-move action follows the window.
pub open spec fn move_window_post(m0: Manager, m1: Manager, off: int, r: bool) -> bool {
    if !window_move_ready(m0) {
        m1 == m0 && r == false
    } else {
        let h = m0.focused_window_history@[0];
        let t = active_ws_tags(m0);
        &&& r == true
        &&& eq_tags(m0, m1)
        &&& eq_workspaces(m0, m1)
        &&& eq_screens(m0, m1)
        &&& eq_ws_history(m0, m1)
        &&& eq_win_history(m0, m1)
        &&& eq_tag_history(m0, m1)
        &&& eq_reload(m0, m1)
        &&& m1.windows@ == hidden_part_of(m0) + helpers::cyclic_shifted(group_of(m0), h, off)
        &&& m1.actions@ == m0.actions@.push(DisplayAction::MoveMouseOver(h))
    }
}

/// The active workspace's window group.
pub open spec fn group_of(m0: Manager) -> Seq<Window> {
    helpers::displayed_part(m0.windows@, active_ws_tags(m0))
}

/// The windows not in the active workspace's group.
pub open spec fn hidden_part_of(m0: Manager) -> Seq<Window> {
    helpers::hidden_part(m0.windows@, active_ws_tags(m0))
}

/// Moving the focused window to the top of the active workspace's group —
/// or, when it is already on top, to the second position.  A pointer-move
/// action is queued only when the window was not already on top.  A focused
/// window outside the group is rejected, leaving everything unchanged.
pub open spec fn move_window_top_post(m0: Manager, m1: Manager, r: bool) -> bool {
    if !window_move_ready(m0) {
        m1 == m0 && r == false
    } else {
        let h = m0.focused_window_history@[0];
        let g = group_of(m0);
        if !helpers::has_handle(g, h) {
            m1 == m0 && r == false
        } else {
            let j = helpers::first_handle_match(g, h);
            let ni: int = if j == 0 {
                if g.len() == 1 {
                    0
                } else {
                    1
                }
            } else {
                0
            };
            &&& r == true
            &&& eq_tags(m0, m1)
            &&& eq_workspaces(m0, m1)
            &&& eq_screens(m0, m1)
            &&& eq_ws_history(m0, m1)
            &&& eq_win_history(m0, m1)
            &&& eq_tag_history(m0, m1)
            &&& eq_reload(m0, m1)
            &&& m1.windows@ == hidden_part_of(m0) + g.remove(j).insert(ni, g[j])
            &&& m1.actions@ == if j > 0 {
                m0.actions@.push(DisplayAction::MoveMouseOver(h))
            } else {
                m0.actions@
            }
        }
    }
}

/// Signalling focus to the neighbour of the focused window within the
/// active workspace's group.  The group is extracted and re-appended
/// unreordered — the documented side effect of every group command — and a
/// pointer-move action targets the wrapped neighbour when the focused
/// window belongs to the group.
pub open spec fn focus_window_step_post(m0: Manager, m1: Manager, off: int, r: bool) -> bool {
    if !window_move_ready(m0) {
        m1 == m0 && r == false
    } else {
        let h = m0.focused_window_history@[0];
        let g = group_of(m0);
        &&& r == true
        &&& eq_tags(m0, m1)
        &&& eq_workspaces(m0, m1)
        &&& eq_screens(m0, m1)
        &&& eq_ws_history(m0, m1)
        &&& eq_win_history(m0, m1)
        &&& eq_tag_history(m0, m1)
        &&& eq_reload(m0, m1)
        &&& m1.windows@ == hidden_part_of(m0) + g
        &&& m1.actions@ == if helpers::has_handle(g, h) {
            m0.actions@.push(
                DisplayAction::MoveMouseOver(
                    g[helpers::wrap_index(helpers::first_handle_match(g, h), off, g.len() as int)].handle,
                ),
            )
        } else {
            m0.actions@
        }
    }
}

/// Index of the workspace the focus moves to: one step from the first
/// workspace structurally equal to the current one, wrapping at both ends.
pub open spec fn ws_target_index(m0: Manager, off: int) -> int {
    let cur = m0.workspaces@[m0.spec_focused_workspace_index()];
    helpers::wrap_index(
        crate::workspace::first_ws_match(m0.workspaces@, cur),
        off,
        m0.workspaces@.len() as int,
    )
}

/// The queued pointer action targets the centre of the workspace's
/// bounding box.
pub open spec fn is_center_action(a: DisplayAction, w: Workspace) -> bool {
    a matches DisplayAction::MoveMouseOverPoint(x, y) && x as int == w.xyhw.spec_center().0 && y
        as int == w.xyhw.spec_center().1
}

/// Focusing the neighbouring workspace: the target becomes current, a
/// pointer move to its centre is queued, and when it displays a
/// normal-type window, the first such window is focused and a pointer move
/// to it is queued as well.
pub open spec fn focus_workspace_step_post(m0: Manager, m1: Manager, off: int, r: bool) -> bool {
    if !m0.has_focused_workspace() {
        m1 == m0 && r == false
    } else {
        let ti = ws_target_index(m0, off);
        let target = m0.workspaces@[ti];
        let tj = crate::workspace::first_ws_match(m0.workspaces@, target);
        let found = helpers::has_normal_displayed(m0.windows@, target.tags@);
        let wh = m0.windows@[helpers::first_normal_displayed(m0.windows@, target.tags@)].handle;
        &&& r == true
        &&& eq_windows(m0, m1)
        &&& eq_tags(m0, m1)
        &&& eq_workspaces(m0, m1)
        &&& eq_screens(m0, m1)
        &&& eq_tag_history(m0, m1)
        &&& eq_reload(m0, m1)
        &&& m1.focused_workspace_history@ == if m0.focused_workspace_history@.len() > 0
            && m0.focused_workspace_history@[0] as int == tj {
            m0.focused_workspace_history@
        } else {
            m0.focused_workspace_history@.insert(0, tj as usize)
        }
        &&& m1.actions@.len() == m0.actions@.len() + if found {
            2int
        } else {
            1int
        }
        &&& m1.actions@.take(m0.actions@.len() as int) == m0.actions@
        &&& is_center_action(m1.actions@[m0.actions@.len() as int], target)
        &&& (found ==> m1.actions@.last() == DisplayAction::MoveMouseOver(wh))
        &&& m1.focused_window_history@ == if found {
            if m0.spec_focused_window_handle() == Some(wh) {
                m0.focused_window_history@
            } else {
                m0.focused_window_history@.insert(0, wh)
            }
        } else {
            m0.focused_window_history@
        }
    }
}

/// Asking the surrounding program for a reload: only the pending-reload
/// marker changes, and no redraw is reported.
pub open spec fn reload_post(m0: Manager, m1: Manager, kind: Reload, r: bool) -> bool {
    &&& r == false
    &&& eq_windows(m0, m1)
    &&& eq_tags(m0, m1)
    &&& eq_workspaces(m0, m1)
    &&& eq_screens(m0, m1)
    &&& eq_ws_history(m0, m1)
    &&& eq_win_history(m0, m1)
    &&& eq_tag_history(m0, m1)
    &&& eq_actions(m0, m1)
    &&& m1.pending_reload == Some(kind)
}

/// What [`process`] does, by command.
pub open spec fn process_post(
    m0: Manager,
    m1: Manager,
    command: Command,
    val: Option<String>,
    r: bool,
) -> bool {
    match command {
        Command::MoveToTag => move_to_tag_post(m0, m1, val, r),
        Command::GotoTag => goto_tag_cmd_post(m0, m1, val, r),
        Command::FocusNextTag => focus_next_tag_post(m0, m1, r),
        Command::FocusPreviousTag => focus_previous_tag_post(m0, m1, r),
        Command::Execute => m1 == m0 && r == false,
        Command::CloseWindow => close_window_post(m0, m1, r),
        Command::SwapTags => swap_tags_post(m0, m1, r),
        Command::MoveToLastWorkspace => move_to_last_workspace_post(m0, m1, r),
        Command::NextLayout => layout_cycle_post(m0, m1, true, r),
        Command::PreviousLayout => layout_cycle_post(m0, m1, false, r),
        Command::MoveWindowUp => move_window_post(m0, m1, -1, r),
        Command::MoveWindowDown => move_window_post(m0, m1, 1, r),
        Command::MoveWindowTop => move_window_top_post(m0, m1, r),
        Command::FocusWindowUp => focus_window_step_post(m0, m1, -1, r),
        Command::FocusWindowDown => focus_window_step_post(m0, m1, 1, r),
        Command::FocusWorkspaceNext => focus_workspace_step_post(m0, m1, 1, r),
        Command::FocusWorkspacePrevious => focus_workspace_step_post(m0, m1, -1, r),
        Command::MouseMoveWindow => m1 == m0 && r == false,
        Command::SoftReload => reload_post(m0, m1, Reload::Soft, r),
        Command::HardReload => reload_post(m0, m1, Reload::Hard, r),
    }
}

// ---------------------------------------------------------------------------
// Laws relating several dispatches
// ---------------------------------------------------------------------------

/// The tag labels are pairwise distinct.
pub open spec fn distinct_labels(tags: Seq<String>) -> bool {
    forall|i: int, j: int| 0 <= i < j < tags.len() ==> tags[i]@ != tags[j]@
}

/// With pairwise distinct labels, the first label matching the text of the
/// label at `q` is the one at `q` itself.
pub proof fn lemma_distinct_first(tags: Seq<String>, q: int)
    requires
        distinct_labels(tags),
        0 <= q < tags.len(),
    ensures
        helpers::has_tag_content(tags, tags[q]@),
        helpers::first_tag_match(tags, tags[q]@) == q,
{
    assert(helpers::is_first_tag_match(tags, tags[q]@, q));
    assert(helpers::has_tag_content(tags, tags[q]@));
    helpers::lemma_first_tag_match(tags, tags[q]@);
}

/// After `k` focus-next-tag steps the focused tag has moved `k` positions
/// forward, wrapping once at the end of the tag list.
pub proof fn lemma_focus_next_tag_chain(ms: Seq<Manager>, k: int)
    requires
        ms.len() >= 1,
        distinct_labels(ms[0].tags@),
        has_focused_tag_pos(ms[0]),
        0 <= k < ms.len(),
        k <= ms[0].tags@.len(),
        forall|i: int|
            0 <= i < ms.len() - 1 ==> process_post(
                #[trigger] ms[i],
                ms[i + 1],
                Command::FocusNextTag,
                None,
                true,
            ),
    ensures
        ms[k].tags@ == ms[0].tags@,
        has_focused_tag_pos(ms[k]),
        focused_tag_pos(ms[k]) == if focused_tag_pos(ms[0]) + k < ms[0].tags@.len() {
            focused_tag_pos(ms[0]) + k
        } else {
            focused_tag_pos(ms[0]) + k - ms[0].tags@.len()
        },
    decreases k,
{
    let tags = ms[0].tags@;
    let n = tags.len() as int;
    let p0 = focused_tag_pos(ms[0]);
    helpers::lemma_first_tag_match(tags, ms[0].spec_focused_tag().unwrap());
    assert(0 <= p0 < n);
    if k > 0 {
        lemma_focus_next_tag_chain(ms, k - 1);
        let m = ms[k - 1];
        let m1 = ms[k];
        let p = focused_tag_pos(m);
        assert(process_post(m, m1, Command::FocusNextTag, None, true));
        helpers::lemma_first_tag_match(m.tags@, m.spec_focused_tag().unwrap());
        assert(0 <= p < n);
        let nt = next_tag_num(m);
        assert(1 <= nt <= n);
        assert(focus_handler::focus_tag_post(m, m1, m.tags@[nt - 1]@));
        assert(m1.spec_focused_tag() == Some(tags[nt - 1]@));
        lemma_distinct_first(tags, nt - 1);
        assert(focused_tag_pos(m1) == nt - 1);
    }
}

/// Law: with pairwise distinct tag labels, issuing the focus-next-tag
/// command once per tag brings focus back to the tag it started on.
pub proof fn lemma_focus_next_tag_full_cycle(ms: Seq<Manager>)
    requires
        ms.len() == ms[0].tags@.len() + 1,
        distinct_labels(ms[0].tags@),
        has_focused_tag_pos(ms[0]),
        forall|i: int|
            0 <= i < ms.len() - 1 ==> process_post(
                #[trigger] ms[i],
                ms[i + 1],
                Command::FocusNextTag,
                None,
                true,
            ),
    ensures
        ms.last().spec_focused_tag() == ms[0].spec_focused_tag(),
{
    let tags = ms[0].tags@;
    let n = tags.len() as int;
    lemma_focus_next_tag_chain(ms, n);
    let p0 = focused_tag_pos(ms[0]);
    helpers::lemma_first_tag_match(tags, ms[0].spec_focused_tag().unwrap());
    assert(focused_tag_pos(ms[n]) == p0);
    helpers::lemma_first_tag_match(ms[n].tags@, ms[n].spec_focused_tag().unwrap());
    assert(ms[n].spec_focused_tag().unwrap() == tags[p0]@);
    assert(ms[0].spec_focused_tag().unwrap() == tags[p0]@);
}

/// After `k` focus-previous-tag steps the focused tag has moved `k`
/// positions backward, wrapping once at the start of the tag list.
pub proof fn lemma_focus_previous_tag_chain(ms: Seq<Manager>, k: int)
    requires
        ms.len() >= 1,
        distinct_labels(ms[0].tags@),
        has_focused_tag_pos(ms[0]),
        0 <= k < ms.len(),
        k <= ms[0].tags@.len(),
        forall|i: int|
            0 <= i < ms.len() - 1 ==> process_post(
                #[trigger] ms[i],
                ms[i + 1],
                Command::FocusPreviousTag,
                None,
                true,
            ),
    ensures
        ms[k].tags@ == ms[0].tags@,
        has_focused_tag_pos(ms[k]),
        focused_tag_pos(ms[k]) == if focused_tag_pos(ms[0]) - k >= 0 {
            focused_tag_pos(ms[0]) - k
        } else {
            focused_tag_pos(ms[0]) - k + ms[0].tags@.len()
        },
    decreases k,
{
    let tags = ms[0].tags@;
    let n = tags.len() as int;
    let p0 = focused_tag_pos(ms[0]);
    helpers::lemma_first_tag_match(tags, ms[0].spec_focused_tag().unwrap());
    assert(0 <= p0 < n);
    if k > 0 {
        lemma_focus_previous_tag_chain(ms, k - 1);
        let m = ms[k - 1];
        let m1 = ms[k];
        let p = focused_tag_pos(m);
        assert(process_post(m, m1, Command::FocusPreviousTag, None, true));
        helpers::lemma_first_tag_match(m.tags@, m.spec_focused_tag().unwrap());
        assert(0 <= p < n);
        let nt = prev_tag_num(m);
        assert(1 <= nt <= n);
        assert(focus_handler::focus_tag_post(m, m1, m.tags@[nt - 1]@));
        assert(m1.spec_focused_tag() == Some(tags[nt - 1]@));
        lemma_distinct_first(tags, nt - 1);
        assert(focused_tag_pos(m1) == nt - 1);
    }
}

/// Law: with pairwise distinct tag labels, issuing the focus-previous-tag
/// command once per tag brings focus back to the tag it started on.
pub proof fn lemma_focus_previous_tag_full_cycle(ms: Seq<Manager>)
    requires
        ms.len() == ms[0].tags@.len() + 1,
        distinct_labels(ms[0].tags@),
        has_focused_tag_pos(ms[0]),
        forall|i: int|
            0 <= i < ms.len() - 1 ==> process_post(
                #[trigger] ms[i],
                ms[i + 1],
                Command::FocusPreviousTag,
                None,
                true,
            ),
    ensures
        ms.last().spec_focused_tag() == ms[0].spec_focused_tag(),
{
    let tags = ms[0].tags@;
    let n = tags.len() as int;
    lemma_focus_previous_tag_chain(ms, n);
    let p0 = focused_tag_pos(ms[0]);
    helpers::lemma_first_tag_match(tags, ms[0].spec_focused_tag().unwrap());
    assert(focused_tag_pos(ms[n]) == p0);
    helpers::lemma_first_tag_match(ms[n].tags@, ms[n].spec_focused_tag().unwrap());
    assert(ms[n].spec_focused_tag().unwrap() == tags[p0]@);
    assert(ms[0].spec_focused_tag().unwrap() == tags[p0]@);
}

/// Law: issuing move-window-to-top twice on a focused window that starts
/// away from the top of its group puts it at the group's head and then at
/// the second position — a toggle, not an idempotent move to the front.
pub proof fn lemma_move_window_top_toggle(m0: Manager, m1: Manager, m2: Manager)
    requires
        window_move_ready(m0),
        helpers::has_handle(group_of(m0), m0.focused_window_history@[0]),
        helpers::first_handle_match(group_of(m0), m0.focused_window_history@[0]) > 0,
        process_post(m0, m1, Command::MoveWindowTop, None, true),
        process_post(m1, m2, Command::MoveWindowTop, None, true),
    ensures
        group_of(m1).len() == group_of(m0).len(),
        group_of(m1)[0].handle == m0.focused_window_history@[0],
        group_of(m2)[1].handle == m0.focused_window_history@[0],
{
    let h = m0.focused_window_history@[0];
    let t = active_ws_tags(m0);
    let g0 = group_of(m0);
    let r0 = hidden_part_of(m0);
    let j = helpers::first_handle_match(g0, h);
    helpers::lemma_first_handle_match(g0, h);
    helpers::lemma_parts_pred(m0.windows@, t);
    let g1 = g0.remove(j).insert(0, g0[j]);
    assert(m1.windows@ == r0 + g1);
    assert(g1.len() == g0.len());
    // the reordered group is made of windows of the old group, so it is
    // still exactly the displayed part of the new window list
    assert forall|i: int| 0 <= i < g1.len() implies helpers::displayed_on(t, #[trigger] g1[i]) by {
        if i == 0 {
            assert(g1[0] == g0[j]);
        } else if i <= j {
            assert(g1[i] == g0.remove(j)[i - 1]);
            assert(g0.remove(j)[i - 1] == g0[i - 1]);
        } else {
            assert(g1[i] == g0.remove(j)[i - 1]);
            assert(g0.remove(j)[i - 1] == g0[i]);
        }
    }
    helpers::lemma_parts_add(r0, g1, t);
    helpers::lemma_parts_all(r0, t);
    helpers::lemma_parts_all(g1, t);
    assert(active_ws_tags(m1) == t);
    assert(group_of(m1) =~= g1);
    assert(hidden_part_of(m1) =~= r0);
    assert(g1[0] == g0[j]);
    assert(g1[0].handle == h);
    // in the second dispatch the focused window sits at the head of the
    // group, so it moves to the second position
    assert(m1.focused_window_history@[0] == h);
    assert(helpers::is_first_handle_match(g1, h, 0));
    assert(helpers::has_handle(g1, h));
    helpers::lemma_first_handle_match(g1, h);
    assert(helpers::first_handle_match(g1, h) == 0);
    assert(g1.len() >= 2);
    let g2 = g1.remove(0).insert(1, g1[0]);
    assert(m2.windows@ == r0 + g2);
    assert forall|i: int| 0 <= i < g2.len() implies helpers::displayed_on(t, #[trigger] g2[i]) by {
        if i == 1 {
            assert(g2[1] == g1[0]);
        } else if i == 0 {
            assert(g2[0] == g1.remove(0)[0]);
            assert(g1.remove(0)[0] == g1[1]);
        } else {
            assert(g2[i] == g1.remove(0)[i - 1]);
            assert(g1.remove(0)[i - 1] == g1[i]);
        }
    }
    helpers::lemma_parts_add(r0, g2, t);
    helpers::lemma_parts_all(g2, t);
    assert(active_ws_tags(m2) == t);
    assert(group_of(m2) =~= g2);
    assert(g2[1] == g1[0]);
}

// ---------------------------------------------------------------------------
// The per-command mutations
// ---------------------------------------------------------------------------

fn move_to_tag(manager: &mut Manager, val: &Option<String>) -> (r: bool)
    ensures
        move_to_tag_post(*old(manager), *final(manager), *val, r),
{
    if !is_num(val) {
        return false;
    }
    let n = to_num(val);
    if n < 1 || n > manager.tags.len() {
        return false;
    }
    let k = match manager.focused_window_index() {
        Some(k) => k,
        None => {
            return false;
        },
    };
    let tag = manager.tags[n - 1].clone();
    let mut w = manager.windows[k].clone();
    w.clear_tags();
    w.set_floating(false);
    w.tag(tag.clone());
    let h = w.handle;
    manager.windows[k] = w;
    manager.actions.push(DisplayAction::SetWindowTags(h, tag));
    proof {
        assert(final(manager).windows@[k as int].tags@
            =~= seq![old(manager).tags@[n as int - 1]]);
    }
    true
}

fn focus_next_tag(manager: &mut Manager) -> (r: bool)
    ensures
        focus_next_tag_post(*old(manager), *final(manager), r),
{
    let cur = match manager.focused_tag() {
        Some(t) => t,
        None => {
            return false;
        },
    };
    let p = match helpers::find_tag(&manager.tags, cur.as_str()) {
        Some(p) => p,
        None => {
            return false;
        },
    };
    proof {
        helpers::lemma_first_tag_match(manager.tags@, cur@);
    }
    let len = manager.tags.len();
    let target: usize = if p + 1 >= len {
        1
    } else {
        p + 2
    };
    goto_tag_handler::process(manager, target)
}

fn focus_previous_tag(manager: &mut Manager) -> (r: bool)
    ensures
        focus_previous_tag_post(*old(manager), *final(manager), r),
{
    let cur = match manager.focused_tag() {
        Some(t) => t,
        None => {
            return false;
        },
    };
    let p = match helpers::find_tag(&manager.tags, cur.as_str()) {
        Some(p) => p,
        None => {
            return false;
        },
    };
    proof {
        helpers::lemma_first_tag_match(manager.tags@, cur@);
    }
    let target: usize = if p == 0 {
        manager.tags.len()
    } else {
        p
    };
    goto_tag_handler::process(manager, target)
}

fn close_window(manager: &mut Manager) -> (r: bool)
    ensures
        close_window_post(*old(manager), *final(manager), r),
{
    let k = match manager.focused_window_index() {
        Some(k) => k,
        None => {
            return false;
        },
    };
    if manager.windows[k].type_ != WindowType::Dock {
        let h = manager.windows[k].handle;
        manager.actions.push(DisplayAction::KillWindow(h));
    }
    false
}

fn swap_tags(manager: &mut Manager) -> (r: bool)
    ensures
        swap_tags_post(*old(manager), *final(manager), r),
{
    if manager.workspaces.len() < 2 || manager.focused_workspace_history.len() < 2 {
        return false;
    }
    let i0 = manager.focused_workspace_history[0];
    let i1 = manager.focused_workspace_history[1];
    if i0 >= manager.workspaces.len() || i1 >= manager.workspaces.len() {
        return false;
    }
    let a_tags = helpers::clone_tags(&manager.workspaces[i0].tags);
    let b_tags = helpers::clone_tags(&manager.workspaces[i1].tags);
    let a = Workspace {
        xyhw: manager.workspaces[i0].xyhw,
        tags: b_tags,
        layout: manager.workspaces[i0].layout,
    };
    let b = Workspace {
        xyhw: manager.workspaces[i1].xyhw,
        tags: a_tags,
        layout: manager.workspaces[i1].layout,
    };
    manager.workspaces[i0] = a;
    manager.workspaces[i1] = b;
    true
}

fn move_to_last_workspace(manager: &mut Manager) -> (r: bool)
    ensures
        move_to_last_workspace_post(*old(manager), *final(manager), r),
{
    if manager.workspaces.len() < 2 || manager.focused_workspace_history.len() < 2 {
        return false;
    }
    let i1 = manager.focused_workspace_history[1];
    if i1 >= manager.workspaces.len() {
        return false;
    }
    if manager.workspaces[i1].tags.len() == 0 {
        return false;
    }
    let k = match manager.focused_window_index() {
        Some(k) => k,
        None => {
            return false;
        },
    };
    let t = manager.workspaces[i1].tags[0].clone();
    let mut w = manager.windows[k].clone();
    w.clear_tags();
    w.tag(t);
    manager.windows[k] = w;
    proof {
        assert(final(manager).windows@[k as int].tags@ =~= seq![
            old(manager).workspaces@[i1 as int].tags@[0],
        ]);
    }
    true
}

fn cycle_layout(manager: &mut Manager, forward: bool) -> (r: bool)
    ensures
        layout_cycle_post(*old(manager), *final(manager), forward, r),
{
    let i = match manager.focused_workspace_index() {
        Some(i) => i,
        None => {
            return false;
        },
    };
    let mut ws = manager.workspaces[i].clone();
    if forward {
        ws.next_layout();
    } else {
        ws.prev_layout();
    }
    manager.workspaces[i] = ws;
    true
}

fn move_window(manager: &mut Manager, offset: i32) -> (r: bool)
    requires
        offset == -1i32 || offset == 1i32,
    ensures
        move_window_post(*old(manager), *final(manager), offset as int, r),
{
    let h = match manager.focused_window_index() {
        Some(_) => manager.focused_window_history[0],
        None => {
            return false;
        },
    };
    let tags = match manager.focused_workspace() {
        Some(w) => helpers::clone_tags(&w.tags),
        None => {
            return false;
        },
    };
    let mut group = helpers::vec_extract(&mut manager.windows, &tags);
    helpers::reorder_vec(&mut group, h, offset);
    manager.windows.append(&mut group);
    manager.actions.push(DisplayAction::MoveMouseOver(h));
    true
}

fn move_window_top(manager: &mut Manager) -> (r: bool)
    ensures
        move_window_top_post(*old(manager), *final(manager), r),
{
    let h = match manager.focused_window_index() {
        Some(_) => manager.focused_window_history[0],
        None => {
            return false;
        },
    };
    let tags = match manager.focused_workspace() {
        Some(w) => helpers::clone_tags(&w.tags),
        None => {
            return false;
        },
    };
    if !helpers::group_has_handle(&manager.windows, &tags, h) {
        return false;
    }
    let mut group = helpers::vec_extract(&mut manager.windows, &tags);
    let n = group.len();
    let idx = match helpers::find_handle(&group, h) {
        Some(i) => i,
        None => {
            // unreachable: the group was just checked to hold the handle
            proof {
                assert(false);
            }
            return false;
        },
    };
    proof {
        helpers::lemma_first_handle_match(group@, h);
    }
    let item = group.remove(idx);
    let ni: usize = if idx == 0 {
        if n == 1 {
            0
        } else {
            1
        }
    } else {
        0
    };
    group.insert(ni, item);
    manager.windows.append(&mut group);
    if idx > 0 {
        manager.actions.push(DisplayAction::MoveMouseOver(h));
    }
    true
}

fn focus_window_step(manager: &mut Manager, offset: i32) -> (r: bool)
    requires
        offset == -1i32 || offset == 1i32,
    ensures
        focus_window_step_post(*old(manager), *final(manager), offset as int, r),
{
    let h = match manager.focused_window_index() {
        Some(_) => manager.focused_window_history[0],
        None => {
            return false;
        },
    };
    let tags = match manager.focused_workspace() {
        Some(w) => helpers::clone_tags(&w.tags),
        None => {
            return false;
        },
    };
    let mut group = helpers::vec_extract(&mut manager.windows, &tags);
    match helpers::relative_find(&group, h, offset) {
        Some(nh) => {
            manager.actions.push(DisplayAction::MoveMouseOver(nh));
        },
        None => {},
    }
    manager.windows.append(&mut group);
    true
}

fn focus_workspace_step(manager: &mut Manager, offset: i32) -> (r: bool)
    requires
        offset == -1i32 || offset == 1i32,
    ensures
        focus_workspace_step_post(*old(manager), *final(manager), offset as int, r),
{
    let ci = match manager.focused_workspace_index() {
        Some(i) => i,
        None => {
            return false;
        },
    };
    let cur = manager.workspaces[ci].clone();
    proof {
        crate::workspace::lemma_ws_same_matches(cur, old(manager).workspaces@[ci as int]);
        assert(ws_matches(old(manager).workspaces@[ci as int], cur));
    }
    let i = match crate::workspace::find_workspace(&manager.workspaces, &cur) {
        Some(i) => i,
        None => {
            // unreachable: the focused workspace matches itself
            proof {
                assert(false);
            }
            return false;
        },
    };
    proof {
        crate::workspace::lemma_first_ws_match(manager.workspaces@, cur);
        assert forall|x: int| 0 <= x < manager.workspaces@.len() implies ws_matches(
            manager.workspaces@[x],
            cur,
        ) == ws_matches(
            manager.workspaces@[x],
            old(manager).workspaces@[ci as int],
        ) by {}
        crate::workspace::lemma_first_ws_match(
            manager.workspaces@,
            old(manager).workspaces@[ci as int],
        );
        assert(crate::workspace::is_first_ws_match(
            manager.workspaces@,
            old(manager).workspaces@[ci as int],
            i as int,
        ));
    }
    let n = manager.workspaces.len();
    let ti: usize = if offset == 1 {
        if i + 1 >= n {
            0
        } else {
            i + 1
        }
    } else {
        if i == 0 {
            n - 1
        } else {
            i - 1
        }
    };
    let target = manager.workspaces[ti].clone();
    proof {
        crate::workspace::lemma_ws_same_matches(target, old(manager).workspaces@[ti as int]);
        assert(ws_matches(old(manager).workspaces@[ti as int], target));
        crate::workspace::lemma_first_ws_exists(manager.workspaces@, target, ti as int);
        crate::workspace::lemma_first_ws_match(manager.workspaces@, target);
        assert forall|x: int| 0 <= x < manager.workspaces@.len() implies ws_matches(
            manager.workspaces@[x],
            target,
        ) == ws_matches(
            manager.workspaces@[x],
            old(manager).workspaces@[ti as int],
        ) by {}
        crate::workspace::lemma_first_ws_match(
            manager.workspaces@,
            old(manager).workspaces@[ti as int],
        );
        assert(crate::workspace::first_ws_match(manager.workspaces@, target)
            == crate::workspace::first_ws_match(
            manager.workspaces@,
            old(manager).workspaces@[ti as int],
        ));
    }
    focus_handler::focus_workspace(manager, &target);
    let c = target.xyhw.center();
    manager.actions.push(DisplayAction::MoveMouseOverPoint(c.0, c.1));
    match helpers::find_normal_displayed(&manager.windows, &target.tags) {
        Some(wi) => {
            proof {
                helpers::lemma_first_normal_exists(
                    manager.windows@,
                    target.tags@,
                    wi as int,
                );
                helpers::lemma_first_normal_displayed(manager.windows@, target.tags@);
            }
            let wh = manager.windows[wi].handle;
            focus_handler::focus_window(manager, wh);
            manager.actions.push(DisplayAction::MoveMouseOver(wh));
            proof {
                assert(final(manager).actions@.take(old(manager).actions@.len() as int)
                    =~= old(manager).actions@);
            }
        },
        None => {
            proof {
                assert(final(manager).actions@.take(old(manager).actions@.len() as int)
                    =~= old(manager).actions@);
            }
        },
    }
    true
}

// ---------------------------------------------------------------------------
// The dispatcher
// ---------------------------------------------------------------------------

/// Dispatches one user command against the manager.  Returns whether the
/// screen needs to be redrawn.  Invalid or inapplicable commands are
/// rejected before any mutation: they return `false` and leave the manager
/// exactly as it was.
///
/// Two commands only mark intent for the surrounding program: `Execute`
/// never touches the manager here — spawning is the program's own,
/// fire-and-forget concern — and the reload commands merely record which
/// reload is wanted.
pub fn process(manager: &mut Manager, command: Command, val: Option<String>) -> (r: bool)
    ensures
        process_post(*old(manager), *final(manager), command, val, r),
{
    match command {
        Command::MoveToTag => move_to_tag(manager, &val),
        Command::GotoTag => {
            if !is_num(&val) {
                false
            } else {
                goto_tag_handler::process(manager, to_num(&val))
            }
        },
        Command::FocusNextTag => focus_next_tag(manager),
        Command::FocusPreviousTag => focus_previous_tag(manager),
        Command::Execute => false,
        Command::CloseWindow => close_window(manager),
        Command::SwapTags => swap_tags(manager),
        Command::MoveToLastWorkspace => move_to_last_workspace(manager),
        Command::NextLayout => cycle_layout(manager, true),
        Command::PreviousLayout => cycle_layout(manager, false),
        Command::MoveWindowUp => move_window(manager, -1),
        Command::MoveWindowDown => move_window(manager, 1),
        Command::MoveWindowTop => move_window_top(manager),
        Command::FocusWindowUp => focus_window_step(manager, -1),
        Command::FocusWindowDown => focus_window_step(manager, 1),
        Command::FocusWorkspaceNext => focus_workspace_step(manager, 1),
        Command::FocusWorkspacePrevious => focus_workspace_step(manager, -1),
        Command::MouseMoveWindow => false,
        Command::SoftReload => {
            manager.soft_reload();
            false
        },
        Command::HardReload => {
            manager.hard_reload();
            false
        },
    }
}

} // verus!
