use vstd::prelude::*;
use crate::bbox::BBox;
use crate::helpers;
use crate::window::Window;

verus! {

/// How many layouts a workspace cycles through with the layout commands.
pub const LAYOUT_COUNT: usize = 4;

/// A screen region with an assigned list of tag labels and a layout
/// selector.  The windows a workspace displays are exactly those whose tag
/// set intersects `tags` and whose type is not a dock.
pub struct Workspace {
    pub xyhw: BBox,
    pub tags: Vec<String>,
    pub layout: usize,
}

/// Value-level equality of two workspaces: every field equal, the tag
/// vectors equal element by element.  This is what [`Workspace::clone`]
/// guarantees.
pub open spec fn ws_same(a: Workspace, b: Workspace) -> bool {
    a.xyhw == b.xyhw && a.layout == b.layout && a.tags@ == b.tags@
}

/// Structural equality as commands observe it: same geometry, same layout,
/// and tag labels with equal text in the same order.
pub open spec fn ws_matches(a: Workspace, b: Workspace) -> bool {
    &&& a.xyhw == b.xyhw
    &&& a.layout == b.layout
    &&& a.tags@.len() == b.tags@.len()
    &&& forall|i: int| 0 <= i < a.tags@.len() ==> a.tags@[i]@ == b.tags@[i]@
}

/// The layout selector after cycling forward once.
pub open spec fn next_layout_of(l: int) -> int {
    if l + 1 >= LAYOUT_COUNT {
        0
    } else {
        l + 1
    }
}

/// The layout selector after cycling backward once.
pub open spec fn prev_layout_of(l: int) -> int {
    if l == 0 || l >= LAYOUT_COUNT {
        LAYOUT_COUNT - 1
    } else {
        l - 1
    }
}

impl Workspace {
    pub fn new(bbox: BBox) -> (w: Workspace)
        ensures
            w.xyhw == bbox,
            w.tags@ == Seq::<String>::empty(),
            w.layout == 0,
    {
        Workspace { xyhw: bbox, tags: Vec::new(), layout: 0 }
    }

    /// Cycles the layout selector forward, wrapping at [`LAYOUT_COUNT`].
    pub fn next_layout(&mut self)
        ensures
            final(self).xyhw == old(self).xyhw,
            final(self).tags@ == old(self).tags@,
            final(self).layout == next_layout_of(old(self).layout as int),
    {
        if self.layout >= LAYOUT_COUNT - 1 {
            self.layout = 0;
        } else {
            self.layout = self.layout + 1;
        }
    }

    /// Cycles the layout selector backward, wrapping at zero.
    pub fn prev_layout(&mut self)
        ensures
            final(self).xyhw == old(self).xyhw,
            final(self).tags@ == old(self).tags@,
            final(self).layout == prev_layout_of(old(self).layout as int),
    {
        if self.layout == 0 || self.layout >= LAYOUT_COUNT {
            self.layout = LAYOUT_COUNT - 1;
        } else {
            self.layout = self.layout - 1;
        }
    }

    /// Whether this workspace displays the window: tag intersection alone,
    /// without regard to the window's type.
    pub fn is_displaying(&self, w: &Window) -> (r: bool)
        ensures
            r == helpers::tags_intersect(self.tags@, w.tags@),
    {
        helpers::intersect(&self.tags, &w.tags)
    }
}

impl Clone for Workspace {
    fn clone(&self) -> (r: Self)
        ensures
            ws_same(r, *self),
    {
        Workspace {
            xyhw: self.xyhw,
            tags: helpers::clone_tags(&self.tags),
            layout: self.layout,
        }
    }
}

/// Value-level workspace equality implies the structural equality that
/// workspace lookups use.
pub proof fn lemma_ws_same_matches(a: Workspace, b: Workspace)
    requires
        ws_same(a, b),
    ensures
        ws_matches(a, b),
{
}

/// Some workspace in `s` is structurally equal to `t`.
pub open spec fn has_ws_match(s: Seq<Workspace>, t: Workspace) -> bool {
    exists|i: int| 0 <= i < s.len() && ws_matches(s[i], t)
}

/// `i` is the position of the first workspace in `s` structurally equal to
/// `t`.
pub open spec fn is_first_ws_match(s: Seq<Workspace>, t: Workspace, i: int) -> bool {
    &&& 0 <= i < s.len()
    &&& ws_matches(s[i], t)
    &&& forall|k: int| 0 <= k < i ==> !ws_matches(s[k], t)
}

/// The position of the first workspace in `s` structurally equal to `t`;
/// meaningful only when [`has_ws_match`] holds.
pub open spec fn first_ws_match(s: Seq<Workspace>, t: Workspace) -> int {
    choose|i: int| is_first_ws_match(s, t, i)
}

pub proof fn lemma_first_ws_exists(s: Seq<Workspace>, t: Workspace, j: int)
    requires
        0 <= j < s.len(),
        ws_matches(s[j], t),
    ensures
        exists|i: int| is_first_ws_match(s, t, i),
    decreases j,
{
    if forall|k: int| 0 <= k < j ==> !ws_matches(s[k], t) {
        assert(is_first_ws_match(s, t, j));
    } else {
        let k = choose|k: int| 0 <= k < j && ws_matches(s[k], t);
        lemma_first_ws_exists(s, t, k);
    }
}

pub proof fn lemma_first_ws_match(s: Seq<Workspace>, t: Workspace)
    requires
        has_ws_match(s, t),
    ensures
        is_first_ws_match(s, t, first_ws_match(s, t)),
        forall|i: int| is_first_ws_match(s, t, i) ==> i == first_ws_match(s, t),
{
    let j = choose|i: int| 0 <= i < s.len() && ws_matches(s[i], t);
    lemma_first_ws_exists(s, t, j);
    let f = first_ws_match(s, t);
    assert(is_first_ws_match(s, t, f));
    assert forall|i: int| is_first_ws_match(s, t, i) implies i == f by {
        if i < f {
            assert(!ws_matches(s[i], t));
        }
        if i > f {
            assert(!ws_matches(s[f], t));
        }
    }
}

/// The position of the first workspace in `list` structurally equal to `t`.
pub fn find_workspace(list: &Vec<Workspace>, t: &Workspace) -> (r: Option<usize>)
    ensures
        match r {
            Some(i) => is_first_ws_match(list@, *t, i as int),
            None => !has_ws_match(list@, *t),
        },
{
    let mut i: usize = 0;
    while i < list.len()
        invariant
            i <= list@.len(),
            forall|k: int| 0 <= k < i ==> !ws_matches(list@[k], *t),
        decreases list@.len() - i,
    {
        if workspace_eq(&list[i], t) {
            return Some(i);
        }
        i += 1;
    }
    None
}

/// Whether two workspaces are structurally equal.
pub fn workspace_eq(a: &Workspace, b: &Workspace) -> (r: bool)
    ensures
        r == ws_matches(*a, *b),
{
    if a.xyhw != b.xyhw || a.layout != b.layout || a.tags.len() != b.tags.len() {
        return false;
    }
    let mut i: usize = 0;
    while i < a.tags.len()
        invariant
            i <= a.tags@.len(),
            a.tags@.len() == b.tags@.len(),
            a.xyhw == b.xyhw,
            a.layout == b.layout,
            forall|k: int| 0 <= k < i ==> a.tags@[k]@ == b.tags@[k]@,
        decreases a.tags@.len() - i,
    {
        if !helpers::str_content_eq(a.tags[i].as_str(), b.tags[i].as_str()) {
            return false;
        }
        i += 1;
    }
    true
}

} // verus!
