use vstd::prelude::*;
use crate::focus_handler;
use crate::manager::Manager;

verus! {

/// What going to tag number `tag_num` (1-based) does: a number outside
/// `1..=|tags|` is rejected and nothing changes; otherwise the addressed
/// tag is focused and a redraw is reported.
pub open spec fn goto_tag_post(m0: Manager, m1: Manager, tag_num: int, r: bool) -> bool {
    if !(1 <= tag_num <= m0.tags@.len()) {
        m1 == m0 && r == false
    } else {
        r == true && focus_handler::focus_tag_post(m0, m1, m0.tags@[tag_num - 1]@)
    }
}

/// Focuses the tag at the given 1-based position.
pub fn process(manager: &mut Manager, tag_num: usize) -> (r: bool)
    ensures
        goto_tag_post(*old(manager), *final(manager), tag_num as int, r),
{
    if tag_num < 1 || tag_num > manager.tags.len() {
        return false;
    }
    let t = manager.tags[tag_num - 1].clone();
    focus_handler::focus_tag(manager, t.as_str());
    true
}

} // verus!
