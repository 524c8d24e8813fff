use vstd::prelude::*;
use crate::window::Window;
use crate::window::WindowHandle;
use crate::window::WindowType;

verus! {

// ---------------------------------------------------------------------------
// Tag labels
// ---------------------------------------------------------------------------

/// Some label in `tags` has exactly the text `t`.
pub open spec fn has_tag_content(tags: Seq<String>, t: Seq<char>) -> bool {
    exists|i: int| 0 <= i < tags.len() && tags[i]@ == t
}

/// The two tag lists share at least one label.
pub open spec fn tags_intersect(a: Seq<String>, b: Seq<String>) -> bool {
    exists|i: int| 0 <= i < a.len() && has_tag_content(b, a[i]@)
}

/// A workspace whose tag list is `ws_tags` displays `w`: the window's tags
/// intersect the workspace's and the window is not a dock.
pub open spec fn displayed_on(ws_tags: Seq<String>, w: Window) -> bool {
    tags_intersect(ws_tags, w.tags@) && w.type_ != WindowType::Dock
}

/// Character-for-character equality of two strings.
pub fn str_content_eq(a: &str, b: &str) -> (r: bool)
    ensures
        r == (a@ == b@),
{
    let n = a.unicode_len();
    let m = b.unicode_len();
    if n != m {
        return false;
    }
    let mut i: usize = 0;
    while i < n
        invariant
            n == a@.len(),
            n == b@.len(),
            i <= n,
            forall|k: int| 0 <= k < i ==> a@[k] == b@[k],
        decreases n - i,
    {
        if a.get_char(i) != b.get_char(i) {
            return false;
        }
        i += 1;
    }
    proof {
        assert(a@ =~= b@);
    }
    true
}

/// Whether some label in `tags` has exactly the text of `t`.
pub fn contains_tag(tags: &Vec<String>, t: &str) -> (r: bool)
    ensures
        r == has_tag_content(tags@, t@),
{
    let mut i: usize = 0;
    while i < tags.len()
        invariant
            i <= tags@.len(),
            forall|k: int| 0 <= k < i ==> tags@[k]@ != t@,
        decreases tags@.len() - i,
    {
        if str_content_eq(tags[i].as_str(), t) {
            return true;
        }
        i += 1;
    }
    false
}

/// Whether the two tag lists share at least one label.
pub fn intersect(a: &Vec<String>, b: &Vec<String>) -> (r: bool)
    ensures
        r == tags_intersect(a@, b@),
{
    let mut i: usize = 0;
    while i < a.len()
        invariant
            i <= a@.len(),
            forall|k: int| 0 <= k < i ==> !has_tag_content(b@, a@[k]@),
        decreases a@.len() - i,
    {
        if contains_tag(b, a[i].as_str()) {
            return true;
        }
        i += 1;
    }
    false
}

/// Copy of a tag list; the copy holds equal labels in the same order.
pub fn clone_tags(v: &Vec<String>) -> (r: Vec<String>)
    ensures
        r@ == v@,
{
    let mut r: Vec<String> = Vec::new();
    let mut i: usize = 0;
    while i < v.len()
        invariant
            i <= v@.len(),
            r@ == v@.take(i as int),
        decreases v@.len() - i,
    {
        r.push(v[i].clone());
        proof {
            assert(v@.take(i as int + 1) =~= v@.take(i as int).push(v@[i as int]));
        }
        i += 1;
    }
    proof {
        assert(v@.take(v@.len() as int) =~= v@);
    }
    r
}

/// `i` is the position of the first label in `tags` with text `t`.
pub open spec fn is_first_tag_match(tags: Seq<String>, t: Seq<char>, i: int) -> bool {
    &&& 0 <= i < tags.len()
    &&& tags[i]@ == t
    &&& forall|k: int| 0 <= k < i ==> tags[k]@ != t
}

/// The position of the first label in `tags` with text `t`; meaningful
/// only when [`has_tag_content`] holds.
pub open spec fn first_tag_match(tags: Seq<String>, t: Seq<char>) -> int {
    choose|i: int| is_first_tag_match(tags, t, i)
}

pub proof fn lemma_first_tag_exists(tags: Seq<String>, t: Seq<char>, j: int)
    requires
        0 <= j < tags.len(),
        tags[j]@ == t,
    ensures
        exists|i: int| is_first_tag_match(tags, t, i),
    decreases j,
{
    if forall|k: int| 0 <= k < j ==> tags[k]@ != t {
        assert(is_first_tag_match(tags, t, j));
    } else {
        let k = choose|k: int| 0 <= k < j && tags[k]@ == t;
        lemma_first_tag_exists(tags, t, k);
    }
}

pub proof fn lemma_first_tag_match(tags: Seq<String>, t: Seq<char>)
    requires
        has_tag_content(tags, t),
    ensures
        is_first_tag_match(tags, t, first_tag_match(tags, t)),
        forall|i: int| is_first_tag_match(tags, t, i) ==> i == first_tag_match(tags, t),
{
    let j = choose|i: int| 0 <= i < tags.len() && tags[i]@ == t;
    lemma_first_tag_exists(tags, t, j);
    let f = first_tag_match(tags, t);
    assert(is_first_tag_match(tags, t, f));
    assert forall|i: int| is_first_tag_match(tags, t, i) implies i == f by {
        if i < f {
            assert(tags[i]@ != t);
        }
        if i > f {
            assert(tags[f]@ != t);
        }
    }
}

/// The position of the first label in `tags` with the text of `t`.
pub fn find_tag(tags: &Vec<String>, t: &str) -> (r: Option<usize>)
    ensures
        match r {
            Some(i) => is_first_tag_match(tags@, t@, i as int),
            None => !has_tag_content(tags@, t@),
        },
{
    let mut i: usize = 0;
    while i < tags.len()
        invariant
            i <= tags@.len(),
            forall|k: int| 0 <= k < i ==> tags@[k]@ != t@,
        decreases tags@.len() - i,
    {
        if str_content_eq(tags[i].as_str(), t) {
            return Some(i);
        }
        i += 1;
    }
    None
}

// ---------------------------------------------------------------------------
// Splitting a window list into the active-workspace group and the rest
// ---------------------------------------------------------------------------

/// The subsequence of `s` displayed on a workspace with tags `t`, in order.
pub open spec fn displayed_part(s: Seq<Window>, t: Seq<String>) -> Seq<Window>
    decreases s.len(),
{
    if s.len() == 0 {
        Seq::empty()
    } else {
        let p = displayed_part(s.drop_last(), t);
        if displayed_on(t, s.last()) {
            p.push(s.last())
        } else {
            p
        }
    }
}

/// The subsequence of `s` not displayed on a workspace with tags `t`.
pub open spec fn hidden_part(s: Seq<Window>, t: Seq<String>) -> Seq<Window>
    decreases s.len(),
{
    if s.len() == 0 {
        Seq::empty()
    } else {
        let p = hidden_part(s.drop_last(), t);
        if displayed_on(t, s.last()) {
            p
        } else {
            p.push(s.last())
        }
    }
}

/// Whether the window is displayed on a workspace with the given tags.
pub fn window_on_tags(w: &Window, ws_tags: &Vec<String>) -> (r: bool)
    ensures
        r == displayed_on(ws_tags@, *w),
{
    if w.type_ == WindowType::Dock {
        false
    } else {
        intersect(ws_tags, &w.tags)
    }
}

/// Removes from `list` every window displayed on a workspace with tags
/// `ws_tags` and returns them, both sides keeping their relative order.
pub fn vec_extract(list: &mut Vec<Window>, ws_tags: &Vec<String>) -> (r: Vec<Window>)
    ensures
        r@ == displayed_part(old(list)@, ws_tags@),
        final(list)@ == hidden_part(old(list)@, ws_tags@),
{
    let ghost orig: Seq<Window> = list@;
    let mut taken: Vec<Window> = Vec::new();
    let mut kept: Vec<Window> = Vec::new();
    while list.len() > 0
        invariant
            list@.len() <= orig.len(),
            list@ == orig.skip(orig.len() - list@.len()),
            taken@ == displayed_part(orig.take(orig.len() - list@.len()), ws_tags@),
            kept@ == hidden_part(orig.take(orig.len() - list@.len()), ws_tags@),
        decreases list@.len(),
    {
        let ghost k = orig.len() - list@.len();
        proof {
            assert(list@[0] == orig.skip(k as int)[0]);
        }
        let w = list.remove(0);
        proof {
            assert(w == orig[k as int]);
            assert(list@ =~= orig.skip(k as int + 1));
            assert(orig.take(k as int + 1).drop_last() =~= orig.take(k as int));
            assert(orig.take(k as int + 1).last() == orig[k as int]);
        }
        if window_on_tags(&w, ws_tags) {
            taken.push(w);
        } else {
            kept.push(w);
        }
    }
    proof {
        assert(orig.take(orig.len() as int) =~= orig);
        assert(Seq::<Window>::empty() + kept@ =~= kept@);
    }
    list.append(&mut kept);
    taken
}

/// Splitting distributes over concatenation.
pub proof fn lemma_parts_add(a: Seq<Window>, b: Seq<Window>, t: Seq<String>)
    ensures
        displayed_part(a + b, t) == displayed_part(a, t) + displayed_part(b, t),
        hidden_part(a + b, t) == hidden_part(a, t) + hidden_part(b, t),
    decreases b.len(),
{
    if b.len() == 0 {
        assert(a + b =~= a);
        assert(displayed_part(a, t) + displayed_part(b, t) =~= displayed_part(a, t));
        assert(hidden_part(a, t) + hidden_part(b, t) =~= hidden_part(a, t));
    } else {
        assert((a + b).drop_last() =~= a + b.drop_last());
        lemma_parts_add(a, b.drop_last(), t);
        assert((a + b).last() == b.last());
        if displayed_on(t, b.last()) {
            assert((displayed_part(a, t) + displayed_part(b.drop_last(), t)).push(b.last()) =~= (
            displayed_part(a, t) + displayed_part(b.drop_last(), t).push(b.last())));
        } else {
            assert((hidden_part(a, t) + hidden_part(b.drop_last(), t)).push(b.last()) =~= (
            hidden_part(a, t) + hidden_part(b.drop_last(), t).push(b.last())));
        }
    }
}

/// Every window of the displayed part is displayed; every window of the
/// hidden part is not.
pub proof fn lemma_parts_pred(s: Seq<Window>, t: Seq<String>)
    ensures
        forall|i: int|
            0 <= i < displayed_part(s, t).len() ==> displayed_on(t, #[trigger] displayed_part(s, t)[i]),
        forall|i: int|
            0 <= i < hidden_part(s, t).len() ==> !displayed_on(t, #[trigger] hidden_part(s, t)[i]),
    decreases s.len(),
{
    if s.len() > 0 {
        lemma_parts_pred(s.drop_last(), t);
        let dd = displayed_part(s.drop_last(), t);
        let hd = hidden_part(s.drop_last(), t);
        assert forall|i: int| 0 <= i < displayed_part(s, t).len() implies displayed_on(
            t,
            #[trigger] displayed_part(s, t)[i],
        ) by {
            if i < dd.len() {
                assert(displayed_part(s, t)[i] == dd[i]);
            } else {
                assert(displayed_part(s, t)[i] == s.last());
            }
        }
        assert forall|i: int| 0 <= i < hidden_part(s, t).len() implies !displayed_on(
            t,
            #[trigger] hidden_part(s, t)[i],
        ) by {
            if i < hd.len() {
                assert(hidden_part(s, t)[i] == hd[i]);
            } else {
                assert(hidden_part(s, t)[i] == s.last());
            }
        }
    }
}

/// A sequence whose windows are all displayed splits into itself and
/// nothing; one whose windows are all hidden splits the other way.
pub proof fn lemma_parts_all(s: Seq<Window>, t: Seq<String>)
    ensures
        (forall|i: int| 0 <= i < s.len() ==> displayed_on(t, #[trigger] s[i])) ==> displayed_part(
            s,
            t,
        ) == s && hidden_part(s, t) == Seq::<Window>::empty(),
        (forall|i: int| 0 <= i < s.len() ==> !displayed_on(t, #[trigger] s[i])) ==> hidden_part(
            s,
            t,
        ) == s && displayed_part(s, t) == Seq::<Window>::empty(),
    decreases s.len(),
{
    if s.len() > 0 {
        lemma_parts_all(s.drop_last(), t);
        if forall|i: int| 0 <= i < s.len() ==> displayed_on(t, #[trigger] s[i]) {
            assert(forall|i: int|
                0 <= i < s.drop_last().len() ==> displayed_on(t, #[trigger] s.drop_last()[i]));
            assert(displayed_part(s, t) =~= s);
        }
        if forall|i: int| 0 <= i < s.len() ==> !displayed_on(t, #[trigger] s[i]) {
            assert(forall|i: int|
                0 <= i < s.drop_last().len() ==> !displayed_on(t, #[trigger] s.drop_last()[i]));
            assert(hidden_part(s, t) =~= s);
        }
    }
}

/// Whether the displayed part of `windows` holds a window with handle `h`.
pub fn group_has_handle(windows: &Vec<Window>, ws_tags: &Vec<String>, h: WindowHandle) -> (r: bool)
    ensures
        r == has_handle(displayed_part(windows@, ws_tags@), h),
{
    let mut i: usize = 0;
    while i < windows.len()
        invariant
            i <= windows@.len(),
            !has_handle(displayed_part(windows@.take(i as int), ws_tags@), h),
        decreases windows@.len() - i,
    {
        proof {
            assert(windows@.take(i as int + 1).drop_last() =~= windows@.take(i as int));
            assert(windows@.take(i as int + 1).last() == windows@[i as int]);
        }
        let on = window_on_tags(&windows[i], ws_tags);
        if on && windows[i].handle == h {
            proof {
                let g1 = displayed_part(windows@.take(i as int + 1), ws_tags@);
                assert(g1.last().handle == h);
                assert(has_handle(g1, h));
                assert(windows@ =~= windows@.take(i as int + 1) + windows@.skip(i as int + 1));
                lemma_parts_add(
                    windows@.take(i as int + 1),
                    windows@.skip(i as int + 1),
                    ws_tags@,
                );
                let g = displayed_part(windows@, ws_tags@);
                let j = choose|j: int| 0 <= j < g1.len() && g1[j].handle == h;
                assert(g[j].handle == h);
            }
            return true;
        }
        proof {
            let g1 = displayed_part(windows@.take(i as int + 1), ws_tags@);
            let g0 = displayed_part(windows@.take(i as int), ws_tags@);
            assert forall|j: int| 0 <= j < g1.len() implies g1[j].handle != h by {
                if j < g0.len() {
                    assert(g1[j] == g0[j]);
                }
            }
        }
        i += 1;
    }
    proof {
        assert(windows@.take(windows@.len() as int) =~= windows@);
    }
    false
}

/// `i` is the position of the first normal-type window in `s` whose tags
/// intersect `t`.
pub open spec fn is_first_normal_displayed(s: Seq<Window>, t: Seq<String>, i: int) -> bool {
    &&& 0 <= i < s.len()
    &&& tags_intersect(t, s[i].tags@)
    &&& s[i].type_ == WindowType::Normal
    &&& forall|k: int|
        0 <= k < i ==> !(tags_intersect(t, s[k].tags@) && s[k].type_ == WindowType::Normal)
}

/// Some normal-type window in `s` has tags intersecting `t`.
pub open spec fn has_normal_displayed(s: Seq<Window>, t: Seq<String>) -> bool {
    exists|i: int|
        0 <= i < s.len() && tags_intersect(t, s[i].tags@) && s[i].type_ == WindowType::Normal
}

/// The position of the first normal-type window in `s` whose tags
/// intersect `t`; meaningful only when [`has_normal_displayed`] holds.
pub open spec fn first_normal_displayed(s: Seq<Window>, t: Seq<String>) -> int {
    choose|i: int| is_first_normal_displayed(s, t, i)
}

pub proof fn lemma_first_normal_exists(s: Seq<Window>, t: Seq<String>, j: int)
    requires
        0 <= j < s.len(),
        tags_intersect(t, s[j].tags@),
        s[j].type_ == WindowType::Normal,
    ensures
        exists|i: int| is_first_normal_displayed(s, t, i),
    decreases j,
{
    if forall|k: int|
        0 <= k < j ==> !(tags_intersect(t, s[k].tags@) && s[k].type_ == WindowType::Normal) {
        assert(is_first_normal_displayed(s, t, j));
    } else {
        let k = choose|k: int|
            0 <= k < j && tags_intersect(t, s[k].tags@) && s[k].type_ == WindowType::Normal;
        lemma_first_normal_exists(s, t, k);
    }
}

pub proof fn lemma_first_normal_displayed(s: Seq<Window>, t: Seq<String>)
    requires
        has_normal_displayed(s, t),
    ensures
        is_first_normal_displayed(s, t, first_normal_displayed(s, t)),
        forall|i: int| is_first_normal_displayed(s, t, i) ==> i == first_normal_displayed(s, t),
{
    let j = choose|i: int|
        0 <= i < s.len() && tags_intersect(t, s[i].tags@) && s[i].type_ == WindowType::Normal;
    lemma_first_normal_exists(s, t, j);
    let f = first_normal_displayed(s, t);
    assert(is_first_normal_displayed(s, t, f));
    assert forall|i: int| is_first_normal_displayed(s, t, i) implies i == f by {
        if i < f {
            assert(!(tags_intersect(t, s[i].tags@) && s[i].type_ == WindowType::Normal));
        }
        if i > f {
            assert(!(tags_intersect(t, s[f].tags@) && s[f].type_ == WindowType::Normal));
        }
    }
}

/// The position of the first normal-type window in `windows` whose tags
/// intersect `ws_tags`.
pub fn find_normal_displayed(windows: &Vec<Window>, ws_tags: &Vec<String>) -> (r: Option<usize>)
    ensures
        match r {
            Some(i) => is_first_normal_displayed(windows@, ws_tags@, i as int),
            None => !has_normal_displayed(windows@, ws_tags@),
        },
{
    let mut i: usize = 0;
    while i < windows.len()
        invariant
            i <= windows@.len(),
            forall|k: int|
                0 <= k < i ==> !(tags_intersect(ws_tags@, windows@[k].tags@) && windows@[k].type_
                    == WindowType::Normal),
        decreases windows@.len() - i,
    {
        if windows[i].type_ == WindowType::Normal && intersect(ws_tags, &windows[i].tags) {
            return Some(i);
        }
        i += 1;
    }
    None
}

// ---------------------------------------------------------------------------
// Finding a window by handle, and moving it cyclically
// ---------------------------------------------------------------------------

/// Some window in `s` has handle `h`.
pub open spec fn has_handle(s: Seq<Window>, h: WindowHandle) -> bool {
    exists|i: int| 0 <= i < s.len() && s[i].handle == h
}

/// `i` is the position of the first window in `s` with handle `h`.
pub open spec fn is_first_handle_match(s: Seq<Window>, h: WindowHandle, i: int) -> bool {
    &&& 0 <= i < s.len()
    &&& s[i].handle == h
    &&& forall|k: int| 0 <= k < i ==> s[k].handle != h
}

/// The position of the first window in `s` with handle `h`; meaningful only
/// when [`has_handle`] holds.
pub open spec fn first_handle_match(s: Seq<Window>, h: WindowHandle) -> int {
    choose|i: int| is_first_handle_match(s, h, i)
}

pub proof fn lemma_first_exists(s: Seq<Window>, h: WindowHandle, j: int)
    requires
        0 <= j < s.len(),
        s[j].handle == h,
    ensures
        exists|i: int| is_first_handle_match(s, h, i),
    decreases j,
{
    if forall|k: int| 0 <= k < j ==> s[k].handle != h {
        assert(is_first_handle_match(s, h, j));
    } else {
        let k = choose|k: int| 0 <= k < j && s[k].handle == h;
        lemma_first_exists(s, h, k);
    }
}

pub proof fn lemma_first_handle_match(s: Seq<Window>, h: WindowHandle)
    requires
        has_handle(s, h),
    ensures
        is_first_handle_match(s, h, first_handle_match(s, h)),
        forall|i: int| is_first_handle_match(s, h, i) ==> i == first_handle_match(s, h),
{
    let j = choose|i: int| 0 <= i < s.len() && s[i].handle == h;
    lemma_first_exists(s, h, j);
    let f = first_handle_match(s, h);
    assert(is_first_handle_match(s, h, f));
    assert forall|i: int| is_first_handle_match(s, h, i) implies i == f by {
        if i < f {
            assert(s[i].handle != h);
        }
        if i > f {
            assert(s[f].handle != h);
        }
    }
}

/// The position of the first window in `list` with handle `h`.
pub fn find_handle(list: &Vec<Window>, h: WindowHandle) -> (r: Option<usize>)
    ensures
        match r {
            Some(i) => is_first_handle_match(list@, h, i as int),
            None => !has_handle(list@, h),
        },
{
    let mut i: usize = 0;
    while i < list.len()
        invariant
            i <= list@.len(),
            forall|k: int| 0 <= k < i ==> list@[k].handle != h,
        decreases list@.len() - i,
    {
        if list[i].handle == h {
            return Some(i);
        }
        i += 1;
    }
    None
}

/// Position `off` steps away from `j` in a sequence of length `n`, wrapping
/// at both ends; meaningful for `-n <= off <= n`.
pub open spec fn wrap_index(j: int, off: int, n: int) -> int {
    if j + off < 0 {
        j + off + n
    } else if j + off >= n {
        j + off - n
    } else {
        j + off
    }
}

/// The sequence with the first window carrying handle `h` moved by `off`
/// positions, wrapping at both ends; unchanged when no window matches.
pub open spec fn cyclic_shifted(s: Seq<Window>, h: WindowHandle, off: int) -> Seq<Window> {
    if !has_handle(s, h) {
        s
    } else {
        let j = first_handle_match(s, h);
        s.remove(j).insert(wrap_index(j, off, s.len() as int), s[j])
    }
}

/// Moves the first window with handle `h` one position up (`offset == -1`)
/// or down (`offset == 1`), wrapping at both ends of the list.
pub fn reorder_vec(list: &mut Vec<Window>, h: WindowHandle, offset: i32)
    requires
        offset == -1i32 || offset == 1i32,
    ensures
        final(list)@ == cyclic_shifted(old(list)@, h, offset as int),
{
    let n = list.len();
    let idx = match find_handle(list, h) {
        Some(i) => i,
        None => {
            return ;
        },
    };
    proof {
        lemma_first_handle_match(list@, h);
    }
    let item = list.remove(idx);
    let new_index: usize = if offset == 1 {
        if idx + 1 >= n {
            0
        } else {
            idx + 1
        }
    } else {
        if idx == 0 {
            n - 1
        } else {
            idx - 1
        }
    };
    list.insert(new_index, item);
}

/// The handle of the window `offset` steps away from the first window with
/// handle `h`, wrapping at both ends; `None` when no window matches.
pub fn relative_find(list: &Vec<Window>, h: WindowHandle, offset: i32) -> (r: Option<WindowHandle>)
    requires
        offset == -1i32 || offset == 1i32,
    ensures
        match r {
            Some(nh) => has_handle(list@, h) && nh == list@[wrap_index(
                first_handle_match(list@, h),
                offset as int,
                list@.len() as int,
            )].handle,
            None => !has_handle(list@, h),
        },
{
    let n = list.len();
    let idx = match find_handle(list, h) {
        Some(i) => i,
        None => {
            return None;
        },
    };
    proof {
        lemma_first_handle_match(list@, h);
    }
    let new_index: usize = if offset == 1 {
        if idx + 1 >= n {
            0
        } else {
            idx + 1
        }
    } else {
        if idx == 0 {
            n - 1
        } else {
            idx - 1
        }
    };
    Some(list[new_index].handle)
}

} // verus!
