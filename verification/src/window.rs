use vstd::prelude::*;
use crate::bbox::BBox;

verus! {

/// Identity of a managed client window: unique and stable for the window's
/// lifetime.
#[derive(Clone, Copy, Debug, PartialEq, Eq, Structural)]
pub enum WindowHandle {
    MockHandle(i32),
}

/// The role a client window plays.  Dock windows (bars, panels) are never
/// part of a workspace's window group and are never killed by commands.
#[derive(Clone, Copy, Debug, PartialEq, Eq, Structural)]
pub enum WindowType {
    Normal,
    Dock,
}

/// A managed client window.  `tags` is the ordered set of tag labels the
/// window belongs to; the window is shown on every workspace whose tag list
/// intersects it.
pub struct Window {
    pub handle: WindowHandle,
    pub name: Option<String>,
    pub type_: WindowType,
    pub tags: Vec<String>,
    pub floating: bool,
    pub xyhw: BBox,
}

/// Value-level equality of two windows: every field equal, the tag vectors
/// equal element by element.  This is what [`Window::clone`] guarantees.
pub open spec fn win_same(a: Window, b: Window) -> bool {
    &&& a.handle == b.handle
    &&& a.name == b.name
    &&& a.type_ == b.type_
    &&& a.tags@ == b.tags@
    &&& a.floating == b.floating
    &&& a.xyhw == b.xyhw
}

impl Window {
    pub fn new(handle: WindowHandle, name: Option<String>) -> (w: Window)
        ensures
            w.handle == handle,
            w.name == name,
            w.type_ == WindowType::Normal,
            w.tags@ == Seq::<String>::empty(),
            w.floating == false,
            w.xyhw == (BBox { x: 0, y: 0, width: 0, height: 0 }),
    {
        Window {
            handle,
            name,
            type_: WindowType::Normal,
            tags: Vec::new(),
            floating: false,
            xyhw: BBox { x: 0, y: 0, width: 0, height: 0 },
        }
    }

    /// Removes every tag from the window.
    pub fn clear_tags(&mut self)
        ensures
            final(self).handle == old(self).handle,
            final(self).name == old(self).name,
            final(self).type_ == old(self).type_,
            final(self).tags@ == Seq::<String>::empty(),
            final(self).floating == old(self).floating,
            final(self).xyhw == old(self).xyhw,
    {
        self.tags.clear();
    }

    pub fn set_floating(&mut self, floating: bool)
        ensures
            final(self).handle == old(self).handle,
            final(self).name == old(self).name,
            final(self).type_ == old(self).type_,
            final(self).tags@ == old(self).tags@,
            final(self).floating == floating,
            final(self).xyhw == old(self).xyhw,
    {
        self.floating = floating;
    }

    /// Adds the window to the named tag.
    pub fn tag(&mut self, tag: String)
        ensures
            final(self).handle == old(self).handle,
            final(self).name == old(self).name,
            final(self).type_ == old(self).type_,
            final(self).tags@ == old(self).tags@.push(tag),
            final(self).floating == old(self).floating,
            final(self).xyhw == old(self).xyhw,
    {
        self.tags.push(tag);
    }
}

impl Clone for Window {
    fn clone(&self) -> (r: Self)
        ensures
            win_same(r, *self),
    {
        Window {
            handle: self.handle,
            name: match &self.name {
                Some(n) => Some(n.clone()),
                None => None,
            },
            type_: self.type_,
            tags: crate::helpers::clone_tags(&self.tags),
            floating: self.floating,
            xyhw: self.xyhw,
        }
    }
}

} // verus!
