use vstd::prelude::*;
use crate::bbox::BBox;

verus! {

/// A physical output as the event layer reports it: its bounding box on the
/// output surface.
#[derive(Clone, Copy, Debug, Default, PartialEq, Eq, Structural)]
pub struct Screen {
    pub bbox: BBox,
}

} // verus!
