//! Rendering core for bordered, titled rectangular frames on a grid of
//! styled character cells: border drawing with box-glyph merging between
//! adjacent frames, inner-content-area computation, and title placement.

use vstd::prelude::*;

pub mod block;
pub mod borders;
pub mod buffer;
pub mod geometry;
pub mod padding;
pub mod style;
pub mod symbols;
pub mod title;

use crate::block::Block;
use crate::geometry::Rect;

verus! {

/// Convenience over an optional frame, for widgets that may or may not
/// carry one.
pub trait BlockExt {
    /// The content area the optional frame leaves of `area`.
    spec fn spec_inner_if_some(&self, area: Rect) -> Rect;

    /// Returns the inner area of the frame when one is present, otherwise
    /// `area` itself.
    fn inner_if_some(&self, area: Rect) -> (r: Rect)
        ensures
            r == self.spec_inner_if_some(area),
    ;
}

impl BlockExt for Option<Block> {
    open spec fn spec_inner_if_some(&self, area: Rect) -> Rect {
        match self {
            Some(block) => block.spec_inner(area),
            None => area,
        }
    }

    fn inner_if_some(&self, area: Rect) -> (r: Rect) {
        match self {
            Some(block) => block.inner(area),
            None => area,
        }
    }
}

} // verus!
