//! Small additions to the geometry types: a width/height pair and a
//! center-anchored move for rectangles.

use crate::geometry::{Rect, RectV, Vec2, COORD_LIMIT};
use vstd::prelude::*;

verus! {

/// A width/height pair, used for configured tile and window dimensions.
pub struct Square<T> {
    pub width: T,
    pub height: T,
}

/// Extra rectangle operations.
pub trait RectExtensions: Sized {
    /// Move the rectangle so that its center lands on `destination`
    /// (rounded towards the top-left on odd extents).
    fn move_center(&mut self, destination: Vec2)
        requires
            old(self).wf_for_move_center(),
            -COORD_LIMIT <= destination.x <= COORD_LIMIT,
            -COORD_LIMIT <= destination.y <= COORD_LIMIT,
        ensures
            final(self).center_moved(*old(self), destination),
    ;

    spec fn wf_for_move_center(&self) -> bool;

    spec fn center_moved(&self, from: Self, destination: Vec2) -> bool;
}

impl RectExtensions for Rect {
    open spec fn wf_for_move_center(&self) -> bool {
        self@.wf()
    }

    open spec fn center_moved(&self, from: Self, destination: Vec2) -> bool {
        self@ == from@.moved_to(
            crate::geometry::Vec2V {
                x: destination@.x - from@.w / 2,
                y: destination@.y - from@.h / 2,
            },
        )
    }

    fn move_center(&mut self, destination: Vec2) {
        let point_destination = Vec2 {
            x: destination.x - self.w / 2,
            y: destination.y - self.h / 2,
        };
        self.move_to(point_destination);
    }
}

} // verus!
