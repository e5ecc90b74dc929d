//! The per-tick pointer snapshot the simulation consumes.
//!
//! An external input layer samples the pointer once per frame and hands
//! the core its position and button edges; the core never reads devices.

use vstd::prelude::*;
use crate::geom::{Rect, DERIVED_LIMIT, FIELD_LIMIT};

verus! {

/// A type representing the state of Mouse events.
#[derive(Clone, Copy, PartialEq, Eq, Structural, Debug)]
pub struct Mouse {
    pub x: i64,
    pub y: i64,
    pub down: bool,
    pub up: bool,
}

impl Mouse {
    /// The pointer stays within the field band.
    pub open spec fn wf(self) -> bool {
        &&& -FIELD_LIMIT <= self.x <= FIELD_LIMIT
        &&& -FIELD_LIMIT <= self.y <= FIELD_LIMIT
    }

    /// Construct a new Mouse, at the origin with no events pending.
    pub fn new() -> (r: Mouse)
        ensures
            r == (Mouse { x: 0i64, y: 0i64, down: false, up: false }),
            r.wf(),
    {
        Mouse { x: 0, y: 0, down: false, up: false }
    }

    /// Returns the mouse x position.
    pub fn x(&self) -> (r: i64)
        ensures
            r == self.x,
    {
        self.x
    }

    /// Returns the mouse y position.
    pub fn y(&self) -> (r: i64)
        ensures
            r == self.y,
    {
        self.y
    }

    /// Returns true on a mousedown event.
    pub fn down(&self) -> (r: bool)
        ensures
            r == self.down,
    {
        self.down
    }

    /// Returns true on a mouseup event.
    pub fn up(&self) -> (r: bool)
        ensures
            r == self.up,
    {
        self.up
    }

    /// Update the state of the mouse from this frame's snapshot.
    pub fn update(&mut self, x: i64, y: i64, mouse_down: bool, mouse_up: bool)
        requires
            -FIELD_LIMIT <= x <= FIELD_LIMIT,
            -FIELD_LIMIT <= y <= FIELD_LIMIT,
        ensures
            *final(self) == (Mouse { x, y, down: mouse_down, up: mouse_up }),
            final(self).wf(),
    {
        self.x = x;
        self.y = y;
        self.down = mouse_down;
        self.up = mouse_up;
    }

    /// The pointer lies strictly inside the rectangle.
    pub open spec fn spec_inside(self, rect: Rect) -> bool {
        &&& self.x > rect.x
        &&& self.y > rect.y
        &&& self.x < rect.x + rect.w
        &&& self.y < rect.y + rect.h
    }

    /// Returns true if the mouse position is inside of the referenced Rect.
    pub fn inside(&self, rect: &Rect) -> (r: bool)
        requires
            rect.bounded(DERIVED_LIMIT as int),
        ensures
            r == self.spec_inside(*rect),
    {
        self.x > rect.x && self.y > rect.y && self.x < rect.x + rect.w && self.y < rect.y + rect.h
    }
}

} // verus!
