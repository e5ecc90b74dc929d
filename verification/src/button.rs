//! Toolbar and per-tower buttons: pure input descriptors.
//!
//! A button is a rectangle the pointer can hit, a kind saying what it
//! does, a content key the renderer maps to a sprite or a label, and a
//! selected flag. The simulation reads and toggles buttons; it never
//! draws them.

use vstd::prelude::*;
use crate::geom::{Rect, DERIVED_LIMIT};

verus! {

/// A variant type denoting the purpose of a button.
#[derive(Clone, Copy, PartialEq, Eq, Structural, Debug)]
pub enum ButtonType {
    WaterGun,
    AcidTower,
    SodaMaker,
    Upgrade,
    Delete,
    Other,
}

/// A clickable affordance: toolbar entries and the per-tower
/// upgrade/delete buttons.
#[derive(Clone, Debug)]
pub struct Button {
    pub rect: Rect,
    pub variant: ButtonType,
    /// Sprite key or label the renderer shows; the core never reads it.
    pub content: &'static str,
    pub selected: bool,
}

impl Button {
    /// The button's rectangle stays hit-testable: within the derived band.
    pub open spec fn wf(self) -> bool {
        self.rect.bounded(DERIVED_LIMIT as int)
    }

    /// Constructs a custom Button.
    pub fn new(rect: Rect, variant: ButtonType, content: &'static str) -> (r: Button)
        ensures
            r == (Button { rect, variant, content, selected: false }),
    {
        Button { rect, variant, content, selected: false }
    }

    /// Constructs a new Upgrade Button.
    pub fn new_upgrade(rect: Rect) -> (r: Button)
        ensures
            r.rect == rect,
            r.variant == ButtonType::Upgrade,
            !r.selected,
    {
        Button::new(rect, ButtonType::Upgrade, "Upgrade")
    }

    /// Constructs a new Delete Button.
    pub fn new_delete(rect: Rect) -> (r: Button)
        ensures
            r.rect == rect,
            r.variant == ButtonType::Delete,
            !r.selected,
    {
        Button::new(rect, ButtonType::Delete, "Delete")
    }

    /// Returns the x position of the Button.
    pub fn x(&self) -> (r: i64)
        ensures
            r == self.rect.x,
    {
        self.rect.x
    }

    /// Returns the y position of the Button.
    pub fn y(&self) -> (r: i64)
        ensures
            r == self.rect.y,
    {
        self.rect.y
    }

    /// Returns the width of the Button.
    pub fn w(&self) -> (r: i64)
        ensures
            r == self.rect.w,
    {
        self.rect.w
    }

    /// Returns the height of the Button.
    pub fn h(&self) -> (r: i64)
        ensures
            r == self.rect.h,
    {
        self.rect.h
    }

    /// Returns a reference to the Rect field of the Button.
    pub fn rect(&self) -> (r: &Rect)
        ensures
            r == &self.rect,
    {
        &self.rect
    }

    /// Returns the type of the Button.
    pub fn button_type(&self) -> (r: ButtonType)
        ensures
            r == self.variant,
    {
        self.variant
    }

    /// Returns whether or not the Button is selected.
    pub fn selected(&self) -> (r: bool)
        ensures
            r == self.selected,
    {
        self.selected
    }

    /// Set the selected property of the Button to true.
    pub fn select(&mut self)
        ensures
            *final(self) == (Button { selected: true, ..*old(self) }),
    {
        self.selected = true;
    }

    /// Set the selected property of the Button to false.
    pub fn deselect(&mut self)
        ensures
            *final(self) == (Button { selected: false, ..*old(self) }),
    {
        self.selected = false;
    }
}

} // verus!
