//! Channel capability model: the four bindable visual channels, each an
//! independent, optionally-present slot.
//!
//! Every trait describes one slot of canonical data `D`: binding stores a
//! value into the slot, and the accessor reads it back. [`crate::Layer`]
//! implements all four.

use vstd::prelude::*;

verus! {

/// The X position channel.
pub trait PositionX<D>: Sized {
    /// The channel's slot.
    spec fn x_slot(&self) -> Option<D>;

    /// Binds `data` to the X position channel, replacing any prior value.
    fn x(self, data: D) -> (r: Self)
        ensures
            r.x_slot() == Some(data),
    ;

    /// The data bound to the X position channel, if any.
    fn get_x(&self) -> (r: &Option<D>)
        ensures
            *r == self.x_slot(),
    ;
}

/// The Y position channel.
pub trait PositionY<D>: Sized {
    /// The channel's slot.
    spec fn y_slot(&self) -> Option<D>;

    /// Binds `data` to the Y position channel, replacing any prior value.
    fn y(self, data: D) -> (r: Self)
        ensures
            r.y_slot() == Some(data),
    ;

    /// The data bound to the Y position channel, if any.
    fn get_y(&self) -> (r: &Option<D>)
        ensures
            *r == self.y_slot(),
    ;
}

/// The color channel.
pub trait Color<D>: Sized {
    /// The channel's slot.
    spec fn color_slot(&self) -> Option<D>;

    /// Binds `data` to the color channel, replacing any prior value.
    fn color(self, data: D) -> (r: Self)
        ensures
            r.color_slot() == Some(data),
    ;

    /// The data bound to the color channel, if any.
    fn get_color(&self) -> (r: &Option<D>)
        ensures
            *r == self.color_slot(),
    ;
}

/// The size channel.
pub trait Size<D>: Sized {
    /// The channel's slot.
    spec fn size_slot(&self) -> Option<D>;

    /// Binds `data` to the size channel, replacing any prior value.
    fn size(self, data: D) -> (r: Self)
        ensures
            r.size_slot() == Some(data),
    ;

    /// The data bound to the size channel, if any.
    fn get_size(&self) -> (r: &Option<D>)
        ensures
            *r == self.size_slot(),
    ;
}

} // verus!
