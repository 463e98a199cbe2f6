//! A layer binds normalized data to visual channels.
//!
//! A layer is an accumulator with immutable-builder semantics: it starts
//! empty, and each binding operation consumes the layer and returns an
//! updated one. Binding a channel replaces any prior value for that channel
//! (last write wins) and leaves every other channel untouched.

use vstd::prelude::*;

use crate::channels::Color;
use crate::channels::PositionX;
use crate::channels::PositionY;
use crate::channels::Size;
use crate::data::Plottable;

verus! {

/// An intermediate, channel-bound data carrier, not yet tied to a specific
/// chart kind. `T` is the canonical data form of its channels: a
/// one-dimensional series for most charts, a matrix for matrix-oriented ones.
pub struct Layer<T> {
    x: Option<T>,
    y: Option<T>,
    color: Option<T>,
    size: Option<T>,
    name: Option<String>,
}

impl<T: View> Layer<T> {
    /// The X position channel slot.
    pub closed spec fn spec_x(&self) -> Option<T> {
        self.x
    }

    /// The Y position channel slot.
    pub closed spec fn spec_y(&self) -> Option<T> {
        self.y
    }

    /// The color channel slot.
    pub closed spec fn spec_color(&self) -> Option<T> {
        self.color
    }

    /// The size channel slot.
    pub closed spec fn spec_size(&self) -> Option<T> {
        self.size
    }

    /// The display name slot.
    pub closed spec fn spec_name(&self) -> Option<String> {
        self.name
    }

    /// Creates a layer with every channel and the name unbound.
    pub fn new() -> (r: Self)
        ensures
            r.spec_x() is None,
            r.spec_y() is None,
            r.spec_color() is None,
            r.spec_size() is None,
            r.spec_name() is None,
    {
        Self { x: None, y: None, color: None, size: None, name: None }
    }

    /// Binds the display name, replacing any prior name.
    pub fn name(self, name: &str) -> (r: Self)
        ensures
            r.spec_name() matches Some(n) && n@ == name@,
            r.spec_x() == self.spec_x(),
            r.spec_y() == self.spec_y(),
            r.spec_color() == self.spec_color(),
            r.spec_size() == self.spec_size(),
    {
        Self { name: Some(name.to_owned()), ..self }
    }

    /// The bound display name, if any.
    pub fn get_name(&self) -> (r: &Option<String>)
        ensures
            *r == self.spec_name(),
    {
        &self.name
    }

    /// Normalizes `data` and binds it to the X position channel.
    pub fn x<P: Plottable<D = T>>(self, data: P) -> (r: Self)
        ensures
            r.spec_x() matches Some(d) && d@ == data.normal_view(),
            r.spec_y() == self.spec_y(),
            r.spec_color() == self.spec_color(),
            r.spec_size() == self.spec_size(),
            r.spec_name() == self.spec_name(),
    {
        Self { x: Some(data.to_conspire_data()), ..self }
    }

    /// The data bound to the X position channel, if any.
    pub fn get_x(&self) -> (r: &Option<T>)
        ensures
            *r == self.spec_x(),
    {
        &self.x
    }

    /// Normalizes `data` and binds it to the Y position channel.
    pub fn y<P: Plottable<D = T>>(self, data: P) -> (r: Self)
        ensures
            r.spec_y() matches Some(d) && d@ == data.normal_view(),
            r.spec_x() == self.spec_x(),
            r.spec_color() == self.spec_color(),
            r.spec_size() == self.spec_size(),
            r.spec_name() == self.spec_name(),
    {
        Self { y: Some(data.to_conspire_data()), ..self }
    }

    /// The data bound to the Y position channel, if any.
    pub fn get_y(&self) -> (r: &Option<T>)
        ensures
            *r == self.spec_y(),
    {
        &self.y
    }

    /// Normalizes `data` and binds it to the color channel.
    pub fn color<P: Plottable<D = T>>(self, data: P) -> (r: Self)
        ensures
            r.spec_color() matches Some(d) && d@ == data.normal_view(),
            r.spec_x() == self.spec_x(),
            r.spec_y() == self.spec_y(),
            r.spec_size() == self.spec_size(),
            r.spec_name() == self.spec_name(),
    {
        Self { color: Some(data.to_conspire_data()), ..self }
    }

    /// The data bound to the color channel, if any.
    pub fn get_color(&self) -> (r: &Option<T>)
        ensures
            *r == self.spec_color(),
    {
        &self.color
    }

    /// Normalizes `data` and binds it to the size channel.
    pub fn size<P: Plottable<D = T>>(self, data: P) -> (r: Self)
        ensures
            r.spec_size() matches Some(d) && d@ == data.normal_view(),
            r.spec_x() == self.spec_x(),
            r.spec_y() == self.spec_y(),
            r.spec_color() == self.spec_color(),
            r.spec_name() == self.spec_name(),
    {
        Self { size: Some(data.to_conspire_data()), ..self }
    }

    /// The data bound to the size channel, if any.
    pub fn get_size(&self) -> (r: &Option<T>)
        ensures
            *r == self.spec_size(),
    {
        &self.size
    }

    /// Consumes the layer and hands out its channel slots and name, in the
    /// order x, y, color, size, name.
    pub fn into_parts(self) -> (r: (Option<T>, Option<T>, Option<T>, Option<T>, Option<String>))
        ensures
            r.0 == self.spec_x(),
            r.1 == self.spec_y(),
            r.2 == self.spec_color(),
            r.3 == self.spec_size(),
            r.4 == self.spec_name(),
    {
        (self.x, self.y, self.color, self.size, self.name)
    }
}

impl<T: View> PositionX<T> for Layer<T> {
    open spec fn x_slot(&self) -> Option<T> {
        self.spec_x()
    }

    fn x(self, data: T) -> (r: Self) {
        Self { x: Some(data), ..self }
    }

    fn get_x(&self) -> (r: &Option<T>) {
        &self.x
    }
}

impl<T: View> PositionY<T> for Layer<T> {
    open spec fn y_slot(&self) -> Option<T> {
        self.spec_y()
    }

    fn y(self, data: T) -> (r: Self) {
        Self { y: Some(data), ..self }
    }

    fn get_y(&self) -> (r: &Option<T>) {
        &self.y
    }
}

impl<T: View> Color<T> for Layer<T> {
    open spec fn color_slot(&self) -> Option<T> {
        self.spec_color()
    }

    fn color(self, data: T) -> (r: Self) {
        Self { color: Some(data), ..self }
    }

    fn get_color(&self) -> (r: &Option<T>) {
        &self.color
    }
}

impl<T: View> Size<T> for Layer<T> {
    open spec fn size_slot(&self) -> Option<T> {
        self.spec_size()
    }

    fn size(self, data: T) -> (r: Self) {
        Self { size: Some(data), ..self }
    }

    fn get_size(&self) -> (r: &Option<T>) {
        &self.size
    }
}

} // verus!
