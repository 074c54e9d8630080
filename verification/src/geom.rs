//! Two-dimensional sizes and sensor regions of interest.

use vstd::prelude::*;

verus! {

/// A pair of coordinates or dimensions.
#[derive(Clone, Copy, PartialEq, Eq, Structural, Debug)]
pub struct Vec2d<T> {
    pub x: T,
    pub y: T,
}

impl<T> Vec2d<T> {
    pub fn new(x: T, y: T) -> (r: Vec2d<T>)
        ensures
            r.x == x,
            r.y == y,
    {
        Vec2d { x, y }
    }
}

/// Size of an image in pixels.
pub type ImgSize = Vec2d<usize>;

/// Rectangular sub-window of the sensor read out for a given exposure.
#[derive(Clone, Copy, PartialEq, Eq, Structural, Debug)]
pub struct ExposureArea {
    pub x: usize,
    pub y: usize,
    pub width: usize,
    pub height: usize,
}

impl ExposureArea {
    /// The region lies entirely within a sensor of the given dimensions.
    pub open spec fn within(self, sensor_width: usize, sensor_height: usize) -> bool {
        &&& self.x + self.width <= sensor_width
        &&& self.y + self.height <= sensor_height
    }

    pub fn pixel_count(&self) -> (r: usize)
        requires
            self.width * self.height <= usize::MAX,
        ensures
            r == self.width * self.height,
    {
        self.width * self.height
    }

    pub fn into_tuple(&self) -> (r: (usize, usize, usize, usize))
        ensures
            r == (self.x, self.y, self.width, self.height),
    {
        (self.x, self.y, self.width, self.height)
    }
}

} // verus!
