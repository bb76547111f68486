use vstd::prelude::*;
use vstd::std_specs::convert::FromSpec;
use vstd::std_specs::convert::FromSpecImpl;

verus! {

/// A coordinate on the canvas.
#[derive(PartialEq, Eq, Structural, Debug, Clone, Copy, Hash)]
pub struct Point {
    pub x: i128,
    pub y: i128,
}

impl Point {
    /// Number of axes of a coordinate.
    pub const DIMENSIONS: usize = 2;

    pub fn new(x: i128, y: i128) -> (point: Self)
        ensures
            point == (Point { x, y }),
    {
        Point { x, y }
    }

    /// The component on axis `index`: `x` on axis 0, `y` on every other axis.
    pub open spec fn component(self, index: usize) -> i128 {
        if index == 0 {
            self.x
        } else {
            self.y
        }
    }

    /// Builds a coordinate by asking `generator` for the component of each
    /// axis in turn, first axis 0, then axis 1.
    pub fn generate<F: FnMut(usize) -> i128>(mut generator: F) -> (point: Self)
        requires
            generator.requires((0usize,)),
            generator.requires((1usize,)),
        ensures
            generator.ensures((0usize,), point.x),
            generator.ensures((1usize,), point.y),
    {
        let x = generator(0);
        let y = generator(1);
        Point { x, y }
    }

    pub fn nth(&self, index: usize) -> (value: i128)
        ensures
            value == self.component(index),
    {
        if index == 0 {
            return self.x;
        }
        self.y
    }

    /// A mutable handle on the component on axis `index`; the other
    /// component is left as it was.
    pub fn nth_mut(&mut self, index: usize) -> (value: &mut i128)
        ensures
            *value == old(self).component(index),
            index == 0 ==> *final(self) == (Point { x: *final(value), y: old(self).y }),
            index != 0 ==> *final(self) == (Point { x: old(self).x, y: *final(value) }),
    {
        if index == 0 {
            return &mut self.x;
        }
        &mut self.y
    }
}

/// The coordinate that a pair of numbers stands for, `x` first.
pub open spec fn point_of_pair<T>(pair: (T, T)) -> Point where i128: From<T> {
    Point { x: <i128 as FromSpec<T>>::from_spec(pair.0), y: <i128 as FromSpec<T>>::from_spec(pair.1) }
}

impl<T> From<(T, T)> for Point where i128: From<T> {
    fn from(value: (T, T)) -> (point: Self) {
        Point { x: i128::from(value.0), y: i128::from(value.1) }
    }
}

impl<T> FromSpecImpl<(T, T)> for Point where i128: From<T> {
    open spec fn obeys_from_spec() -> bool {
        <i128 as FromSpec<T>>::obeys_from_spec()
    }

    open spec fn from_spec(value: (T, T)) -> Self {
        point_of_pair(value)
    }
}

impl<T: Copy> From<&(T, T)> for Point where i128: From<T> {
    fn from(value: &(T, T)) -> (point: Self) {
        Point { x: i128::from(value.0), y: i128::from(value.1) }
    }
}

impl<T: Copy> FromSpecImpl<&(T, T)> for Point where i128: From<T> {
    open spec fn obeys_from_spec() -> bool {
        <i128 as FromSpec<T>>::obeys_from_spec()
    }

    open spec fn from_spec(value: &(T, T)) -> Self {
        point_of_pair(*value)
    }
}

impl<T: Copy> PartialEq<(T, T)> for Point where i128: From<T> {
    fn eq(&self, other: &(T, T)) -> (equal: bool) {
        self.x == i128::from(other.0) && self.y == i128::from(other.1)
    }
}

impl<T: Copy> vstd::std_specs::cmp::PartialEqSpecImpl<(T, T)> for Point where i128: From<T> {
    open spec fn obeys_eq_spec() -> bool {
        <i128 as FromSpec<T>>::obeys_from_spec()
    }

    open spec fn eq_spec(&self, other: &(T, T)) -> bool {
        *self == point_of_pair(*other)
    }
}

} // verus!
