//! Positions and sizes, in physical and in logical pixels.

use crate::scalar::Scalar;
use vstd::prelude::*;

verus! {

/// A position in physical pixels.
#[derive(Clone, Copy, Debug, PartialEq, Eq, Structural)]
pub struct PhysicalPosition<T> {
    pub x: T,
    pub y: T,
}

/// A position in logical pixels.
#[derive(Clone, Copy, Debug, PartialEq, Eq, Structural)]
pub struct LogicalPosition<T> {
    pub x: T,
    pub y: T,
}

/// A size in physical pixels.
#[derive(Clone, Copy, Debug, PartialEq, Eq, Structural)]
pub struct PhysicalSize<T> {
    pub width: T,
    pub height: T,
}

/// A size in logical pixels.
#[derive(Clone, Copy, Debug, PartialEq, Eq, Structural)]
pub struct LogicalSize<T> {
    pub width: T,
    pub height: T,
}

/// A position in either unit.
#[derive(Clone, Copy, Debug, PartialEq, Eq, Structural)]
pub enum Position {
    Physical(PhysicalPosition<i32>),
    Logical(LogicalPosition<Scalar>),
}

/// A size in either unit.
#[derive(Clone, Copy, Debug, PartialEq, Eq, Structural)]
pub enum Size {
    Physical(PhysicalSize<u32>),
    Logical(LogicalSize<Scalar>),
}

impl<T> PhysicalPosition<T> {
    pub fn new(x: T, y: T) -> (p: Self)
        ensures
            p.x == x,
            p.y == y,
    {
        PhysicalPosition { x, y }
    }
}

impl<T> LogicalPosition<T> {
    pub fn new(x: T, y: T) -> (p: Self)
        ensures
            p.x == x,
            p.y == y,
    {
        LogicalPosition { x, y }
    }
}

impl<T> PhysicalSize<T> {
    pub fn new(width: T, height: T) -> (s: Self)
        ensures
            s.width == width,
            s.height == height,
    {
        PhysicalSize { width, height }
    }
}

impl<T> LogicalSize<T> {
    pub fn new(width: T, height: T) -> (s: Self)
        ensures
            s.width == width,
            s.height == height,
    {
        LogicalSize { width, height }
    }
}

} // verus!
