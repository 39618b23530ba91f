use vstd::prelude::*;

verus! {

/// A two-field coordinate record with value semantics: every transition
/// builds a fresh state and leaves the original untouched.
#[derive(Clone, Copy, Debug, PartialEq, Eq, Structural)]
pub struct CoordinateState {
    pub x: u16,
    pub y: u16,
}

/// An arithmetic boundary violation: a transition step would leave the
/// representable range of a field.
#[derive(Clone, Copy, Debug, PartialEq, Eq, Structural)]
pub enum BoundaryError {
    /// The increment branch would exceed `u16::MAX` on some field.
    Overflow,
    /// The decrement branch would fall below zero on some field.
    Underflow,
}

/// The transition rule's guard: the threshold matches the state when it
/// equals either coordinate.
pub open spec fn threshold_matches(s: CoordinateState, threshold: u16) -> bool {
    threshold == s.x || threshold == s.y
}

/// Returns whether `value` is zero. Total over all 32-bit inputs.
pub fn is_zero(value: u32) -> (r: bool)
    ensures
        r == (value == 0),
{
    value == 0
}

impl CoordinateState {
    /// Builds a state from explicit initial coordinates.
    pub fn new(x: u16, y: u16) -> (s: Self)
        ensures
            s.x == x,
            s.y == y,
    {
        CoordinateState { x, y }
    }

    /// Steps the state by the two-branch rule: when the threshold equals
    /// either coordinate, both fields go up by one, otherwise both go down
    /// by one. A step that would leave the `u16` range is reported as a
    /// `BoundaryError` instead of wrapping. Takes `self` by shared
    /// reference, so the original state is left unchanged.
    pub fn transition(&self, threshold: u16) -> (r: Result<CoordinateState, BoundaryError>)
        ensures
            threshold_matches(*self, threshold) && self.x < u16::MAX && self.y < u16::MAX
                ==> (r matches Ok(s) && s.x == self.x + 1 && s.y == self.y + 1),
            threshold_matches(*self, threshold) && (self.x == u16::MAX || self.y == u16::MAX)
                ==> (r matches Err(e) && e is Overflow),
            !threshold_matches(*self, threshold) && self.x > 0 && self.y > 0
                ==> (r matches Ok(s) && s.x == self.x - 1 && s.y == self.y - 1),
            !threshold_matches(*self, threshold) && (self.x == 0 || self.y == 0)
                ==> (r matches Err(e) && e is Underflow),
    {
        if threshold == self.x || threshold == self.y {
            if self.x < u16::MAX && self.y < u16::MAX {
                Ok(CoordinateState { x: self.x + 1, y: self.y + 1 })
            } else {
                Err(BoundaryError::Overflow)
            }
        } else {
            if self.x > 0 && self.y > 0 {
                Ok(CoordinateState { x: self.x - 1, y: self.y - 1 })
            } else {
                Err(BoundaryError::Underflow)
            }
        }
    }
}

} // verus!
