//! The characters that part the segments of an absolute expression.

use vstd::prelude::*;

verus! {

/// Space, hyphen, comma, colon or full stop.
pub open spec fn is_separator_char(c: char) -> bool {
    c == ' ' || c == '-' || c == ',' || c == ':' || c == '.'
}

/// Values that may part two segments.
pub trait Separable {
    /// Does the value part two segments?
    fn is_separator(&self) -> bool;
}

impl Separable for char {
    fn is_separator(&self) -> (b: bool)
        ensures
            b == is_separator_char(*self),
    {
        *self == ' ' || *self == '-' || *self == ',' || *self == ':' || *self == '.'
    }
}

} // verus!
