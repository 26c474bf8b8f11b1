use vstd::prelude::*;

verus! {

pub struct Rectangle {
    pub width: u32,
    pub height: u32,
}

/// The area of `rectangle`; it must fit in a `u32`.
pub fn area(rectangle: &Rectangle) -> (r: u32)
    requires
        rectangle.width * rectangle.height <= u32::MAX,
    ensures
        r == rectangle.width * rectangle.height,
{
    rectangle.width * rectangle.height
}

} // verus!
