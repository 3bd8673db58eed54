//! What the drawing library's answers mean.

use vstd::prelude::*;

verus! {

/// The handle of an image the drawing library has created, or `None` for
/// the answer by which it says that it could not: handles of images are
/// positive.
pub fn image_handle(id: i32) -> (handle: Option<i32>)
    ensures
        handle == (if id > 0 {
            Some(id)
        } else {
            None
        }),
{
    if id > 0 {
        Some(id)
    } else {
        None
    }
}

/// The handle of a font the drawing library has created or found, or `None`
/// for the answer by which it says that it could not: handles of fonts are
/// not negative.
pub fn font_handle(id: i32) -> (handle: Option<i32>)
    ensures
        handle == (if id >= 0 {
            Some(id)
        } else {
            None
        }),
{
    if id >= 0 {
        Some(id)
    } else {
        None
    }
}

} // verus!
