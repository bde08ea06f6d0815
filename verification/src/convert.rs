//! Checked conversions between pixel coordinates and the signed integers that
//! the rasterisers compute with.

use vstd::prelude::*;
use crate::color::Color;
use crate::texture::Texture;

verus! {

/// The error of a checked numeric conversion.
#[verifier::external_type_specification]
#[verifier::external_body]
pub struct ExCastError(cast::Error);

/// Calls `cast::i128` on a `usize`. Every `usize` fits in an `i128`, so the
/// conversion cannot fail: the result is the same number.
#[verifier::external_body]
pub(crate) fn widen(value: usize) -> (wide: i128)
    ensures
        wide == value,
{
    cast::i128(value)
}

/// Calls `cast::usize` on an `i128`. The conversion succeeds exactly when the
/// number is neither negative nor above `usize::MAX`, and then keeps it.
#[verifier::external_body]
pub(crate) fn narrow(value: i128) -> (narrowed: Result<usize, cast::Error>)
    ensures
        narrowed is Ok <==> 0 <= value <= usize::MAX,
        narrowed matches Ok(kept) ==> kept == value,
{
    cast::usize(value)
}

/// The pixel coordinate that a computed position stands for, or `None` when
/// the position is negative or too large to be a coordinate.
pub fn pixel_coordinate(position: i128) -> (coordinate: Option<usize>)
    ensures
        coordinate == if 0 <= position <= usize::MAX {
            Some(position as usize)
        } else {
            None
        },
{
    match narrow(position) {
        Ok(kept) => Some(kept),
        Err(_) => None,
    }
}

/// Plots one point of a shape: writes `color` to column `x` of row `y` where
/// that is a pixel of the texture, and nothing elsewhere.
pub fn plot(texture: &mut Texture, x: i128, y: i128, color: Color)
    ensures
        final(texture)@ == old(texture)@.set(x as int, y as int, color),
{
    proof {
        texture.lemma_well_formed();
    }
    match (pixel_coordinate(x), pixel_coordinate(y)) {
        (Some(column), Some(row)) => {
            let _ = texture.set_pixel(column, row, color);
        },
        _ => {},
    }
}

} // verus!
