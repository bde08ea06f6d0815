//! The errors that texture operations report.

use vstd::prelude::*;

verus! {

/// Why a texture operation was refused.
#[derive(Copy, Clone, Debug, PartialEq, Eq, Structural)]
pub enum TextureError {
    /// The column lies at or beyond the texture's width.
    XOutOfBounds,
    /// The column is fine, but the row lies at or beyond the texture's height.
    YOutOfBounds,
    /// `width * height` pixels cannot be counted in a `usize`.
    SizeOverflow,
}

impl TextureError {
    /// Whether the error reports a coordinate outside the texture.
    pub open spec fn is_out_of_bounds_spec(&self) -> bool {
        *self == TextureError::XOutOfBounds || *self == TextureError::YOutOfBounds
    }

    /// Whether the error reports a coordinate outside the texture.
    #[verifier::when_used_as_spec(is_out_of_bounds_spec)]
    pub fn is_out_of_bounds(&self) -> (b: bool)
        ensures
            b == self.is_out_of_bounds_spec(),
    {
        match self {
            TextureError::XOutOfBounds => true,
            TextureError::YOutOfBounds => true,
            TextureError::SizeOverflow => false,
        }
    }

    /// A sentence that describes the error.
    pub fn message(&self) -> (text: &'static str)
        ensures
            text@ == match *self {
                TextureError::XOutOfBounds => "x was out of bounds for texture width"@,
                TextureError::YOutOfBounds => "y was out of bounds for texture height"@,
                TextureError::SizeOverflow => "width times height does not fit in a usize"@,
            },
    {
        match self {
            TextureError::XOutOfBounds => "x was out of bounds for texture width",
            TextureError::YOutOfBounds => "y was out of bounds for texture height",
            TextureError::SizeOverflow => "width times height does not fit in a usize",
        }
    }
}

} // verus!
