//! The texture: a fixed-size grid of pixels that everything is drawn onto.

use vstd::prelude::*;
use crate::canvas::Canvas;
use crate::color::Color;
use crate::component::DrawComponent;
use crate::error::TextureError;

verus! {

/// A grid of `width` by `height` pixels, each a `Color`.
///
/// The extent is fixed when the texture is made. Pixels are reached by
/// column and row only, and every access is checked against the extent.
pub struct Texture {
    /// The colours, row after row.
    pixels: Vec<Color>,
    /// The number of columns.
    width: usize,
    /// The number of rows.
    height: usize,
}

impl View for Texture {
    type V = Canvas;

    closed spec fn view(&self) -> Canvas {
        Canvas {
            width: self.width as nat,
            height: self.height as nat,
            pixels: Seq::new((self.width * self.height) as nat, |i: int| self.pixels@[i]),
        }
    }
}

impl Texture {
    /// The storage holds exactly one colour per pixel.
    #[verifier::type_invariant]
    closed spec fn well_formed(&self) -> bool {
        self.pixels@.len() == self.width * self.height
    }

    /// Every texture holds exactly one colour per pixel, `width * height`
    /// of them, and its width and its height are each a `usize`.
    pub proof fn lemma_well_formed(&self)
        ensures
            self@.wf(),
            self@.width <= usize::MAX,
            self@.height <= usize::MAX,
    {
    }

    /// A texture of the given extent with every pixel black.
    pub fn new(width: usize, height: usize) -> (texture: Texture)
        requires
            width * height <= usize::MAX,
        ensures
            texture@ == Canvas::blank(width as nat, height as nat),
    {
        let n = width * height;
        let mut pixels: Vec<Color> = Vec::with_capacity(n);
        let mut i: usize = 0;
        while i < n
            invariant
                i <= n,
                pixels@.len() == i,
                forall|k: int| 0 <= k < i ==> pixels@[k] == Color::black_spec(),
            decreases n - i,
        {
            pixels.push(Color::black());
            i += 1;
        }
        let texture = Texture { pixels, width, height };
        assert(texture@.pixels =~= Canvas::blank(width as nat, height as nat).pixels);
        texture
    }

    /// A texture of the given extent with every pixel black, or
    /// `SizeOverflow` when `width * height` pixels cannot be counted.
    pub fn try_new(width: usize, height: usize) -> (made: Result<Texture, TextureError>)
        ensures
            width * height <= usize::MAX ==> made is Ok && made->Ok_0@ == Canvas::blank(
                width as nat,
                height as nat,
            ),
            width * height > usize::MAX ==> made == Err::<Texture, TextureError>(
                TextureError::SizeOverflow,
            ),
    {
        match width.checked_mul(height) {
            Some(_) => Ok(Texture::new(width, height)),
            None => Err(TextureError::SizeOverflow),
        }
    }

    /// The colour in column `x` of row `y`, or `None` off the texture.
    pub fn get_pixel(&self, x: usize, y: usize) -> (found: Option<Color>)
        ensures
            found == self@.get(x as int, y as int),
            found is Some <==> self@.in_bounds(x as int, y as int),
    {
        proof {
            use_type_invariant(self);
        }
        if x >= self.width || y >= self.height {
            return None;
        }
        proof {
            self@.lemma_index_in_range(x as int, y as int);
            assert(y * self.width + x < self.pixels.len());
        }
        Some(self.pixels[y * self.width + x])
    }

    /// Writes `color` to column `x` of row `y`.
    ///
    /// Off the texture nothing is written and the error says which
    /// coordinate is at fault, the column being looked at first.
    pub fn set_pixel(&mut self, x: usize, y: usize, color: Color) -> (done: Result<
        (),
        TextureError,
    >)
        ensures
            final(self)@ == old(self)@.set(x as int, y as int, color),
            done is Ok <==> old(self)@.in_bounds(x as int, y as int),
            done is Err ==> final(self)@ == old(self)@,
            x >= old(self)@.width ==> done == Err::<(), TextureError>(TextureError::XOutOfBounds),
            x < old(self)@.width && y >= old(self)@.height ==> done == Err::<(), TextureError>(
                TextureError::YOutOfBounds,
            ),
    {
        proof {
            use_type_invariant(&*self);
        }
        if x >= self.width {
            return Err(TextureError::XOutOfBounds);
        }
        if y >= self.height {
            return Err(TextureError::YOutOfBounds);
        }
        proof {
            self@.lemma_index_in_range(x as int, y as int);
            assert(y * self.width + x < self.pixels.len());
        }
        let index = y * self.width + x;
        self.pixels[index] = color;
        assert(self@.pixels =~= old(self)@.set(x as int, y as int, color).pixels);
        Ok(())
    }

    /// The packed colour `0xRRGGBB` in column `x` of row `y`, or `None` off
    /// the texture.
    pub fn get_pixel_hex(&self, x: usize, y: usize) -> (found: Option<u32>)
        ensures
            found == match self@.get(x as int, y as int) {
                Some(color) => Some(color.to_hex_spec()),
                None => None,
            },
    {
        match self.get_pixel(x, y) {
            Some(color) => Some(color.to_hex()),
            None => None,
        }
    }

    /// Writes the opaque colour that the packed value `color` stands for to
    /// column `x` of row `y`; fails as `set_pixel` does.
    pub fn set_pixel_hex(&mut self, x: usize, y: usize, color: u32) -> (done: Result<
        (),
        TextureError,
    >)
        ensures
            final(self)@ == old(self)@.set(x as int, y as int, Color::from_hex_spec(color)),
            done is Ok <==> old(self)@.in_bounds(x as int, y as int),
            done is Err ==> final(self)@ == old(self)@,
            x >= old(self)@.width ==> done == Err::<(), TextureError>(TextureError::XOutOfBounds),
            x < old(self)@.width && y >= old(self)@.height ==> done == Err::<(), TextureError>(
                TextureError::YOutOfBounds,
            ),
    {
        self.set_pixel(x, y, Color::from_hex(color))
    }

    /// The texture as packed `0x00RRGGBB` values, row after row, one per
    /// pixel.
    pub fn to_u32_buffer(&self) -> (buffer: Vec<u32>)
        ensures
            buffer@ == self@.packed(),
            buffer@.len() == self@.width * self@.height,
    {
        proof {
            use_type_invariant(self);
        }
        let n = self.pixels.len();
        let mut buffer: Vec<u32> = Vec::with_capacity(n);
        let mut i: usize = 0;
        while i < n
            invariant
                i <= n,
                n == self.pixels@.len(),
                buffer@.len() == i,
                forall|k: int| 0 <= k < i ==> buffer@[k] == self.pixels@[k].to_hex_spec(),
            decreases n - i,
        {
            buffer.push(self.pixels[i].to_hex());
            i += 1;
        }
        assert(buffer@ =~= self@.packed());
        buffer
    }

    /// The number of columns.
    pub fn get_width(&self) -> (width: usize)
        ensures
            width == self@.width,
    {
        proof {
            use_type_invariant(self);
        }
        self.width
    }

    /// The number of rows.
    pub fn get_height(&self) -> (height: usize)
        ensures
            height == self@.height,
    {
        proof {
            use_type_invariant(self);
        }
        self.height
    }

    /// Draws `node` on top of this texture; the same as `node.draw(self)`.
    pub fn add<N>(&mut self, node: &N) where N: DrawComponent
        ensures
            old(self)@.painted_over(final(self)@, |x: int, y: int| node.painted(x, y)),
    {
        node.draw(self);
    }
}

} // verus!
