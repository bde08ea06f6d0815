//! A minimal immediate-mode 2D rasteriser: a fixed-size pixel buffer and the
//! shapes that can be drawn onto it, each with a machine-checked contract.

pub mod canvas;
pub mod circle;
pub mod color;
pub mod component;
pub mod convert;
pub mod error;
pub mod line;
pub mod node;
pub mod pixel;
pub mod rectangle;
pub mod texture;

pub use canvas::Canvas;
pub use circle::CircleNode;
pub use color::Color;
pub use error::TextureError;
pub use line::LineNode;
pub use pixel::PixelNode;
pub use rectangle::RectangleNode;
pub use texture::Texture;
