//! A batched renderer for textured quads.
//!
//! The renderer decides when queued instances must reach the GPU and says so
//! as a list of [`GlCommand`]s; whoever owns the graphics context carries the
//! commands out. Every scalar is held as the 32 bits of its single-precision
//! encoding, so that all state is made of integers.

pub mod batch;
pub mod color;
pub mod command;
pub mod laws;
pub mod layout;
pub mod mode;
pub mod palette;
pub mod panel;
pub mod pix;
pub mod poker;
pub mod scalar;
pub mod shader;
pub mod text;
pub mod texture;
pub mod transform;
pub mod uniform;

pub use crate::batch::{BatchView, InstanceBatcher};
pub use crate::color::GlColor;
pub use crate::command::{Command, GlCommand};
pub use crate::layout::VertexAttribute;
pub use crate::mode::GlRenderMode;
pub use crate::panel::{Panel, PanelView, Sprite, SpriteView};
pub use crate::pix::{GlPix, PixView};
pub use crate::poker::{PokerRender, TexasCards};
pub use crate::shader::ShaderSet;
pub use crate::texture::TextureAtlasBinder;
pub use crate::transform::{GlTransform, StackView, TransformStack};
pub use crate::uniform::UniformBlock;
