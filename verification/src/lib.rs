//! Immediate-mode 2D/text overlay renderer core and instanced-draw submission
//! layer: per-frame quad/sprite batching against a shared texture atlas, a
//! dirty-tracked instance buffer cache, and a double-buffered glyph submission
//! pipeline. All coordinates, colors and times are carried in fixed-point
//! units (see `fx`); GPU submission itself is left to the caller, which
//! receives the packed buffers and draw data that one frame produces.

pub mod atlas;
pub mod batch;
pub mod color;
pub mod fonts;
pub mod fx;
pub mod instance;
pub mod renderer2d;
pub mod sprite;
pub mod text;
