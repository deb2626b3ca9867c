//! The in-game GUI / 2D overlay renderer: stateless per-frame draw calls for
//! colored quads, atlas sprites and text, batched once per frame into a
//! single vertex/index buffer pair plus one text submission.
//!
//! Both quad entry points convert to device coordinates in (-1, 1):
//! `draw_quad` from pixel space (origin top-left) via
//! `(coord / screen_dim) * 2 - 1`, `draw_quad_rel` from relative (0, 1)
//! space via `coord * 2 - 1`. Color, font, scale and bounds are captured at
//! push time, never at flush time.

use vstd::prelude::*;
use crate::atlas::TextureAtlas;
use crate::batch::{Quad, Vert2d, QUAD_LIMIT, quad_key, quad_in_range, flush_verts, flush_idx, index_block, emit_quad, resolved_sprite, lemma_flush_vertex_count, lemma_flush_index_count};
use crate::color::Color;
use crate::fx::{FX_ONE, fx_in_range, fx_div_trunc, div_trunc};
use crate::text::{GlyphRenderer, TextSection, find_font};

verus! {

/// Cap on queued quads in one frame: the 6 N indices of a flush still fit
/// the `u32` index type.
pub const QUEUE_LIMIT: usize = 0x0FFF_FFFF;

/// A pixel coordinate as a device coordinate in (-1, 1):
/// `(coord / screen_dim) * 2 - 1`.
pub open spec fn px_to_dev(x: int, dim: int) -> int {
    2 * fx_div_trunc(x, dim) - FX_ONE
}

/// A pixel extent as a device extent: `(len / screen_dim) * 2`.
pub open spec fn px_to_dev_len(w: int, dim: int) -> int {
    2 * fx_div_trunc(w, dim)
}

/// A relative (0, 1) coordinate as a device coordinate: `coord * 2 - 1`.
pub open spec fn rel_to_dev(x: int) -> int {
    2 * x - FX_ONE
}

/// A relative extent as a device extent: `len * 2`.
pub open spec fn rel_to_dev_len(w: int) -> int {
    2 * w
}

/// Everything one frame's flush hands the GPU layer: the packed vertex and
/// index buffers, drawn as one indexed draw over `[0, index_count)`, whether
/// the text staging region must be recalled first, and the frame's text
/// sections in submission order.
pub struct FrameOutput {
    pub vertices: Vec<Vert2d>,
    pub indices: Vec<u32>,
    pub index_count: u32,
    pub staging_recalled: bool,
    pub text: Vec<TextSection>,
}

/// The 2D overlay renderer: the texture atlas it resolves sprites against,
/// the frame's pending quads and text sections, the current draw state
/// (color, text bounds, font, scale), and the glyph pipeline.
pub struct Renderer2d {
    pub texture_atlas: TextureAtlas,
    pub queue: Vec<Quad>,
    pub color: Color,
    pub screen_width: u32,
    pub screen_height: u32,
    pub text_wrapper: GlyphRenderer,
    pub text_queue: Vec<TextSection>,
    pub text_bounds_w: i64,
    pub text_bounds_h: i64,
    pub font_size: i64,
    pub current_font: Option<usize>,
}

/// A queued quad the flush can consume: coordinates in range and a key the
/// atlas resolves.
pub open spec fn quad_wf(q: Quad, atlas: TextureAtlas) -> bool {
    &&& quad_in_range(q)
    &&& atlas.has_sprite(quad_key(q))
}

impl Renderer2d {
    /// Frame-to-frame soundness: a well-formed atlas holding the default
    /// sprite, positive screen dimensions, and a consumable queue.
    pub open spec fn wf(&self) -> bool {
        &&& self.texture_atlas.wf()
        &&& self.texture_atlas.has_sprite("default"@)
        &&& 0 < self.screen_width
        &&& 0 < self.screen_height
        &&& self.queue@.len() <= QUEUE_LIMIT
        &&& forall|i: int| 0 <= i < self.queue@.len() ==> quad_wf(#[trigger] self.queue@[i], self.texture_atlas)
    }

    /// A new renderer over a screen and an atlas texture of the given pixel
    /// sizes, with a freshly built glyph pipeline. Starts white, with text
    /// bounds covering the screen, a 16-point default scale, and no current
    /// font.
    pub fn new(screen_width: u32, screen_height: u32, atlas_width: u32, atlas_height: u32, text_wrapper: GlyphRenderer) -> (r: Renderer2d)
        requires
            0 < screen_width,
            0 < screen_height,
            32 <= atlas_width,
            16 <= atlas_height,
            text_wrapper.queued@.len() == 0,
            text_wrapper.submitted_already == false,
        ensures
            r.wf(),
            r.queue@.len() == 0,
            r.text_queue@.len() == 0,
            r.color == (Color { r: FX_ONE, g: FX_ONE, b: FX_ONE, a: FX_ONE }),
            r.screen_width == screen_width,
            r.screen_height == screen_height,
            r.texture_atlas.width == atlas_width,
            r.texture_atlas.height == atlas_height,
            r.text_wrapper == text_wrapper,
            r.text_bounds_w == screen_width * FX_ONE,
            r.text_bounds_h == screen_height * FX_ONE,
            r.font_size == 16 * FX_ONE,
            r.current_font is None,
    {
        let texture_atlas = TextureAtlas::new(atlas_width, atlas_height);
        Renderer2d {
            texture_atlas,
            queue: Vec::new(),
            color: Color::from_rgb(FX_ONE, FX_ONE, FX_ONE),
            screen_width,
            screen_height,
            text_wrapper,
            text_queue: Vec::new(),
            text_bounds_w: (screen_width as i64) * FX_ONE,
            text_bounds_h: (screen_height as i64) * FX_ONE,
            font_size: 16 * FX_ONE,
            current_font: None,
        }
    }

    /// Set the color every subsequently pushed quad or text section captures.
    /// Nothing already queued changes.
    pub fn set_color(&mut self, color: Color)
        ensures
            final(self).color == color,
            final(self).queue@ == old(self).queue@,
            final(self).text_queue@ == old(self).text_queue@,
            final(self).texture_atlas == old(self).texture_atlas,
            final(self).screen_width == old(self).screen_width,
            final(self).screen_height == old(self).screen_height,
            final(self).text_wrapper == old(self).text_wrapper,
            final(self).text_bounds_w == old(self).text_bounds_w,
            final(self).text_bounds_h == old(self).text_bounds_h,
            final(self).font_size == old(self).font_size,
            final(self).current_font == old(self).current_font,
            old(self).wf() ==> final(self).wf(),
    {
        self.color = color;
    }

    /// Append one quad at device coordinates, capturing the current color.
    fn push_quad(&mut self, x: i64, y: i64, w: i64, h: i64, sprite: Option<String>)
        requires
            old(self).wf(),
            old(self).queue@.len() < QUEUE_LIMIT,
            -QUAD_LIMIT <= x <= QUAD_LIMIT,
            -QUAD_LIMIT <= y <= QUAD_LIMIT,
            -QUAD_LIMIT <= w <= QUAD_LIMIT,
            -QUAD_LIMIT <= h <= QUAD_LIMIT,
            old(self).texture_atlas.has_sprite(quad_key(Quad { sprite, x, y, w, h, color: old(self).color })),
        ensures
            final(self).wf(),
            final(self).queue@ == old(self).queue@.push(Quad { sprite, x, y, w, h, color: old(self).color }),
            final(self).color == old(self).color,
            final(self).text_queue@ == old(self).text_queue@,
            final(self).texture_atlas == old(self).texture_atlas,
            final(self).screen_width == old(self).screen_width,
            final(self).screen_height == old(self).screen_height,
            final(self).text_wrapper == old(self).text_wrapper,
            final(self).text_bounds_w == old(self).text_bounds_w,
            final(self).text_bounds_h == old(self).text_bounds_h,
            final(self).font_size == old(self).font_size,
            final(self).current_font == old(self).current_font,
    {
        let color = self.color;
        self.queue.push(Quad { sprite, x, y, w, h, color });
    }

    /// Draw an untextured quad at relative coordinates, in range (0, 1).
    pub fn draw_quad_rel(&mut self, x: i64, y: i64, width: i64, height: i64)
        requires
            old(self).wf(),
            old(self).queue@.len() < QUEUE_LIMIT,
            fx_in_range(x as int),
            fx_in_range(y as int),
            fx_in_range(width as int),
            fx_in_range(height as int),
        ensures
            final(self).wf(),
            final(self).queue@ == old(self).queue@.push(Quad {
                sprite: None,
                x: rel_to_dev(x as int) as i64,
                y: rel_to_dev(y as int) as i64,
                w: rel_to_dev_len(width as int) as i64,
                h: rel_to_dev_len(height as int) as i64,
                color: old(self).color,
            }),
            final(self).color == old(self).color,
            final(self).text_queue@ == old(self).text_queue@,
            final(self).texture_atlas == old(self).texture_atlas,
            final(self).screen_width == old(self).screen_width,
            final(self).screen_height == old(self).screen_height,
            final(self).text_wrapper == old(self).text_wrapper,
            final(self).text_bounds_w == old(self).text_bounds_w,
            final(self).text_bounds_h == old(self).text_bounds_h,
            final(self).font_size == old(self).font_size,
            final(self).current_font == old(self).current_font,
    {
        self.push_quad(2 * x - FX_ONE, 2 * y - FX_ONE, 2 * width, 2 * height, None);
    }

    /// Draw an untextured quad at pixel coordinates, top-left at (0, 0).
    pub fn draw_quad(&mut self, x: i64, y: i64, width: i64, height: i64)
        requires
            old(self).wf(),
            old(self).queue@.len() < QUEUE_LIMIT,
            fx_in_range(x as int),
            fx_in_range(y as int),
            fx_in_range(width as int),
            fx_in_range(height as int),
        ensures
            final(self).wf(),
            final(self).queue@ == old(self).queue@.push(Quad {
                sprite: None,
                x: px_to_dev(x as int, old(self).screen_width as int) as i64,
                y: px_to_dev(y as int, old(self).screen_height as int) as i64,
                w: px_to_dev_len(width as int, old(self).screen_width as int) as i64,
                h: px_to_dev_len(height as int, old(self).screen_height as int) as i64,
                color: old(self).color,
            }),
            final(self).color == old(self).color,
            final(self).text_queue@ == old(self).text_queue@,
            final(self).texture_atlas == old(self).texture_atlas,
            final(self).screen_width == old(self).screen_width,
            final(self).screen_height == old(self).screen_height,
            final(self).text_wrapper == old(self).text_wrapper,
            final(self).text_bounds_w == old(self).text_bounds_w,
            final(self).text_bounds_h == old(self).text_bounds_h,
            final(self).font_size == old(self).font_size,
            final(self).current_font == old(self).current_font,
    {
        let sw: i64 = self.screen_width as i64;
        let sh: i64 = self.screen_height as i64;
        let dx: i64 = 2 * div_trunc(x, sw) - FX_ONE;
        let dy: i64 = 2 * div_trunc(y, sh) - FX_ONE;
        let dw: i64 = 2 * div_trunc(width, sw);
        let dh: i64 = 2 * div_trunc(height, sh);
        self.push_quad(dx, dy, dw, dh, None);
    }

    /// The arguments to one `draw_sprite` call, checked against the sprite
    /// they resolve: the scaled pixel size stays within the fixed-point
    /// range.
    pub open spec fn draw_sprite_ok(&self, name: Seq<char>, width_multiplier: int, height_multiplier: int) -> bool {
        match self.texture_atlas.spec_lookup(name) {
            Some(s) => {
                &&& fx_in_range(s.width * width_multiplier)
                &&& fx_in_range(s.height * height_multiplier)
            },
            None => false,
        }
    }

    /// The quad one `draw_sprite` call pushes: the sprite's native pixel
    /// size, scaled by the multipliers, converted to device space.
    pub open spec fn sprite_quad(&self, name: String, x: int, y: int, width_multiplier: int, height_multiplier: int) -> Quad {
        let s = match self.texture_atlas.spec_lookup(name@) {
            Some(s) => s,
            None => vstd::pervasive::arbitrary(),
        };
        Quad {
            sprite: Some(name),
            x: px_to_dev(x, self.screen_width as int) as i64,
            y: px_to_dev(y, self.screen_height as int) as i64,
            w: px_to_dev_len(s.width * width_multiplier, self.screen_width as int) as i64,
            h: px_to_dev_len(s.height * height_multiplier, self.screen_height as int) as i64,
            color: self.color,
        }
    }

    /// Draw a sprite at pixel coordinates, top-left at (0, 0), its native
    /// pixel size scaled by the multipliers. An unregistered name is a
    /// programming error, ruled out up front.
    pub fn draw_sprite(&mut self, x: i64, y: i64, width_multiplier: i64, height_multiplier: i64, sprite: String)
        requires
            old(self).wf(),
            old(self).queue@.len() < QUEUE_LIMIT,
            fx_in_range(x as int),
            fx_in_range(y as int),
            old(self).draw_sprite_ok(sprite@, width_multiplier as int, height_multiplier as int),
        ensures
            final(self).wf(),
            final(self).queue@ == old(self).queue@.push(
                old(self).sprite_quad(sprite, x as int, y as int, width_multiplier as int, height_multiplier as int),
            ),
            final(self).color == old(self).color,
            final(self).text_queue@ == old(self).text_queue@,
            final(self).texture_atlas == old(self).texture_atlas,
            final(self).screen_width == old(self).screen_width,
            final(self).screen_height == old(self).screen_height,
            final(self).text_wrapper == old(self).text_wrapper,
            final(self).text_bounds_w == old(self).text_bounds_w,
            final(self).text_bounds_h == old(self).text_bounds_h,
            final(self).font_size == old(self).font_size,
            final(self).current_font == old(self).current_font,
    {
        let looked = self.texture_atlas.lookup(&sprite);
        let (spr_width, spr_height): (u32, u32) = match looked {
            Some(s) => (s.width, s.height),
            None => {
                proof {
                    assert(false);
                }
                (0, 0)
            },
        };
        let sw: i64 = self.screen_width as i64;
        let sh: i64 = self.screen_height as i64;
        let w_px: i64 = (spr_width as i64) * width_multiplier;
        let h_px: i64 = (spr_height as i64) * height_multiplier;
        let dx: i64 = 2 * div_trunc(x, sw) - FX_ONE;
        let dy: i64 = 2 * div_trunc(y, sh) - FX_ONE;
        let dw: i64 = 2 * div_trunc(w_px, sw);
        let dh: i64 = 2 * div_trunc(h_px, sh);
        self.push_quad(dx, dy, dw, dh, Some(sprite));
    }

    /// Set the bounding box every subsequent text section captures.
    pub fn set_text_bounds(&mut self, width: i64, height: i64)
        ensures
            final(self).text_bounds_w == width,
            final(self).text_bounds_h == height,
            final(self).queue@ == old(self).queue@,
            final(self).text_queue@ == old(self).text_queue@,
            final(self).color == old(self).color,
            final(self).texture_atlas == old(self).texture_atlas,
            final(self).screen_width == old(self).screen_width,
            final(self).screen_height == old(self).screen_height,
            final(self).text_wrapper == old(self).text_wrapper,
            final(self).font_size == old(self).font_size,
            final(self).current_font == old(self).current_font,
            old(self).wf() ==> final(self).wf(),
    {
        self.text_bounds_w = width;
        self.text_bounds_h = height;
    }

    /// Resolve and set the current font and scale. An unregistered name is a
    /// programming error, ruled out up front.
    pub fn set_font(&mut self, font: &String, font_size: i64)
        requires
            find_font(old(self).text_wrapper.fonts@, font@) is Some,
        ensures
            final(self).current_font == find_font(old(self).text_wrapper.fonts@, font@),
            final(self).font_size == font_size,
            final(self).queue@ == old(self).queue@,
            final(self).text_queue@ == old(self).text_queue@,
            final(self).color == old(self).color,
            final(self).texture_atlas == old(self).texture_atlas,
            final(self).screen_width == old(self).screen_width,
            final(self).screen_height == old(self).screen_height,
            final(self).text_wrapper == old(self).text_wrapper,
            final(self).text_bounds_w == old(self).text_bounds_w,
            final(self).text_bounds_h == old(self).text_bounds_h,
            old(self).wf() ==> final(self).wf(),
    {
        let id = self.text_wrapper.font(font);
        self.current_font = Some(id);
        self.font_size = font_size;
    }

    /// The section one `draw_text` call queues: the string at the given
    /// pixel position, under the bounds, color, scale and font current at
    /// call time (an unset font falls back to id 0).
    pub open spec fn text_section(&self, text: String, x: int, y: int) -> TextSection {
        TextSection {
            text,
            x: x as i64,
            y: y as i64,
            bounds_w: self.text_bounds_w,
            bounds_h: self.text_bounds_h,
            color: self.color,
            scale: self.font_size,
            font_id: match self.current_font {
                Some(id) => id,
                None => 0,
            },
        }
    }

    /// Queue text at pixel coordinates, capturing the current color, font,
    /// scale and bounds at call time.
    pub fn draw_text(&mut self, text: String, x: i64, y: i64)
        ensures
            final(self).text_queue@ == old(self).text_queue@.push(old(self).text_section(text, x as int, y as int)),
            final(self).queue@ == old(self).queue@,
            final(self).color == old(self).color,
            final(self).texture_atlas == old(self).texture_atlas,
            final(self).screen_width == old(self).screen_width,
            final(self).screen_height == old(self).screen_height,
            final(self).text_wrapper == old(self).text_wrapper,
            final(self).text_bounds_w == old(self).text_bounds_w,
            final(self).text_bounds_h == old(self).text_bounds_h,
            final(self).font_size == old(self).font_size,
            final(self).current_font == old(self).current_font,
            old(self).wf() ==> final(self).wf(),
    {
        let font_id: usize = match self.current_font {
            Some(id) => id,
            None => 0,
        };
        let section = TextSection {
            text,
            x,
            y,
            bounds_w: self.text_bounds_w,
            bounds_h: self.text_bounds_h,
            color: self.color,
            scale: self.font_size,
            font_id,
        };
        self.text_queue.push(section);
    }

    /// Flush the frame: drain the quad queue (back to front) into one
    /// vertex/index buffer pair drawn with a single indexed draw call — an
    /// empty queue still yields the (empty) draw — then run the text pass:
    /// recall the staging region if a previous frame submitted, hand every
    /// pending section over (back to front), and submit.
    pub fn render(&mut self) -> (out: FrameOutput)
        requires
            old(self).wf(),
        ensures
            final(self).wf(),
            out.vertices@ == flush_verts(
                old(self).queue@,
                old(self).texture_atlas.sprites@,
                old(self).texture_atlas.width as int,
                old(self).texture_atlas.height as int,
            ),
            out.vertices@.len() == 4 * old(self).queue@.len(),
            out.indices@ == flush_idx(old(self).queue@.len() as int),
            out.indices@.len() == 6 * old(self).queue@.len(),
            out.index_count == out.indices@.len(),
            out.staging_recalled == old(self).text_wrapper.submitted_already,
            out.text@ == old(self).text_wrapper.queued@ + old(self).text_queue@.reverse(),
            final(self).queue@.len() == 0,
            final(self).text_queue@.len() == 0,
            final(self).text_wrapper.queued@.len() == 0,
            final(self).text_wrapper.submitted_already == true,
            final(self).text_wrapper.fonts@ == old(self).text_wrapper.fonts@,
            final(self).text_wrapper.font_data@ == old(self).text_wrapper.font_data@,
            final(self).texture_atlas == old(self).texture_atlas,
            final(self).color == old(self).color,
            final(self).screen_width == old(self).screen_width,
            final(self).screen_height == old(self).screen_height,
            final(self).text_bounds_w == old(self).text_bounds_w,
            final(self).text_bounds_h == old(self).text_bounds_h,
            final(self).font_size == old(self).font_size,
            final(self).current_font == old(self).current_font,
    {
        let ghost q0 = self.queue@;
        let ghost sprites0 = self.texture_atlas.sprites@;
        let ghost tw0 = self.texture_atlas.width as int;
        let ghost th0 = self.texture_atlas.height as int;
        let mut vertices: Vec<Vert2d> = Vec::new();
        let mut indices: Vec<u32> = Vec::new();
        let default_name: String = "default".to_owned();
        let tw: u32 = self.texture_atlas.width;
        let th: u32 = self.texture_atlas.height;
        proof {
            assert(q0.subrange(0, q0.len() as int) =~= q0);
            lemma_flush_vertex_count(q0, sprites0, tw0, th0);
        }
        while self.queue.len() > 0
            invariant
                self.wf(),
                self.texture_atlas == old(self).texture_atlas,
                self.color == old(self).color,
                self.screen_width == old(self).screen_width,
                self.screen_height == old(self).screen_height,
                self.text_wrapper == old(self).text_wrapper,
                self.text_queue@ == old(self).text_queue@,
                self.text_bounds_w == old(self).text_bounds_w,
                self.text_bounds_h == old(self).text_bounds_h,
                self.font_size == old(self).font_size,
                self.current_font == old(self).current_font,
                tw == self.texture_atlas.width,
                th == self.texture_atlas.height,
                tw0 == tw as int,
                th0 == th as int,
                sprites0 == self.texture_atlas.sprites@,
                default_name@ == "default"@,
                q0 == old(self).queue@,
                q0.len() <= QUEUE_LIMIT,
                self.queue@ == q0.subrange(0, self.queue@.len() as int),
                self.queue@.len() <= q0.len(),
                vertices@.len() == 4 * (q0.len() - self.queue@.len()),
                vertices@ + flush_verts(self.queue@, sprites0, tw0, th0) == flush_verts(q0, sprites0, tw0, th0),
                indices@ == flush_idx(q0.len() - self.queue@.len()),
            decreases self.queue@.len(),
        {
            let ghost queue_before = self.queue@;
            let quad = self.queue.pop().unwrap();
            proof {
                assert(quad == queue_before.last());
                assert(self.queue@ =~= q0.subrange(0, self.queue@.len() as int));
                assert(quad_wf(quad, self.texture_atlas));
            }
            let key: &String = match &quad.sprite {
                Some(s) => s,
                None => &default_name,
            };
            proof {
                assert(key@ == quad_key(quad));
            }
            let looked = self.texture_atlas.lookup(key);
            match looked {
                Some(spr) => {
                    proof {
                        assert(*spr == resolved_sprite(sprites0, quad));
                        crate::atlas::lemma_find_sprite_in(sprites0, key@);
                        assert(crate::atlas::sprite_frame_valid(*spr));
                    }
                    let f = spr.current_frame();
                    let fx: u64 = f.x as u64;
                    let fy: u64 = f.y as u64;
                    let one: u64 = FX_ONE as u64;
                    let tx1: i64 = ((fx * one) / (tw as u64)) as i64;
                    let ty1: i64 = ((fy * one) / (th as u64)) as i64;
                    let tx2: i64 = (((fx + spr.width as u64) * one) / (tw as u64)) as i64;
                    let ty2: i64 = (((fy + spr.height as u64) * one) / (th as u64)) as i64;
                    let x2: i64 = quad.x + quad.w;
                    let y2: i64 = quad.y + quad.h;
                    let ghost vs_before = vertices@;
                    vertices.push(Vert2d { x: quad.x, y: quad.y, z: 0, color: quad.color, u: tx1, v: ty1 });
                    vertices.push(Vert2d { x: quad.x, y: y2, z: 0, color: quad.color, u: tx1, v: ty2 });
                    vertices.push(Vert2d { x: x2, y: quad.y, z: 0, color: quad.color, u: tx2, v: ty1 });
                    vertices.push(Vert2d { x: x2, y: y2, z: 0, color: quad.color, u: tx2, v: ty2 });
                    proof {
                        assert(vertices@ =~= vs_before + emit_quad(quad, *spr, tw0, th0));
                    }
                    let ghost k = q0.len() - self.queue@.len() - 1;
                    proof {
                        assert(vertices@.len() == 4 * k + 4);
                        assert(k < q0.len());
                    }
                    let i0: u32 = (vertices.len() - 4) as u32;
                    let ghost is_before = indices@;
                    indices.push(i0);
                    indices.push(i0 + 1);
                    indices.push(i0 + 2);
                    indices.push(i0 + 1);
                    indices.push(i0 + 3);
                    indices.push(i0 + 2);
                    proof {
                        assert(i0 == 4 * k);
                        assert(indices@ =~= is_before + index_block(k));
                        assert(indices@ =~= flush_idx(k + 1));
                        assert(flush_verts(queue_before, sprites0, tw0, th0) == emit_quad(quad, *spr, tw0, th0) + flush_verts(self.queue@, sprites0, tw0, th0));
                        assert(vs_before + flush_verts(queue_before, sprites0, tw0, th0) =~= vertices@ + flush_verts(self.queue@, sprites0, tw0, th0));
                    }
                },
                None => {
                    proof {
                        assert(false);
                    }
                },
            }
        }
        proof {
            assert(flush_verts(self.queue@, sprites0, tw0, th0) =~= Seq::<Vert2d>::empty());
            assert(vertices@ =~= flush_verts(q0, sprites0, tw0, th0));
            lemma_flush_index_count(q0.len() as int);
            assert(indices@.len() == 6 * q0.len());
            assert(q0.len() <= QUEUE_LIMIT);
        }
        let index_count: u32 = indices.len() as u32;

        let staging_recalled = self.text_wrapper.start_pass();
        let ghost t0 = self.text_queue@;
        let ghost tq0 = self.text_wrapper.queued@;
        proof {
            assert(t0.subrange(0, t0.len() as int) =~= t0);
            assert(tq0 + t0.subrange(self.text_queue@.len() as int, t0.len() as int).reverse() =~= tq0);
        }
        while self.text_queue.len() > 0
            invariant
                self.text_queue@ == t0.subrange(0, self.text_queue@.len() as int),
                self.text_queue@.len() <= t0.len(),
                self.text_wrapper.queued@ == tq0 + t0.subrange(self.text_queue@.len() as int, t0.len() as int).reverse(),
                self.text_wrapper.submitted_already == false,
                self.text_wrapper.fonts@ == old(self).text_wrapper.fonts@,
                self.text_wrapper.font_data@ == old(self).text_wrapper.font_data@,
                self.queue@.len() == 0,
                self.texture_atlas == old(self).texture_atlas,
                self.color == old(self).color,
                self.screen_width == old(self).screen_width,
                self.screen_height == old(self).screen_height,
                self.text_bounds_w == old(self).text_bounds_w,
                self.text_bounds_h == old(self).text_bounds_h,
                self.font_size == old(self).font_size,
                self.current_font == old(self).current_font,
                self.wf(),
            decreases self.text_queue@.len(),
        {
            let ghost before = self.text_queue@;
            let section = self.text_queue.pop().unwrap();
            self.text_wrapper.queue_section(section);
            proof {
                let m = self.text_queue@.len() as int;
                assert(self.text_queue@ =~= t0.subrange(0, m));
                assert(section == t0[m]);
                let suffix_old = t0.subrange(m + 1, t0.len() as int);
                let suffix_new = t0.subrange(m, t0.len() as int);
                assert(suffix_new.reverse() =~= suffix_old.reverse().push(t0[m]));
                assert(self.text_wrapper.queued@ =~= tq0 + suffix_new.reverse());
            }
        }
        let text = self.text_wrapper.end_pass();
        proof {
            assert(t0.subrange(0, 0) =~= Seq::<TextSection>::empty());
            assert(text@ =~= tq0 + t0.reverse());
        }
        FrameOutput { vertices, indices, index_count, staging_recalled, text }
    }
}

} // verus!
