//! Quad batching: the per-frame queue of pending draw requests and the spec
//! of how one flush packs them into a single vertex/index buffer pair.
//!
//! The queue is consumed back to front (the order is immaterial visually:
//! quads do not depth-test against each other). Each quad becomes 4 vertices
//! and 6 indices — two counter-clockwise triangles — appended to one growing
//! buffer, drawn with a single indexed draw call however many quads there
//! were.

use vstd::prelude::*;
use crate::color::Color;
use crate::fx::FX_ONE;
use crate::sprite::Sprite;
use crate::atlas::find_sprite;

verus! {

/// Magnitude bound on queued device-space coordinates; corner sums stay well
/// within `i64`.
pub const QUAD_LIMIT: i64 = 0x40_0000_0000;

/// One pending draw request: an optional atlas key (none means the default
/// sprite), a device-space rectangle, and the color captured when it was
/// pushed.
pub struct Quad {
    pub sprite: Option<String>,
    pub x: i64,
    pub y: i64,
    pub w: i64,
    pub h: i64,
    pub color: Color,
}

/// One 2D vertex: device-space position, color, and atlas-normalized texture
/// coordinates.
#[derive(Clone, Copy, PartialEq, Eq, Structural, Debug)]
pub struct Vert2d {
    pub x: i64,
    pub y: i64,
    pub z: i64,
    pub color: Color,
    pub u: i64,
    pub v: i64,
}

/// The atlas key a quad resolves against.
pub open spec fn quad_key(q: Quad) -> Seq<char> {
    match q.sprite {
        Some(s) => s@,
        None => "default"@,
    }
}

/// Queued coordinates within the overflow-free range.
pub open spec fn quad_in_range(q: Quad) -> bool {
    &&& -QUAD_LIMIT <= q.x <= QUAD_LIMIT
    &&& -QUAD_LIMIT <= q.y <= QUAD_LIMIT
    &&& -QUAD_LIMIT <= q.w <= QUAD_LIMIT
    &&& -QUAD_LIMIT <= q.h <= QUAD_LIMIT
}

/// A pixel offset as an atlas-normalized fixed-point texture coordinate.
pub open spec fn uv_of(p: int, dim: int) -> int {
    (p * FX_ONE) / dim
}

/// The sprite a quad resolves to (meaningful only when the key is present).
pub open spec fn resolved_sprite(sprites: Seq<(String, Sprite)>, q: Quad) -> Sprite {
    match find_sprite(sprites, quad_key(q)) {
        Some(s) => s,
        None => vstd::pervasive::arbitrary(),
    }
}

/// The four corner vertices one quad contributes, in emission order:
/// top-left, bottom-left, top-right, bottom-right of the quad's rectangle,
/// each carrying the quad's captured color and the UV rectangle of the
/// sprite's current frame on a `tw` by `th` atlas.
pub open spec fn emit_quad(q: Quad, s: Sprite, tw: int, th: int) -> Seq<Vert2d> {
    let f = s.frames@[s.frame_index()];
    let x2 = q.x + q.w;
    let y2 = q.y + q.h;
    let tx1 = uv_of(f.x as int, tw);
    let ty1 = uv_of(f.y as int, th);
    let tx2 = uv_of(f.x + s.width, tw);
    let ty2 = uv_of(f.y + s.height, th);
    seq![
        Vert2d { x: q.x, y: q.y, z: 0, color: q.color, u: tx1 as i64, v: ty1 as i64 },
        Vert2d { x: q.x, y: y2 as i64, z: 0, color: q.color, u: tx1 as i64, v: ty2 as i64 },
        Vert2d { x: x2 as i64, y: q.y, z: 0, color: q.color, u: tx2 as i64, v: ty1 as i64 },
        Vert2d { x: x2 as i64, y: y2 as i64, z: 0, color: q.color, u: tx2 as i64, v: ty2 as i64 },
    ]
}

/// All vertices of one flush: the queue consumed back to front, each quad's
/// four corners appended in turn.
pub open spec fn flush_verts(queue: Seq<Quad>, sprites: Seq<(String, Sprite)>, tw: int, th: int) -> Seq<Vert2d>
    decreases queue.len(),
{
    if queue.len() == 0 {
        Seq::empty()
    } else {
        emit_quad(queue.last(), resolved_sprite(sprites, queue.last()), tw, th)
            + flush_verts(queue.drop_last(), sprites, tw, th)
    }
}

/// The six indices of the quad emitted at stack position `j`: two
/// counter-clockwise triangles over its four vertices.
pub open spec fn index_block(j: int) -> Seq<u32> {
    seq![
        (4 * j) as u32,
        (4 * j + 1) as u32,
        (4 * j + 2) as u32,
        (4 * j + 1) as u32,
        (4 * j + 3) as u32,
        (4 * j + 2) as u32,
    ]
}

/// All indices of one flush of `n` quads.
pub open spec fn flush_idx(n: int) -> Seq<u32>
    decreases n,
{
    if n <= 0 {
        Seq::empty()
    } else {
        flush_idx(n - 1) + index_block(n - 1)
    }
}

/// Batching law, vertex half: a flush of N quads produces exactly 4 N
/// vertices, whatever the quads hold.
pub proof fn lemma_flush_vertex_count(queue: Seq<Quad>, sprites: Seq<(String, Sprite)>, tw: int, th: int)
    ensures
        flush_verts(queue, sprites, tw, th).len() == 4 * queue.len(),
    decreases queue.len(),
{
    if queue.len() > 0 {
        lemma_flush_vertex_count(queue.drop_last(), sprites, tw, th);
    }
}

/// Batching law, index half: a flush of N quads produces exactly 6 N
/// indices.
pub proof fn lemma_flush_index_count(n: int)
    requires
        0 <= n,
    ensures
        flush_idx(n).len() == 6 * n,
    decreases n,
{
    if n > 0 {
        lemma_flush_index_count(n - 1);
    }
}

/// Capture-at-push law: the quad at queue position `i` is emitted as the
/// vertex block at stack position `queue.len() - 1 - i`, built from that
/// quad alone — in particular its four vertices carry the color the quad was
/// pushed with, so changing the renderer's color after the push cannot alter
/// a quad already queued.
pub proof fn lemma_capture_at_push(queue: Seq<Quad>, sprites: Seq<(String, Sprite)>, tw: int, th: int, i: int)
    requires
        0 <= i < queue.len(),
    ensures
        flush_verts(queue, sprites, tw, th).subrange(
            4 * (queue.len() - 1 - i),
            4 * (queue.len() - 1 - i) + 4,
        ) == emit_quad(queue[i], resolved_sprite(sprites, queue[i]), tw, th),
        forall|k: int| 0 <= k < 4 ==> #[trigger] emit_quad(
            queue[i],
            resolved_sprite(sprites, queue[i]),
            tw,
            th,
        )[k].color == queue[i].color,
    decreases queue.len(),
{
    let n = queue.len() as int;
    let whole = flush_verts(queue, sprites, tw, th);
    let block = emit_quad(queue.last(), resolved_sprite(sprites, queue.last()), tw, th);
    let rest = flush_verts(queue.drop_last(), sprites, tw, th);
    lemma_flush_vertex_count(queue.drop_last(), sprites, tw, th);
    if i == n - 1 {
        assert(whole.subrange(0, 4) =~= block);
    } else {
        lemma_capture_at_push(queue.drop_last(), sprites, tw, th, i);
        assert(queue.drop_last()[i] == queue[i]);
        let j = 4 * (n - 1 - i);
        assert(whole.subrange(j, j + 4) =~= rest.subrange(j - 4, j));
        assert(rest.subrange(j - 4, j) == emit_quad(queue[i], resolved_sprite(sprites, queue[i]), tw, th));
    }
}

} // verus!
