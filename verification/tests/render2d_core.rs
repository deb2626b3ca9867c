use render2d::atlas::TextureAtlas;
use render2d::color::Color;
use render2d::fx::FX_ONE;
use render2d::renderer2d::Renderer2d;
use render2d::sprite::{FramePos, Sprite};
use render2d::text::GlyphRenderer;

fn fresh_renderer() -> Renderer2d {
    let glyph = GlyphRenderer::try_new(None).unwrap();
    Renderer2d::new(800, 600, 64, 32, glyph)
}

#[test]
fn batching_four_vertices_six_indices_per_quad() {
    let mut r = fresh_renderer();
    r.draw_quad_rel(0, 0, FX_ONE, FX_ONE);
    r.draw_quad_rel(FX_ONE / 4, FX_ONE / 4, FX_ONE / 2, FX_ONE / 2);
    r.draw_quad(10 * FX_ONE, 20 * FX_ONE, 100 * FX_ONE, 50 * FX_ONE);
    r.draw_sprite(0, 0, FX_ONE, FX_ONE, "circle".to_string());
    let out = r.render();
    assert_eq!(out.vertices.len(), 16);
    assert_eq!(out.indices.len(), 24);
    assert_eq!(out.index_count, 24);
    assert_eq!(r.queue.len(), 0);
}

#[test]
fn empty_frame_still_draws_without_faulting() {
    let mut r = fresh_renderer();
    let out = r.render();
    assert_eq!(out.vertices.len(), 0);
    assert_eq!(out.indices.len(), 0);
    assert_eq!(out.index_count, 0);
}

#[test]
fn unit_relative_quad_maps_to_device_corners_exactly() {
    let mut r = fresh_renderer();
    r.draw_quad_rel(0, 0, FX_ONE, FX_ONE);
    let out = r.render();
    assert_eq!(out.vertices.len(), 4);
    // Corner order: top-left, bottom-left, top-right, bottom-right.
    assert_eq!((out.vertices[0].x, out.vertices[0].y), (-FX_ONE, -FX_ONE));
    assert_eq!((out.vertices[1].x, out.vertices[1].y), (-FX_ONE, FX_ONE));
    assert_eq!((out.vertices[2].x, out.vertices[2].y), (FX_ONE, -FX_ONE));
    assert_eq!((out.vertices[3].x, out.vertices[3].y), (FX_ONE, FX_ONE));
}

#[test]
fn pixel_quad_converts_through_screen_size() {
    let mut r = fresh_renderer();
    // The full 800 x 600 screen in fixed-point pixels.
    r.draw_quad(0, 0, 800 * FX_ONE, 600 * FX_ONE);
    assert_eq!(r.queue[0].x, -FX_ONE);
    assert_eq!(r.queue[0].y, -FX_ONE);
    assert_eq!(r.queue[0].w, 2 * FX_ONE);
    assert_eq!(r.queue[0].h, 2 * FX_ONE);
}

#[test]
fn off_screen_pixel_quad_truncates_toward_zero() {
    let mut r = fresh_renderer();
    // -400 of 800 pixels: ratio -0.5, device -2.0; and a sub-pixel offset
    // truncates to the ratio's integer floor toward zero.
    r.draw_quad(-400 * FX_ONE, FX_ONE / 2, 400 * FX_ONE, 300 * FX_ONE);
    assert_eq!(r.queue[0].x, -2 * FX_ONE);
    assert_eq!(r.queue[0].y, -FX_ONE);
    assert_eq!(r.queue[0].w, FX_ONE);
    assert_eq!(r.queue[0].h, FX_ONE);
}

#[test]
fn index_pattern_covers_two_ccw_triangles_per_quad() {
    let mut r = fresh_renderer();
    r.draw_quad_rel(0, 0, FX_ONE, FX_ONE);
    r.draw_quad_rel(0, 0, FX_ONE / 2, FX_ONE / 2);
    let out = r.render();
    assert_eq!(out.indices, vec![0, 1, 2, 1, 3, 2, 4, 5, 6, 5, 7, 6]);
}

#[test]
fn color_captured_at_push_not_at_flush() {
    let mut r = fresh_renderer();
    let red = Color::from_rgb(FX_ONE, 0, 0);
    let blue = Color::from_rgb(0, 0, FX_ONE);
    r.set_color(red);
    r.draw_quad_rel(0, 0, FX_ONE, FX_ONE);
    r.set_color(blue);
    let out = r.render();
    for v in &out.vertices {
        assert_eq!(v.color, red);
    }
}

#[test]
fn sprite_quad_uses_atlas_uv_rectangle() {
    let mut r = fresh_renderer();
    // The built-in "circle" sprite sits at (16, 0), 16 x 16, on a 64 x 32
    // atlas: u spans 16/64..32/64, v spans 0/32..16/32.
    r.draw_sprite(0, 0, FX_ONE, FX_ONE, "circle".to_string());
    let out = r.render();
    assert_eq!(out.vertices[0].u, FX_ONE / 4);
    assert_eq!(out.vertices[0].v, 0);
    assert_eq!(out.vertices[3].u, FX_ONE / 2);
    assert_eq!(out.vertices[3].v, FX_ONE / 2);
}

#[test]
fn sprite_scaled_by_multipliers() {
    let mut r = fresh_renderer();
    // 16-pixel sprite, doubled: 32 pixels of an 800-wide screen.
    r.draw_sprite(0, 0, 2 * FX_ONE, FX_ONE, "circle".to_string());
    let q = &r.queue[0];
    assert_eq!(q.w, ((32 * FX_ONE) / 800) * 2);
    assert_eq!(q.h, ((16 * FX_ONE) / 600) * 2);
    assert_eq!(q.sprite.as_deref(), Some("circle"));
}

#[test]
fn atlas_lookup_finds_builtins_and_rejects_unknown() {
    let atlas = TextureAtlas::new(64, 32);
    let default = atlas.lookup(&"default".to_string()).unwrap();
    assert_eq!(default.frames, vec![FramePos { x: 0, y: 0 }]);
    let circle = atlas.lookup(&"circle".to_string()).unwrap();
    assert_eq!(circle.width, 16);
    assert_eq!(circle.height, 16);
    assert_eq!(circle.frames, vec![FramePos { x: 16, y: 0 }]);
    assert_eq!(circle.num_frames, FX_ONE);
    assert_eq!(circle.fps, 0);
    assert_eq!(circle.frame, 0);
    assert!(atlas.lookup(&"nope".to_string()).is_none());
}

#[test]
fn static_sprite_never_advances() {
    let mut s = Sprite::new(vec![FramePos { x: 0, y: 0 }], 16, 16, 0, 2 * FX_ONE);
    s.update(10 * FX_ONE);
    assert_eq!(s.frame, 0);
    s.update(1_000_000 * FX_ONE);
    assert_eq!(s.frame, 0);
    s.update(-3 * FX_ONE);
    assert_eq!(s.frame, 0);
    assert_eq!(s.fps, 2 * FX_ONE);
}

#[test]
fn sprite_advance_wraps_once() {
    // fps = 2, four frames, current position 3.5, advanced by 1 second:
    // 3.5 + 2.0 - 4.0 = 1.5.
    let frames = vec![
        FramePos { x: 0, y: 0 },
        FramePos { x: 16, y: 0 },
        FramePos { x: 32, y: 0 },
        FramePos { x: 48, y: 0 },
    ];
    let mut s = Sprite::new(frames, 16, 16, 4 * FX_ONE, 2 * FX_ONE);
    s.frame = 3 * FX_ONE + FX_ONE / 2;
    s.update(FX_ONE);
    assert_eq!(s.frame, FX_ONE + FX_ONE / 2);
    assert_eq!(s.current_frame(), FramePos { x: 16, y: 0 });
}

#[test]
fn sprite_advance_below_count_does_not_wrap() {
    let frames = vec![FramePos { x: 0, y: 0 }, FramePos { x: 16, y: 0 }];
    let mut s = Sprite::new(frames, 16, 16, 2 * FX_ONE, FX_ONE);
    s.update(FX_ONE / 2);
    assert_eq!(s.frame, FX_ONE / 2);
    assert_eq!(s.current_frame(), FramePos { x: 0, y: 0 });
}

#[test]
fn renderer_starts_white_with_screen_bounds() {
    let r = fresh_renderer();
    assert_eq!(r.color, Color::from_rgb(FX_ONE, FX_ONE, FX_ONE));
    assert_eq!(r.text_bounds_w, 800 * FX_ONE);
    assert_eq!(r.text_bounds_h, 600 * FX_ONE);
    assert_eq!(r.font_size, 16 * FX_ONE);
    assert!(r.current_font.is_none());
}
