use render2d::color::Color;
use render2d::fonts::Mapper;
use render2d::fx::{div_trunc, fx_mul, FX_ONE};
use render2d::instance::{Instance, InstanceCache, Quat, Vec3};
use render2d::renderer2d::Renderer2d;
use render2d::text::{Font, GlyphRenderer, TextBlock, TextBlockInstance};

fn identity_instance(x: i64, y: i64, z: i64) -> Instance {
    Instance {
        position: Vec3 { x, y, z },
        rotation: Quat { s: FX_ONE, x: 0, y: 0, z: 0 },
    }
}

#[test]
fn update_uploads_once_until_dirtied_again() {
    let mut cache = InstanceCache::new();
    cache.insert(identity_instance(0, 0, 0));
    assert!(cache.update());
    assert!(!cache.update());
    assert!(!cache.update());
    cache.insert(identity_instance(FX_ONE, 0, 0));
    assert!(cache.update());
    cache.clear();
    assert!(cache.update());
    assert!(!cache.update());
}

#[test]
fn fresh_cache_is_dirty_and_uploads_empty_buffer() {
    let mut cache = InstanceCache::new();
    assert!(cache.dirty);
    assert!(cache.update());
    assert_eq!(cache.buffer.as_ref().unwrap().len(), 0);
}

#[test]
fn render_with_zero_instances_draws_empty_range() {
    let mut cache = InstanceCache::new();
    cache.update();
    let draw = cache.render();
    assert_eq!(draw.instance_count, 0);
}

#[test]
fn render_covers_whole_live_range() {
    let mut cache = InstanceCache::new();
    cache.insert(identity_instance(0, 0, 0));
    cache.insert(identity_instance(FX_ONE, 2 * FX_ONE, 3 * FX_ONE));
    cache.update();
    let draw = cache.render();
    assert_eq!(draw.instance_count, 2);
}

#[test]
fn identity_rotation_gives_identity_matrices_and_translation_column() {
    let inst = identity_instance(5 * FX_ONE, -7 * FX_ONE, FX_ONE / 2);
    let raw = inst.to_raw();
    assert_eq!((raw.normal.c0r0, raw.normal.c1r1, raw.normal.c2r2), (FX_ONE, FX_ONE, FX_ONE));
    assert_eq!((raw.normal.c0r1, raw.normal.c0r2, raw.normal.c1r0), (0, 0, 0));
    assert_eq!((raw.normal.c1r2, raw.normal.c2r0, raw.normal.c2r1), (0, 0, 0));
    assert_eq!((raw.model.c3r0, raw.model.c3r1, raw.model.c3r2), (5 * FX_ONE, -7 * FX_ONE, FX_ONE / 2));
    assert_eq!(raw.model.c3r3, FX_ONE);
    assert_eq!((raw.model.c0r3, raw.model.c1r3, raw.model.c2r3), (0, 0, 0));
    assert_eq!((raw.model.c0r0, raw.model.c1r1, raw.model.c2r2), (FX_ONE, FX_ONE, FX_ONE));
}

#[test]
fn half_turn_about_z_flips_x_and_y_axes() {
    // q = 0 + 0 i + 0 j + 1 k rotates half a turn about z.
    let inst = Instance {
        position: Vec3 { x: 0, y: 0, z: 0 },
        rotation: Quat { s: 0, x: 0, y: 0, z: FX_ONE },
    };
    let raw = inst.to_raw();
    assert_eq!(raw.normal.c0r0, -FX_ONE);
    assert_eq!(raw.normal.c1r1, -FX_ONE);
    assert_eq!(raw.normal.c2r2, FX_ONE);
    assert_eq!((raw.normal.c0r1, raw.normal.c1r0), (0, 0));
}

#[test]
fn first_start_pass_never_recalls_then_alternates() {
    let mut g = GlyphRenderer::try_new(None).unwrap();
    assert!(!g.start_pass());
    let submitted = g.end_pass();
    assert_eq!(submitted.len(), 0);
    assert!(g.start_pass());
    assert!(!g.start_pass());
}

#[test]
fn end_pass_hands_queued_sections_over_in_order() {
    let mut r = {
        let glyph = GlyphRenderer::try_new(None).unwrap();
        Renderer2d::new(800, 600, 64, 32, glyph)
    };
    r.draw_text("first".to_string(), 0, 0);
    r.draw_text("second".to_string(), FX_ONE, FX_ONE);
    let out = r.render();
    // The pending queue is drained back to front.
    assert_eq!(out.text.len(), 2);
    assert_eq!(out.text[0].text, "second");
    assert_eq!(out.text[1].text, "first");
    assert_eq!(r.text_queue.len(), 0);
}

#[test]
fn renderer_staging_protocol_across_frames() {
    let mut r = {
        let glyph = GlyphRenderer::try_new(None).unwrap();
        Renderer2d::new(800, 600, 64, 32, glyph)
    };
    let first = r.render();
    assert!(!first.staging_recalled);
    let second = r.render();
    assert!(second.staging_recalled);
}

#[test]
fn draw_text_captures_state_at_call_time() {
    let mut r = {
        let glyph = GlyphRenderer::try_new(None).unwrap();
        Renderer2d::new(800, 600, 64, 32, glyph)
    };
    let red = Color::from_rgb(FX_ONE, 0, 0);
    r.set_color(red);
    r.set_text_bounds(100 * FX_ONE, 50 * FX_ONE);
    r.draw_text("hello".to_string(), 3 * FX_ONE, 4 * FX_ONE);
    r.set_color(Color::from_rgb(0, FX_ONE, 0));
    r.set_text_bounds(FX_ONE, FX_ONE);
    let s = &r.text_queue[0];
    assert_eq!(s.text, "hello");
    assert_eq!((s.x, s.y), (3 * FX_ONE, 4 * FX_ONE));
    assert_eq!((s.bounds_w, s.bounds_h), (100 * FX_ONE, 50 * FX_ONE));
    assert_eq!(s.color, red);
    assert_eq!(s.scale, 16 * FX_ONE);
    assert_eq!(s.font_id, 0);
}

#[test]
fn invalid_font_bytes_are_rejected_at_construction() {
    let garbage = Font { data: vec![0, 1, 2, 3, 4, 5, 6, 7] };
    let r = GlyphRenderer::try_new(Some(vec![("bad".to_string(), garbage)]));
    assert!(r.is_none());
}

#[test]
fn no_fonts_is_accepted_with_empty_table() {
    let g = GlyphRenderer::try_new(None).unwrap();
    assert_eq!(g.fonts.len(), 0);
    assert_eq!(g.font_data.len(), 0);
    assert!(!g.submitted_already);
}

fn glyph_with_fonts(names: &[&str]) -> GlyphRenderer {
    GlyphRenderer {
        fonts: names
            .iter()
            .enumerate()
            .map(|(i, n)| (n.to_string(), i))
            .collect(),
        font_data: Vec::new(),
        queued: Vec::new(),
        submitted_already: false,
    }
}

#[test]
fn font_table_resolves_names_to_registration_order() {
    let g = glyph_with_fonts(&["arial", "mono"]);
    assert_eq!(g.font(&"arial".to_string()), 0);
    assert_eq!(g.font(&"mono".to_string()), 1);
}

#[test]
fn set_font_is_captured_by_later_draw_text_only() {
    let glyph = glyph_with_fonts(&["arial", "mono"]);
    let mut r = Renderer2d::new(800, 600, 64, 32, glyph);
    r.draw_text("before".to_string(), 0, 0);
    r.set_font(&"mono".to_string(), 24 * FX_ONE);
    r.draw_text("after".to_string(), 0, 0);
    assert_eq!(r.text_queue[0].font_id, 0);
    assert_eq!(r.text_queue[0].scale, 16 * FX_ONE);
    assert_eq!(r.text_queue[1].font_id, 1);
    assert_eq!(r.text_queue[1].scale, 24 * FX_ONE);
}

#[test]
fn mapper_round_trips_font_bytes() {
    let mut m = Mapper::new();
    m.insert("arial".to_string(), vec![1, 2, 3]);
    m.insert("mono".to_string(), vec![4, 5]);
    assert_eq!(m.get(&"arial".to_string()).unwrap(), &vec![1, 2, 3]);
    assert_eq!(m.get(&"mono".to_string()).unwrap(), &vec![4, 5]);
    assert!(m.get(&"missing".to_string()).is_none());
    let fonts = m.to_font_list();
    assert_eq!(fonts.len(), 2);
    assert_eq!(fonts[0].0, "arial");
    assert_eq!(fonts[0].1.data, vec![1, 2, 3]);
    assert_eq!(fonts[1].0, "mono");
    assert_eq!(fonts[1].1.data, vec![4, 5]);
}

#[test]
fn text_block_and_instance_defaults() {
    let block = TextBlock::new("hud".to_string());
    assert_eq!(block.data, "hud");
    assert_eq!(block.instance_cache.len(), 0);
    let inst = TextBlockInstance::new(FX_ONE, 2 * FX_ONE, true);
    assert_eq!((inst.x, inst.y), (FX_ONE, 2 * FX_ONE));
    assert!(inst.relative_position);
    assert!(inst.font.is_none());
}

#[test]
fn fixed_point_helpers_round_toward_zero() {
    assert_eq!(div_trunc(10, 3), 3);
    assert_eq!(div_trunc(-10, 3), -3);
    assert_eq!(div_trunc(0, 7), 0);
    assert_eq!(fx_mul(2 * FX_ONE, 3 * FX_ONE), 6 * FX_ONE);
    assert_eq!(fx_mul(2 * FX_ONE, -(3 * FX_ONE) / 2), -3 * FX_ONE);
    assert_eq!(fx_mul(-FX_ONE, -FX_ONE), FX_ONE);
    // 1.5 * 1.5 = 2.25: 2304 units.
    assert_eq!(fx_mul(FX_ONE + FX_ONE / 2, FX_ONE + FX_ONE / 2), 2 * FX_ONE + FX_ONE / 4);
}
