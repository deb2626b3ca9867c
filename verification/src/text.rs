//! Glyph/text submission pipeline: a font table built once from raw font
//! bytes, a queue of pending text sections, and the double-buffered staging
//! protocol that hands each frame's sections to the GPU layer exactly once.
//!
//! The rasterizer and the staging buffers themselves belong to the caller;
//! this core decides when the staging region is recalled, what is queued, and
//! what one submission carries.

use vstd::prelude::*;
use crate::color::Color;

verus! {

/// Thin wrapper around raw font-file bytes.
pub struct Font {
    pub data: Vec<u8>,
}

/// Names a registered font at a fixed-point scale.
pub struct FontSpecifier {
    pub name: String,
    pub size: i64,
}

/// A string to be rendered, with its cache of per-placement instances.
pub struct TextBlock {
    pub data: String,
    pub instance_cache: Vec<TextBlockInstance>,
}

impl TextBlock {
    pub fn new(data: String) -> (t: TextBlock)
        ensures
            t.data@ == data@,
            t.instance_cache@.len() == 0,
    {
        TextBlock { data, instance_cache: Vec::new() }
    }
}

/// One placement of a text block: fixed-point position, whether the position
/// is relative (0..1) or absolute pixels, and an optional font override.
pub struct TextBlockInstance {
    pub x: i64,
    pub y: i64,
    pub relative_position: bool,
    pub font: Option<FontSpecifier>,
}

impl TextBlockInstance {
    pub fn new(x: i64, y: i64, relative_position: bool) -> (t: TextBlockInstance)
        ensures
            t.x == x,
            t.y == y,
            t.relative_position == relative_position,
            t.font is None,
    {
        TextBlockInstance { x, y, relative_position, font: None }
    }
}

/// One queued text draw request: the string, its screen placement and bounds,
/// and the styling captured when it was queued.
pub struct TextSection {
    pub text: String,
    pub x: i64,
    pub y: i64,
    pub bounds_w: i64,
    pub bounds_h: i64,
    pub color: Color,
    pub scale: i64,
    pub font_id: usize,
}

/// Whether `ab_glyph` accepts `data` as a font file; a pure function of the
/// bytes.
pub uninterp spec fn font_ok(data: Seq<u8>) -> bool;

/// `ab_glyph::FontArc`, the parsed font handle the rasterizer consumes.
/// Opaque here: it is carried from construction to the GPU layer untouched.
#[verifier::external_type_specification]
#[verifier::external_body]
pub struct ExFontArc(ab_glyph::FontArc);

/// Relies on `ab_glyph::FontArc::try_from_vec`: whether font data parses
/// depends on the bytes alone.
#[verifier::external_body]
fn parse_font(data: &Vec<u8>) -> (r: Option<ab_glyph::FontArc>)
    ensures
        r is Some <==> font_ok(data@),
{
    match ab_glyph::FontArc::try_from_vec(data.clone()) {
        Ok(f) => Some(f),
        Err(_) => None,
    }
}

/// The font id stored under `name`, searching front to back.
pub open spec fn find_font(s: Seq<(String, usize)>, name: Seq<char>) -> Option<usize>
    decreases s.len(),
{
    if s.len() == 0 {
        None
    } else if s[0].0@ == name {
        Some(s[0].1)
    } else {
        find_font(s.drop_first(), name)
    }
}

/// The glyph pipeline's frame-visible state: the name-to-id font table built
/// once at construction, the parsed fonts in id order, the sections queued
/// since the last submission, and whether a prior submission's staging region
/// is still outstanding.
pub struct GlyphRenderer {
    pub fonts: Vec<(String, usize)>,
    pub font_data: Vec<ab_glyph::FontArc>,
    pub queued: Vec<TextSection>,
    pub submitted_already: bool,
}

/// Effect of `start_pass` on the outstanding-submission flag: the staging
/// region is recalled exactly when a prior submission is outstanding
/// (`.1`), and the flag is cleared (`.0`).
pub open spec fn start_pass_spec(submitted_already: bool) -> (bool, bool) {
    (false, submitted_already)
}

/// Effect of `end_pass`: the whole queue is drawn (`.0`), the staging region
/// is finished, and a submission becomes outstanding (`.1`).
pub open spec fn end_pass_spec(queued: Seq<TextSection>) -> (Seq<TextSection>, bool) {
    (queued, true)
}

impl GlyphRenderer {
    /// Every entry's bytes are a valid font.
    pub open spec fn fonts_seq_parse(raw: Seq<(String, Font)>) -> bool {
        forall|i: int| 0 <= i < raw.len() ==> font_ok(#[trigger] raw[i].1.data@)
    }

    /// All supplied font bytes are valid fonts.
    pub open spec fn fonts_parse(raw_fonts: Option<Vec<(String, Font)>>) -> bool {
        match raw_fonts {
            Some(v) => Self::fonts_seq_parse(v@),
            None => true,
        }
    }

    /// What construction builds from `raw_fonts`: name `i` maps to id `i`,
    /// in supply order, over `n` fonts.
    pub open spec fn fonts_built(fonts: Seq<(String, usize)>, raw: Seq<(String, Font)>) -> bool {
        &&& fonts.len() == raw.len()
        &&& forall|i: int| 0 <= i < raw.len() ==> {
            &&& (#[trigger] fonts[i]).0@ == raw[i].0@
            &&& fonts[i].1 == i
        }
    }

    /// Build the pipeline state: register each supplied font under the next
    /// id, in supply order. A font whose bytes do not parse is a fatal
    /// construction error, ruled out up front; `try_new` checks instead.
    /// Supplying no fonts at all is accepted (text keeps working for default
    /// ids; named lookups then fail).
    pub fn new(raw_fonts: Option<Vec<(String, Font)>>) -> (g: GlyphRenderer)
        requires
            Self::fonts_parse(raw_fonts),
        ensures
            g.submitted_already == false,
            g.queued@.len() == 0,
            match raw_fonts {
                Some(v) => Self::fonts_built(g.fonts@, v@) && g.font_data@.len() == v@.len(),
                None => g.fonts@.len() == 0 && g.font_data@.len() == 0,
            },
    {
        let mut fonts: Vec<(String, usize)> = Vec::new();
        let mut font_data: Vec<ab_glyph::FontArc> = Vec::new();
        match raw_fonts {
            Some(mut v) => {
                let ghost raw: Seq<(String, Font)> = v@;
                let n: usize = v.len();
                let mut i: usize = 0;
                while i < n
                    invariant
                        i <= n,
                        n == raw.len(),
                        v@ =~= raw.skip(i as int),
                        fonts@.len() == i,
                        font_data@.len() == i,
                        forall|j: int| 0 <= j < i ==> {
                            &&& (#[trigger] fonts@[j]).0@ == raw[j].0@
                            &&& fonts@[j].1 == j
                        },
                        Self::fonts_seq_parse(raw),
                    decreases n - i,
                {
                    proof {
                        assert(v@[0] == raw[i as int]);
                    }
                    let (name, font) = v.remove(0);
                    let parsed = parse_font(&font.data);
                    match parsed {
                        Some(f) => {
                            fonts.push((name, font_data.len()));
                            font_data.push(f);
                        },
                        None => {
                            proof {
                                assert(font_ok(raw[i as int].1.data@));
                                assert(false);
                            }
                        },
                    }
                    i = i + 1;
                }
                GlyphRenderer { fonts, font_data, queued: Vec::new(), submitted_already: false }
            },
            None => {
                GlyphRenderer { fonts, font_data, queued: Vec::new(), submitted_already: false }
            },
        }
    }

    /// Construction that rejects instead of requiring: `None` exactly when
    /// some supplied font's bytes do not parse.
    pub fn try_new(raw_fonts: Option<Vec<(String, Font)>>) -> (r: Option<GlyphRenderer>)
        ensures
            r is Some <==> Self::fonts_parse(raw_fonts),
            match r {
                Some(g) => {
                    &&& g.submitted_already == false
                    &&& g.queued@.len() == 0
                    &&& match raw_fonts {
                        Some(v) => Self::fonts_built(g.fonts@, v@) && g.font_data@.len() == v@.len(),
                        None => g.fonts@.len() == 0 && g.font_data@.len() == 0,
                    }
                },
                None => true,
            },
    {
        match raw_fonts {
            Some(v) => {
                let n: usize = v.len();
                let mut i: usize = 0;
                while i < n
                    invariant
                        i <= n,
                        n == v@.len(),
                        raw_fonts == Some(v),
                        forall|j: int| 0 <= j < i ==> font_ok(#[trigger] v@[j].1.data@),
                    decreases n - i,
                {
                    let check = parse_font(&v[i].1.data);
                    if check.is_none() {
                        proof {
                            assert(!font_ok(v@[i as int].1.data@));
                            assert(!Self::fonts_seq_parse(v@));
                            assert(!Self::fonts_parse(raw_fonts));
                        }
                        return None;
                    }
                    i = i + 1;
                }
                Some(Self::new(Some(v)))
            },
            None => Some(Self::new(None)),
        }
    }

    /// Begin a frame's text pass: recall the staging region if (and only if)
    /// the previous frame submitted one. The very first pass ever recalls
    /// nothing. The caller performs the recall when `recalled` is true.
    pub fn start_pass(&mut self) -> (recalled: bool)
        ensures
            (final(self).submitted_already, recalled) == start_pass_spec(old(self).submitted_already),
            recalled == old(self).submitted_already,
            final(self).submitted_already == false,
            final(self).fonts@ == old(self).fonts@,
            final(self).font_data@ == old(self).font_data@,
            final(self).queued@ == old(self).queued@,
    {
        if self.submitted_already {
            self.submitted_already = false;
            true
        } else {
            false
        }
    }

    /// Register one pending section with the rasterizer queue.
    pub fn queue_section(&mut self, section: TextSection)
        ensures
            final(self).queued@ == old(self).queued@.push(section),
            final(self).fonts@ == old(self).fonts@,
            final(self).font_data@ == old(self).font_data@,
            final(self).submitted_already == old(self).submitted_already,
    {
        self.queued.push(section);
    }

    /// End a frame's text pass: hand every queued section over for drawing
    /// (in queue order), finish the staging region, and mark the submission
    /// outstanding. Runs once per frame even with nothing queued.
    pub fn end_pass(&mut self) -> (submission: Vec<TextSection>)
        ensures
            (submission@, final(self).submitted_already) == end_pass_spec(old(self).queued@),
            submission@ == old(self).queued@,
            final(self).queued@.len() == 0,
            final(self).submitted_already == true,
            final(self).fonts@ == old(self).fonts@,
            final(self).font_data@ == old(self).font_data@,
    {
        let mut submission: Vec<TextSection> = Vec::new();
        core::mem::swap(&mut submission, &mut self.queued);
        self.submitted_already = true;
        submission
    }

    /// Resolve a font name to its id. Asking for an unregistered name is a
    /// programming error, ruled out up front.
    pub fn font(&self, name: &String) -> (id: usize)
        requires
            find_font(self.fonts@, name@) is Some,
        ensures
            Some(id) == find_font(self.fonts@, name@),
    {
        let n: usize = self.fonts.len();
        let mut i: usize = 0;
        proof {
            assert(self.fonts@.skip(0) =~= self.fonts@);
        }
        while i < n
            invariant
                i <= n,
                n == self.fonts@.len(),
                find_font(self.fonts@, name@) == find_font(self.fonts@.skip(i as int), name@),
                find_font(self.fonts@, name@) is Some,
            decreases n - i,
        {
            proof {
                assert(self.fonts@.skip(i as int)[0] == self.fonts@[i as int]);
            }
            if self.fonts[i].0 == *name {
                return self.fonts[i].1;
            }
            proof {
                assert(self.fonts@.skip(i as int).drop_first() =~= self.fonts@.skip(i + 1));
            }
            i = i + 1;
        }
        proof {
            assert(self.fonts@.skip(n as int) =~= Seq::<(String, usize)>::empty());
            assert(false);
        }
        0
    }
}

/// Staging-belt protocol law: a pipeline fresh from construction has no
/// outstanding submission, so its first `start_pass` ever recalls nothing.
pub proof fn lemma_first_start_pass_never_recalls(g: GlyphRenderer)
    requires
        g.submitted_already == false,
    ensures
        !start_pass_spec(g.submitted_already).1,
{
}

/// Staging-belt protocol law: after any `end_pass`, the next `start_pass`
/// recalls the staging region before anything else is queued.
pub proof fn lemma_start_pass_after_end_pass_recalls(queued: Seq<TextSection>)
    ensures
        start_pass_spec(end_pass_spec(queued).1).1,
{
}

} // verus!
