//! Texture atlas bookkeeping: one shared texture's pixel dimensions and a
//! name-keyed table of the sprites it holds. The atlas is built once at
//! renderer construction and never repacked; every sprite's frame rectangles
//! must lie within the atlas's pixel bounds.

use vstd::prelude::*;
use crate::fx::FX_ONE;
use crate::sprite::{FramePos, Sprite};

verus! {

/// The texture atlas: the texture's pixel size plus the sprite table. The
/// texture itself (its bytes, its GPU binding) lives with the caller; this
/// core only addresses into it.
pub struct TextureAtlas {
    pub width: u32,
    pub height: u32,
    pub sprites: Vec<(String, Sprite)>,
}

/// The sprite stored under `name`, searching front to back.
pub open spec fn find_sprite(s: Seq<(String, Sprite)>, name: Seq<char>) -> Option<Sprite>
    decreases s.len(),
{
    if s.len() == 0 {
        None
    } else if s[0].0@ == name {
        Some(s[0].1)
    } else {
        find_sprite(s.drop_first(), name)
    }
}

/// Every frame rectangle of `s` lies within a `width` by `height` texture.
pub open spec fn sprite_fits(s: Sprite, width: u32, height: u32) -> bool {
    forall|i: int| 0 <= i < s.frames@.len() ==> {
        &&& #[trigger] s.frames@[i].x + s.width <= width
        &&& s.frames@[i].y + s.height <= height
    }
}

/// A built-in sprite as the constructor stocks it: a single 16 x 16 frame
/// with its origin at `(x, 0)`, frame count 1.0, playback at the start, not
/// animated.
pub open spec fn builtin_sprite(s: Sprite, x: u32) -> bool {
    &&& s.frames@.len() == 1
    &&& s.frames@[0] == (FramePos { x: x, y: 0 })
    &&& s.width == 16
    &&& s.height == 16
    &&& s.num_frames == FX_ONE
    &&& s.frame == 0
    &&& s.fps == 0
}

/// A sprite whose playback position selects a frame that its table holds.
pub open spec fn sprite_frame_valid(s: Sprite) -> bool {
    &&& 0 <= s.frame
    &&& s.frame_index() < s.frames@.len()
}

/// A found sprite is one of the table's entries.
pub proof fn lemma_find_sprite_in(s: Seq<(String, Sprite)>, name: Seq<char>)
    requires
        find_sprite(s, name) is Some,
    ensures
        exists|i: int| 0 <= i < s.len() && Some((#[trigger] s[i]).1) == find_sprite(s, name),
    decreases s.len(),
{
    if s.len() > 0 && s[0].0@ != name {
        lemma_find_sprite_in(s.drop_first(), name);
        let j = choose|j: int| 0 <= j < s.drop_first().len() && Some((#[trigger] s.drop_first()[j]).1)
            == find_sprite(s.drop_first(), name);
        assert(s[j + 1] == s.drop_first()[j]);
    }
}

impl TextureAtlas {
    /// Structural soundness: positive texture dimensions, and every sprite
    /// within the texture's pixel bounds, with a selectable current frame.
    pub open spec fn wf(&self) -> bool {
        &&& 0 < self.width
        &&& 0 < self.height
        &&& forall|i: int| 0 <= i < self.sprites@.len() ==> {
            &&& sprite_fits(#[trigger] self.sprites@[i].1, self.width, self.height)
            &&& sprite_frame_valid(self.sprites@[i].1)
        }
    }

    pub open spec fn spec_lookup(&self, name: Seq<char>) -> Option<Sprite> {
        find_sprite(self.sprites@, name)
    }

    pub open spec fn has_sprite(&self, name: Seq<char>) -> bool {
        self.spec_lookup(name) is Some
    }

    /// A new atlas over a texture of the given pixel size, pre-stocked with
    /// the two built-in 16 x 16 sprites: "default" at (0, 0) and "circle" at
    /// (16, 0). The texture must be large enough to hold them.
    pub fn new(width: u32, height: u32) -> (atlas: TextureAtlas)
        requires
            32 <= width,
            16 <= height,
        ensures
            atlas.wf(),
            atlas.width == width,
            atlas.height == height,
            atlas.sprites@.len() == 2,
            atlas.sprites@[0].0@ == "default"@,
            atlas.sprites@[1].0@ == "circle"@,
            builtin_sprite(atlas.sprites@[0].1, 0),
            builtin_sprite(atlas.sprites@[1].1, 16),
            atlas.spec_lookup("default"@) == Some(atlas.sprites@[0].1),
            atlas.spec_lookup("circle"@) == Some(atlas.sprites@[1].1),
            atlas.has_sprite("default"@),
            atlas.has_sprite("circle"@),
    {
        let mut default_frames: Vec<FramePos> = Vec::new();
        default_frames.push(FramePos { x: 0, y: 0 });
        let default_sprite = Sprite::new(default_frames, 16, 16, crate::fx::FX_ONE, 0);
        let mut circle_frames: Vec<FramePos> = Vec::new();
        circle_frames.push(FramePos { x: 16, y: 0 });
        let circle_sprite = Sprite::new(circle_frames, 16, 16, crate::fx::FX_ONE, 0);
        let mut sprites: Vec<(String, Sprite)> = Vec::new();
        sprites.push(("default".to_owned(), default_sprite));
        sprites.push(("circle".to_owned(), circle_sprite));
        let atlas = TextureAtlas { width, height, sprites };
        proof {
            reveal_strlit("default");
            reveal_strlit("circle");
            assert("default"@.len() != "circle"@.len());
            assert(atlas.spec_lookup("default"@) is Some);
            assert(atlas.sprites@.drop_first()[0].0@ == "circle"@);
            assert(find_sprite(atlas.sprites@.drop_first(), "circle"@) is Some);
            assert(atlas.spec_lookup("circle"@) is Some);
        }
        atlas
    }

    /// Look a sprite up by name; `None` when the atlas does not hold it.
    pub fn lookup(&self, name: &String) -> (r: Option<&Sprite>)
        ensures
            match r {
                Some(s) => self.spec_lookup(name@) == Some(*s),
                None => self.spec_lookup(name@) is None,
            },
    {
        let n: usize = self.sprites.len();
        let mut i: usize = 0;
        proof {
            assert(self.sprites@.skip(0) =~= self.sprites@);
        }
        while i < n
            invariant
                i <= n,
                n == self.sprites@.len(),
                find_sprite(self.sprites@, name@) == find_sprite(self.sprites@.skip(i as int), name@),
            decreases n - i,
        {
            proof {
                assert(self.sprites@.skip(i as int)[0] == self.sprites@[i as int]);
            }
            if self.sprites[i].0 == *name {
                return Some(&self.sprites[i].1);
            }
            proof {
                assert(self.sprites@.skip(i as int).drop_first() =~= self.sprites@.skip(i + 1));
            }
            i = i + 1;
        }
        proof {
            assert(self.sprites@.skip(n as int) =~= Seq::<(String, Sprite)>::empty());
        }
        None
    }
}

} // verus!
