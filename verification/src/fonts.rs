//! Font asset mapping: the name-to-bytes table the asset pipeline fills once
//! and hands to the glyph pipeline at construction.

use vstd::prelude::*;
use crate::text::Font;

verus! {

/// The bytes stored under `name`, searching front to back.
pub open spec fn find_bytes(s: Seq<(String, Vec<u8>)>, name: Seq<char>) -> Option<Seq<u8>>
    decreases s.len(),
{
    if s.len() == 0 {
        None
    } else if s[0].0@ == name {
        Some(s[0].1@)
    } else {
        find_bytes(s.drop_first(), name)
    }
}

/// A mapping from font name to raw font-file bytes, with unique names.
pub struct Mapper {
    pub map: Vec<(String, Vec<u8>)>,
}

impl Mapper {
    /// An empty mapping.
    pub fn new() -> (m: Mapper)
        ensures
            m.map@.len() == 0,
    {
        Mapper { map: Vec::new() }
    }

    /// Register one font's bytes under a name not yet taken.
    pub fn insert(&mut self, name: String, data: Vec<u8>)
        requires
            find_bytes(old(self).map@, name@) is None,
        ensures
            final(self).map@ == old(self).map@.push((name, data)),
    {
        self.map.push((name, data));
    }

    /// The bytes registered under `name`, if any.
    pub fn get(&self, name: &String) -> (r: Option<&Vec<u8>>)
        ensures
            match r {
                Some(d) => find_bytes(self.map@, name@) == Some(d@),
                None => find_bytes(self.map@, name@) is None,
            },
    {
        let n: usize = self.map.len();
        let mut i: usize = 0;
        proof {
            assert(self.map@.skip(0) =~= self.map@);
        }
        while i < n
            invariant
                i <= n,
                n == self.map@.len(),
                find_bytes(self.map@, name@) == find_bytes(self.map@.skip(i as int), name@),
            decreases n - i,
        {
            proof {
                assert(self.map@.skip(i as int)[0] == self.map@[i as int]);
            }
            if self.map[i].0 == *name {
                return Some(&self.map[i].1);
            }
            proof {
                assert(self.map@.skip(i as int).drop_first() =~= self.map@.skip(i + 1));
            }
            i = i + 1;
        }
        proof {
            assert(self.map@.skip(n as int) =~= Seq::<(String, Vec<u8>)>::empty());
        }
        None
    }

    /// Hand the whole mapping over as the glyph pipeline's construction
    /// input, names and order kept.
    pub fn to_font_list(self) -> (fonts: Vec<(String, Font)>)
        ensures
            fonts@.len() == self.map@.len(),
            forall|i: int| 0 <= i < self.map@.len() ==> {
                &&& (#[trigger] fonts@[i]).0@ == self.map@[i].0@
                &&& fonts@[i].1.data@ == self.map@[i].1@
            },
    {
        let ghost m0 = self.map@;
        let mut map = self.map;
        let mut fonts: Vec<(String, Font)> = Vec::new();
        proof {
            assert(map@ =~= m0.skip(0));
        }
        while map.len() > 0
            invariant
                fonts@.len() + map@.len() == m0.len(),
                map@ == m0.skip(fonts@.len() as int),
                forall|i: int| 0 <= i < fonts@.len() ==> {
                    &&& (#[trigger] fonts@[i]).0@ == m0[i].0@
                    &&& fonts@[i].1.data@ == m0[i].1@
                },
            decreases map@.len(),
        {
            proof {
                assert(map@[0] == m0[fonts@.len() as int]);
                assert(map@.drop_first() =~= m0.skip(fonts@.len() as int + 1));
            }
            let (name, data) = map.remove(0);
            fonts.push((name, Font { data }));
        }
        fonts
    }
}

} // verus!
