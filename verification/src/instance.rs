//! Instanced-draw submission: per-object transforms, their raw matrix form,
//! and the dirty-tracked cache that rebuilds the GPU-visible instance array
//! only when its backing collection has changed.

use vstd::prelude::*;
use crate::fx::{FX_ONE, fx_mul_spec, fx_mul, lemma_fx_mul_bound};

verus! {

/// Magnitude bound on rotation components (fixed-point units) under which
/// matrix derivation is overflow-free; a unit quaternion is well inside it.
pub const ROT_LIMIT: i64 = 16384;

/// A fixed-point 3-vector.
#[derive(Clone, Copy, PartialEq, Eq, Structural, Debug)]
pub struct Vec3 {
    pub x: i64,
    pub y: i64,
    pub z: i64,
}

/// A fixed-point quaternion `s + x i + y j + z k`.
#[derive(Clone, Copy, PartialEq, Eq, Structural, Debug)]
pub struct Quat {
    pub s: i64,
    pub x: i64,
    pub y: i64,
    pub z: i64,
}

/// One per-object transform: position and rotation. The cache holds copies
/// of these by value; non-uniform scale is not modeled.
#[derive(Clone, Copy, PartialEq, Eq, Structural, Debug)]
pub struct Instance {
    pub position: Vec3,
    pub rotation: Quat,
}

/// A column-major fixed-point 3 x 3 matrix (`cIrJ` is column I, row J).
#[derive(Clone, Copy, PartialEq, Eq, Structural, Debug)]
pub struct Mat3 {
    pub c0r0: i64, pub c0r1: i64, pub c0r2: i64,
    pub c1r0: i64, pub c1r1: i64, pub c1r2: i64,
    pub c2r0: i64, pub c2r1: i64, pub c2r2: i64,
}

/// A column-major fixed-point 4 x 4 matrix.
#[derive(Clone, Copy, PartialEq, Eq, Structural, Debug)]
pub struct Mat4 {
    pub c0r0: i64, pub c0r1: i64, pub c0r2: i64, pub c0r3: i64,
    pub c1r0: i64, pub c1r1: i64, pub c1r2: i64, pub c1r3: i64,
    pub c2r0: i64, pub c2r1: i64, pub c2r2: i64, pub c2r3: i64,
    pub c3r0: i64, pub c3r1: i64, pub c3r2: i64, pub c3r3: i64,
}

/// The raw, GPU-uploadable form of one instance: its model matrix and the
/// rotation-only normal matrix.
#[derive(Clone, Copy, PartialEq, Eq, Structural, Debug)]
pub struct InstanceRaw {
    pub model: Mat4,
    pub normal: Mat3,
}

/// Rotation components small enough that matrix derivation cannot overflow.
pub open spec fn rot_in_range(q: Quat) -> bool {
    &&& -ROT_LIMIT <= q.s <= ROT_LIMIT
    &&& -ROT_LIMIT <= q.x <= ROT_LIMIT
    &&& -ROT_LIMIT <= q.y <= ROT_LIMIT
    &&& -ROT_LIMIT <= q.z <= ROT_LIMIT
}

/// The rotation matrix of a quaternion, in fixed point: the standard
/// `2 * component` product form, each product scaled back by `FX_ONE`.
pub open spec fn rot_mat(q: Quat) -> Mat3 {
    let xx2 = fx_mul_spec(2 * q.x, q.x as int);
    let xy2 = fx_mul_spec(2 * q.x, q.y as int);
    let xz2 = fx_mul_spec(2 * q.x, q.z as int);
    let yy2 = fx_mul_spec(2 * q.y, q.y as int);
    let yz2 = fx_mul_spec(2 * q.y, q.z as int);
    let zz2 = fx_mul_spec(2 * q.z, q.z as int);
    let sx2 = fx_mul_spec(2 * q.x, q.s as int);
    let sy2 = fx_mul_spec(2 * q.y, q.s as int);
    let sz2 = fx_mul_spec(2 * q.z, q.s as int);
    Mat3 {
        c0r0: (FX_ONE - yy2 - zz2) as i64, c0r1: (xy2 + sz2) as i64, c0r2: (xz2 - sy2) as i64,
        c1r0: (xy2 - sz2) as i64, c1r1: (FX_ONE - xx2 - zz2) as i64, c1r2: (yz2 + sx2) as i64,
        c2r0: (xz2 + sy2) as i64, c2r1: (yz2 - sx2) as i64, c2r2: (FX_ONE - xx2 - yy2) as i64,
    }
}

/// The model matrix `translation(position) * rotation`: the rotation in the
/// upper-left block, the position in the fourth column.
pub open spec fn model_mat(i: Instance) -> Mat4 {
    let r = rot_mat(i.rotation);
    Mat4 {
        c0r0: r.c0r0, c0r1: r.c0r1, c0r2: r.c0r2, c0r3: 0,
        c1r0: r.c1r0, c1r1: r.c1r1, c1r2: r.c1r2, c1r3: 0,
        c2r0: r.c2r0, c2r1: r.c2r1, c2r2: r.c2r2, c2r3: 0,
        c3r0: i.position.x, c3r1: i.position.y, c3r2: i.position.z, c3r3: FX_ONE,
    }
}

/// The raw form of one instance.
pub open spec fn raw_of(i: Instance) -> InstanceRaw {
    InstanceRaw { model: model_mat(i), normal: rot_mat(i.rotation) }
}

impl Instance {
    /// Derive the raw matrix pair for this instance.
    pub fn to_raw(&self) -> (raw: InstanceRaw)
        requires
            rot_in_range(self.rotation),
        ensures
            raw == raw_of(*self),
    {
        let q = self.rotation;
        let x2: i64 = q.x + q.x;
        let y2: i64 = q.y + q.y;
        let z2: i64 = q.z + q.z;
        let xx2: i64 = fx_mul(x2, q.x);
        let xy2: i64 = fx_mul(x2, q.y);
        let xz2: i64 = fx_mul(x2, q.z);
        let yy2: i64 = fx_mul(y2, q.y);
        let yz2: i64 = fx_mul(y2, q.z);
        let zz2: i64 = fx_mul(z2, q.z);
        let sx2: i64 = fx_mul(x2, q.s);
        let sy2: i64 = fx_mul(y2, q.s);
        let sz2: i64 = fx_mul(z2, q.s);
        proof {
            lemma_fx_mul_bound(x2 as int, q.x as int, 2 * ROT_LIMIT);
            lemma_fx_mul_bound(x2 as int, q.y as int, 2 * ROT_LIMIT);
            lemma_fx_mul_bound(x2 as int, q.z as int, 2 * ROT_LIMIT);
            lemma_fx_mul_bound(y2 as int, q.y as int, 2 * ROT_LIMIT);
            lemma_fx_mul_bound(y2 as int, q.z as int, 2 * ROT_LIMIT);
            lemma_fx_mul_bound(z2 as int, q.z as int, 2 * ROT_LIMIT);
            lemma_fx_mul_bound(x2 as int, q.s as int, 2 * ROT_LIMIT);
            lemma_fx_mul_bound(y2 as int, q.s as int, 2 * ROT_LIMIT);
            lemma_fx_mul_bound(z2 as int, q.s as int, 2 * ROT_LIMIT);
        }
        let normal = Mat3 {
            c0r0: FX_ONE - yy2 - zz2, c0r1: xy2 + sz2, c0r2: xz2 - sy2,
            c1r0: xy2 - sz2, c1r1: FX_ONE - xx2 - zz2, c1r2: yz2 + sx2,
            c2r0: xz2 + sy2, c2r1: yz2 - sx2, c2r2: FX_ONE - xx2 - yy2,
        };
        let model = Mat4 {
            c0r0: normal.c0r0, c0r1: normal.c0r1, c0r2: normal.c0r2, c0r3: 0,
            c1r0: normal.c1r0, c1r1: normal.c1r1, c1r2: normal.c1r2, c1r3: 0,
            c2r0: normal.c2r0, c2r1: normal.c2r1, c2r2: normal.c2r2, c2r3: 0,
            c3r0: self.position.x, c3r1: self.position.y, c3r2: self.position.z, c3r3: FX_ONE,
        };
        InstanceRaw { model, normal }
    }
}

/// The instance cache's frame-visible state: the live instances, the raw
/// buffer as last uploaded (if ever), and whether the buffer is stale.
pub struct InstanceCache {
    pub instances: Vec<Instance>,
    pub buffer: Option<Vec<InstanceRaw>>,
    pub dirty: bool,
}

/// Ghost view of the cache.
pub struct CacheView {
    pub instances: Seq<Instance>,
    pub buffer: Option<Seq<InstanceRaw>>,
    pub dirty: bool,
}

/// Effect of `update` on the cache's view: when dirty, the buffer is rebuilt
/// from the instances and uploaded (`true`); when clean, nothing happens.
pub open spec fn update_view(v: CacheView) -> (CacheView, bool) {
    if v.dirty {
        (
            CacheView {
                instances: v.instances,
                buffer: Some(v.instances.map_values(|i: Instance| raw_of(i))),
                dirty: false,
            },
            true,
        )
    } else {
        (v, false)
    }
}

impl View for InstanceCache {
    type V = CacheView;

    open spec fn view(&self) -> CacheView {
        CacheView {
            instances: self.instances@,
            buffer: match self.buffer {
                Some(b) => Some(b@),
                None => None,
            },
            dirty: self.dirty,
        }
    }
}

/// One whole-range instanced draw call: instances `[0, instance_count)`
/// against the bound instance buffer.
#[derive(Clone, Copy, PartialEq, Eq, Structural, Debug)]
pub struct InstancedDraw {
    pub instance_count: usize,
}

impl InstanceCache {
    /// Every held rotation is within the overflow-free range.
    pub open spec fn rotations_in_range(&self) -> bool {
        forall|i: int| 0 <= i < self.instances@.len() ==> rot_in_range(
            (#[trigger] self.instances@[i]).rotation,
        )
    }

    /// Buffer validity: whenever the cache is clean, the buffer holds
    /// exactly the raw form of every live instance. A dirty cache promises
    /// nothing of its buffer until the next `update`. Established at
    /// construction and preserved by every method.
    pub open spec fn buffer_valid(&self) -> bool {
        !self.dirty ==> match self.buffer {
            Some(b) => b@ == self.instances@.map_values(|i: Instance| raw_of(i)),
            None => false,
        }
    }

    /// An empty cache, marked stale so the first `update` uploads.
    pub fn new() -> (c: InstanceCache)
        ensures
            c.instances@.len() == 0,
            c.buffer is None,
            c.dirty == true,
            c.buffer_valid(),
    {
        InstanceCache { instances: Vec::new(), buffer: None, dirty: true }
    }

    /// Append a copy of one instance and mark the buffer stale.
    pub fn insert(&mut self, instance: Instance)
        ensures
            final(self).instances@ == old(self).instances@.push(instance),
            final(self).buffer == old(self).buffer,
            final(self).dirty == true,
            final(self).buffer_valid(),
    {
        self.dirty = true;
        self.instances.push(instance);
    }

    /// Drop every instance and mark the buffer stale.
    pub fn clear(&mut self)
        ensures
            final(self).instances@.len() == 0,
            final(self).buffer == old(self).buffer,
            final(self).dirty == true,
            final(self).buffer_valid(),
    {
        self.dirty = true;
        self.instances.clear();
    }

    /// The only point at which an upload happens: when stale, rebuild the raw
    /// buffer from every live instance and hand it up (`true`); when clean,
    /// do nothing. Repeated calls with no intervening change upload once.
    pub fn update(&mut self) -> (uploaded: bool)
        requires
            old(self).rotations_in_range(),
        ensures
            (final(self)@, uploaded) == update_view(old(self)@),
            uploaded == old(self).dirty,
            final(self).dirty == false,
            final(self).instances@ == old(self).instances@,
            old(self).dirty ==> final(self).buffer_valid(),
            old(self).buffer_valid() ==> final(self).buffer_valid(),
    {
        if self.dirty {
            let n: usize = self.instances.len();
            let mut raws: Vec<InstanceRaw> = Vec::new();
            let mut i: usize = 0;
            while i < n
                invariant
                    i <= n,
                    n == self.instances@.len(),
                    self.rotations_in_range(),
                    raws@.len() == i,
                    forall|j: int| 0 <= j < i ==> raws@[j] == raw_of(#[trigger] self.instances@[j]),
                decreases n - i,
            {
                let raw = self.instances[i].to_raw();
                raws.push(raw);
                i = i + 1;
            }
            proof {
                assert(raws@ =~= self.instances@.map_values(|inst: Instance| raw_of(inst)));
            }
            self.buffer = Some(raws);
            self.dirty = false;
            true
        } else {
            self.dirty = false;
            false
        }
    }

    /// Bind the instance buffer and issue one instanced draw over the whole
    /// live range `[0, instance_count)`; an empty range is fine. Drawing
    /// before any upload is a programming error, ruled out up front.
    pub fn render(&mut self) -> (draw: InstancedDraw)
        requires
            old(self).buffer is Some,
        ensures
            *final(self) == *old(self),
            draw.instance_count == old(self).instances@.len(),
    {
        InstancedDraw { instance_count: self.instances.len() }
    }
}

/// Idempotent-when-clean law: after one `update`, a second `update` with no
/// intervening `insert` or `clear` performs no upload.
pub proof fn lemma_update_idempotent_when_clean(v: CacheView)
    ensures
        !update_view(update_view(v).0).1,
{
}

} // verus!
