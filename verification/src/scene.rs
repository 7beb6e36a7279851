//! Scene and object model: an ordered collection of objects, each one shape
//! covered by one material, plus a background and a maximum ray-bounce depth.
//!
//! Packing walks the collection once and produces the layout
//! `[object count][max depth][background payload][object payloads...]`, with
//! each object's shape sub-payload directly followed by its material
//! sub-payload.

use vstd::prelude::*;
use crate::pack::{Pack, MAX_SLOTS};

verus! {

/// Most objects one scene may hold; keeps packed-layout sums representable.
pub const MAX_OBJECTS: usize = 65536;

/// Default maximum ray-bounce depth.
pub const DEFAULT_MAX_DEPTH: u32 = 4;

/// Largest accepted maximum ray-bounce depth (the depth is packed into one
/// signed 32-bit integer slot).
pub const MAX_DEPTH_LIMIT: u32 = 0x7FFFFFFF;

/// One scene object: a shape covered by a material, immutable once built.
#[derive(Clone, Debug)]
pub struct SceneObject<S, M> {
    /// The object's geometry.
    pub shape: S,
    /// The material covering the shape.
    pub material: M,
}

/// The integer payload of one object: shape first, then material.
pub open spec fn object_ints<S: Pack, M: Pack>(o: SceneObject<S, M>) -> Seq<i32> {
    o.shape.packed_ints() + o.material.packed_ints()
}

/// The float payload of one object: shape first, then material.
pub open spec fn object_floats<S: Pack, M: Pack>(o: SceneObject<S, M>) -> Seq<u32> {
    o.shape.packed_floats() + o.material.packed_floats()
}

/// Integer payloads of all objects, in insertion order.
pub open spec fn objects_ints<S: Pack, M: Pack>(objs: Seq<SceneObject<S, M>>) -> Seq<i32>
    decreases objs.len(),
{
    if objs.len() == 0 {
        Seq::empty()
    } else {
        objects_ints(objs.drop_last()) + object_ints(objs.last())
    }
}

/// Float payloads of all objects, in insertion order.
pub open spec fn objects_floats<S: Pack, M: Pack>(objs: Seq<SceneObject<S, M>>) -> Seq<u32>
    decreases objs.len(),
{
    if objs.len() == 0 {
        Seq::empty()
    } else {
        objects_floats(objs.drop_last()) + object_floats(objs.last())
    }
}

/// A scene: objects in insertion order, one background, one bounce depth.
/// The packed layout is a pure function of this state and changes only
/// through explicit mutation.
#[derive(Clone, Debug)]
pub struct Scene<S, M, B> {
    objects: Vec<SceneObject<S, M>>,
    background: B,
    max_depth: u32,
}

impl<S: Pack, M: Pack, B: Pack> Scene<S, M, B> {
    /// The objects, in insertion order.
    pub closed spec fn objects_spec(&self) -> Seq<SceneObject<S, M>> {
        self.objects@
    }

    /// The background.
    pub closed spec fn background_spec(&self) -> B {
        self.background
    }

    /// The maximum ray-bounce depth.
    pub closed spec fn max_depth_spec(&self) -> u32 {
        self.max_depth
    }

    /// Machine-limit bounds every constructor and mutation preserves.
    pub open spec fn wf(&self) -> bool {
        &&& self.objects_spec().len() <= MAX_OBJECTS
        &&& self.max_depth_spec() <= MAX_DEPTH_LIMIT
    }

    /// The scene's whole integer buffer:
    /// `[count][depth][background][objects...]`.
    pub open spec fn packed_ints_spec(&self) -> Seq<i32> {
        seq![self.objects_spec().len() as i32, self.max_depth_spec() as i32]
            + self.background_spec().packed_ints() + objects_ints(self.objects_spec())
    }

    /// The scene's whole float buffer: `[background][objects...]`.
    pub open spec fn packed_floats_spec(&self) -> Seq<u32> {
        self.background_spec().packed_floats() + objects_floats(self.objects_spec())
    }

    /// An empty scene over `background`, with the default bounce depth.
    pub fn new(background: B) -> (r: Scene<S, M, B>)
        ensures
            r.objects_spec() == Seq::<SceneObject<S, M>>::empty(),
            r.background_spec() == background,
            r.max_depth_spec() == DEFAULT_MAX_DEPTH,
            r.wf(),
    {
        Scene { objects: Vec::new(), background, max_depth: DEFAULT_MAX_DEPTH }
    }

    /// Number of objects.
    pub fn object_count(&self) -> (r: usize)
        ensures
            r == self.objects_spec().len(),
    {
        self.objects.len()
    }

    /// The maximum ray-bounce depth.
    pub fn max_depth(&self) -> (r: u32)
        ensures
            r == self.max_depth_spec(),
    {
        self.max_depth
    }

    /// The background.
    pub fn background(&self) -> (r: &B)
        ensures
            *r == self.background_spec(),
    {
        &self.background
    }

    /// Appends an object; insertion order is the packing order.
    pub fn add(&mut self, object: SceneObject<S, M>)
        requires
            old(self).wf(),
            old(self).objects_spec().len() < MAX_OBJECTS,
        ensures
            final(self).objects_spec() == old(self).objects_spec().push(object),
            final(self).background_spec() == old(self).background_spec(),
            final(self).max_depth_spec() == old(self).max_depth_spec(),
            final(self).wf(),
    {
        self.objects.push(object);
    }

    /// Removes and returns the object at `i`; later objects shift down.
    pub fn remove(&mut self, i: usize) -> (r: SceneObject<S, M>)
        requires
            old(self).wf(),
            i < old(self).objects_spec().len(),
        ensures
            r == old(self).objects_spec()[i as int],
            final(self).objects_spec() == old(self).objects_spec().remove(i as int),
            final(self).background_spec() == old(self).background_spec(),
            final(self).max_depth_spec() == old(self).max_depth_spec(),
            final(self).wf(),
    {
        self.objects.remove(i)
    }

    /// Sets the maximum ray-bounce depth.
    pub fn set_max_depth(&mut self, depth: u32)
        requires
            old(self).wf(),
            depth <= MAX_DEPTH_LIMIT,
        ensures
            final(self).objects_spec() == old(self).objects_spec(),
            final(self).background_spec() == old(self).background_spec(),
            final(self).max_depth_spec() == depth,
            final(self).wf(),
    {
        self.max_depth = depth;
    }

    /// Packs the whole scene into freshly sized integer and float buffers.
    pub fn pack(&self) -> (r: (Vec<i32>, Vec<u32>))
        requires
            self.wf(),
        ensures
            r.0@ == self.packed_ints_spec(),
            r.1@ == self.packed_floats_spec(),
    {
        proof {
            S::size_bounds();
            M::size_bounds();
            B::size_bounds();
        }
        let n = self.objects.len();
        let si = S::size_int();
        let mi = M::size_int();
        let sf = S::size_float();
        let mf = M::size_float();
        let bi = B::size_int();
        let bf = B::size_float();
        let stride_i: usize = si + mi;
        let stride_f: usize = sf + mf;
        proof {
            assert(n * stride_i <= 65536 * 8192) by (nonlinear_arith)
                requires
                    n <= 65536,
                    stride_i <= 8192,
            ;
            assert(n * stride_f <= 65536 * 8192) by (nonlinear_arith)
                requires
                    n <= 65536,
                    stride_f <= 8192,
            ;
        }
        let ni: usize = 2 + bi + n * stride_i;
        let nf: usize = bf + n * stride_f;
        let mut ints: Vec<i32> = Vec::new();
        while ints.len() < ni
            invariant
                ints@.len() <= ni,
            decreases ni - ints@.len(),
        {
            ints.push(0i32);
        }
        let mut floats: Vec<u32> = Vec::new();
        while floats.len() < nf
            invariant
                floats@.len() <= nf,
            decreases nf - floats@.len(),
        {
            floats.push(0u32);
        }
        ints[0] = n as i32;
        ints[1] = self.max_depth as i32;
        let ghost header = seq![
            self.objects_spec().len() as i32,
            self.max_depth_spec() as i32,
        ];
        self.background.pack_to(&mut ints, 2, &mut floats, 0);
        proof {
            self.background.packed_len_ok();
            assert(ints@.subrange(0, (2 + bi) as int) =~= header
                + self.background.packed_ints());
            assert(floats@.subrange(0, bf as int) =~= self.background.packed_floats());
            assert(self.objects@.take(0) =~= Seq::<SceneObject<S, M>>::empty());
        }
        let mut io: usize = 2 + bi;
        let mut fo: usize = bf;
        let mut k: usize = 0;
        while k < n
            invariant
                self.wf(),
                n == self.objects@.len(),
                k <= n,
                si == S::size_int_spec(),
                mi == M::size_int_spec(),
                sf == S::size_float_spec(),
                mf == M::size_float_spec(),
                bi == B::size_int_spec(),
                bf == B::size_float_spec(),
                si <= MAX_SLOTS && mi <= MAX_SLOTS && sf <= MAX_SLOTS && mf <= MAX_SLOTS,
                stride_i == si + mi,
                stride_f == sf + mf,
                ni == 2 + bi + n * stride_i,
                nf == bf + n * stride_f,
                ints@.len() == ni,
                floats@.len() == nf,
                io == 2 + bi + k * stride_i,
                fo == bf + k * stride_f,
                header == seq![
                    self.objects_spec().len() as i32,
                    self.max_depth_spec() as i32,
                ],
                ints@.subrange(0, io as int) == header + self.background.packed_ints()
                    + objects_ints(self.objects@.take(k as int)),
                floats@.subrange(0, fo as int) == self.background.packed_floats()
                    + objects_floats(self.objects@.take(k as int)),
            decreases n - k,
        {
            proof {
                assert((k + 1) * stride_i <= n * stride_i && (k + 1) * stride_f <= n
                    * stride_f) by (nonlinear_arith)
                    requires
                        k < n,
                        0 <= stride_i,
                        0 <= stride_f,
                ;
                assert((k + 1) * stride_i == k * stride_i + stride_i && (k + 1) * stride_f == k
                    * stride_f + stride_f) by (nonlinear_arith);
                self.objects@[k as int].shape.packed_len_ok();
                self.objects@[k as int].material.packed_len_ok();
            }
            let ghost ints0 = ints@;
            let ghost floats0 = floats@;
            let o = &self.objects[k];
            o.shape.pack_to(&mut ints, io, &mut floats, fo);
            let ghost ints1 = ints@;
            let ghost floats1 = floats@;
            let io2: usize = io + si;
            let fo2: usize = fo + sf;
            o.material.pack_to(&mut ints, io2, &mut floats, fo2);
            proof {
                let objs = self.objects@;
                assert(objs.take(k + 1).drop_last() =~= objs.take(k as int));
                assert(objs.take(k + 1).last() == objs[k as int]);
                assert(ints1.subrange(0, io2 as int) =~= ints0.subrange(0, io as int)
                    + o.shape.packed_ints());
                assert(floats1.subrange(0, fo2 as int) =~= floats0.subrange(0, fo as int)
                    + o.shape.packed_floats());
                assert(ints@.subrange(0, (io2 + mi) as int) =~= ints1.subrange(0, io2 as int)
                    + o.material.packed_ints());
                assert(floats@.subrange(0, (fo2 + mf) as int) =~= floats1.subrange(0, fo2 as int)
                    + o.material.packed_floats());
                assert(ints@.subrange(0, (io + stride_i) as int) =~= header
                    + self.background.packed_ints() + objects_ints(objs.take(k + 1)));
                assert(floats@.subrange(0, (fo + stride_f) as int) =~= self
                    .background.packed_floats() + objects_floats(objs.take(k + 1)));
            }
            io = io + stride_i;
            fo = fo + stride_f;
            k = k + 1;
        }
        proof {
            assert(self.objects@.take(n as int) =~= self.objects@);
            assert(io == ni && fo == nf) by (nonlinear_arith)
                requires
                    io == 2 + bi + k * stride_i,
                    fo == bf + k * stride_f,
                    ni == 2 + bi + n * stride_i,
                    nf == bf + n * stride_f,
                    k == n,
            ;
            assert(ints@ =~= ints@.subrange(0, ni as int));
            assert(floats@ =~= floats@.subrange(0, nf as int));
        }
        (ints, floats)
    }
}

} // verus!
