//! Shapes: geometry an object is made of. Host-side a shape is a bundle of
//! device parameters plus a device-source contribution.

use vstd::prelude::*;
use crate::pack::Pack;
use crate::instance::{Instance, KeyCache, leaf_emitted, leaf_source};
use vstd::string::{StrSliceExecFns, StringSliceAdditionalSpecFns};

verus! {

/// Content key of the sphere shape's device source contribution.
pub const SPHERE_SOURCE_KEY: u64 = 201;

/// Content key of the half-space shape's device source contribution.
pub const HALF_SPACE_SOURCE_KEY: u64 = 202;

/// Sphere given by its center and radius (f32 bit patterns).
#[derive(Clone, Debug)]
pub struct Sphere {
    /// Center, x component (f32 bits).
    pub cx: u32,
    /// Center, y component (f32 bits).
    pub cy: u32,
    /// Center, z component (f32 bits).
    pub cz: u32,
    /// Radius (f32 bits).
    pub radius: u32,
}

impl Pack for Sphere {
    open spec fn size_int_spec() -> nat {
        0
    }

    open spec fn size_float_spec() -> nat {
        4
    }

    open spec fn packed_ints(&self) -> Seq<i32> {
        Seq::empty()
    }

    open spec fn packed_floats(&self) -> Seq<u32> {
        seq![self.cx, self.cy, self.cz, self.radius]
    }

    proof fn size_bounds() {
    }

    proof fn packed_len_ok(&self) {
    }

    fn size_int() -> usize {
        0
    }

    fn size_float() -> usize {
        4
    }

    fn pack_to(&self, ints: &mut Vec<i32>, ioff: usize, floats: &mut Vec<u32>, foff: usize) {
        floats[foff] = self.cx;
        let f1: usize = foff + 1;
        floats[f1] = self.cy;
        let f2: usize = foff + 2;
        floats[f2] = self.cz;
        let f3: usize = foff + 3;
        floats[f3] = self.radius;
        proof {
            assert(ints@ =~= old(ints)@.subrange(0, ioff as int) + self.packed_ints()
                + old(ints)@.skip(ioff + Self::size_int_spec()));
            assert(floats@ =~= old(floats)@.subrange(0, foff as int) + self.packed_floats()
                + old(floats)@.skip(foff + Self::size_float_spec()));
        }
    }
}

/// Half-space below a plane, given by its unit normal and offset along the
/// normal (f32 bit patterns).
#[derive(Clone, Debug)]
pub struct HalfSpace {
    /// Normal, x component (f32 bits).
    pub nx: u32,
    /// Normal, y component (f32 bits).
    pub ny: u32,
    /// Normal, z component (f32 bits).
    pub nz: u32,
    /// Offset along the normal (f32 bits).
    pub offset: u32,
}

impl Pack for HalfSpace {
    open spec fn size_int_spec() -> nat {
        0
    }

    open spec fn size_float_spec() -> nat {
        4
    }

    open spec fn packed_ints(&self) -> Seq<i32> {
        Seq::empty()
    }

    open spec fn packed_floats(&self) -> Seq<u32> {
        seq![self.nx, self.ny, self.nz, self.offset]
    }

    proof fn size_bounds() {
    }

    proof fn packed_len_ok(&self) {
    }

    fn size_int() -> usize {
        0
    }

    fn size_float() -> usize {
        4
    }

    fn pack_to(&self, ints: &mut Vec<i32>, ioff: usize, floats: &mut Vec<u32>, foff: usize) {
        floats[foff] = self.nx;
        let f1: usize = foff + 1;
        floats[f1] = self.ny;
        let f2: usize = foff + 2;
        floats[f2] = self.nz;
        let f3: usize = foff + 3;
        floats[f3] = self.offset;
        proof {
            assert(ints@ =~= old(ints)@.subrange(0, ioff as int) + self.packed_ints()
                + old(ints)@.skip(ioff + Self::size_int_spec()));
            assert(floats@ =~= old(floats)@.subrange(0, foff as int) + self.packed_floats()
                + old(floats)@.skip(foff + Self::size_float_spec()));
        }
    }
}

impl Instance for Sphere {
    open spec fn source_key_spec() -> u64 {
        SPHERE_SOURCE_KEY
    }

    open spec fn inst_name_spec() -> Seq<u8> {
        "sphere".spec_bytes()
    }

    open spec fn emitted_keys(done: Set<u64>) -> Set<u64> {
        leaf_emitted(done, SPHERE_SOURCE_KEY)
    }

    open spec fn source_given(done: Set<u64>) -> Seq<u8> {
        leaf_source(done, SPHERE_SOURCE_KEY, "#import <clay/shape/sphere.h>\n".spec_bytes())
    }

    proof fn source_once(done: Set<u64>) {
        assert(done.union(Self::emitted_keys(done)).contains(SPHERE_SOURCE_KEY));
    }

    fn inst_name() -> (r: Vec<u8>) {
        "sphere".as_bytes_vec()
    }

    fn source(cache: &mut KeyCache) -> (r: Vec<u8>) {
        if cache.contains_key(SPHERE_SOURCE_KEY) {
            proof {
                assert(cache@ =~= old(cache)@.union(Self::emitted_keys(old(cache)@)));
            }
            Vec::new()
        } else {
            cache.insert(SPHERE_SOURCE_KEY);
            proof {
                assert(cache@ =~= old(cache)@.union(Self::emitted_keys(old(cache)@)));
            }
            "#import <clay/shape/sphere.h>\n".as_bytes_vec()
        }
    }
}

impl Instance for HalfSpace {
    open spec fn source_key_spec() -> u64 {
        HALF_SPACE_SOURCE_KEY
    }

    open spec fn inst_name_spec() -> Seq<u8> {
        "half_space".spec_bytes()
    }

    open spec fn emitted_keys(done: Set<u64>) -> Set<u64> {
        leaf_emitted(done, HALF_SPACE_SOURCE_KEY)
    }

    open spec fn source_given(done: Set<u64>) -> Seq<u8> {
        leaf_source(done, HALF_SPACE_SOURCE_KEY, "#import <clay/shape/half_space.h>\n".spec_bytes())
    }

    proof fn source_once(done: Set<u64>) {
        assert(done.union(Self::emitted_keys(done)).contains(HALF_SPACE_SOURCE_KEY));
    }

    fn inst_name() -> (r: Vec<u8>) {
        "half_space".as_bytes_vec()
    }

    fn source(cache: &mut KeyCache) -> (r: Vec<u8>) {
        if cache.contains_key(HALF_SPACE_SOURCE_KEY) {
            proof {
                assert(cache@ =~= old(cache)@.union(Self::emitted_keys(old(cache)@)));
            }
            Vec::new()
        } else {
            cache.insert(HALF_SPACE_SOURCE_KEY);
            proof {
                assert(cache@ =~= old(cache)@.union(Self::emitted_keys(old(cache)@)));
            }
            "#import <clay/shape/half_space.h>\n".as_bytes_vec()
        }
    }
}

} // verus!
