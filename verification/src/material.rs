//! Materials: how a surface responds to an incoming ray. Host-side a material
//! is only a bundle of device parameters plus a device-source contribution.

use vstd::prelude::*;
use crate::pack::Pack;
use crate::instance::{Instance, KeyCache, leaf_emitted, leaf_source};
use vstd::string::{StrSliceExecFns, StringSliceAdditionalSpecFns};

verus! {

/// Content key of the luminous material's device source contribution.
pub const LUMINOUS_SOURCE_KEY: u64 = 101;

/// IEEE-754 bit pattern of the f64 value one: full self-emission.
pub const BRIGHTNESS_FULL: u64 = 0x3FF0000000000000;

/// IEEE-754 bit pattern of the f64 value zero: no self-emission.
pub const BRIGHTNESS_NONE: u64 = 0;

/// What is common to all materials: how brightly the surface itself emits,
/// reported as an f64 bit pattern.
pub trait Material: Sized {
    /// The declared self-emission brightness (f64 bits).
    spec fn brightness_spec() -> u64;

    /// The self-emission brightness, as executable code reports it.
    fn brightness(&self) -> (r: u64)
        ensures
            r == Self::brightness_spec(),
    ;
}

/// Content key of the diffuse material's device source contribution.
pub const DIFFUSE_SOURCE_KEY: u64 = 102;

/// Luminous material: emits white light and produces no secondary ray. It has
/// no device parameters.
#[derive(Clone, Debug, Default)]
pub struct Luminous {}

impl Pack for Luminous {
    open spec fn size_int_spec() -> nat {
        0
    }

    open spec fn size_float_spec() -> nat {
        0
    }

    open spec fn packed_ints(&self) -> Seq<i32> {
        Seq::empty()
    }

    open spec fn packed_floats(&self) -> Seq<u32> {
        Seq::empty()
    }

    proof fn size_bounds() {
    }

    proof fn packed_len_ok(&self) {
    }

    fn size_int() -> usize {
        0
    }

    fn size_float() -> usize {
        0
    }

    fn pack_to(&self, ints: &mut Vec<i32>, ioff: usize, floats: &mut Vec<u32>, foff: usize) {
        proof {
            assert(ints@ =~= old(ints)@.subrange(0, ioff as int) + self.packed_ints()
                + old(ints)@.skip(ioff + Self::size_int_spec()));
            assert(floats@ =~= old(floats)@.subrange(0, foff as int) + self.packed_floats()
                + old(floats)@.skip(foff + Self::size_float_spec()));
        }
    }
}

impl Material for Luminous {
    open spec fn brightness_spec() -> u64 {
        BRIGHTNESS_FULL
    }

    fn brightness(&self) -> u64 {
        BRIGHTNESS_FULL
    }
}

impl Instance for Luminous {
    open spec fn source_key_spec() -> u64 {
        LUMINOUS_SOURCE_KEY
    }

    open spec fn inst_name_spec() -> Seq<u8> {
        "luminous".spec_bytes()
    }

    open spec fn emitted_keys(done: Set<u64>) -> Set<u64> {
        leaf_emitted(done, LUMINOUS_SOURCE_KEY)
    }

    open spec fn source_given(done: Set<u64>) -> Seq<u8> {
        leaf_source(done, LUMINOUS_SOURCE_KEY, "#import <clay/material/luminous.h>\n".spec_bytes())
    }

    proof fn source_once(done: Set<u64>) {
        assert(done.union(Self::emitted_keys(done)).contains(LUMINOUS_SOURCE_KEY));
    }

    fn inst_name() -> (r: Vec<u8>) {
        "luminous".as_bytes_vec()
    }

    fn source(cache: &mut KeyCache) -> (r: Vec<u8>) {
        if cache.contains_key(LUMINOUS_SOURCE_KEY) {
            proof {
                assert(cache@ =~= old(cache)@.union(Self::emitted_keys(old(cache)@)));
            }
            Vec::new()
        } else {
            cache.insert(LUMINOUS_SOURCE_KEY);
            proof {
                assert(cache@ =~= old(cache)@.union(Self::emitted_keys(old(cache)@)));
            }
            "#import <clay/material/luminous.h>\n".as_bytes_vec()
        }
    }
}

/// Diffuse material scattering incoming light uniformly, tinted by an RGB
/// color. The color components are f32 bit patterns.
#[derive(Clone, Debug)]
pub struct Diffuse {
    /// Red tint component (f32 bits).
    pub red: u32,
    /// Green tint component (f32 bits).
    pub green: u32,
    /// Blue tint component (f32 bits).
    pub blue: u32,
}

impl Pack for Diffuse {
    open spec fn size_int_spec() -> nat {
        0
    }

    open spec fn size_float_spec() -> nat {
        3
    }

    open spec fn packed_ints(&self) -> Seq<i32> {
        Seq::empty()
    }

    open spec fn packed_floats(&self) -> Seq<u32> {
        seq![self.red, self.green, self.blue]
    }

    proof fn size_bounds() {
    }

    proof fn packed_len_ok(&self) {
    }

    fn size_int() -> usize {
        0
    }

    fn size_float() -> usize {
        3
    }

    fn pack_to(&self, ints: &mut Vec<i32>, ioff: usize, floats: &mut Vec<u32>, foff: usize) {
        floats[foff] = self.red;
        let f1: usize = foff + 1;
        floats[f1] = self.green;
        let f2: usize = foff + 2;
        floats[f2] = self.blue;
        proof {
            assert(ints@ =~= old(ints)@.subrange(0, ioff as int) + self.packed_ints()
                + old(ints)@.skip(ioff + Self::size_int_spec()));
            assert(floats@ =~= old(floats)@.subrange(0, foff as int) + self.packed_floats()
                + old(floats)@.skip(foff + Self::size_float_spec()));
        }
    }
}

impl Material for Diffuse {
    open spec fn brightness_spec() -> u64 {
        BRIGHTNESS_NONE
    }

    fn brightness(&self) -> u64 {
        BRIGHTNESS_NONE
    }
}

impl Instance for Diffuse {
    open spec fn source_key_spec() -> u64 {
        DIFFUSE_SOURCE_KEY
    }

    open spec fn inst_name_spec() -> Seq<u8> {
        "diffuse".spec_bytes()
    }

    open spec fn emitted_keys(done: Set<u64>) -> Set<u64> {
        leaf_emitted(done, DIFFUSE_SOURCE_KEY)
    }

    open spec fn source_given(done: Set<u64>) -> Seq<u8> {
        leaf_source(done, DIFFUSE_SOURCE_KEY, "#import <clay/material/diffuse.h>\n".spec_bytes())
    }

    proof fn source_once(done: Set<u64>) {
        assert(done.union(Self::emitted_keys(done)).contains(DIFFUSE_SOURCE_KEY));
    }

    fn inst_name() -> (r: Vec<u8>) {
        "diffuse".as_bytes_vec()
    }

    fn source(cache: &mut KeyCache) -> (r: Vec<u8>) {
        if cache.contains_key(DIFFUSE_SOURCE_KEY) {
            proof {
                assert(cache@ =~= old(cache)@.union(Self::emitted_keys(old(cache)@)));
            }
            Vec::new()
        } else {
            cache.insert(DIFFUSE_SOURCE_KEY);
            proof {
                assert(cache@ =~= old(cache)@.union(Self::emitted_keys(old(cache)@)));
            }
            "#import <clay/material/diffuse.h>\n".as_bytes_vec()
        }
    }
}

} // verus!
