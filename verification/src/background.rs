//! Backgrounds: what a ray that escapes the scene sees.

use vstd::prelude::*;
use crate::pack::Pack;
use crate::instance::{Instance, KeyCache, leaf_emitted, leaf_source};
use vstd::string::{StrSliceExecFns, StringSliceAdditionalSpecFns};

verus! {

/// Content key of the gradient background's device source contribution.
pub const GRADIENT_BACKGROUND_SOURCE_KEY: u64 = 301;

/// Background shading linearly between a zenith color and a horizon color
/// (f32 bit patterns).
#[derive(Clone, Debug)]
pub struct GradientBackground {
    /// Zenith color, red (f32 bits).
    pub top_red: u32,
    /// Zenith color, green (f32 bits).
    pub top_green: u32,
    /// Zenith color, blue (f32 bits).
    pub top_blue: u32,
    /// Horizon color, red (f32 bits).
    pub bottom_red: u32,
    /// Horizon color, green (f32 bits).
    pub bottom_green: u32,
    /// Horizon color, blue (f32 bits).
    pub bottom_blue: u32,
}

impl Pack for GradientBackground {
    open spec fn size_int_spec() -> nat {
        0
    }

    open spec fn size_float_spec() -> nat {
        6
    }

    open spec fn packed_ints(&self) -> Seq<i32> {
        Seq::empty()
    }

    open spec fn packed_floats(&self) -> Seq<u32> {
        seq![
            self.top_red,
            self.top_green,
            self.top_blue,
            self.bottom_red,
            self.bottom_green,
            self.bottom_blue,
        ]
    }

    proof fn size_bounds() {
    }

    proof fn packed_len_ok(&self) {
    }

    fn size_int() -> usize {
        0
    }

    fn size_float() -> usize {
        6
    }

    fn pack_to(&self, ints: &mut Vec<i32>, ioff: usize, floats: &mut Vec<u32>, foff: usize) {
        floats[foff] = self.top_red;
        let f1: usize = foff + 1;
        floats[f1] = self.top_green;
        let f2: usize = foff + 2;
        floats[f2] = self.top_blue;
        let f3: usize = foff + 3;
        floats[f3] = self.bottom_red;
        let f4: usize = foff + 4;
        floats[f4] = self.bottom_green;
        let f5: usize = foff + 5;
        floats[f5] = self.bottom_blue;
        proof {
            assert(ints@ =~= old(ints)@.subrange(0, ioff as int) + self.packed_ints()
                + old(ints)@.skip(ioff + Self::size_int_spec()));
            assert(floats@ =~= old(floats)@.subrange(0, foff as int) + self.packed_floats()
                + old(floats)@.skip(foff + Self::size_float_spec()));
        }
    }
}

impl Instance for GradientBackground {
    open spec fn source_key_spec() -> u64 {
        GRADIENT_BACKGROUND_SOURCE_KEY
    }

    open spec fn inst_name_spec() -> Seq<u8> {
        "gradient_background".spec_bytes()
    }

    open spec fn emitted_keys(done: Set<u64>) -> Set<u64> {
        leaf_emitted(done, GRADIENT_BACKGROUND_SOURCE_KEY)
    }

    open spec fn source_given(done: Set<u64>) -> Seq<u8> {
        leaf_source(
            done,
            GRADIENT_BACKGROUND_SOURCE_KEY,
            "#import <clay/background/gradient.h>\n".spec_bytes(),
        )
    }

    proof fn source_once(done: Set<u64>) {
        assert(done.union(Self::emitted_keys(done)).contains(GRADIENT_BACKGROUND_SOURCE_KEY));
    }

    fn inst_name() -> (r: Vec<u8>) {
        "gradient_background".as_bytes_vec()
    }

    fn source(cache: &mut KeyCache) -> (r: Vec<u8>) {
        if cache.contains_key(GRADIENT_BACKGROUND_SOURCE_KEY) {
            proof {
                assert(cache@ =~= old(cache)@.union(Self::emitted_keys(old(cache)@)));
            }
            Vec::new()
        } else {
            cache.insert(GRADIENT_BACKGROUND_SOURCE_KEY);
            proof {
                assert(cache@ =~= old(cache)@.union(Self::emitted_keys(old(cache)@)));
            }
            "#import <clay/background/gradient.h>\n".as_bytes_vec()
        }
    }
}

} // verus!
