//! Variant and combination composition: closed tagged-union types over a fixed
//! list of capability implementations, and weighted aggregates of them.
//!
//! A variant packs its integer discriminant first, then the active arm's
//! payload, padding the float payload with zeros up to the widest arm so that
//! every slot has the same stride. A combination packs, per member and in
//! declared order, the member's weight followed by the member's payload.

use vstd::prelude::*;
use crate::pack::Pack;
use crate::instance::{Instance, KeyCache};
use crate::material::{Diffuse, Luminous};
use crate::shape::{HalfSpace, Sphere};
use vstd::string::{StrSliceExecFns, StringSliceAdditionalSpecFns};

verus! {

/// Content key of the material variant's generated dispatch source.
pub const MATERIAL_SELECT_SOURCE_KEY: u64 = 111;

/// Content key of the material combination's generated dispatch source.
pub const MATERIAL_COMBINE_SOURCE_KEY: u64 = 112;

/// Content key of the shape variant's generated dispatch source.
pub const SHAPE_SELECT_SOURCE_KEY: u64 = 211;

/// A run of zeroed float slots used to pad a narrow arm to the variant stride.
pub open spec fn zero_floats(n: nat) -> Seq<u32> {
    Seq::new(n, |i: int| 0u32)
}

/// Device dispatch model over one packed variant slot: the device reads the
/// discriminant from the first integer slot and hands arm `k`'s code the next
/// `size_int` integers of the slot.
pub open spec fn dispatch_ints(slot: Seq<i32>, arm_size_int: nat) -> Seq<i32> {
    slot.subrange(1, 1 + arm_size_int as int)
}

/// Device dispatch model over one packed variant slot: arm `k`'s code reads
/// its first `size_float` float slots.
pub open spec fn dispatch_floats(slot: Seq<u32>, arm_size_float: nat) -> Seq<u32> {
    slot.subrange(0, arm_size_float as int)
}

/// Closed material variant over the luminous and diffuse materials, in that
/// declared order; the discriminant is the arm's position in the list.
#[derive(Clone, Debug)]
pub enum MaterialSelect {
    /// Arm 0.
    Luminous(Luminous),
    /// Arm 1.
    Diffuse(Diffuse),
}

impl Pack for MaterialSelect {
    open spec fn size_int_spec() -> nat {
        1
    }

    open spec fn size_float_spec() -> nat {
        3
    }

    open spec fn packed_ints(&self) -> Seq<i32> {
        match self {
            MaterialSelect::Luminous(a) => seq![0i32] + a.packed_ints(),
            MaterialSelect::Diffuse(a) => seq![1i32] + a.packed_ints(),
        }
    }

    open spec fn packed_floats(&self) -> Seq<u32> {
        match self {
            MaterialSelect::Luminous(a) => a.packed_floats() + zero_floats(3),
            MaterialSelect::Diffuse(a) => a.packed_floats(),
        }
    }

    proof fn size_bounds() {
    }

    proof fn packed_len_ok(&self) {
        match self {
            MaterialSelect::Luminous(a) => a.packed_len_ok(),
            MaterialSelect::Diffuse(a) => a.packed_len_ok(),
        }
    }

    fn size_int() -> usize {
        1
    }

    fn size_float() -> usize {
        3
    }

    fn pack_to(&self, ints: &mut Vec<i32>, ioff: usize, floats: &mut Vec<u32>, foff: usize) {
        match self {
            MaterialSelect::Luminous(a) => {
                ints[ioff] = 0i32;
                floats[foff] = 0u32;
                let f1: usize = foff + 1;
                floats[f1] = 0u32;
                let f2: usize = foff + 2;
                floats[f2] = 0u32;
                proof {
                    a.packed_len_ok();
                    assert(self.packed_floats() =~= seq![0u32, 0u32, 0u32]);
                    assert(ints@ =~= old(ints)@.subrange(0, ioff as int) + self.packed_ints()
                        + old(ints)@.skip(ioff + Self::size_int_spec()));
                    assert(floats@ =~= old(floats)@.subrange(0, foff as int)
                        + self.packed_floats()
                        + old(floats)@.skip(foff + Self::size_float_spec()));
                }
            },
            MaterialSelect::Diffuse(a) => {
                ints[ioff] = 1i32;
                let i1: usize = ioff + 1;
                a.pack_to(ints, i1, floats, foff);
                proof {
                    a.packed_len_ok();
                    assert(ints@ =~= old(ints)@.subrange(0, ioff as int) + self.packed_ints()
                        + old(ints)@.skip(ioff + Self::size_int_spec()));
                    assert(floats@ =~= old(floats)@.subrange(0, foff as int)
                        + self.packed_floats()
                        + old(floats)@.skip(foff + Self::size_float_spec()));
                }
            },
        }
    }
}

/// Packing an arm through the variant and dispatching on that arm's
/// discriminant reads back exactly what the bare arm packs on its own:
/// the round-trip between variant wrapper and underlying type is lossless.
pub proof fn lemma_material_select_round_trip(m: MaterialSelect)
    ensures
        m matches MaterialSelect::Luminous(a) ==> m.packed_ints()[0] == 0i32
            && dispatch_ints(m.packed_ints(), Luminous::size_int_spec()) == a.packed_ints()
            && dispatch_floats(m.packed_floats(), Luminous::size_float_spec())
                == a.packed_floats(),
        m matches MaterialSelect::Diffuse(a) ==> m.packed_ints()[0] == 1i32
            && dispatch_ints(m.packed_ints(), Diffuse::size_int_spec()) == a.packed_ints()
            && dispatch_floats(m.packed_floats(), Diffuse::size_float_spec())
                == a.packed_floats(),
{
    match m {
        MaterialSelect::Luminous(a) => {
            a.packed_len_ok();
            assert(dispatch_ints(m.packed_ints(), Luminous::size_int_spec())
                =~= a.packed_ints());
            assert(dispatch_floats(m.packed_floats(), Luminous::size_float_spec())
                =~= a.packed_floats());
        },
        MaterialSelect::Diffuse(a) => {
            a.packed_len_ok();
            assert(dispatch_ints(m.packed_ints(), Diffuse::size_int_spec())
                =~= a.packed_ints());
            assert(dispatch_floats(m.packed_floats(), Diffuse::size_float_spec())
                =~= a.packed_floats());
        },
    }
}

/// Closed shape variant over the sphere and half-space shapes, in that
/// declared order; the discriminant is the arm's position in the list.
#[derive(Clone, Debug)]
pub enum ShapeSelect {
    /// Arm 0.
    Sphere(Sphere),
    /// Arm 1.
    HalfSpace(HalfSpace),
}

impl Pack for ShapeSelect {
    open spec fn size_int_spec() -> nat {
        1
    }

    open spec fn size_float_spec() -> nat {
        4
    }

    open spec fn packed_ints(&self) -> Seq<i32> {
        match self {
            ShapeSelect::Sphere(a) => seq![0i32] + a.packed_ints(),
            ShapeSelect::HalfSpace(a) => seq![1i32] + a.packed_ints(),
        }
    }

    open spec fn packed_floats(&self) -> Seq<u32> {
        match self {
            ShapeSelect::Sphere(a) => a.packed_floats(),
            ShapeSelect::HalfSpace(a) => a.packed_floats(),
        }
    }

    proof fn size_bounds() {
    }

    proof fn packed_len_ok(&self) {
        match self {
            ShapeSelect::Sphere(a) => a.packed_len_ok(),
            ShapeSelect::HalfSpace(a) => a.packed_len_ok(),
        }
    }

    fn size_int() -> usize {
        1
    }

    fn size_float() -> usize {
        4
    }

    fn pack_to(&self, ints: &mut Vec<i32>, ioff: usize, floats: &mut Vec<u32>, foff: usize) {
        match self {
            ShapeSelect::Sphere(a) => {
                ints[ioff] = 0i32;
                let i1: usize = ioff + 1;
                a.pack_to(ints, i1, floats, foff);
                proof {
                    a.packed_len_ok();
                    assert(ints@ =~= old(ints)@.subrange(0, ioff as int) + self.packed_ints()
                        + old(ints)@.skip(ioff + Self::size_int_spec()));
                    assert(floats@ =~= old(floats)@.subrange(0, foff as int)
                        + self.packed_floats()
                        + old(floats)@.skip(foff + Self::size_float_spec()));
                }
            },
            ShapeSelect::HalfSpace(a) => {
                ints[ioff] = 1i32;
                let i1: usize = ioff + 1;
                a.pack_to(ints, i1, floats, foff);
                proof {
                    a.packed_len_ok();
                    assert(ints@ =~= old(ints)@.subrange(0, ioff as int) + self.packed_ints()
                        + old(ints)@.skip(ioff + Self::size_int_spec()));
                    assert(floats@ =~= old(floats)@.subrange(0, foff as int)
                        + self.packed_floats()
                        + old(floats)@.skip(foff + Self::size_float_spec()));
                }
            },
        }
    }
}

/// The shape variant's round-trip law, as for the material variant.
pub proof fn lemma_shape_select_round_trip(s: ShapeSelect)
    ensures
        s matches ShapeSelect::Sphere(a) ==> s.packed_ints()[0] == 0i32
            && dispatch_ints(s.packed_ints(), Sphere::size_int_spec()) == a.packed_ints()
            && dispatch_floats(s.packed_floats(), Sphere::size_float_spec())
                == a.packed_floats(),
        s matches ShapeSelect::HalfSpace(a) ==> s.packed_ints()[0] == 1i32
            && dispatch_ints(s.packed_ints(), HalfSpace::size_int_spec()) == a.packed_ints()
            && dispatch_floats(s.packed_floats(), HalfSpace::size_float_spec())
                == a.packed_floats(),
{
    match s {
        ShapeSelect::Sphere(a) => {
            a.packed_len_ok();
            assert(dispatch_ints(s.packed_ints(), Sphere::size_int_spec()) =~= a.packed_ints());
            assert(dispatch_floats(s.packed_floats(), Sphere::size_float_spec())
                =~= a.packed_floats());
        },
        ShapeSelect::HalfSpace(a) => {
            a.packed_len_ok();
            assert(dispatch_ints(s.packed_ints(), HalfSpace::size_int_spec())
                =~= a.packed_ints());
            assert(dispatch_floats(s.packed_floats(), HalfSpace::size_float_spec())
                =~= a.packed_floats());
        },
    }
}

/// Weighted combination of the luminous and diffuse materials, in that
/// declared order. The device computes the aggregate as the sum of each
/// member's contribution scaled by its packed weight; weights need not sum
/// to one. Weights are f32 bit patterns.
#[derive(Clone, Debug)]
pub struct MaterialCombine {
    /// First member.
    pub first: Luminous,
    /// Weight of the first member's contribution (f32 bits).
    pub first_weight: u32,
    /// Second member.
    pub second: Diffuse,
    /// Weight of the second member's contribution (f32 bits).
    pub second_weight: u32,
}

impl Pack for MaterialCombine {
    open spec fn size_int_spec() -> nat {
        0
    }

    open spec fn size_float_spec() -> nat {
        5
    }

    open spec fn packed_ints(&self) -> Seq<i32> {
        self.first.packed_ints() + self.second.packed_ints()
    }

    open spec fn packed_floats(&self) -> Seq<u32> {
        seq![self.first_weight] + self.first.packed_floats() + seq![self.second_weight]
            + self.second.packed_floats()
    }

    proof fn size_bounds() {
    }

    proof fn packed_len_ok(&self) {
        self.first.packed_len_ok();
        self.second.packed_len_ok();
    }

    fn size_int() -> usize {
        0
    }

    fn size_float() -> usize {
        5
    }

    fn pack_to(&self, ints: &mut Vec<i32>, ioff: usize, floats: &mut Vec<u32>, foff: usize) {
        floats[foff] = self.first_weight;
        let f1: usize = foff + 1;
        self.first.pack_to(ints, ioff, floats, f1);
        let f2: usize = f1 + Luminous::size_float();
        floats[f2] = self.second_weight;
        let f3: usize = f2 + 1;
        let i1: usize = ioff + Luminous::size_int();
        self.second.pack_to(ints, i1, floats, f3);
        proof {
            assert(ints@ =~= old(ints)@.subrange(0, ioff as int) + self.packed_ints()
                + old(ints)@.skip(ioff + Self::size_int_spec()));
            assert(floats@ =~= old(floats)@.subrange(0, foff as int) + self.packed_floats()
                + old(floats)@.skip(foff + Self::size_float_spec()));
        }
    }
}

/// Layout law of the weighted combination: each member's weight stands
/// directly before that member's payload, members in declared order. The
/// device-side aggregate is the weight-scaled sum over exactly these slots.
pub proof fn lemma_material_combine_layout(c: MaterialCombine)
    ensures
        c.packed_floats().len() == 5,
        c.packed_floats()[0] == c.first_weight,
        c.packed_floats().subrange(1, 1) == c.first.packed_floats(),
        c.packed_floats()[1] == c.second_weight,
        c.packed_floats().subrange(2, 5) == c.second.packed_floats(),
{
    c.first.packed_len_ok();
    c.second.packed_len_ok();
    assert(c.packed_floats().subrange(1, 1) =~= c.first.packed_floats());
    assert(c.packed_floats().subrange(2, 5) =~= c.second.packed_floats());
}

impl Instance for MaterialSelect {
    open spec fn source_key_spec() -> u64 {
        MATERIAL_SELECT_SOURCE_KEY
    }

    open spec fn inst_name_spec() -> Seq<u8> {
        "select_luminous_diffuse".spec_bytes()
    }

    open spec fn emitted_keys(done: Set<u64>) -> Set<u64> {
        if done.contains(MATERIAL_SELECT_SOURCE_KEY) {
            Set::empty()
        } else {
            Luminous::emitted_keys(done).union(
                Diffuse::emitted_keys(done.union(Luminous::emitted_keys(done))),
            ).union(Set::empty().insert(MATERIAL_SELECT_SOURCE_KEY))
        }
    }

    open spec fn source_given(done: Set<u64>) -> Seq<u8> {
        if done.contains(MATERIAL_SELECT_SOURCE_KEY) {
            Seq::empty()
        } else {
            Luminous::source_given(done)
                + Diffuse::source_given(done.union(Luminous::emitted_keys(done)))
                + "MATERIAL_SELECT_2(select_luminous_diffuse, luminous, diffuse)\n".spec_bytes()
        }
    }

    proof fn source_once(done: Set<u64>) {
        if !done.contains(MATERIAL_SELECT_SOURCE_KEY) {
            assert(Self::emitted_keys(done).contains(MATERIAL_SELECT_SOURCE_KEY));
        }
    }

    fn inst_name() -> (r: Vec<u8>) {
        "select_luminous_diffuse".as_bytes_vec()
    }

    fn source(cache: &mut KeyCache) -> (r: Vec<u8>) {
        if cache.contains_key(MATERIAL_SELECT_SOURCE_KEY) {
            proof {
                assert(cache@ =~= old(cache)@.union(Self::emitted_keys(old(cache)@)));
            }
            Vec::new()
        } else {
            let mut text = Luminous::source(cache);
            let mut second = Diffuse::source(cache);
            text.append(&mut second);
            cache.insert(MATERIAL_SELECT_SOURCE_KEY);
            let mut own =
                "MATERIAL_SELECT_2(select_luminous_diffuse, luminous, diffuse)\n".as_bytes_vec();
            text.append(&mut own);
            proof {
                assert(cache@ =~= old(cache)@.union(Self::emitted_keys(old(cache)@)));
                assert(text@ =~= Self::source_given(old(cache)@));
            }
            text
        }
    }
}

impl Instance for ShapeSelect {
    open spec fn source_key_spec() -> u64 {
        SHAPE_SELECT_SOURCE_KEY
    }

    open spec fn inst_name_spec() -> Seq<u8> {
        "select_sphere_half_space".spec_bytes()
    }

    open spec fn emitted_keys(done: Set<u64>) -> Set<u64> {
        if done.contains(SHAPE_SELECT_SOURCE_KEY) {
            Set::empty()
        } else {
            Sphere::emitted_keys(done).union(
                HalfSpace::emitted_keys(done.union(Sphere::emitted_keys(done))),
            ).union(Set::empty().insert(SHAPE_SELECT_SOURCE_KEY))
        }
    }

    open spec fn source_given(done: Set<u64>) -> Seq<u8> {
        if done.contains(SHAPE_SELECT_SOURCE_KEY) {
            Seq::empty()
        } else {
            Sphere::source_given(done)
                + HalfSpace::source_given(done.union(Sphere::emitted_keys(done)))
                + "SHAPE_SELECT_2(select_sphere_half_space, sphere, half_space)\n".spec_bytes()
        }
    }

    proof fn source_once(done: Set<u64>) {
        if !done.contains(SHAPE_SELECT_SOURCE_KEY) {
            assert(Self::emitted_keys(done).contains(SHAPE_SELECT_SOURCE_KEY));
        }
    }

    fn inst_name() -> (r: Vec<u8>) {
        "select_sphere_half_space".as_bytes_vec()
    }

    fn source(cache: &mut KeyCache) -> (r: Vec<u8>) {
        if cache.contains_key(SHAPE_SELECT_SOURCE_KEY) {
            proof {
                assert(cache@ =~= old(cache)@.union(Self::emitted_keys(old(cache)@)));
            }
            Vec::new()
        } else {
            let mut text = Sphere::source(cache);
            let mut second = HalfSpace::source(cache);
            text.append(&mut second);
            cache.insert(SHAPE_SELECT_SOURCE_KEY);
            let mut own =
                "SHAPE_SELECT_2(select_sphere_half_space, sphere, half_space)\n".as_bytes_vec();
            text.append(&mut own);
            proof {
                assert(cache@ =~= old(cache)@.union(Self::emitted_keys(old(cache)@)));
                assert(text@ =~= Self::source_given(old(cache)@));
            }
            text
        }
    }
}

impl Instance for MaterialCombine {
    open spec fn source_key_spec() -> u64 {
        MATERIAL_COMBINE_SOURCE_KEY
    }

    open spec fn inst_name_spec() -> Seq<u8> {
        "combine_luminous_diffuse".spec_bytes()
    }

    open spec fn emitted_keys(done: Set<u64>) -> Set<u64> {
        if done.contains(MATERIAL_COMBINE_SOURCE_KEY) {
            Set::empty()
        } else {
            Luminous::emitted_keys(done).union(
                Diffuse::emitted_keys(done.union(Luminous::emitted_keys(done))),
            ).union(Set::empty().insert(MATERIAL_COMBINE_SOURCE_KEY))
        }
    }

    open spec fn source_given(done: Set<u64>) -> Seq<u8> {
        if done.contains(MATERIAL_COMBINE_SOURCE_KEY) {
            Seq::empty()
        } else {
            Luminous::source_given(done)
                + Diffuse::source_given(done.union(Luminous::emitted_keys(done)))
                + "MATERIAL_COMBINE_2(combine_luminous_diffuse, luminous, diffuse)\n".spec_bytes()
        }
    }

    proof fn source_once(done: Set<u64>) {
        if !done.contains(MATERIAL_COMBINE_SOURCE_KEY) {
            assert(Self::emitted_keys(done).contains(MATERIAL_COMBINE_SOURCE_KEY));
        }
    }

    fn inst_name() -> (r: Vec<u8>) {
        "combine_luminous_diffuse".as_bytes_vec()
    }

    fn source(cache: &mut KeyCache) -> (r: Vec<u8>) {
        if cache.contains_key(MATERIAL_COMBINE_SOURCE_KEY) {
            proof {
                assert(cache@ =~= old(cache)@.union(Self::emitted_keys(old(cache)@)));
            }
            Vec::new()
        } else {
            let mut text = Luminous::source(cache);
            let mut second = Diffuse::source(cache);
            text.append(&mut second);
            cache.insert(MATERIAL_COMBINE_SOURCE_KEY);
            let mut own =
                "MATERIAL_COMBINE_2(combine_luminous_diffuse, luminous, diffuse)\n".as_bytes_vec();
            text.append(&mut own);
            proof {
                assert(cache@ =~= old(cache)@.union(Self::emitted_keys(old(cache)@)));
                assert(text@ =~= Self::source_given(old(cache)@));
            }
            text
        }
    }
}

} // verus!
