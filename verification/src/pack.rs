//! The Pack capability: static serialization of a value's parameters into
//! fixed-size integer and float buffers at caller-chosen offsets.

use vstd::prelude::*;

verus! {

/// Largest slot count any single packable value may declare; keeps every
/// composed layout computation inside machine-integer range.
pub const MAX_SLOTS: usize = 4096;

/// Static serialization capability.
///
/// A packable value reports a fixed integer-slot count and float-slot count,
/// known without an instance, and writes its parameters into caller-provided
/// buffer regions it does not itself choose. It must write exactly the
/// declared slot counts and touch nothing outside its regions.
pub trait Pack: Sized {
    /// Declared number of integer parameter slots.
    spec fn size_int_spec() -> nat;

    /// Declared number of float parameter slots.
    spec fn size_float_spec() -> nat;

    /// The integer parameters this value packs, in layout order.
    spec fn packed_ints(&self) -> Seq<i32>;

    /// The float parameters, as IEEE-754 bit patterns, in layout order.
    spec fn packed_floats(&self) -> Seq<u32>;

    /// Slot counts are bounded, so composed layout sums stay representable.
    proof fn size_bounds()
        ensures
            Self::size_int_spec() <= MAX_SLOTS,
            Self::size_float_spec() <= MAX_SLOTS,
    ;

    /// Slot counts are instance-independent: every instance packs exactly the
    /// declared number of values.
    proof fn packed_len_ok(&self)
        ensures
            self.packed_ints().len() == Self::size_int_spec(),
            self.packed_floats().len() == Self::size_float_spec(),
    ;

    /// Integer slot count, as executable code reports it.
    fn size_int() -> (r: usize)
        ensures
            r == Self::size_int_spec(),
    ;

    /// Float slot count, as executable code reports it.
    fn size_float() -> (r: usize)
        ensures
            r == Self::size_float_spec(),
    ;

    /// Writes exactly `size_int` integers at `ioff` and exactly `size_float`
    /// floats at `foff`; every slot outside those regions is left unchanged.
    fn pack_to(&self, ints: &mut Vec<i32>, ioff: usize, floats: &mut Vec<u32>, foff: usize)
        requires
            ioff + Self::size_int_spec() <= old(ints).len(),
            foff + Self::size_float_spec() <= old(floats).len(),
        ensures
            final(ints)@ == old(ints)@.subrange(0, ioff as int) + self.packed_ints()
                + old(ints)@.skip(ioff + Self::size_int_spec()),
            final(floats)@ == old(floats)@.subrange(0, foff as int) + self.packed_floats()
                + old(floats)@.skip(foff + Self::size_float_spec()),
    ;
}

} // verus!
