//! Views and the Store/Push capabilities: per-frame device-resident state and
//! live kernel-argument binding.
//!
//! Push is distinct from Pack: pushed values are rebound before every pass
//! without recompiling or re-uploading the packed scene buffer.

use vstd::prelude::*;
use crate::instance::{Instance, KeyCache, leaf_emitted, leaf_source};
use crate::pack::MAX_SLOTS;
use vstd::string::{StrSliceExecFns, StringSliceAdditionalSpecFns};

verus! {

/// Content key of the perspective view's device source contribution.
pub const PROJECTION_VIEW_SOURCE_KEY: u64 = 401;

/// IEEE-754 bit pattern of the f32 value one, the default field of view.
pub const FOV_ONE: u32 = 0x3F800000;

/// The argument slots of one compute kernel invocation; each bound argument
/// is modeled as the sequence of 32-bit words handed to the device.
pub struct KernelArgs {
    slots: Vec<Option<Vec<u32>>>,
}

impl View for KernelArgs {
    type V = Seq<Option<Seq<u32>>>;

    closed spec fn view(&self) -> Seq<Option<Seq<u32>>> {
        Seq::new(
            self.slots@.len(),
            |i: int|
                match self.slots@[i] {
                    Some(v) => Some(v@),
                    None => None,
                },
        )
    }
}

impl KernelArgs {
    /// `n` declared argument slots, all still unbound.
    pub fn with_len(n: usize) -> (r: KernelArgs)
        ensures
            r@.len() == n,
            forall|i: int| 0 <= i < n ==> r@[i] is None,
    {
        let mut slots: Vec<Option<Vec<u32>>> = Vec::new();
        let mut k: usize = 0;
        while k < n
            invariant
                k <= n,
                slots@.len() == k,
                forall|i: int| 0 <= i < k ==> slots@[i] is None,
            decreases n - k,
        {
            slots.push(None);
            k = k + 1;
        }
        KernelArgs { slots }
    }

    /// Number of argument slots.
    pub fn len(&self) -> (r: usize)
        ensures
            r == self@.len(),
    {
        self.slots.len()
    }

    /// The words bound at one argument slot, if any.
    pub fn get(&self, i: usize) -> (r: &Option<Vec<u32>>)
        requires
            i < self@.len(),
        ensures
            r is Some <==> self@[i as int] is Some,
            r matches Some(words) ==> self@[i as int] == Some(words@),
    {
        &self.slots[i]
    }

    /// Appends one declared argument slot holding placeholder words.
    pub fn push_default(&mut self, words: Vec<u32>)
        ensures
            final(self)@ == old(self)@.push(Some(words@)),
    {
        self.slots.push(Some(words));
        proof {
            assert(self@ =~= old(self)@.push(Some(words@)));
        }
    }

    /// Binds the words of one argument slot.
    pub fn set(&mut self, i: usize, words: Vec<u32>)
        requires
            i < old(self)@.len(),
        ensures
            final(self)@ == old(self)@.update(i as int, Some(words@)),
    {
        self.slots[i] = Some(words);
        proof {
            assert(self@ =~= old(self)@.update(i as int, Some(words@)));
        }
    }
}

/// Live kernel-argument binding capability: a value declares how many
/// argument slots it occupies and binds exactly those, starting at a
/// caller-chosen base index, leaving every other slot untouched.
pub trait Push: Sized {
    /// Declared number of kernel-argument slots.
    spec fn args_count_spec() -> nat;

    /// The words bound into the `k`-th of this value's argument slots.
    spec fn arg_words(&self, k: int) -> Seq<u32>;

    /// The slot count is bounded, so base-plus-count arithmetic stays
    /// representable.
    proof fn args_count_bound()
        ensures
            Self::args_count_spec() <= MAX_SLOTS,
    ;

    /// The placeholder words declared for the `k`-th argument slot: they fix
    /// each slot's width before any live value is bound.
    spec fn arg_default_words(k: int) -> Seq<u32>;

    /// Slot count, as executable code reports it.
    fn args_count() -> (r: usize)
        ensures
            r == Self::args_count_spec(),
    ;

    /// Declares this value's argument slots, extending the kernel signature
    /// by exactly `args_count` placeholder-valued slots in declared order.
    fn args_def(args: &mut KernelArgs)
        ensures
            final(args)@ == old(args)@ + Seq::new(
                Self::args_count_spec(),
                |k: int| Some(Self::arg_default_words(k)),
            ),
    ;

    /// Binds this value's arguments at `base .. base + args_count`.
    fn args_set(&self, base: usize, args: &mut KernelArgs)
        requires
            base + Self::args_count_spec() <= old(args)@.len(),
        ensures
            final(args)@.len() == old(args)@.len(),
            forall|k: int|
                0 <= k < Self::args_count_spec() ==> final(args)@[base + k] == Some(
                    self.arg_words(k),
                ),
            forall|j: int|
                0 <= j < old(args)@.len() && !(base <= j < base + Self::args_count_spec())
                    ==> final(args)@[j] == old(args)@[j],
    ;
}

/// Per-frame device-resident representation of a host value: created once,
/// refreshed in place when only scalar fields changed.
pub trait Store: Sized {
    /// The device-resident representation.
    type Data;

    /// The representation this host value maps to.
    spec fn data_spec(&self) -> Self::Data;

    /// Creates the device-resident representation.
    fn create_data(&self) -> (d: Self::Data)
        ensures
            d == self.data_spec(),
    ;

    /// Refreshes the representation in place, without reallocating.
    fn update_data(&self, data: &mut Self::Data)
        ensures
            *final(data) == self.data_spec(),
    ;
}

/// A camera model: contributes device source, keeps device-resident data and
/// binds live arguments before each pass.
pub trait ViewCap: Instance + Store + Push {

}

/// Packing of the nine entries of a 3x3 rotation, in the order the host
/// supplies them, into the 16 words of a device `float16`: groups of three
/// at words 0..3, 4..7 and 8..11, all other words zero.
pub open spec fn rotation_words(m: Seq<u32>) -> Seq<u32> {
    Seq::new(
        16,
        |i: int|
            if 0 <= i < 3 {
                m[i]
            } else if 4 <= i < 7 {
                m[i - 1]
            } else if 8 <= i < 11 {
                m[i - 2]
            } else {
                0u32
            },
    )
}

/// Perspective projection view: position, orientation (the nine entries of
/// a proper 3x3 rotation, in the device's order) and field-of-view width,
/// all as f32 bit patterns.
#[derive(Clone, Copy, Debug)]
pub struct ProjectionView {
    /// Position of the point of view (f32 bits, x/y/z).
    pub pos: [u32; 3],
    /// Orientation: the nine 3x3 rotation entries, in the device's order (f32 bits).
    pub ori: [u32; 9],
    /// Field-of-view width (f32 bits).
    pub fov: u32,
}

impl ProjectionView {
    /// A view at `pos` oriented by `ori`, with the default field of view.
    pub fn new(pos: [u32; 3], ori: [u32; 9]) -> (r: ProjectionView)
        ensures
            r.pos == pos,
            r.ori == ori,
            r.fov == FOV_ONE,
    {
        ProjectionView { pos, ori, fov: FOV_ONE }
    }

    /// Moves and reorients the view; the field of view is kept.
    pub fn update(&mut self, pos: [u32; 3], ori: [u32; 9])
        ensures
            final(self).pos == pos,
            final(self).ori == ori,
            final(self).fov == old(self).fov,
    {
        self.pos = pos;
        self.ori = ori;
    }
}

impl Instance for ProjectionView {
    open spec fn source_key_spec() -> u64 {
        PROJECTION_VIEW_SOURCE_KEY
    }

    open spec fn inst_name_spec() -> Seq<u8> {
        "proj_view".spec_bytes()
    }

    open spec fn emitted_keys(done: Set<u64>) -> Set<u64> {
        leaf_emitted(done, PROJECTION_VIEW_SOURCE_KEY)
    }

    open spec fn source_given(done: Set<u64>) -> Seq<u8> {
        leaf_source(done, PROJECTION_VIEW_SOURCE_KEY, "#import <clay/view/proj_view.h>\n".spec_bytes())
    }

    proof fn source_once(done: Set<u64>) {
        assert(done.union(Self::emitted_keys(done)).contains(PROJECTION_VIEW_SOURCE_KEY));
    }

    fn inst_name() -> (r: Vec<u8>) {
        "proj_view".as_bytes_vec()
    }

    fn source(cache: &mut KeyCache) -> (r: Vec<u8>) {
        if cache.contains_key(PROJECTION_VIEW_SOURCE_KEY) {
            proof {
                assert(cache@ =~= old(cache)@.union(Self::emitted_keys(old(cache)@)));
            }
            Vec::new()
        } else {
            cache.insert(PROJECTION_VIEW_SOURCE_KEY);
            proof {
                assert(cache@ =~= old(cache)@.union(Self::emitted_keys(old(cache)@)));
            }
            "#import <clay/view/proj_view.h>\n".as_bytes_vec()
        }
    }
}

impl Store for ProjectionView {
    type Data = ProjectionView;

    open spec fn data_spec(&self) -> ProjectionView {
        *self
    }

    fn create_data(&self) -> ProjectionView {
        *self
    }

    fn update_data(&self, data: &mut ProjectionView) {
        *data = *self;
    }
}

impl Push for ProjectionView {
    open spec fn args_count_spec() -> nat {
        3
    }

    open spec fn arg_words(&self, k: int) -> Seq<u32> {
        if k == 0 {
            seq![self.pos@[0], self.pos@[1], self.pos@[2]]
        } else if k == 1 {
            rotation_words(self.ori@)
        } else {
            seq![self.fov]
        }
    }

    open spec fn arg_default_words(k: int) -> Seq<u32> {
        if k == 0 {
            seq![0u32, 0u32, 0u32]
        } else if k == 1 {
            Seq::new(16, |i: int| 0u32)
        } else {
            seq![0u32]
        }
    }

    proof fn args_count_bound() {
    }

    fn args_count() -> usize {
        3
    }

    fn args_def(args: &mut KernelArgs) {
        let mut zero3: Vec<u32> = Vec::new();
        zero3.push(0u32);
        zero3.push(0u32);
        zero3.push(0u32);
        proof {
            assert(zero3@ =~= Self::arg_default_words(0));
        }
        args.push_default(zero3);
        let mut zero16: Vec<u32> = Vec::new();
        let mut k: usize = 0;
        while k < 16
            invariant
                k <= 16,
                zero16@.len() == k,
                forall|i: int| 0 <= i < k ==> zero16@[i] == 0u32,
            decreases 16 - k,
        {
            zero16.push(0u32);
            k = k + 1;
        }
        proof {
            assert(zero16@ =~= Self::arg_default_words(1));
        }
        args.push_default(zero16);
        let mut zero1: Vec<u32> = Vec::new();
        zero1.push(0u32);
        proof {
            assert(zero1@ =~= Self::arg_default_words(2));
        }
        args.push_default(zero1);
        proof {
            assert(args@ =~= old(args)@ + Seq::new(
                Self::args_count_spec(),
                |k: int| Some(Self::arg_default_words(k)),
            ));
        }
    }

    fn args_set(&self, base: usize, args: &mut KernelArgs) {
        let n = args.len();
        let mut pos3: Vec<u32> = Vec::new();
        pos3.push(self.pos[0]);
        pos3.push(self.pos[1]);
        pos3.push(self.pos[2]);
        proof {
            assert(pos3@ =~= self.arg_words(0));
        }
        args.set(base, pos3);
        let mut map16: Vec<u32> = Vec::new();
        map16.push(self.ori[0]);
        map16.push(self.ori[1]);
        map16.push(self.ori[2]);
        map16.push(0u32);
        map16.push(self.ori[3]);
        map16.push(self.ori[4]);
        map16.push(self.ori[5]);
        map16.push(0u32);
        map16.push(self.ori[6]);
        map16.push(self.ori[7]);
        map16.push(self.ori[8]);
        map16.push(0u32);
        map16.push(0u32);
        map16.push(0u32);
        map16.push(0u32);
        map16.push(0u32);
        proof {
            assert(map16@ =~= rotation_words(self.ori@));
        }
        let b1: usize = base + 1;
        args.set(b1, map16);
        let mut fov1: Vec<u32> = Vec::new();
        fov1.push(self.fov);
        proof {
            assert(fov1@ =~= self.arg_words(2));
        }
        let b2: usize = base + 2;
        args.set(b2, fov1);
    }
}

impl ViewCap for ProjectionView {

}

} // verus!
