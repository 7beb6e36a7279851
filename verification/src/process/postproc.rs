//! Postprocessing: turning the accumulation buffer into a displayable image
//! through a configurable filter compiled into its own device kernel.
//!
//! The postprocessor reads the render state, never mutates it; its own
//! cadence may differ from the render cadence, so it keeps a working copy of
//! the last ingested snapshot. The filter arithmetic itself runs device-side,
//! compiled from the filter's source contribution and parameterized by the
//! filter's packed configuration.

use vstd::prelude::*;
use crate::Error;
use crate::instance::{Instance, KeyCache, leaf_emitted, leaf_source};
use crate::pack::Pack;
use crate::process::render::RenderData;
use crate::source::{clay_source_list, lookup_spec, resolve_spec, source, Resolution, SourceTree};
use vstd::string::{StrSliceExecFns, StringSliceAdditionalSpecFns};

verus! {

/// Content key of the identity filter's device source contribution.
pub const IDENTITY_FILTER_SOURCE_KEY: u64 = 501;

/// Content key of the logarithmic filter's device source contribution.
pub const LOG_FILTER_SOURCE_KEY: u64 = 502;

/// A display filter: a pure device-side function of normalized radiance,
/// parameterized by its packed construction-time configuration.
pub trait Filter: Pack + Instance {

}

/// Identity filter: the display value is the normalized radiance itself.
#[derive(Clone, Debug, Default)]
pub struct IdentityFilter {}

impl Pack for IdentityFilter {
    open spec fn size_int_spec() -> nat {
        0
    }

    open spec fn size_float_spec() -> nat {
        0
    }

    open spec fn packed_ints(&self) -> Seq<i32> {
        Seq::empty()
    }

    open spec fn packed_floats(&self) -> Seq<u32> {
        Seq::empty()
    }

    proof fn size_bounds() {
    }

    proof fn packed_len_ok(&self) {
    }

    fn size_int() -> usize {
        0
    }

    fn size_float() -> usize {
        0
    }

    fn pack_to(&self, ints: &mut Vec<i32>, ioff: usize, floats: &mut Vec<u32>, foff: usize) {
        proof {
            assert(ints@ =~= old(ints)@.subrange(0, ioff as int) + self.packed_ints()
                + old(ints)@.skip(ioff + Self::size_int_spec()));
            assert(floats@ =~= old(floats)@.subrange(0, foff as int) + self.packed_floats()
                + old(floats)@.skip(foff + Self::size_float_spec()));
        }
    }
}

impl Instance for IdentityFilter {
    open spec fn source_key_spec() -> u64 {
        IDENTITY_FILTER_SOURCE_KEY
    }

    open spec fn inst_name_spec() -> Seq<u8> {
        "filter_identity".spec_bytes()
    }

    open spec fn emitted_keys(done: Set<u64>) -> Set<u64> {
        leaf_emitted(done, IDENTITY_FILTER_SOURCE_KEY)
    }

    open spec fn source_given(done: Set<u64>) -> Seq<u8> {
        leaf_source(done, IDENTITY_FILTER_SOURCE_KEY, "#import <clay/filter/identity.h>\n".spec_bytes())
    }

    proof fn source_once(done: Set<u64>) {
        assert(done.union(Self::emitted_keys(done)).contains(IDENTITY_FILTER_SOURCE_KEY));
    }

    fn inst_name() -> (r: Vec<u8>) {
        "filter_identity".as_bytes_vec()
    }

    fn source(cache: &mut KeyCache) -> (r: Vec<u8>) {
        if cache.contains_key(IDENTITY_FILTER_SOURCE_KEY) {
            proof {
                assert(cache@ =~= old(cache)@.union(Self::emitted_keys(old(cache)@)));
            }
            Vec::new()
        } else {
            cache.insert(IDENTITY_FILTER_SOURCE_KEY);
            proof {
                assert(cache@ =~= old(cache)@.union(Self::emitted_keys(old(cache)@)));
            }
            "#import <clay/filter/identity.h>\n".as_bytes_vec()
        }
    }
}

impl Filter for IdentityFilter {

}

/// Logarithmic tone-map filter with a declared exposure range; the bounds
/// are f32 bit patterns packed for the device kernel.
#[derive(Clone, Debug)]
pub struct LogFilter {
    /// Lower exposure bound (f32 bits).
    pub low: u32,
    /// Upper exposure bound (f32 bits).
    pub high: u32,
}

impl Pack for LogFilter {
    open spec fn size_int_spec() -> nat {
        0
    }

    open spec fn size_float_spec() -> nat {
        2
    }

    open spec fn packed_ints(&self) -> Seq<i32> {
        Seq::empty()
    }

    open spec fn packed_floats(&self) -> Seq<u32> {
        seq![self.low, self.high]
    }

    proof fn size_bounds() {
    }

    proof fn packed_len_ok(&self) {
    }

    fn size_int() -> usize {
        0
    }

    fn size_float() -> usize {
        2
    }

    fn pack_to(&self, ints: &mut Vec<i32>, ioff: usize, floats: &mut Vec<u32>, foff: usize) {
        floats[foff] = self.low;
        let f1: usize = foff + 1;
        floats[f1] = self.high;
        proof {
            assert(ints@ =~= old(ints)@.subrange(0, ioff as int) + self.packed_ints()
                + old(ints)@.skip(ioff + Self::size_int_spec()));
            assert(floats@ =~= old(floats)@.subrange(0, foff as int) + self.packed_floats()
                + old(floats)@.skip(foff + Self::size_float_spec()));
        }
    }
}

impl Instance for LogFilter {
    open spec fn source_key_spec() -> u64 {
        LOG_FILTER_SOURCE_KEY
    }

    open spec fn inst_name_spec() -> Seq<u8> {
        "filter_log".spec_bytes()
    }

    open spec fn emitted_keys(done: Set<u64>) -> Set<u64> {
        leaf_emitted(done, LOG_FILTER_SOURCE_KEY)
    }

    open spec fn source_given(done: Set<u64>) -> Seq<u8> {
        leaf_source(done, LOG_FILTER_SOURCE_KEY, "#import <clay/filter/log.h>\n".spec_bytes())
    }

    proof fn source_once(done: Set<u64>) {
        assert(done.union(Self::emitted_keys(done)).contains(LOG_FILTER_SOURCE_KEY));
    }

    fn inst_name() -> (r: Vec<u8>) {
        "filter_log".as_bytes_vec()
    }

    fn source(cache: &mut KeyCache) -> (r: Vec<u8>) {
        if cache.contains_key(LOG_FILTER_SOURCE_KEY) {
            proof {
                assert(cache@ =~= old(cache)@.union(Self::emitted_keys(old(cache)@)));
            }
            Vec::new()
        } else {
            cache.insert(LOG_FILTER_SOURCE_KEY);
            proof {
                assert(cache@ =~= old(cache)@.union(Self::emitted_keys(old(cache)@)));
            }
            "#import <clay/filter/log.h>\n".as_bytes_vec()
        }
    }
}

impl Filter for LogFilter {

}

/// The postprocessor entry text appended after the filter's contribution.
pub open spec fn postproc_main_text() -> Seq<u8> {
    "__kernel void post(__global const float *acc, ulong n_samples, __global const float *fdata, __global uchar *img);\n".spec_bytes()
}

/// The path the composed postprocessor entry file is registered under.
pub open spec fn postproc_entry_path_spec() -> Seq<u8> {
    "clay/postproc_main.c".spec_bytes()
}

/// The text of the composed postprocessor entry for one filter.
pub open spec fn postproc_entry_spec<F: Instance>() -> Seq<u8> {
    F::source_given(Set::empty()) + postproc_main_text()
}

/// Collects the device source tree for a postprocessor with filter `F`.
pub struct PostprocCollector<F> {
    tree: SourceTree,
    marker: core::marker::PhantomData<F>,
}

/// A postprocessor collector whose tree already holds the built-in `clay/`
/// device source files.
pub fn create_postproc<F: Filter>() -> (r: PostprocCollector<F>)
    ensures
        r.tree_spec() == clay_source_list(),
{
    PostprocCollector { tree: source(), marker: core::marker::PhantomData }
}

/// A postprocessor collector with the identity filter.
pub fn create_default_postproc() -> (r: PostprocCollector<IdentityFilter>)
    ensures
        r.tree_spec() == clay_source_list(),
{
    create_postproc::<IdentityFilter>()
}

impl<F: Filter> PostprocCollector<F> {
    /// The files registered so far.
    pub closed spec fn tree_spec(&self) -> Seq<(Seq<u8>, Seq<u8>)> {
        self.tree@
    }

    /// Registers one additional device source file.
    pub fn register(&mut self, path: Vec<u8>, content: Vec<u8>) -> (r: Result<(), Error>)
        ensures
            lookup_spec(old(self).tree_spec(), path@) is Some ==> (final(self).tree_spec()
                == old(self).tree_spec() && (r matches Err(Error::DuplicatePath { path: p })
                && p@ == path@)),
            lookup_spec(old(self).tree_spec(), path@) is None ==> (r is Ok
                && final(self).tree_spec() == old(self).tree_spec().push((path@, content@))),
    {
        self.tree.register(path, content)
    }

    /// Resolves the postprocessor kernel for `filter` and sizes its buffers
    /// for a `width` by `height` image of 3 channels per pixel.
    pub fn collect(self, filter: &F, width: u32, height: u32) -> (r: Result<Postproc, Error>)
        requires
            width * height * 3 <= 0x7FFFFFFFusize,
        ensures
            (r matches Ok(p) ==> ({
                let files2 = self.tree_spec().push(
                    (postproc_entry_path_spec(), postproc_entry_spec::<F>()),
                );
                &&& lookup_spec(self.tree_spec(), postproc_entry_path_spec()) is None
                &&& (resolve_spec(files2, postproc_entry_path_spec()) matches Resolution::Done {
                    text,
                    imported,
                } && p.kernel_source@ == text)
                &&& p.params_int@ == filter.packed_ints()
                &&& p.params_float@ == filter.packed_floats()
                &&& p.working_spec().len() == width * height * 3
                &&& forall|i: int|
                    0 <= i < p.working_spec().len() ==> p.working_spec()[i] == 0u32
                &&& p.collected_samples_spec() == 0u64
                &&& p.image_spec().len() == width * height * 3
                &&& forall|i: int| 0 <= i < p.image_spec().len() ==> p.image_spec()[i] == 0u8
            })),
            lookup_spec(self.tree_spec(), postproc_entry_path_spec()) is None && (resolve_spec(
                self.tree_spec().push((postproc_entry_path_spec(), postproc_entry_spec::<F>())),
                postproc_entry_path_spec(),
            ) matches Resolution::Done { .. }) ==> r is Ok,
            lookup_spec(self.tree_spec(), postproc_entry_path_spec()) is Some ==> (r matches Err(
                Error::DuplicatePath { path: p }) && p@ == postproc_entry_path_spec()),
            lookup_spec(self.tree_spec(), postproc_entry_path_spec()) is None ==> (resolve_spec(
                self.tree_spec().push((postproc_entry_path_spec(), postproc_entry_spec::<F>())),
                postproc_entry_path_spec(),
            ) matches Resolution::Missing { path, importer } ==> (r matches Err(
                Error::UnresolvedImport { path: ep, importer: ei }) && ep@ == path
                && ei@ == importer)),
    {
        let mut cache = KeyCache::new();
        let mut entry = F::source(&mut cache);
        let mut driver =
            "__kernel void post(__global const float *acc, ulong n_samples, __global const float *fdata, __global uchar *img);\n".as_bytes_vec();
        entry.append(&mut driver);
        proof {
            assert(entry@ =~= postproc_entry_spec::<F>());
        }
        let mut tree = self.tree;
        let path = "clay/postproc_main.c".as_bytes_vec();
        match tree.register(path, entry) {
            Err(err) => Err(err),
            Ok(()) => {
                let entry_path = "clay/postproc_main.c".as_bytes_vec();
                match tree.resolve(&entry_path) {
                    Err(err) => Err(err),
                    Ok(text) => {
                        proof {
                            F::size_bounds();
                            filter.packed_len_ok();
                        }
                        let fi = F::size_int();
                        let ff = F::size_float();
                        let mut params_int: Vec<i32> = Vec::new();
                        while params_int.len() < fi
                            invariant
                                params_int@.len() <= fi,
                            decreases fi - params_int@.len(),
                        {
                            params_int.push(0i32);
                        }
                        let mut params_float: Vec<u32> = Vec::new();
                        while params_float.len() < ff
                            invariant
                                params_float@.len() <= ff,
                            decreases ff - params_float@.len(),
                        {
                            params_float.push(0u32);
                        }
                        filter.pack_to(&mut params_int, 0, &mut params_float, 0);
                        proof {
                            assert(params_int@ =~= filter.packed_ints());
                            assert(params_float@ =~= filter.packed_floats());
                        }
                        let len3: usize = (width as usize) * (height as usize) * 3;
                        let mut working: Vec<u32> = Vec::new();
                        while working.len() < len3
                            invariant
                                working@.len() <= len3,
                                forall|i: int| 0 <= i < working@.len() ==> working@[i] == 0u32,
                            decreases len3 - working@.len(),
                        {
                            working.push(0u32);
                        }
                        let mut image: Vec<u8> = Vec::new();
                        while image.len() < len3
                            invariant
                                image@.len() <= len3,
                                forall|i: int| 0 <= i < image@.len() ==> image@[i] == 0u8,
                            decreases len3 - image@.len(),
                        {
                            image.push(0u8);
                        }
                        Ok(
                            Postproc {
                                kernel_source: text,
                                params_int,
                                params_float,
                                working,
                                collected_samples: 0,
                                image,
                            },
                        )
                    },
                }
            },
        }
    }
}

/// A built postprocessor: the compiled filter kernel's source and
/// parameters, a working snapshot of the accumulation state, and the final
/// displayable image.
pub struct Postproc {
    /// The fully resolved device source of the postprocessing kernel.
    pub kernel_source: Vec<u8>,
    /// The filter's packed integer configuration.
    pub params_int: Vec<i32>,
    /// The filter's packed float configuration (f32 bits).
    pub params_float: Vec<u32>,
    /// The last ingested accumulation snapshot (f32 bits).
    pub working: Vec<u32>,
    /// The sample count of the last ingested snapshot.
    pub collected_samples: u64,
    /// The displayable image, 3 channels per pixel.
    pub image: Vec<u8>,
}

impl Postproc {
    /// The last ingested accumulation snapshot.
    pub open spec fn working_spec(&self) -> Seq<u32> {
        self.working@
    }

    /// The sample count of the last ingested snapshot.
    pub open spec fn collected_samples_spec(&self) -> u64 {
        self.collected_samples
    }

    /// The displayable image, 3 channels per pixel.
    pub open spec fn image_spec(&self) -> Seq<u8> {
        self.image@
    }

    /// Ingests the current accumulation buffer and sample count into the
    /// working snapshot, in place and without reallocating. The render state
    /// itself is only read, never changed.
    pub fn process_one(&mut self, data: &RenderData) -> (r: Result<(), Error>)
        ensures
            data.cells_spec().len() == old(self).working_spec().len() ==> (r is Ok
                && final(self).working_spec() == data.cells_spec()
                && final(self).collected_samples_spec() == data.samples_spec()
                && final(self).image_spec() == old(self).image_spec()),
            data.cells_spec().len() != old(self).working_spec().len() ==> (r matches Err(
                Error::BufferSizeMismatch { expected, actual }) && expected == old(
            self).working_spec().len() && actual == data.cells_spec().len() && *final(self)
                == *old(self)),
            final(self).kernel_source@ == old(self).kernel_source@,
            final(self).params_int@ == old(self).params_int@,
            final(self).params_float@ == old(self).params_float@,
    {
        let src = data.buffer();
        if src.len() != self.working.len() {
            return Err(
                Error::BufferSizeMismatch { expected: self.working.len(), actual: src.len() },
            );
        }
        let len = self.working.len();
        let mut k: usize = 0;
        while k < len
            invariant
                k <= len,
                self.working@.len() == len,
                src@.len() == len,
                forall|i: int| 0 <= i < k ==> self.working@[i] == src@[i],
                self.collected_samples == old(self).collected_samples,
                self.image@ == old(self).image@,
                self.kernel_source@ == old(self).kernel_source@,
                self.params_int@ == old(self).params_int@,
                self.params_float@ == old(self).params_float@,
            decreases len - k,
        {
            self.working[k] = src[k];
            k = k + 1;
        }
        self.collected_samples = data.sample_count();
        proof {
            assert(self.working@ =~= data.cells_spec());
        }
        Ok(())
    }

    /// Installs the filter kernel's output for the current working snapshot,
    /// read back from the device by the caller.
    pub fn make_image(&mut self, shaded: Vec<u8>) -> (r: Result<(), Error>)
        ensures
            shaded@.len() == old(self).image_spec().len() ==> (r is Ok && final(self).image_spec()
                == shaded@ && final(self).working_spec() == old(self).working_spec()
                && final(self).collected_samples_spec() == old(self).collected_samples_spec()),
            shaded@.len() != old(self).image_spec().len() ==> (r matches Err(
                Error::BufferSizeMismatch { expected, actual }) && expected == old(
            self).image_spec().len() && actual == shaded@.len() && *final(self) == *old(self)),
            final(self).kernel_source@ == old(self).kernel_source@,
            final(self).params_int@ == old(self).params_int@,
            final(self).params_float@ == old(self).params_float@,
    {
        if shaded.len() != self.image.len() {
            return Err(
                Error::BufferSizeMismatch { expected: self.image.len(), actual: shaded.len() },
            );
        }
        self.image = shaded;
        Ok(())
    }

    /// The displayable pixel buffer.
    pub fn image(&self) -> (r: &Vec<u8>)
        ensures
            r@ == self.image_spec(),
    {
        &self.image
    }
}

} // verus!
