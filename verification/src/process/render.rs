//! Renderer, worker and accumulation state.
//!
//! The worker issues bounded batches of compute dispatches; each dispatch
//! accumulates one sample into device-resident state. The host mirror of that
//! state tracks the sample counter, the last explicitly read-back buffer
//! contents, and whether accumulated samples are stale. Clearing is always
//! explicit: pushing new view parameters never resets the buffer by itself.

use vstd::prelude::*;
use crate::Error;
use crate::instance::{Instance, KeyCache};
use crate::pack::Pack;
use crate::scene::Scene;
use crate::source::{clay_source_list, lookup_spec, resolve_spec, source, Resolution, SourceTree};
use crate::view::{KernelArgs, Push, Store, ViewCap};
use vstd::string::{StrSliceExecFns, StringSliceAdditionalSpecFns};

verus! {

/// Host mirror of the GPU-resident accumulation state: per-pixel radiance
/// cells (f32 bits, synchronized only by explicit read-back), a sample
/// counter, and the stale tag of the two-step invalidation protocol.
pub struct RenderData {
    cells: Vec<u32>,
    samples: u64,
    stale: bool,
}

impl RenderData {
    /// The last read-back accumulation contents.
    pub closed spec fn cells_spec(&self) -> Seq<u32> {
        self.cells@
    }

    /// Samples accumulated since the last clear.
    pub closed spec fn samples_spec(&self) -> u64 {
        self.samples
    }

    /// Whether live parameters changed since the last clear: accumulated
    /// samples no longer match what the next pass would render.
    pub closed spec fn stale_spec(&self) -> bool {
        self.stale
    }

    /// Fresh state: `len` zeroed cells, zero samples, not stale.
    pub fn new(len: usize) -> (r: RenderData)
        ensures
            r.cells_spec().len() == len,
            forall|i: int| 0 <= i < len ==> r.cells_spec()[i] == 0u32,
            r.samples_spec() == 0u64,
            !r.stale_spec(),
    {
        let mut cells: Vec<u32> = Vec::new();
        let mut k: usize = 0;
        while k < len
            invariant
                k <= len,
                cells@.len() == k,
                forall|i: int| 0 <= i < k ==> cells@[i] == 0u32,
            decreases len - k,
        {
            cells.push(0u32);
            k = k + 1;
        }
        RenderData { cells, samples: 0, stale: false }
    }

    /// Number of accumulation cells.
    pub fn len(&self) -> (r: usize)
        ensures
            r == self.cells_spec().len(),
    {
        self.cells.len()
    }

    /// The sample counter.
    pub fn sample_count(&self) -> (r: u64)
        ensures
            r == self.samples_spec(),
    {
        self.samples
    }

    /// The stale tag.
    pub fn is_stale(&self) -> (r: bool)
        ensures
            r == self.stale_spec(),
    {
        self.stale
    }

    /// Read-only snapshot of the last read-back accumulation contents.
    pub fn buffer(&self) -> (r: &Vec<u32>)
        ensures
            r@ == self.cells_spec(),
    {
        &self.cells
    }

    /// Stores the contents of one explicit device-to-host transfer; host and
    /// device views are never synchronized implicitly.
    pub fn sync_buffer(&mut self, readback: Vec<u32>)
        requires
            readback@.len() == old(self).cells_spec().len(),
        ensures
            final(self).cells_spec() == readback@,
            final(self).samples_spec() == old(self).samples_spec(),
            final(self).stale_spec() == old(self).stale_spec(),
    {
        self.cells = readback;
    }

    /// Explicit invalidation: zeroes every accumulation cell and the sample
    /// counter, and marks the state clean again.
    pub fn clear(&mut self)
        ensures
            final(self).cells_spec().len() == old(self).cells_spec().len(),
            forall|i: int|
                0 <= i < final(self).cells_spec().len() ==> final(self).cells_spec()[i] == 0u32,
            final(self).samples_spec() == 0u64,
            !final(self).stale_spec(),
    {
        let len = self.cells.len();
        let mut k: usize = 0;
        while k < len
            invariant
                k <= len,
                self.cells@.len() == len,
                forall|i: int| 0 <= i < k ==> self.cells@[i] == 0u32,
            decreases len - k,
        {
            self.cells[k] = 0u32;
            k = k + 1;
        }
        self.samples = 0;
        self.stale = false;
    }

    fn set_stale(&mut self)
        ensures
            final(self).cells_spec() == old(self).cells_spec(),
            final(self).samples_spec() == old(self).samples_spec(),
            final(self).stale_spec(),
    {
        self.stale = true;
    }

    fn add_samples(&mut self, n: u64)
        requires
            old(self).samples_spec() + n <= u64::MAX,
        ensures
            final(self).cells_spec() == old(self).cells_spec(),
            final(self).samples_spec() == old(self).samples_spec() + n,
            final(self).stale_spec() == old(self).stale_spec(),
    {
        self.samples = self.samples + n;
    }
}

/// How many whole dispatches a time budget admits, given the duration each
/// dispatch took: a new dispatch starts only while the elapsed time is still
/// below the budget, and an in-flight dispatch is never cancelled.
pub open spec fn passes_within(durations: Seq<u64>, budget: int) -> nat
    decreases durations.len(),
{
    if durations.len() == 0 || budget <= 0 {
        0
    } else {
        1 + passes_within(durations.drop_first(), budget - durations[0])
    }
}

/// A zero budget admits no dispatch at all, whatever the durations.
pub proof fn lemma_zero_budget_no_passes(durations: Seq<u64>)
    ensures
        passes_within(durations, 0) == 0,
{
}

/// A positive budget admits at least one dispatch whenever the device can
/// execute one: the budget check happens only between whole dispatches.
pub proof fn lemma_positive_budget_dispatches(durations: Seq<u64>, budget: int)
    requires
        budget > 0,
        durations.len() > 0,
    ensures
        passes_within(durations, budget) >= 1,
{
}

/// No more dispatches complete than the device executed.
pub proof fn lemma_passes_within_bounded(durations: Seq<u64>, budget: int)
    ensures
        passes_within(durations, budget) <= durations.len(),
    decreases durations.len(),
{
    if durations.len() > 0 && budget > 0 {
        lemma_passes_within_bounded(durations.drop_first(), budget - durations[0]);
    }
}

/// The text of the composed kernel entry file for one scene/view pairing:
/// each capability's contribution in declared order, deduplicated by content
/// key, followed by the kernel driver text.
pub open spec fn composed_entry_spec<
    S: Instance,
    M: Instance,
    B: Instance,
    V: Instance,
>() -> Seq<u8> {
    let d0 = Set::<u64>::empty();
    let t1 = S::source_given(d0);
    let d1 = d0.union(S::emitted_keys(d0));
    let t2 = M::source_given(d1);
    let d2 = d1.union(M::emitted_keys(d1));
    let t3 = B::source_given(d2);
    let d3 = d2.union(B::emitted_keys(d2));
    let t4 = V::source_given(d3);
    t1 + t2 + t3 + t4 + kernel_main_text()
}

/// The kernel driver text appended after all capability contributions.
pub open spec fn kernel_main_text() -> Seq<u8> {
    "__kernel void trace(__global const int *idata, __global const float *fdata, __global float *acc);\n".spec_bytes()
}

/// The path the composed entry file is registered under.
pub open spec fn entry_path_spec() -> Seq<u8> {
    "clay/kernel_main.c".spec_bytes()
}

/// A worker bound to one compiled pipeline and one accumulation state.
pub struct Worker<V: ViewCap> {
    /// The fully resolved device source the pipeline was compiled from.
    pub kernel_source: Vec<u8>,
    /// Packed scene integer parameters, uploaded once at build time.
    pub scene_ints: Vec<i32>,
    /// Packed scene float parameters (f32 bits), uploaded once at build time.
    pub scene_floats: Vec<u32>,
    /// Device-resident view representation.
    pub view_data: V::Data,
    /// Live kernel arguments bound for the next pass.
    pub args: KernelArgs,
    /// The accumulation state this worker is bound to.
    pub data: RenderData,
}

impl<V: ViewCap> Worker<V> {
    /// Read access to the accumulation state.
    pub fn data(&self) -> (r: &RenderData)
        ensures
            *r == self.data,
    {
        &self.data
    }

    /// Mutable access to the accumulation state, for explicit clearing and
    /// explicit read-back synchronization.
    pub fn data_mut(&mut self) -> (r: &mut RenderData)
        ensures
            *r == old(self).data,
            final(self).data == *final(r),
            final(self).kernel_source@ == old(self).kernel_source@,
            final(self).scene_ints@ == old(self).scene_ints@,
            final(self).scene_floats@ == old(self).scene_floats@,
            final(self).view_data == old(self).view_data,
            final(self).args@ == old(self).args@,
    {
        &mut self.data
    }

    /// Re-pushes the view's live parameters: refreshes the device-resident
    /// view data in place and rebinds the kernel arguments, and marks the
    /// accumulated samples stale. It deliberately does NOT clear the
    /// accumulation buffer: discarding old samples is a separate, explicit
    /// step, so a non-invalidating refresh forces no reset.
    pub fn update_data(&mut self, view: &V)
        requires
            V::args_count_spec() <= old(self).args@.len(),
        ensures
            final(self).view_data == view.data_spec(),
            final(self).args@.len() == old(self).args@.len(),
            forall|k: int|
                0 <= k < V::args_count_spec() ==> final(self).args@[k] == Some(view.arg_words(k)),
            final(self).data.cells_spec() == old(self).data.cells_spec(),
            final(self).data.samples_spec() == old(self).data.samples_spec(),
            final(self).data.stale_spec(),
            final(self).kernel_source@ == old(self).kernel_source@,
            final(self).scene_ints@ == old(self).scene_ints@,
            final(self).scene_floats@ == old(self).scene_floats@,
    {
        view.update_data(&mut self.view_data);
        view.args_set(0, &mut self.args);
        self.data.set_stale();
    }

    /// Runs bounded dispatches until the elapsed time reaches `budget`:
    /// `pass_durations` holds the observed duration of each dispatch the
    /// device executed, in order. Returns how many dispatches completed; each
    /// completed dispatch accumulates one sample. Fails loudly if the
    /// accumulated samples are stale, unless the caller explicitly accepts
    /// continuing over stale parameters. Never clears the buffer itself.
    pub fn run_for(&mut self, budget: u64, pass_durations: &Vec<u64>, accept_stale: bool) -> (r:
        Result<usize, Error>)
        requires
            old(self).data.samples_spec() + pass_durations@.len() <= u64::MAX,
        ensures
            old(self).data.stale_spec() && !accept_stale ==> (r matches Err(
                Error::StaleAccumulation) && *final(self) == *old(self)),
            !(old(self).data.stale_spec() && !accept_stale) ==> (r matches Ok(c)
                && c == passes_within(pass_durations@, budget as int)
                && final(self).data.samples_spec() == old(self).data.samples_spec()
                + passes_within(pass_durations@, budget as int)
                && final(self).data.cells_spec() == old(self).data.cells_spec()
                && final(self).data.stale_spec() == old(self).data.stale_spec()
                && final(self).kernel_source@ == old(self).kernel_source@
                && final(self).scene_ints@ == old(self).scene_ints@
                && final(self).scene_floats@ == old(self).scene_floats@
                && final(self).view_data == old(self).view_data
                && final(self).args@ == old(self).args@),
    {
        if self.data.is_stale() && !accept_stale {
            return Err(Error::StaleAccumulation);
        }
        let n = pass_durations.len();
        let mut elapsed: u128 = 0;
        let mut count: usize = 0;
        proof {
            assert(pass_durations@.skip(0) =~= pass_durations@);
        }
        while count < n && elapsed < budget as u128
            invariant
                n == pass_durations@.len(),
                count <= n,
                elapsed <= count * 0x1_0000_0000_0000_0000u128,
                passes_within(pass_durations@, budget as int) == count + passes_within(
                    pass_durations@.skip(count as int),
                    budget - elapsed,
                ),
            decreases n - count,
        {
            proof {
                assert(pass_durations@.skip(count as int).drop_first() =~= pass_durations@.skip(
                    count + 1,
                ));
                assert(pass_durations@.skip(count as int)[0] == pass_durations@[count as int]);
                assert((count + 1) * 0x1_0000_0000_0000_0000u128 == count
                    * 0x1_0000_0000_0000_0000u128 + 0x1_0000_0000_0000_0000u128)
                    by (nonlinear_arith);
            }
            elapsed = elapsed + pass_durations[count] as u128;
            count = count + 1;
        }
        proof {
            if count == n {
                assert(pass_durations@.skip(n as int) =~= Seq::<u64>::empty());
            }
            assert(passes_within(pass_durations@, budget as int) == count);
            lemma_passes_within_bounded(pass_durations@, budget as int);
        }
        self.data.add_samples(count as u64);
        Ok(count)
    }
}

/// Collects the device source tree and composes the compiled pipeline for
/// one (scene, view) pairing.
pub struct RendererBuilder<S, M, B, V> {
    tree: SourceTree,
    marker: core::marker::PhantomData<(S, M, B, V)>,
}

/// A renderer builder whose tree already holds the built-in `clay/` device
/// source files.
pub fn create_renderer<
    S: Pack + Instance,
    M: Pack + Instance,
    B: Pack + Instance,
    V: ViewCap,
>() -> (r: RendererBuilder<S, M, B, V>)
    ensures
        r.tree_spec() == clay_source_list(),
{
    RendererBuilder { tree: source(), marker: core::marker::PhantomData }
}

impl<S: Pack + Instance, M: Pack + Instance, B: Pack + Instance, V: ViewCap> RendererBuilder<
    S,
    M,
    B,
    V,
> {
    /// The files registered so far.
    pub closed spec fn tree_spec(&self) -> Seq<(Seq<u8>, Seq<u8>)> {
        self.tree@
    }

    /// Registers one additional device source file.
    pub fn register(&mut self, path: Vec<u8>, content: Vec<u8>) -> (r: Result<(), Error>)
        ensures
            lookup_spec(old(self).tree_spec(), path@) is Some ==> (final(self).tree_spec()
                == old(self).tree_spec() && (r matches Err(Error::DuplicatePath { path: p })
                && p@ == path@)),
            lookup_spec(old(self).tree_spec(), path@) is None ==> (r is Ok
                && final(self).tree_spec() == old(self).tree_spec().push((path@, content@))),
    {
        self.tree.register(path, content)
    }

    /// Composes the entry file for the pairing, resolves the kernel source
    /// unit, packs the scene, binds the initial view arguments and returns
    /// the worker with fresh accumulation state of `width * height * 3`
    /// radiance cells.
    pub fn build(self, scene: &Scene<S, M, B>, view: &V, width: u32, height: u32) -> (r: Result<
        Worker<V>,
        Error,
    >)
        requires
            scene.wf(),
            width * height * 3 <= 0x7FFFFFFFusize,
        ensures
            (r matches Ok(w) ==> ({
                let files2 = self.tree_spec().push(
                    (entry_path_spec(), composed_entry_spec::<S, M, B, V>()),
                );
                &&& lookup_spec(self.tree_spec(), entry_path_spec()) is None
                &&& (resolve_spec(files2, entry_path_spec()) matches Resolution::Done {
                    text,
                    imported,
                } && w.kernel_source@ == text)
                &&& w.scene_ints@ == scene.packed_ints_spec()
                &&& w.scene_floats@ == scene.packed_floats_spec()
                &&& w.view_data == view.data_spec()
                &&& w.args@.len() == V::args_count_spec()
                &&& forall|k: int|
                    0 <= k < V::args_count_spec() ==> w.args@[k] == Some(view.arg_words(k))
                &&& w.data.cells_spec().len() == width * height * 3
                &&& forall|i: int|
                    0 <= i < w.data.cells_spec().len() ==> w.data.cells_spec()[i]
                        == 0u32
                &&& w.data.samples_spec() == 0u64
                &&& !w.data.stale_spec()
            })),
            lookup_spec(self.tree_spec(), entry_path_spec()) is None && (resolve_spec(
                self.tree_spec().push((entry_path_spec(), composed_entry_spec::<S, M, B, V>())),
                entry_path_spec(),
            ) matches Resolution::Done { .. }) ==> r is Ok,
            lookup_spec(self.tree_spec(), entry_path_spec()) is Some ==> (r matches Err(
                Error::DuplicatePath { path: p }) && p@ == entry_path_spec()),
            lookup_spec(self.tree_spec(), entry_path_spec()) is None ==> (resolve_spec(
                self.tree_spec().push((entry_path_spec(), composed_entry_spec::<S, M, B, V>())),
                entry_path_spec(),
            ) matches Resolution::Missing { path, importer } ==> (r matches Err(
                Error::UnresolvedImport { path: ep, importer: ei }) && ep@ == path
                && ei@ == importer)),
    {
        let mut cache = KeyCache::new();
        let mut entry = S::source(&mut cache);
        let mut part = M::source(&mut cache);
        entry.append(&mut part);
        let mut part_b = B::source(&mut cache);
        entry.append(&mut part_b);
        let mut part_v = V::source(&mut cache);
        entry.append(&mut part_v);
        let mut driver =
            "__kernel void trace(__global const int *idata, __global const float *fdata, __global float *acc);\n".as_bytes_vec();
        entry.append(&mut driver);
        proof {
            assert(entry@ =~= composed_entry_spec::<S, M, B, V>());
        }
        let mut tree = self.tree;
        let path = "clay/kernel_main.c".as_bytes_vec();
        match tree.register(path, entry) {
            Err(err) => Err(err),
            Ok(()) => {
                let entry_path = "clay/kernel_main.c".as_bytes_vec();
                match tree.resolve(&entry_path) {
                    Err(err) => Err(err),
                    Ok(text) => {
                        let packed = scene.pack();
                        let mut args = KernelArgs::with_len(0);
                        V::args_def(&mut args);
                        proof {
                            V::args_count_bound();
                            assert(args@.len() == V::args_count_spec());
                        }
                        view.args_set(0, &mut args);
                        let view_data = view.create_data();
                        let len3: usize = (width as usize) * (height as usize) * 3;
                        let data = RenderData::new(len3);
                        Ok(
                            Worker {
                                kernel_source: text,
                                scene_ints: packed.0,
                                scene_floats: packed.1,
                                view_data,
                                args,
                                data,
                            },
                        )
                    },
                }
            },
        }
    }
}

} // verus!
