//! The OpenCL runtime's bookkeeping.
//!
//! The runtime knows which buffers exist and how large they are, what each
//! step reads and launches, and where outputs come from. It says what to
//! allocate, upload, copy, launch and read; buffers and queues are the host's.
//! A buffer's logical size may be zero; its allocation never is.

use std::collections::HashMap;

use vstd::prelude::*;

use crate::buckets::DimFit;
use crate::dtype::DType;
use crate::execution::{
    holds_values, is_declared, is_read, is_there, law_results_have_room, lemma_chosen_fits,
    lemma_pending_is_read,
};
use crate::graph::GraphNode;
use crate::maps::lookup;
use crate::opencl::compile::{OpenClFault, OpenClFeatures};
use crate::opencl::device::{
    available_devices, discovered, enumerate_devices, is_listing, law_listing_is_unique, positions,
    select_device, OpenClDevice, OpenClDeviceInfo, PlatformAnswers,
};
use crate::opencl::dialect::KernelError;
use crate::opencl::dyn_dims::{dim_value, DynDims, UnboundDim};
use crate::opencl::kernel::{
    law_launches_fit_the_program, launch_views, owned_texts, IndexExpr, KernelArg, KernelSource,
    Launch, LaunchView, OpenClKernelOp, SizeExpr,
};
use crate::program::{
    allocate_results, allocation_bytes, allocation_for, allocations_for, buffer_of, buffer_size,
    buffers_after, buffers_of, choose_bucket, chosen_bucket, compile_all, compiles_to, find_output,
    first_missing, home, input_dtype, input_dtype_in, law_steps_read_what_is_there,
    lemma_nothing_missing, loads_to, missing_buffer, pending_inputs, readback_of, step_inputs,
    step_views, Allocation, BucketLlir, BufferRef, CompiledBucket, ExecuteError, ExecutionStep,
    LoadError, OutputError, Readback,
};
use crate::text::{decimal_text, texts};

verus! {

/// The bookkeeping of an OpenCL runtime, for symbolic expressions `E` and host
/// tensors `D`.
pub struct OpenClRuntime<E, D> {
    pub device_info: OpenClDeviceInfo,
    /// The host tensors that were set, by number.
    pub input_data: HashMap<usize, D>,
    /// The logical size in bytes of each uploaded host tensor.
    pub input_buffers: HashMap<usize, usize>,
    pub dyn_dims: DynDims,
    pub buckets: Vec<CompiledBucket<OpenClKernelOp<E>>>,
    pub active_bucket: usize,
}

/// What is done for a host tensor that is uploaded.
#[derive(Clone, Copy, PartialEq, Eq, Structural, Debug)]
pub struct Upload {
    /// The size of the buffer to allocate.
    pub allocation: usize,
    /// Whether there are bytes to write to it.
    pub write: bool,
}

/// Why results cannot be allocated.
#[derive(Clone, Copy, PartialEq, Eq, Structural, Debug)]
pub enum AllocateError {
    /// No graph was loaded.
    NotCompiled,
    /// The result of this node has more bytes than can be addressed.
    SizeOverflow(usize),
}

/// A copy between two buffers of the same size.
#[derive(Clone, Copy, PartialEq, Eq, Structural, Debug)]
pub struct BufferCopy {
    pub source: BufferRef,
    pub bytes: usize,
}

/// The bytes that the result of a step takes.
pub open spec fn step_bytes(step: ExecutionStep, elements: usize) -> int {
    elements * step.output_dtype.width()
}

/// The bytes that the results of all steps take.
pub open spec fn all_step_bytes(steps: Seq<ExecutionStep>, elements: Seq<usize>) -> Seq<usize> {
    Seq::new(steps.len(), |i: int| step_bytes(steps[i], elements[i]) as usize)
}

impl<E, D> OpenClRuntime<E, D> {
    /// The compiled graphs are well formed and the active one exists, if any.
    pub open spec fn wf(self) -> bool {
        &&& self.dyn_dims.wf()
        &&& forall|i: int| 0 <= i < self.buckets@.len() ==> (#[trigger] self.buckets@[i]).wf()
        &&& self.buckets@.len() > 0 ==> self.active_bucket < self.buckets@.len()
        &&& self.buckets@.len() == 0 ==> self.active_bucket == 0
    }

    /// Whether a graph was loaded.
    pub open spec fn compiled(self) -> bool {
        self.active_bucket < self.buckets@.len()
    }

    /// The active graph.
    pub open spec fn active(self) -> CompiledBucket<OpenClKernelOp<E>> {
        self.buckets@[self.active_bucket as int]
    }

    /// The type under which the host tensor `id` is read, if it is.
    pub open spec fn dtype_of_input(self, id: usize) -> Option<DType> {
        input_dtype_in(self.buckets@, id, 0)
    }
}

impl<E, D> OpenClRuntime<E, D> {
    /// Create a runtime for one logical device, given what the OpenCL platforms
    /// answered. The device's position in the order of discovery comes with it.
    pub fn try_initialize(
        platforms: Result<Vec<PlatformAnswers>, String>,
        device_index: usize,
    ) -> (r: Result<(Self, usize), String>)
        ensures
            match platforms {
                Err(error) => r matches Err(message) && message@
                    == "OpenCL platform query failed: "@ + error@,
                Ok(answers) => match r {
                    Ok((runtime, device)) => {
                        &&& runtime.wf()
                        &&& runtime.buckets@.len() == 0
                        &&& runtime.dyn_dims@ == Seq::<u64>::empty()
                        &&& runtime.input_data@ == Map::<usize, D>::empty()
                        &&& runtime.input_buffers@ == Map::<usize, usize>::empty()
                        &&& runtime.device_info.index == device_index
                        &&& device < discovered(answers@).len()
                        &&& runtime.device_info@ == discovered(answers@)[device as int]
                        &&& exists|order: Seq<int>|
                            #[trigger] is_listing(discovered(answers@), order) && device_index
                                < order.len() && order[device_index as int] == device
                    },
                    Err(message) => device_index >= discovered(answers@).len() && message@
                        == "OpenCL device index "@ + decimal_text(device_index as nat)
                        + " does not exist"@,
                },
            },
    {
        broadcast use vstd::std_specs::hash::group_hash_axioms;

        let mut devices = enumerate_devices(platforms)?;
        if let Err(message) = select_device(&devices, device_index) {
            return Err(message);
        }
        let ghost listed = devices@;
        proof {
            let order = positions(listed);
            assert(is_listing(discovered(platforms->Ok_0@), order));
            assert(order[device_index as int] == listed[device_index as int].device);
        }
        let OpenClDevice { info, device } = devices.swap_remove(device_index);
        let runtime = OpenClRuntime {
            device_info: info,
            input_data: HashMap::new(),
            input_buffers: HashMap::new(),
            dyn_dims: DynDims::new(),
            buckets: Vec::new(),
            active_bucket: 0,
        };
        Ok((runtime, device))
    }

    /// The device that the runtime was created for.
    pub fn device_info(&self) -> (r: &OpenClDeviceInfo)
        ensures
            *r == self.device_info,
    {
        &self.device_info
    }

    /// The type under which the host tensor `id` is read, if it is.
    pub fn input_dtype(&self, id: usize) -> (r: Option<DType>)
        ensures
            r == self.dtype_of_input(id),
    {
        input_dtype(&self.buckets, id)
    }

    /// Keeps a host tensor. Where a loaded graph reads it, it is to be uploaded
    /// now, in the type that is returned.
    pub fn set_data(&mut self, id: usize, data: D) -> (r: Option<DType>)
        ensures
            final(self).input_data@ == old(self).input_data@.insert(id, data),
            *final(self) == (OpenClRuntime { input_data: final(self).input_data, ..*old(self) }),
            r == old(self).dtype_of_input(id),
    {
        broadcast use vstd::std_specs::hash::group_hash_axioms;

        self.input_data.insert(id, data);
        self.input_dtype(id)
    }

    /// Records the upload of a host tensor's bytes into a new buffer.
    pub fn upload_input(&mut self, id: usize, byte_count: usize) -> (r: Upload)
        ensures
            final(self).input_buffers@ == old(self).input_buffers@.insert(id, byte_count),
            *final(self) == (OpenClRuntime {
                input_buffers: final(self).input_buffers,
                ..*old(self)
            }),
            r == (Upload { allocation: allocation_for(byte_count), write: byte_count > 0 }),
    {
        broadcast use vstd::std_specs::hash::group_hash_axioms;

        self.input_buffers.insert(id, byte_count);
        Upload { allocation: allocation_bytes(byte_count), write: byte_count > 0 }
    }

    /// The host tensors to upload after graphs were loaded, with their types:
    /// those that were set and that a graph reads.
    pub fn refresh_inputs(&self) -> (r: Vec<(usize, DType)>)
        ensures
            r@.no_duplicates(),
            forall|id: usize, dtype: DType|
                #[trigger] r@.contains((id, dtype)) <==> self.input_data@.contains_key(id)
                    && self.dtype_of_input(id) == Some(dtype),
    {
        pending_inputs(&self.input_data, &self.buckets)
    }

    /// Makes the graph active that was extracted for the current values of the
    /// dynamic dimensions, and says whether there is one.
    pub fn select_bucket(&mut self, fits: &Vec<DimFit>) -> (r: bool)
        requires
            old(self).wf(),
        ensures
            final(self).wf(),
            *final(self) == (OpenClRuntime {
                active_bucket: final(self).active_bucket,
                ..*old(self)
            }),
            r ==> chosen_bucket(old(self).buckets@, fits@, Some(final(self).active_bucket)),
            !r ==> chosen_bucket(old(self).buckets@, fits@, None) && *final(self) == *old(self),
    {
        match choose_bucket(&self.buckets, fits) {
            Some(index) => {
                self.active_bucket = index;
                true
            },
            None => false,
        }
    }
}

impl<E, D> OpenClRuntime<E, D> {
    /// What is known of the device.
    pub open spec fn features(self) -> OpenClFeatures {
        OpenClFeatures { supports_fp16: self.device_info.supports_fp16 }
    }

    /// Compiles graphs in place of those that were loaded before. No dimension
    /// has a slot then, the first graph is active, and nothing is allocated for
    /// it. Where a graph cannot be compiled, nothing changes.
    pub fn load_llir_buckets(&mut self, bucket_llirs: Vec<BucketLlir<OpenClKernelOp<E>>>) -> (r:
        Result<(), LoadError<OpenClFault>>)
        requires
            old(self).wf(),
            forall|i: int| 0 <= i < bucket_llirs@.len() ==> (#[trigger] bucket_llirs@[i]).graph.wf(),
        ensures
            final(self).wf(),
            loads_to(
                bucket_llirs@,
                old(self).features(),
                match r {
                    Ok(_) => Ok(final(self).buckets@),
                    Err(error) => Err(error),
                },
            ),
            r is Err ==> *final(self) == *old(self),
            r is Ok ==> {
                &&& final(self).active_bucket == 0
                &&& final(self).dyn_dims@ == Seq::<u64>::empty()
                &&& *final(self) == (OpenClRuntime {
                    dyn_dims: final(self).dyn_dims,
                    buckets: final(self).buckets,
                    active_bucket: 0,
                    ..*old(self)
                })
            },
    {
        let features = OpenClFeatures { supports_fp16: self.device_info.supports_fp16 };
        let buckets = match compile_all(bucket_llirs, &features) {
            Ok(buckets) => buckets,
            Err(error) => return Err(error),
        };
        self.dyn_dims.clear_dyn_dims_order();
        self.buckets = buckets;
        self.active_bucket = 0;
        Ok(())
    }

    /// Compiles one graph in place of those that were loaded before.
    pub fn load_llir(&mut self, llir: BucketLlir<OpenClKernelOp<E>>) -> (r: Result<
        (),
        LoadError<OpenClFault>,
    >)
        requires
            old(self).wf(),
            llir.graph.wf(),
        ensures
            final(self).wf(),
            loads_to(
                seq![llir],
                old(self).features(),
                match r {
                    Ok(_) => Ok(final(self).buckets@),
                    Err(error) => Err(error),
                },
            ),
            r is Err ==> *final(self) == *old(self),
            r is Ok ==> {
                &&& final(self).active_bucket == 0
                &&& final(self).dyn_dims@ == Seq::<u64>::empty()
                &&& *final(self) == (OpenClRuntime {
                    dyn_dims: final(self).dyn_dims,
                    buckets: final(self).buckets,
                    active_bucket: 0,
                    ..*old(self)
                })
            },
    {
        let llirs = vec![llir];
        proof {
            assert(llirs@ == seq![llir]);
        }
        self.load_llir_buckets(llirs)
    }
}

impl<E, D> OpenClRuntime<E, D> {
    /// The numbers of elements of the active graph's results.
    pub fn result_sizes(&self) -> (r: Vec<SizeExpr<'_, E>>)
        requires
            self.wf(),
            self.compiled(),
        ensures
            r@ == Seq::new(
                self.active().steps@.len(),
                |i: int| self.active().op(i).result_size(),
            ),
    {
        let bucket = &self.buckets[self.active_bucket];
        let mut sizes: Vec<SizeExpr<'_, E>> = Vec::new();
        for i in 0..bucket.steps.len()
            invariant
                bucket.wf(),
                *bucket == self.active(),
                sizes@ == Seq::new(i as nat, |j: int| self.active().op(j).result_size()),
        {
            if let GraphNode::Op(op) = &bucket.graph.nodes[bucket.steps[i].node] {
                sizes.push(op.output_size());
            }
        }
        sizes
    }

    /// Allocates the active graph's results, given their numbers of elements. A
    /// result that already has a buffer of the right size keeps it.
    pub fn allocate_intermediates(&mut self, elements: &Vec<usize>) -> (r: Result<
        Vec<Allocation>,
        AllocateError,
    >)
        requires
            old(self).wf(),
            old(self).compiled() ==> elements@.len() == old(self).active().steps@.len(),
        ensures
            final(self).wf(),
            match r {
                Ok(allocations) => {
                    let bucket = old(self).active();
                    let steps = bucket.steps@;
                    let bytes = all_step_bytes(steps, elements@);
                    &&& old(self).compiled()
                    &&& forall|i: int|
                        0 <= i < steps.len() ==> step_bytes(#[trigger] steps[i], elements@[i])
                            <= usize::MAX
                    &&& allocations@ == allocations_for(
                        bucket.buffers@,
                        steps,
                        bytes,
                        steps.len(),
                    )
                    &&& final(self).active().buffers@ == buffers_after(
                        bucket.buffers@,
                        steps,
                        bytes,
                        steps.len(),
                    )
                    &&& final(self).active() == (CompiledBucket {
                        buffers: final(self).active().buffers,
                        ..bucket
                    })
                    &&& final(self).buckets@ == old(self).buckets@.update(
                        old(self).active_bucket as int,
                        final(self).active(),
                    )
                    &&& *final(self) == (OpenClRuntime {
                        buckets: final(self).buckets,
                        ..*old(self)
                    })
                },
                Err(AllocateError::NotCompiled) => !old(self).compiled() && *final(self) == *old(
                    self,
                ),
                Err(AllocateError::SizeOverflow(node)) => {
                    &&& old(self).compiled()
                    &&& *final(self) == *old(self)
                    &&& exists|i: int|
                        0 <= i < old(self).active().steps@.len() && step_bytes(
                            #[trigger] old(self).active().steps@[i],
                            elements@[i],
                        ) > usize::MAX && old(self).active().steps@[i].node == node && forall|
                            j: int,
                        |
                            0 <= j < i ==> step_bytes(
                                #[trigger] old(self).active().steps@[j],
                                elements@[j],
                            ) <= usize::MAX
                },
            },
    {
        if self.active_bucket >= self.buckets.len() {
            return Err(AllocateError::NotCompiled);
        }
        let active = self.active_bucket;
        let ghost steps = self.active().steps@;
        let count = self.buckets[active].steps.len();
        let mut bytes: Vec<usize> = Vec::new();
        for i in 0..count
            invariant
                *self == *old(self),
                self.wf(),
                self.compiled(),
                active == self.active_bucket,
                steps == self.active().steps@,
                count == steps.len(),
                elements@.len() == count,
                bytes@.len() == i,
                forall|j: int|
                    0 <= j < i ==> step_bytes(#[trigger] steps[j], elements@[j]) <= usize::MAX
                        && bytes@[j] == step_bytes(steps[j], elements@[j]) as usize,
        {
            let step = &self.buckets[active].steps[i];
            match elements[i].checked_mul(step.output_dtype.element_bytes()) {
                Some(size) => bytes.push(size),
                None => {
                    proof {
                        assert(step_bytes(steps[i as int], elements@[i as int]) > usize::MAX);
                    }
                    return Err(AllocateError::SizeOverflow(step.node));
                },
            }
        }
        proof {
            assert(bytes@ == all_step_bytes(steps, elements@));
        }
        let bucket = &mut self.buckets[active];
        let allocations = allocate_results(&mut bucket.buffers, &bucket.steps, &bytes);
        Ok(allocations)
    }

    /// The values to write to the buffer of dynamic dimensions.
    pub fn update_dyn_buffer(&self, dyn_map: &HashMap<u64, usize>) -> (r: Result<
        Vec<i32>,
        UnboundDim,
    >)
        ensures
            match r {
                Ok(values) => {
                    &&& forall|i: int|
                        0 <= i < self.dyn_dims@.len() ==> dyn_map@.contains_key(
                            #[trigger] self.dyn_dims@[i],
                        )
                    &&& values@ == (if self.dyn_dims@.len() == 0 {
                        seq![0i32]
                    } else {
                        Seq::new(
                            self.dyn_dims@.len(),
                            |i: int| dim_value(dyn_map@[self.dyn_dims@[i]]),
                        )
                    })
                },
                Err(unbound) => {
                    &&& unbound.slot < self.dyn_dims@.len()
                    &&& unbound.dim == self.dyn_dims@[unbound.slot as int]
                    &&& !dyn_map@.contains_key(unbound.dim)
                    &&& forall|i: int|
                        0 <= i < unbound.slot ==> dyn_map@.contains_key(
                            #[trigger] self.dyn_dims@[i],
                        )
                },
            },
    {
        self.dyn_dims.values(dyn_map)
    }

    /// The copy that carries an output over to an input buffer, without
    /// crossing the host boundary. This is useful for recurrent state such as a
    /// KV cache. Nothing is copied where the output is that very input.
    pub open spec fn copy_plan(self, output: usize, input: usize) -> Result<
        Option<BufferCopy>,
        OutputError,
    > {
        let bucket = self.active();
        let node = bucket.output_data@[output];
        let source = buffer_of(bucket, node);
        if !self.compiled() {
            Err(OutputError::NotCompiled)
        } else if !bucket.output_data@.contains_key(output) {
            Err(OutputError::NoOutput(output))
        } else if source == BufferRef::Input(input) {
            Ok(None)
        } else if !self.input_buffers@.contains_key(input) {
            Err(OutputError::InputNotSet(input))
        } else {
            let destination = allocation_for(self.input_buffers@[input]);
            match buffer_size(self.input_buffers@, bucket, source) {
                None => Err(missing_buffer(source)),
                Some(logical) => if allocation_for(logical) != destination {
                    Err(OutputError::SizeChanged { source: allocation_for(logical), destination })
                } else {
                    Ok(Some(BufferCopy { source, bytes: destination }))
                },
            }
        }
    }

    /// The copy that carries an output over to an input buffer.
    pub fn copy_output_to_input(&self, output: usize, input: usize) -> (r: Result<
        Option<BufferCopy>,
        OutputError,
    >)
        requires
            self.wf(),
        ensures
            r == self.copy_plan(output, input),
    {
        if self.active_bucket >= self.buckets.len() {
            return Err(OutputError::NotCompiled);
        }
        let bucket = &self.buckets[self.active_bucket];
        let data_node = match lookup(&bucket.output_data, output) {
            Some(node) => node,
            None => return Err(OutputError::NoOutput(output)),
        };
        let source_input = lookup(&bucket.llir_to_hlir, data_node);
        if let Some(hlir_id) = source_input {
            if hlir_id == input {
                return Ok(None);
            }
        }
        let destination = match lookup(&self.input_buffers, input) {
            Some(logical) => allocation_bytes(logical),
            None => return Err(OutputError::InputNotSet(input)),
        };
        let (source, logical) = match source_input {
            Some(hlir_id) => match lookup(&self.input_buffers, hlir_id) {
                Some(logical) => (BufferRef::Input(hlir_id), logical),
                None => return Err(OutputError::InputNotSet(hlir_id)),
            },
            None => match lookup(&bucket.buffers, data_node) {
                Some(logical) => (BufferRef::Intermediate(data_node), logical),
                None => return Err(OutputError::NotAllocated(data_node)),
            },
        };
        let source_size = allocation_bytes(logical);
        if source_size != destination {
            return Err(OutputError::SizeChanged { source: source_size, destination });
        }
        Ok(Some(BufferCopy { source, bytes: destination }))
    }

    /// Where an output is read from, how many bytes it has and their type.
    pub open spec fn read_plan(self, id: usize) -> Result<Readback, OutputError> {
        readback_of(self.input_buffers@, self.buckets@, self.active_bucket, id)
    }

    /// Where an output is read from, how many bytes it has and their type.
    pub fn read_output(&self, id: usize) -> (r: Result<Readback, OutputError>)
        ensures
            r == self.read_plan(id),
    {
        find_output(&self.input_buffers, &self.buckets, self.active_bucket, id)
    }
}

/// An argument of a launch.
#[derive(Clone, Copy, PartialEq, Eq, Structural, Debug)]
pub enum BoundArg {
    Buffer(BufferRef),
    DynDims,
    Count(u32),
}

/// A launch with the buffers that it takes.
pub struct BoundLaunch {
    /// The position of the kernel among those of the operation.
    pub kernel: usize,
    pub args: Vec<BoundArg>,
    pub work_items: usize,
}

/// A launch with the buffers that it takes, as a value.
#[verifier::ext_equal]
pub struct BoundLaunchView {
    pub kernel: usize,
    pub args: Seq<BoundArg>,
    pub work_items: usize,
}

impl View for BoundLaunch {
    type V = BoundLaunchView;

    open spec fn view(&self) -> BoundLaunchView {
        BoundLaunchView { kernel: self.kernel, args: self.args@, work_items: self.work_items }
    }
}

/// The launches, as values.
pub open spec fn bound_views(launches: Seq<BoundLaunch>) -> Seq<BoundLaunchView> {
    launches.map_values(|launch: BoundLaunch| launch@)
}

/// The argument with the buffers of a step in place of their numbers.
pub open spec fn bound_arg(inputs: Seq<BufferRef>, output: BufferRef, arg: KernelArg) -> BoundArg {
    match arg {
        KernelArg::Input(index) => BoundArg::Buffer(inputs[index as int]),
        KernelArg::Output => BoundArg::Buffer(output),
        KernelArg::DynDims => BoundArg::DynDims,
        KernelArg::Count(n) => BoundArg::Count(n),
    }
}

/// Whether the launch names no argument beyond the first `count`.
pub open spec fn reads_only(launch: LaunchView, count: nat) -> bool {
    forall|a: int|
        0 <= a < launch.args.len() ==> (#[trigger] launch.args[a] matches KernelArg::Input(index)
            ==> index < count)
}

/// The launch with the buffers of a step in place of their numbers.
pub open spec fn bound_launch(
    inputs: Seq<BufferRef>,
    output: BufferRef,
    launch: LaunchView,
) -> BoundLaunchView {
    BoundLaunchView {
        kernel: launch.kernel,
        args: launch.args.map_values(|arg: KernelArg| bound_arg(inputs, output, arg)),
        work_items: launch.work_items,
    }
}

impl<E, D> OpenClRuntime<E, D> {
    /// The launches of a step of the active graph, given the numbers of
    /// elements that they need, or why it cannot be run.
    pub open spec fn step_plan(self, step: int, counts: Seq<usize>) -> Result<
        Seq<BoundLaunchView>,
        ExecuteError,
    > {
        let bucket = self.active();
        let nodes = bucket.steps@[step].input_nodes@;
        let node = bucket.steps@[step].node;
        let launches = bucket.op(step).launch_plan(counts);
        match first_missing(self.input_buffers@, bucket, nodes) {
            Some(error) => Err(error),
            None => if !bucket.buffers@.contains_key(node) {
                Err(ExecuteError::MissingOutput(node))
            } else if !(forall|l: int|
                0 <= l < launches.len() ==> reads_only(#[trigger] launches[l], nodes.len())) {
                Err(ExecuteError::MissingArgument(node))
            } else {
                Ok(
                    launches.map_values(
                        |launch: LaunchView|
                            bound_launch(
                                buffers_of(bucket, nodes),
                                BufferRef::Intermediate(node),
                                launch,
                            ),
                    ),
                )
            },
        }
    }

    /// The expressions whose texts the program of a step of a graph needs.
    pub fn step_exprs(&self, bucket: usize, step: usize) -> (r: Vec<IndexExpr<'_, E>>)
        requires
            self.wf(),
            bucket < self.buckets@.len(),
            step < self.buckets@[bucket as int].steps@.len(),
        ensures
            r@ == self.buckets@[bucket as int].op(step as int).needed_exprs(),
    {
        let compiled = &self.buckets[bucket];
        match &compiled.graph.nodes[compiled.steps[step].node] {
            GraphNode::Op(op) => op.index_exprs(),
            _ => Vec::new(),
        }
    }

    /// The program of a step of a graph, given the texts of its expressions: it
    /// reads and writes elements of the types that compilation found.
    pub fn step_program(&self, bucket: usize, step: usize, lowered: &Vec<String>) -> (r: Result<
        KernelSource,
        KernelError,
    >)
        requires
            self.wf(),
            bucket < self.buckets@.len(),
            step < self.buckets@[bucket as int].steps@.len(),
            lowered@.len() == self.buckets@[bucket as int].op(step as int).needed_exprs().len(),
        ensures
            ({
                let compiled = self.buckets@[bucket as int];
                let op = compiled.op(step as int);
                let types = compiled.steps@[step as int];
                match r {
                    Ok(source) => {
                        &&& op.kernel_error(types.input_dtypes@, types.output_dtype) is None
                        &&& source.text@ == op.program(
                            types.input_dtypes@,
                            types.output_dtype,
                            owned_texts(lowered@),
                        )
                        &&& texts(source.names@) == op.kernel_names()
                    },
                    Err(error) => op.kernel_error(types.input_dtypes@, types.output_dtype) == Some(
                        error,
                    ),
                }
            }),
    {
        let compiled = &self.buckets[bucket];
        let types = &compiled.steps[step];
        match &compiled.graph.nodes[types.node] {
            GraphNode::Op(op) => op.compile(&types.input_dtypes, types.output_dtype, lowered),
            _ => vstd::pervasive::unreached(),
        }
    }

    /// The numbers of elements that the launches of a step need.
    pub fn step_counts(&self, step: usize) -> (r: Vec<SizeExpr<'_, E>>)
        requires
            self.wf(),
            self.compiled(),
            step < self.active().steps@.len(),
        ensures
            r@ == self.active().op(step as int).needed_counts(),
    {
        let bucket = &self.buckets[self.active_bucket];
        match &bucket.graph.nodes[bucket.steps[step].node] {
            GraphNode::Op(op) => op.launch_counts(),
            _ => Vec::new(),
        }
    }

    /// The launches of a step of the active graph, given the numbers of
    /// elements that they need.
    pub fn plan_step(&self, step: usize, counts: &Vec<usize>) -> (r: Result<
        Vec<BoundLaunch>,
        ExecuteError,
    >)
        requires
            self.wf(),
            self.compiled(),
            step < self.active().steps@.len(),
            counts@.len() == self.active().op(step as int).needed_counts().len(),
        ensures
            match r {
                Ok(launches) => self.step_plan(step as int, counts@) == Ok::<
                    Seq<BoundLaunchView>,
                    ExecuteError,
                >(bound_views(launches@)),
                Err(error) => self.step_plan(step as int, counts@) == Err::<
                    Seq<BoundLaunchView>,
                    ExecuteError,
                >(error),
            },
    {
        let bucket = &self.buckets[self.active_bucket];
        let inputs = step_inputs(&self.input_buffers, bucket, &bucket.steps[step].input_nodes)?;
        let node = bucket.steps[step].node;
        if lookup(&bucket.buffers, node).is_none() {
            return Err(ExecuteError::MissingOutput(node));
        }
        let output = BufferRef::Intermediate(node);
        let launches = match &bucket.graph.nodes[node] {
            GraphNode::Op(op) => op.launches(counts),
            _ => Vec::new(),
        };
        let ghost plan = bucket.op(step as int).launch_plan(counts@);
        proof {
            assert(launch_views(launches@) == plan);
        }
        let mut bound: Vec<BoundLaunch> = Vec::new();
        for i in 0..launches.len()
            invariant
                *bucket == self.active(),
                node == bucket.steps@[step as int].node,
                output == BufferRef::Intermediate(node),
                bucket.buffers@.contains_key(node),
                first_missing(
                    self.input_buffers@,
                    *bucket,
                    bucket.steps@[step as int].input_nodes@,
                ) is None,
                inputs@ == buffers_of(*bucket, bucket.steps@[step as int].input_nodes@),
                plan == bucket.op(step as int).launch_plan(counts@),
                launch_views(launches@) == plan,
                forall|l: int| 0 <= l < i ==> reads_only(#[trigger] plan[l], inputs@.len()),
                bound_views(bound@) == plan.take(i as int).map_values(
                    |launch: LaunchView| bound_launch(inputs@, output, launch),
                ),
        {
            proof {
                assert(plan.take(i + 1) == plan.take(i as int).push(plan[i as int]));
                assert(launch_views(launches@)[i as int] == launches@[i as int]@);
            }
            match bind(&launches[i], &inputs, output) {
                Some(launch) => {
                    let ghost before = bound@;
                    bound.push(launch);
                    proof {
                        assert(bound_views(bound@) == bound_views(before).push(launch@));
                    }
                },
                None => {
                    proof {
                        assert(!reads_only(plan[i as int], inputs@.len()));
                    }
                    return Err(ExecuteError::MissingArgument(node));
                },
            }
        }
        proof {
            assert(plan.take(plan.len() as int) == plan);
        }
        Ok(bound)
    }

    /// The launches of all steps of the active graph, in order, given the
    /// numbers of elements that they need.
    pub fn execute(&self, counts: &Vec<Vec<usize>>) -> (r: Result<
        Vec<Vec<BoundLaunch>>,
        ExecuteError,
    >)
        requires
            self.wf(),
            self.compiled() ==> counts@.len() == self.active().steps@.len(),
            self.compiled() ==> forall|i: int|
                0 <= i < counts@.len() ==> (#[trigger] counts@[i])@.len() == self.active().op(
                    i,
                ).needed_counts().len(),
        ensures
            match r {
                Ok(plans) => {
                    &&& self.compiled()
                    &&& plans@.len() == self.active().steps@.len()
                    &&& forall|i: int|
                        0 <= i < plans@.len() ==> self.step_plan(i, counts@[i]@) == Ok::<
                            Seq<BoundLaunchView>,
                            ExecuteError,
                        >(bound_views((#[trigger] plans@[i])@))
                },
                Err(error) => if !self.compiled() {
                    error == ExecuteError::NotCompiled
                } else {
                    exists|i: int|
                        0 <= i < self.active().steps@.len() && self.step_plan(
                            i,
                            (#[trigger] counts@[i])@,
                        ) == Err::<Seq<BoundLaunchView>, ExecuteError>(error) && forall|j: int|
                            0 <= j < i ==> self.step_plan(j, (#[trigger] counts@[j])@) is Ok
                },
            },
    {
        if self.active_bucket >= self.buckets.len() {
            return Err(ExecuteError::NotCompiled);
        }
        let count = self.buckets[self.active_bucket].steps.len();
        let mut plans: Vec<Vec<BoundLaunch>> = Vec::new();
        for i in 0..count
            invariant
                self.wf(),
                self.compiled(),
                count == self.active().steps@.len(),
                counts@.len() == count,
                forall|j: int|
                    0 <= j < counts@.len() ==> (#[trigger] counts@[j])@.len() == self.active().op(
                        j,
                    ).needed_counts().len(),
                plans@.len() == i,
                forall|j: int|
                    0 <= j < plans@.len() ==> self.step_plan(j, counts@[j]@) == Ok::<
                        Seq<BoundLaunchView>,
                        ExecuteError,
                    >(bound_views((#[trigger] plans@[j])@)),
        {
            match self.plan_step(i, &counts[i]) {
                Ok(launches) => plans.push(launches),
                Err(error) => {
                    proof {
                        assert forall|j: int| 0 <= j < i implies self.step_plan(
                            j,
                            (#[trigger] counts@[j])@,
                        ) is Ok by {
                            assert(self.step_plan(j, counts@[j]@) == Ok::<
                                Seq<BoundLaunchView>,
                                ExecuteError,
                            >(bound_views(plans@[j]@)));
                        }
                    }
                    return Err(error);
                },
            }
        }
        Ok(plans)
    }
}

fn bind(launch: &Launch, inputs: &Vec<BufferRef>, output: BufferRef) -> (r: Option<BoundLaunch>)
    ensures
        match r {
            Some(bound) => reads_only(launch@, inputs@.len()) && bound@ == bound_launch(
                inputs@,
                output,
                launch@,
            ),
            None => !reads_only(launch@, inputs@.len()),
        },
{
    let mut args: Vec<BoundArg> = Vec::new();
    for a in 0..launch.args.len()
        invariant
            forall|b: int|
                0 <= b < a ==> (#[trigger] launch@.args[b] matches KernelArg::Input(index)
                    ==> index < inputs@.len()),
            args@ == launch@.args.take(a as int).map_values(
                |arg: KernelArg| bound_arg(inputs@, output, arg),
            ),
    {
        proof {
            assert(launch@.args.take(a + 1) == launch@.args.take(a as int).push(
                launch@.args[a as int],
            ));
        }
        match launch.args[a] {
            KernelArg::Input(index) => {
                if index >= inputs.len() {
                    proof {
                        assert(launch@.args[a as int] == KernelArg::Input(index));
                    }
                    return None;
                }
                args.push(BoundArg::Buffer(inputs[index]));
            },
            KernelArg::Output => args.push(BoundArg::Buffer(output)),
            KernelArg::DynDims => args.push(BoundArg::DynDims),
            KernelArg::Count(n) => args.push(BoundArg::Count(n)),
        }
    }
    proof {
        assert(launch@.args.take(launch@.args.len() as int) == launch@.args);
    }
    Some(BoundLaunch { kernel: launch.kernel, args, work_items: launch.work_items })
}

/// Once every input of a compiled graph is uploaded and its results are
/// allocated, every step can be run, if it has the arguments that it reads.
pub proof fn law_prepared_graph_runs<E, D>(
    runtime: OpenClRuntime<E, D>,
    llir: BucketLlir<OpenClKernelOp<E>>,
    compiled: CompiledBucket<OpenClKernelOp<E>>,
    step: int,
    counts: Seq<usize>,
)
    requires
        runtime.compiled(),
        llir.graph.wf(),
        compiles_to(llir, runtime.features(), Ok(compiled)),
        runtime.active() == (CompiledBucket { buffers: runtime.active().buffers, ..compiled }),
        forall|i: int|
            0 <= i < compiled.steps@.len() ==> runtime.active().buffers@.contains_key(
                (#[trigger] compiled.steps@[i]).node,
            ),
        forall|node: usize| #[trigger]
            llir.graph.hlir_inputs().contains_key(node) ==> runtime.input_buffers@.contains_key(
                llir.graph.hlir_inputs()[node],
            ),
        0 <= step < compiled.steps@.len(),
        counts.len() == compiled.op(step).needed_counts().len(),
        compiled.op(step).arity() <= compiled.steps@[step].input_nodes@.len(),
    ensures
        runtime.step_plan(step, counts) is Ok,
{
    let bucket = runtime.active();
    let inputs = runtime.input_buffers@;
    let order = llir.graph.order()->Some_0;
    let steps = llir.graph.steps_before(order, order.len());
    let nodes = bucket.steps@[step].input_nodes@;
    assert(step_views(compiled.steps@) == steps);
    assert(step_views(compiled.steps@)[step] == compiled.steps@[step]@);
    assert forall|k: int| 0 <= k < nodes.len() implies buffer_size(
        inputs,
        bucket,
        buffer_of(bucket, #[trigger] nodes[k]),
    ) is Some by {
        assert(steps[step].input_nodes[k] == nodes[k]);
        law_steps_read_what_is_there(
            llir.graph,
            order,
            runtime.features(),
            step,
            k,
        );
        if !llir.graph.hlir_inputs().contains_key(nodes[k]) {
            let j = choose|j: int| 0 <= j < step && (#[trigger] steps[j]).node == nodes[k];
            assert(step_views(compiled.steps@)[j] == compiled.steps@[j]@);
            assert(runtime.active().buffers@.contains_key(compiled.steps@[j].node));
        }
    }
    lemma_nothing_missing(inputs, bucket, nodes);
    let launches = bucket.op(step).launch_plan(counts);
    assert forall|l: int| 0 <= l < launches.len() implies reads_only(
        #[trigger] launches[l],
        nodes.len(),
    ) by {
        law_launches_fit_the_program(bucket.op(step), counts, l);
        assert forall|a: int| 0 <= a < launches[l].args.len() implies (
        #[trigger] launches[l].args[a] matches KernelArg::Input(index) ==> index < nodes.len()) by {
            let arg = bucket.op(step).launch_plan(counts)[l].args[a];
        }
    }
}

/// Carrying an output over to an input copies the whole of the output's buffer,
/// and only into an input buffer of the same size: nothing is cut off and nothing
/// is left over. Nothing is copied only where the output is that very input.
pub proof fn law_outputs_are_carried_over_whole<E, D>(
    runtime: OpenClRuntime<E, D>,
    output: usize,
    input: usize,
    r: Result<Option<BufferCopy>, OutputError>,
)
    requires
        runtime.compiled(),
        runtime.active().output_data@.contains_key(output),
        call_ensures(
            OpenClRuntime::<E, D>::copy_output_to_input,
            (&runtime, output, input),
            r,
        ),
    ensures
        ({
            let bucket = runtime.active();
            let inputs = runtime.input_buffers@;
            let from = home(bucket, bucket.output_data@[output]);
            let size = match from {
                BufferRef::Input(hlir) => inputs[hlir],
                BufferRef::Intermediate(node) => bucket.buffers@[node],
            };
            let there = is_there(inputs, bucket, from) && inputs.contains_key(input);
            match r {
                Ok(Some(copy)) => there && copy.source == from && from != BufferRef::Input(input)
                    && copy.bytes >= 1 && (size > 0 ==> copy.bytes == size) && (inputs[input] > 0
                    ==> copy.bytes == inputs[input]),
                Ok(None) => from == BufferRef::Input(input),
                Err(OutputError::SizeChanged { source, destination }) => there && source
                    != destination && size != inputs[input],
                Err(OutputError::InputNotSet(id)) => !inputs.contains_key(id) && (id == input
                    || from == BufferRef::Input(id)),
                Err(OutputError::NotAllocated(node)) => from == BufferRef::Intermediate(node)
                    && !bucket.buffers@.contains_key(node),
                Err(_) => false,
            }
        }),
{
}

/// The number of bytes that this many elements of a type take on the device.
pub open spec fn bytes_of_elements(dtype: DType, elements: int) -> int {
    match dtype {
        DType::F32 | DType::Int => 4 * elements,
        DType::F16 => 2 * elements,
        DType::Bool | DType::I8 => elements,
        DType::Other => 0,
    }
}

/// Allocating gives the result of every step of the active graph a buffer of as many
/// bytes as its elements take, and changes nothing else; it is refused only where
/// that is more than can be addressed, and then changes nothing.
pub proof fn law_results_take_their_elements_bytes<E, D>(
    runtime: &mut OpenClRuntime<E, D>,
    elements: Vec<usize>,
    r: Result<Vec<Allocation>, AllocateError>,
    i: int,
)
    requires
        old(runtime).wf(),
        old(runtime).compiled(),
        0 <= i < old(runtime).active().steps@.len() == elements@.len(),
        call_ensures(OpenClRuntime::<E, D>::allocate_intermediates, (runtime, &elements), r),
    ensures
        ({
            let step = old(runtime).active().steps@[i];
            let before = old(runtime).active().buffers@;
            match r {
                Ok(made) => {
                    let after = final(runtime).active().buffers@;
                    let bytes = bytes_of_elements(step.output_dtype, elements@[i] as int);
                    let kept = before.contains_key(step.node) && before[step.node] == bytes;
                    &&& after.contains_key(step.node) && after[step.node] == bytes
                    &&& kept <==> forall|a: int|
                        0 <= a < made@.len() ==> (#[trigger] made@[a]).node != step.node
                    &&& final(runtime).active().steps == old(runtime).active().steps
                    &&& final(runtime).active().graph == old(runtime).active().graph
                    &&& final(runtime).input_buffers == old(runtime).input_buffers
                    &&& final(runtime).input_data == old(runtime).input_data
                },
                Err(AllocateError::NotCompiled) => false,
                Err(AllocateError::SizeOverflow(node)) => *final(runtime) == *old(runtime) && exists|
                    j: int,
                |
                    0 <= j < elements@.len() && bytes_of_elements(
                        old(runtime).active().steps@[j].output_dtype,
                        #[trigger] elements@[j] as int,
                    ) > usize::MAX && old(runtime).active().steps@[j].node == node,
            }
        }),
{
    let steps = old(runtime).active().steps@;
    if r is Ok {
        assert(old(runtime).active().wf());
        assert(step_bytes(steps[i], elements@[i]) <= usize::MAX);
        law_results_have_room(old(runtime).active(), all_step_bytes(steps, elements@), i);
        lemma_step_bytes(steps[i], elements@[i]);
    }
    if let Err(AllocateError::SizeOverflow(node)) = r {
        let j = choose|j: int|
            0 <= j < steps.len() && step_bytes(#[trigger] steps[j], elements@[j]) > usize::MAX
                && steps[j].node == node;
        assert(step_bytes(steps[j], elements@[j]) > usize::MAX);
        lemma_step_bytes(steps[j], elements@[j]);
    }
}

proof fn lemma_step_bytes(step: ExecutionStep, elements: usize)
    ensures
        step_bytes(step, elements) == bytes_of_elements(step.output_dtype, elements as int),
{
    let width = step.output_dtype.width();
    match step.output_dtype {
        DType::F32 | DType::Int => assert(width == 4),
        DType::F16 => assert(width == 2),
        DType::Bool | DType::I8 => assert(width == 1),
        DType::Other => assert(width == 0),
    }
}

/// A host tensor that was set is uploaded exactly where a loaded graph reads it, in
/// the type that an input of the graph declares.
pub proof fn law_set_tensors_are_uploaded<E, D>(
    runtime: OpenClRuntime<E, D>,
    r: Vec<(usize, DType)>,
    id: usize,
)
    requires
        call_ensures(OpenClRuntime::<E, D>::refresh_inputs, (&runtime,), r),
    ensures
        (exists|k: int| 0 <= k < r@.len() && (#[trigger] r@[k]).0 == id)
            <==> runtime.input_data@.contains_key(id) && is_read(runtime.buckets@, id),
        forall|k: int|
            0 <= k < r@.len() ==> is_declared(
                runtime.buckets@,
                (#[trigger] r@[k]).0,
                r@[k].1,
            ),
{
    lemma_pending_is_read(runtime.input_data@, runtime.buckets@, r@, id);
}

/// The graph that is made active was compiled for ranges that hold the values of all
/// dimensions, and is the first such; where there is none, nothing changes. A single
/// graph is active whatever the values.
pub proof fn law_active_graph_fits<E, D>(
    runtime: &mut OpenClRuntime<E, D>,
    fits: Vec<DimFit>,
    r: bool,
)
    requires
        old(runtime).wf(),
        old(runtime).buckets@.len() > 0,
        call_ensures(OpenClRuntime::<E, D>::select_bucket, (runtime, &fits), r),
    ensures
        ({
            let buckets = old(runtime).buckets@;
            &&& final(runtime).buckets == old(runtime).buckets
            &&& r && buckets.len() > 1 ==> holds_values(fits@, final(runtime).active())
            &&& r ==> forall|i: int|
                0 <= i < buckets.len() && holds_values(fits@, #[trigger] buckets[i])
                    ==> final(runtime).active_bucket <= i
            &&& !r ==> *final(runtime) == *old(runtime) && buckets.len() > 1 && forall|i: int|
                0 <= i < buckets.len() ==> !holds_values(fits@, #[trigger] buckets[i])
        }),
{
    let chosen = if r {
        Some(final(runtime).active_bucket)
    } else {
        None
    };
    lemma_chosen_fits(old(runtime).buckets@, fits@, chosen);
}

/// A runtime is created for the GPU that is listed under the index that was asked
/// for, and for every index of the list.
pub proof fn law_runtime_is_for_the_listed_gpu<E, D>(
    platforms: Vec<PlatformAnswers>,
    infos: Vec<OpenClDeviceInfo>,
    index: usize,
    r: Result<(OpenClRuntime<E, D>, usize), String>,
)
    requires
        call_ensures(available_devices, (Ok(platforms),), Ok(infos)),
        call_ensures(OpenClRuntime::<E, D>::try_initialize, (Ok(platforms), index), r),
    ensures
        r is Ok <==> index < infos@.len(),
        r matches Ok((runtime, _)) ==> {
            &&& runtime.device_info@ == infos@[index as int]@
            &&& runtime.device_info.index == infos@[index as int].index
            &&& !runtime.compiled()
            &&& runtime.input_data@ == Map::<usize, D>::empty()
        },
{
    let devices = discovered(platforms@);
    let listing = choose|order: Seq<int>|
        #[trigger] is_listing(devices, order) && infos@.len() == order.len() && forall|k: int|
            0 <= k < infos@.len() ==> (#[trigger] infos@[k]).index == k && infos@[k]@
                == devices[order[k]];
    if let Ok((runtime, device)) = r {
        let order = choose|order: Seq<int>|
            #[trigger] is_listing(devices, order) && index < order.len() && order[index as int]
                == device;
        law_listing_is_unique(devices, listing, order);
        assert(infos@[index as int].index == index);
    }
}

/// Loading takes the graphs that are given, in the order in which they are given, and
/// makes the first active; tensors that were set and uploaded stay. Where a graph is
/// refused, nothing changes.
pub proof fn law_loading_replaces_the_graphs<E, D>(
    runtime: &mut OpenClRuntime<E, D>,
    llirs: Vec<BucketLlir<OpenClKernelOp<E>>>,
    r: Result<(), LoadError<OpenClFault>>,
    i: int,
)
    requires
        0 <= i < llirs@.len(),
        call_ensures(OpenClRuntime::<E, D>::load_llir_buckets, (runtime, llirs), r),
    ensures
        r is Ok ==> {
            &&& final(runtime).buckets@.len() == llirs@.len()
            &&& final(runtime).buckets@[i].graph == llirs@[i].graph
            &&& final(runtime).buckets@[i].bucket_indices == llirs@[i].indices
            &&& final(runtime).buckets@[i].buffers@ == Map::<usize, usize>::empty()
            &&& final(runtime).active_bucket == 0
            &&& final(runtime).dyn_dims@.len() == 0
            &&& final(runtime).input_data == old(runtime).input_data
            &&& final(runtime).input_buffers == old(runtime).input_buffers
            &&& final(runtime).device_info == old(runtime).device_info
        },
        r is Err ==> *final(runtime) == *old(runtime),
{
    if r is Ok {
        assert(compiles_to(llirs@[i], old(runtime).features(), Ok(final(runtime).buckets@[i])));
    }
}

/// The values that are written for the kernels are those of the dimensions that have
/// slots: each slot holds what its dimension is bound to, for every value that 32 bits
/// hold. They are refused only where a dimension is unbound.
pub proof fn law_kernels_get_the_values<E, D>(
    runtime: OpenClRuntime<E, D>,
    dyn_map: HashMap<u64, usize>,
    r: Result<Vec<i32>, UnboundDim>,
    slot: int,
)
    requires
        0 <= slot < runtime.dyn_dims@.len(),
        call_ensures(OpenClRuntime::<E, D>::update_dyn_buffer, (&runtime, &dyn_map), r),
    ensures
        match r {
            Ok(values) => {
                &&& values@.len() == runtime.dyn_dims@.len()
                &&& dyn_map@.contains_key(runtime.dyn_dims@[slot])
                &&& dyn_map@[runtime.dyn_dims@[slot]] < 0x8000_0000 ==> values@[slot]
                    == dyn_map@[runtime.dyn_dims@[slot]]
            },
            Err(unbound) => runtime.dyn_dims@[unbound.slot as int] == unbound.dim
                && !dyn_map@.contains_key(unbound.dim),
        },
{
}

/// Every step of a graph is handled as the operation of its node: its expressions,
/// its numbers of elements, its program and the size of its result are those of that
/// operation, for the types that compilation found.
pub proof fn law_steps_are_handled_as_their_operations<'a, E, D>(
    runtime: &'a OpenClRuntime<E, D>,
    step: usize,
    op: &'a OpenClKernelOp<E>,
    lowered: Vec<String>,
    exprs: Vec<IndexExpr<'a, E>>,
    op_exprs: Vec<IndexExpr<'a, E>>,
    counts: Vec<SizeExpr<'a, E>>,
    op_counts: Vec<SizeExpr<'a, E>>,
    sizes: Vec<SizeExpr<'a, E>>,
    op_size: SizeExpr<'a, E>,
    source: KernelSource,
    op_source: KernelSource,
)
    requires
        runtime.compiled(),
        step < runtime.active().steps@.len(),
        runtime.active().graph.nodes@[runtime.active().steps@[step as int].node as int]
            == GraphNode::Op(*op),
        call_ensures(
            OpenClRuntime::<E, D>::step_exprs,
            (runtime, runtime.active_bucket, step),
            exprs,
        ),
        call_ensures(OpenClKernelOp::<E>::index_exprs, (op,), op_exprs),
        call_ensures(OpenClRuntime::<E, D>::step_counts, (runtime, step), counts),
        call_ensures(OpenClKernelOp::<E>::launch_counts, (op,), op_counts),
        call_ensures(OpenClRuntime::<E, D>::result_sizes, (runtime,), sizes),
        call_ensures(OpenClKernelOp::<E>::output_size, (op,), op_size),
        call_ensures(
            OpenClRuntime::<E, D>::step_program,
            (runtime, runtime.active_bucket, step, &lowered),
            Ok(source),
        ),
        call_ensures(
            OpenClKernelOp::<E>::compile,
            (
                op,
                &runtime.active().steps@[step as int].input_dtypes,
                runtime.active().steps@[step as int].output_dtype,
                &lowered,
            ),
            Ok(op_source),
        ),
    ensures
        exprs@ == op_exprs@,
        counts@ == op_counts@,
        sizes@.len() == runtime.active().steps@.len(),
        sizes@[step as int] == op_size,
        source.text@ == op_source.text@,
        texts(source.names@) == texts(op_source.names@),
{
}

} // verus!
