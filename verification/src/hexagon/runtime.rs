//! The Hexagon runtime's bookkeeping.
//!
//! The runtime knows which shared buffers exist and how large they are, what
//! each step computes and where outputs come from. It says what to allocate,
//! free, copy and dispatch; the buffers and the FastRPC session are the host's.

use std::collections::HashMap;

use vstd::prelude::*;
use vstd::std_specs::cmp::PartialEqSpec;

use crate::buckets::DimFit;
use crate::bytes::{
    as_signed, as_word, decode_words, law_words_survive_encoding, native_words, signed,
};
use crate::data::HostData;
use crate::dtype::DType;
use crate::execution::{
    holds_values, is_declared, is_read, is_there, law_results_have_room, lemma_chosen_fits,
    lemma_pending_is_read,
};
use crate::graph::GraphNode;
use crate::hexagon::kernel::{
    HexagonDispatch, HexagonFault, HexagonKernelOp, HexagonSize, HexagonV73,
};
use crate::maps::{keys_of, lookup};
use crate::program::{
    allocate_results, allocations_for, buffer_of, buffer_size, buffers_after,
    choose_bucket, chosen_bucket, compile_all, compiles_to, find_output,
    first_missing, home, input_dtype, input_dtype_in, law_steps_read_what_is_there,
    lemma_nothing_missing, lemma_op_positions, loads_to, missing_buffer, op_positions,
    pending_inputs, readback_of, step_inputs, step_views, Allocation, BucketLlir, BufferRef,
    CompiledBucket, ExecuteError, GraphOp, LoadError, OutputError, Readback,
};

verus! {

/// The bookkeeping of a Hexagon runtime, for symbolic expressions `E` and host
/// tensors `D`.
pub struct HexagonRuntime<E, D> {
    /// The host tensors that were set, by number.
    pub input_data: HashMap<usize, D>,
    /// The logical size in bytes of each uploaded host tensor.
    pub input_buffers: HashMap<usize, usize>,
    pub buckets: Vec<CompiledBucket<HexagonKernelOp<E>>>,
    pub active_bucket: usize,
}

/// What is done for a host tensor that is uploaded.
#[derive(Clone, Copy, PartialEq, Eq, Structural, Debug)]
pub struct HexagonUpload {
    /// Whether the buffer that the tensor has is freed.
    pub frees: bool,
    /// Whether a new buffer is allocated.
    pub allocates: bool,
    /// Whether there are bytes to write.
    pub writes: bool,
}

/// A buffer that is freed.
#[derive(Clone, Copy, PartialEq, Eq, Structural, Debug)]
pub enum FreedBuffer {
    /// That of the host tensor with this number.
    Input(usize),
    /// That of the result of a node of a graph.
    Result { bucket: usize, node: usize },
}

/// The copy of an output to an input buffer.
#[derive(Clone, Copy, PartialEq, Eq, Structural, Debug)]
pub struct HexagonCopy {
    pub source: BufferRef,
    pub bytes: usize,
}

/// A call of the DSP.
pub struct HexagonCall<E> {
    pub dispatch: HexagonDispatch<E>,
    /// The number of elements of the result.
    pub elements: usize,
    pub a: BufferRef,
    pub b: BufferRef,
    pub output: BufferRef,
}

/// Why a host tensor or an output has no bytes in the storage type.
#[derive(Clone, Copy, PartialEq, Eq, Structural, Debug)]
pub enum HexagonReadError {
    /// There is nothing to read.
    Output(OutputError),
    /// The output has another type than the one asked for.
    WrongType(DType),
    /// The bytes are no whole number of elements.
    Misaligned,
}

/// Whether host tensors of this type can be uploaded.
pub open spec fn uploadable(dtype: DType) -> bool {
    dtype is F32 || dtype is I8 || dtype is Int
}

/// The bytes to upload for a host tensor, or the type that cannot be uploaded.
pub fn reference_bytes(data: &HostData, dtype: DType) -> (r: Result<Vec<u8>, DType>)
    requires
        uploadable(dtype) ==> data.element_type() == dtype,
    ensures
        match r {
            Ok(bytes) => uploadable(dtype) && bytes@ == data.stored(),
            Err(unsupported) => !uploadable(dtype) && unsupported == dtype,
        },
{
    match dtype {
        DType::F32 | DType::I8 | DType::Int => Ok(data.stored_bytes()),
        unsupported => Err(unsupported),
    }
}

/// The bytes of a result of this many four-byte elements, as far as they can be
/// counted.
pub open spec fn result_bytes(elements: usize) -> usize {
    if elements * 4 > usize::MAX {
        usize::MAX
    } else {
        (elements * 4) as usize
    }
}

/// The bytes of all results.
pub open spec fn all_result_bytes(elements: Seq<usize>) -> Seq<usize> {
    elements.map_values(|n: usize| result_bytes(n))
}

/// The buffers of the first `count` graphs.
pub open spec fn is_allocated<E>(
    buckets: Seq<CompiledBucket<HexagonKernelOp<E>>>,
    count: int,
    buffer: FreedBuffer,
) -> bool {
    buffer matches FreedBuffer::Result { bucket, node } && bucket < count
        && buckets[bucket as int].buffers@.contains_key(node)
}

impl<E: Copy + PartialEq, D> HexagonRuntime<E, D> {
    /// The compiled graphs are well formed and the active one exists, if any.
    pub open spec fn wf(self) -> bool {
        &&& forall|i: int| 0 <= i < self.buckets@.len() ==> (#[trigger] self.buckets@[i]).wf()
        &&& self.buckets@.len() > 0 ==> self.active_bucket < self.buckets@.len()
        &&& self.buckets@.len() == 0 ==> self.active_bucket == 0
    }

    /// Whether a graph was loaded.
    pub open spec fn compiled(self) -> bool {
        self.active_bucket < self.buckets@.len()
    }

    /// The active graph.
    pub open spec fn active(self) -> CompiledBucket<HexagonKernelOp<E>> {
        self.buckets@[self.active_bucket as int]
    }

    /// Whether a buffer exists.
    pub open spec fn holds_buffer(self, buffer: FreedBuffer) -> bool {
        match buffer {
            FreedBuffer::Input(id) => self.input_buffers@.contains_key(id),
            FreedBuffer::Result { .. } => is_allocated(
                self.buckets@,
                self.buckets@.len() as int,
                buffer,
            ),
        }
    }

    /// A runtime without tensors or graphs.
    pub fn new() -> (r: Self)
        ensures
            r.wf(),
            r.buckets@.len() == 0,
            r.input_data@ == Map::<usize, D>::empty(),
            r.input_buffers@ == Map::<usize, usize>::empty(),
    {
        broadcast use vstd::std_specs::hash::group_hash_axioms;

        HexagonRuntime {
            input_data: HashMap::new(),
            input_buffers: HashMap::new(),
            buckets: Vec::new(),
            active_bucket: 0,
        }
    }

    /// Keeps a host tensor. Where a loaded graph reads it, it is to be uploaded
    /// now, in the type that is returned.
    pub fn set_data(&mut self, id: usize, data: D) -> (r: Option<DType>)
        ensures
            final(self).input_data@ == old(self).input_data@.insert(id, data),
            *final(self) == (HexagonRuntime { input_data: final(self).input_data, ..*old(self) }),
            r == input_dtype_in(old(self).buckets@, id, 0),
    {
        broadcast use vstd::std_specs::hash::group_hash_axioms;

        self.input_data.insert(id, data);
        input_dtype(&self.buckets, id)
    }

    /// The type under which the host tensor `id` is read, if it is.
    pub fn input_dtype(&self, id: usize) -> (r: Option<DType>)
        ensures
            r == input_dtype_in(self.buckets@, id, 0),
    {
        input_dtype(&self.buckets, id)
    }

    /// Records the upload of a host tensor's bytes. A buffer of the right size
    /// is written again; one of another size is freed and replaced.
    pub fn upload_input(&mut self, id: usize, byte_count: usize) -> (r: HexagonUpload)
        ensures
            final(self).input_buffers@ == old(self).input_buffers@.insert(id, byte_count),
            *final(self) == (HexagonRuntime {
                input_buffers: final(self).input_buffers,
                ..*old(self)
            }),
            r.allocates <==> !(old(self).input_buffers@.contains_key(id)
                && old(self).input_buffers@[id] == byte_count),
            r.frees <==> r.allocates && old(self).input_buffers@.contains_key(id),
            r.writes <==> byte_count > 0,
    {
        broadcast use vstd::std_specs::hash::group_hash_axioms;

        let known = lookup(&self.input_buffers, id);
        let allocates = known != Some(byte_count);
        self.input_buffers.insert(id, byte_count);
        HexagonUpload {
            frees: allocates && known.is_some(),
            allocates,
            writes: byte_count > 0,
        }
    }

    /// The host tensors to upload after graphs were loaded, with their types:
    /// those that were set and that a graph reads.
    pub fn refresh_inputs(&self) -> (r: Vec<(usize, DType)>)
        ensures
            r@.no_duplicates(),
            forall|id: usize, dtype: DType| #[trigger]
                r@.contains((id, dtype)) <==> self.input_data@.contains_key(id) && input_dtype_in(
                    self.buckets@,
                    id,
                    0,
                ) == Some(dtype),
    {
        pending_inputs(&self.input_data, &self.buckets)
    }

    /// Makes the graph active that was extracted for the current values of the
    /// dynamic dimensions, and says whether there is one.
    pub fn select_bucket(&mut self, fits: &Vec<DimFit>) -> (r: bool)
        requires
            old(self).wf(),
        ensures
            final(self).wf(),
            *final(self) == (HexagonRuntime {
                active_bucket: final(self).active_bucket,
                ..*old(self)
            }),
            r ==> chosen_bucket(old(self).buckets@, fits@, Some(final(self).active_bucket)),
            !r ==> chosen_bucket(old(self).buckets@, fits@, None) && *final(self) == *old(self),
    {
        match choose_bucket(&self.buckets, fits) {
            Some(index) => {
                self.active_bucket = index;
                true
            },
            None => false,
        }
    }

    /// Forgets all buffers and graphs, and lists the buffers to free, each
    /// once.
    pub fn clear_buffers(&mut self) -> (r: Vec<FreedBuffer>)
        ensures
            r@.no_duplicates(),
            forall|buffer: FreedBuffer| #[trigger]
                r@.contains(buffer) <==> old(self).holds_buffer(buffer),
            final(self).input_buffers@ == Map::<usize, usize>::empty(),
            final(self).buckets@.len() == 0,
            final(self).active_bucket == 0,
            final(self).input_data == old(self).input_data,
    {
        broadcast use vstd::std_specs::hash::group_hash_axioms;

        let mut freed: Vec<FreedBuffer> = Vec::new();
        let ids = keys_of(&self.input_buffers);
        for i in 0..ids.len()
            invariant
                freed@ == ids@.take(i as int).map_values(|id: usize| FreedBuffer::Input(id)),
        {
            proof {
                assert(ids@.take(i + 1) == ids@.take(i as int).push(ids@[i as int]));
            }
            freed.push(FreedBuffer::Input(ids[i]));
        }
        proof {
            assert(ids@.take(ids@.len() as int) == ids@);
            assert forall|buffer: FreedBuffer| #[trigger] freed@.contains(buffer) <==> (
            buffer matches FreedBuffer::Input(id) && self.input_buffers@.contains_key(id)) by {
                if let FreedBuffer::Input(id) = buffer {
                    assert(ids@.to_set().contains(id) == ids@.contains(id));
                    if ids@.contains(id) {
                        assert(freed@[ids@.index_of(id)] == buffer);
                    }
                    if freed@.contains(buffer) {
                        assert(ids@[freed@.index_of(buffer)] == id);
                    }
                }
            }
        }
        for b in 0..self.buckets.len()
            invariant
                *self == *old(self),
                freed@.no_duplicates(),
                forall|buffer: FreedBuffer| #[trigger]
                    freed@.contains(buffer) <==> match buffer {
                        FreedBuffer::Input(id) => self.input_buffers@.contains_key(id),
                        FreedBuffer::Result { .. } => is_allocated(
                            self.buckets@,
                            b as int,
                            buffer,
                        ),
                    },
        {
            let nodes = keys_of(&self.buckets[b].buffers);
            let ghost before = freed@;
            for i in 0..nodes.len()
                invariant
                    nodes@.no_duplicates(),
                    freed@ == before + nodes@.take(i as int).map_values(
                        |node: usize| FreedBuffer::Result { bucket: b, node },
                    ),
            {
                proof {
                    assert(nodes@.take(i + 1) == nodes@.take(i as int).push(nodes@[i as int]));
                }
                freed.push(FreedBuffer::Result { bucket: b, node: nodes[i] });
            }
            proof {
                lemma_results_are_added(
                    before,
                    nodes@,
                    b,
                    self.buckets@[b as int].buffers@.dom(),
                    freed@,
                );
                assert forall|buffer: FreedBuffer| #[trigger] freed@.contains(buffer) <==> match buffer {
                    FreedBuffer::Input(id) => self.input_buffers@.contains_key(id),
                    FreedBuffer::Result { .. } => is_allocated(self.buckets@, b + 1, buffer),
                } by {
                    assert(before.contains(buffer) <==> match buffer {
                        FreedBuffer::Input(id) => self.input_buffers@.contains_key(id),
                        FreedBuffer::Result { .. } => is_allocated(
                            self.buckets@,
                            b as int,
                            buffer,
                        ),
                    });
                }
            }
        }
        self.input_buffers = HashMap::new();
        self.buckets = Vec::new();
        self.active_bucket = 0;
        freed
    }
}

/// Adding the buffers of one graph's results to those of earlier graphs.
proof fn lemma_results_are_added(
    before: Seq<FreedBuffer>,
    nodes: Seq<usize>,
    bucket: usize,
    keys: Set<usize>,
    after: Seq<FreedBuffer>,
)
    requires
        before.no_duplicates(),
        nodes.no_duplicates(),
        nodes.to_set() == keys,
        forall|node: usize| !#[trigger] before.contains(FreedBuffer::Result { bucket, node }),
        after == before + nodes.take(nodes.len() as int).map_values(
            |node: usize| FreedBuffer::Result { bucket, node },
        ),
    ensures
        after.no_duplicates(),
        forall|buffer: FreedBuffer| #[trigger]
            after.contains(buffer) <==> before.contains(buffer) || (
            buffer matches FreedBuffer::Result { bucket: b, node } && b == bucket && keys.contains(
                node,
            )),
{
    let added = nodes.map_values(|node: usize| FreedBuffer::Result { bucket, node });
    assert(nodes.take(nodes.len() as int) == nodes);
    assert(after == before + added);
    assert forall|i: int, j: int| 0 <= i < j < after.len() implies after[i] != after[j] by {
        if i < before.len() && j >= before.len() {
            let node = nodes[j - before.len()];
            assert(after[j] == FreedBuffer::Result { bucket, node });
            assert(!before.contains(FreedBuffer::Result { bucket, node }));
            assert(before.contains(after[i]));
        } else if i >= before.len() {
            assert(nodes[i - before.len()] != nodes[j - before.len()]);
        }
    }
    assert forall|buffer: FreedBuffer| #[trigger] after.contains(buffer) <==> before.contains(buffer)
        || (buffer matches FreedBuffer::Result { bucket: b, node } && b == bucket && keys.contains(
        node,
    )) by {
        if before.contains(buffer) {
            assert(after[before.index_of(buffer)] == buffer);
        }
        if let FreedBuffer::Result { bucket: b, node } = buffer {
            assert(nodes.to_set().contains(node) == nodes.contains(node));
            if b == bucket && nodes.contains(node) {
                assert(after[before.len() + nodes.index_of(node)] == buffer);
            }
        }
        if after.contains(buffer) {
            let i = after.index_of(buffer);
            if i >= before.len() {
                assert(nodes.contains(nodes[i - before.len()]));
            } else {
                assert(before[i] == buffer);
            }
        }
    }
}

impl<E: Copy + PartialEq, D> HexagonRuntime<E, D> {
    /// Compiles graphs in place of those that were loaded before, and lists the
    /// buffers to free: all that there were. The first graph is active then and
    /// nothing is allocated. Where a graph cannot be compiled, nothing changes.
    pub fn load_llir_buckets(&mut self, bucket_llirs: Vec<BucketLlir<HexagonKernelOp<E>>>) -> (r:
        Result<Vec<FreedBuffer>, LoadError<HexagonFault>>)
        requires
            E::obeys_eq_spec(),
            old(self).wf(),
            forall|i: int| 0 <= i < bucket_llirs@.len() ==> (#[trigger] bucket_llirs@[i]).graph.wf(),
        ensures
            final(self).wf(),
            loads_to(
                bucket_llirs@,
                HexagonV73,
                match r {
                    Ok(_) => Ok(final(self).buckets@),
                    Err(error) => Err(error),
                },
            ),
            match r {
                Err(_) => *final(self) == *old(self),
                Ok(freed) => {
                    &&& freed@.no_duplicates()
                    &&& forall|buffer: FreedBuffer| #[trigger]
                        freed@.contains(buffer) <==> old(self).holds_buffer(buffer)
                    &&& final(self).active_bucket == 0
                    &&& final(self).input_buffers@ == Map::<usize, usize>::empty()
                    &&& final(self).input_data == old(self).input_data
                },
            },
    {
        let buckets = match compile_all(bucket_llirs, &HexagonV73) {
            Ok(buckets) => buckets,
            Err(error) => return Err(error),
        };
        let freed = self.clear_buffers();
        self.buckets = buckets;
        Ok(freed)
    }

    /// The numbers of elements of the active graph's results.
    pub fn result_sizes(&self) -> (r: Vec<HexagonSize<'_, E>>)
        requires
            self.wf(),
            self.compiled(),
        ensures
            r@ == Seq::new(
                self.active().steps@.len(),
                |i: int| self.active().op(i).result_size(),
            ),
    {
        let bucket = &self.buckets[self.active_bucket];
        let mut sizes: Vec<HexagonSize<'_, E>> = Vec::new();
        for i in 0..bucket.steps.len()
            invariant
                bucket.wf(),
                *bucket == self.active(),
                sizes@ == Seq::new(i as nat, |j: int| self.active().op(j).result_size()),
        {
            if let GraphNode::Op(op) = &bucket.graph.nodes[bucket.steps[i].node] {
                sizes.push(op.output_size());
            }
        }
        sizes
    }

    /// Allocates the active graph's results, given their numbers of elements. A
    /// result that already has a buffer of the right size keeps it; one of
    /// another size is freed and replaced. There must be an active graph.
    pub fn allocate_intermediates(&mut self, elements: &Vec<usize>) -> (r: Option<
        Vec<Allocation>,
    >)
        requires
            old(self).wf(),
            old(self).compiled() ==> elements@.len() == old(self).active().steps@.len(),
        ensures
            final(self).wf(),
            match r {
                None => !old(self).compiled() && *final(self) == *old(self),
                Some(allocations) => {
                    let bucket = old(self).active();
                    let steps = bucket.steps@;
                    let bytes = all_result_bytes(elements@);
                    &&& old(self).compiled()
                    &&& allocations@ == allocations_for(
                        bucket.buffers@,
                        steps,
                        bytes,
                        steps.len(),
                    )
                    &&& final(self).active().buffers@ == buffers_after(
                        bucket.buffers@,
                        steps,
                        bytes,
                        steps.len(),
                    )
                    &&& final(self).active() == (CompiledBucket {
                        buffers: final(self).active().buffers,
                        ..bucket
                    })
                    &&& final(self).buckets@ == old(self).buckets@.update(
                        old(self).active_bucket as int,
                        final(self).active(),
                    )
                    &&& *final(self) == (HexagonRuntime {
                        buckets: final(self).buckets,
                        ..*old(self)
                    })
                },
            },
    {
        if self.active_bucket >= self.buckets.len() {
            return None;
        }
        let mut bytes: Vec<usize> = Vec::new();
        for i in 0..elements.len()
            invariant
                bytes@ == all_result_bytes(elements@.take(i as int)),
        {
            proof {
                assert(elements@.take(i + 1) == elements@.take(i as int).push(elements@[i as int]));
            }
            bytes.push(
                match elements[i].checked_mul(4) {
                    Some(size) => size,
                    None => usize::MAX,
                },
            );
        }
        proof {
            assert(elements@.take(elements@.len() as int) == elements@);
        }
        let active = self.active_bucket;
        let bucket = &mut self.buckets[active];
        let allocations = allocate_results(&mut bucket.buffers, &bucket.steps, &bytes);
        Some(allocations)
    }

    /// The copy that carries an output over to an input buffer: a host-issued
    /// copy between two shared mappings, so that no tensor bytes cross through
    /// an ordinary host allocation. Nothing is copied where the output is that
    /// very input, or where there are no bytes.
    pub open spec fn copy_plan(self, output: usize, input: usize) -> Result<
        Option<HexagonCopy>,
        OutputError,
    > {
        let bucket = self.active();
        let node = bucket.output_data@[output];
        let source = buffer_of(bucket, node);
        if !self.compiled() {
            Err(OutputError::NotCompiled)
        } else if !bucket.output_data@.contains_key(output) {
            Err(OutputError::NoOutput(output))
        } else if source == BufferRef::Input(input) {
            Ok(None)
        } else {
            match buffer_size(self.input_buffers@, bucket, source) {
                None => Err(missing_buffer(source)),
                Some(bytes) => if !self.input_buffers@.contains_key(input) {
                    Err(OutputError::InputNotSet(input))
                } else if bytes != self.input_buffers@[input] {
                    Err(
                        OutputError::SizeChanged {
                            source: bytes,
                            destination: self.input_buffers@[input],
                        },
                    )
                } else if bytes == 0 {
                    Ok(None)
                } else {
                    Ok(Some(HexagonCopy { source, bytes }))
                },
            }
        }
    }

    /// The copy that carries an output over to an input buffer.
    pub fn copy_output_to_input(&self, output: usize, input: usize) -> (r: Result<
        Option<HexagonCopy>,
        OutputError,
    >)
        ensures
            r == self.copy_plan(output, input),
    {
        if self.active_bucket >= self.buckets.len() {
            return Err(OutputError::NotCompiled);
        }
        let bucket = &self.buckets[self.active_bucket];
        let data_node = match lookup(&bucket.output_data, output) {
            Some(node) => node,
            None => return Err(OutputError::NoOutput(output)),
        };
        let source_input = lookup(&bucket.llir_to_hlir, data_node);
        if source_input == Some(input) {
            return Ok(None);
        }
        let (source, bytes) = match source_input {
            Some(hlir_id) => match lookup(&self.input_buffers, hlir_id) {
                Some(bytes) => (BufferRef::Input(hlir_id), bytes),
                None => return Err(OutputError::InputNotSet(hlir_id)),
            },
            None => match lookup(&bucket.buffers, data_node) {
                Some(bytes) => (BufferRef::Intermediate(data_node), bytes),
                None => return Err(OutputError::NotAllocated(data_node)),
            },
        };
        let destination = match lookup(&self.input_buffers, input) {
            Some(bytes) => bytes,
            None => return Err(OutputError::InputNotSet(input)),
        };
        if bytes != destination {
            return Err(OutputError::SizeChanged { source: bytes, destination });
        }
        if bytes == 0 {
            return Ok(None);
        }
        Ok(Some(HexagonCopy { source, bytes }))
    }

    /// Where an output is read from, how many bytes it has and their type.
    pub open spec fn read_plan(self, id: usize) -> Result<Readback, OutputError> {
        readback_of(self.input_buffers@, self.buckets@, self.active_bucket, id)
    }

    /// Where an output is read from, how many bytes it has and their type.
    pub fn output_buffer(&self, id: usize) -> (r: Result<Readback, OutputError>)
        ensures
            r == self.read_plan(id),
    {
        find_output(&self.input_buffers, &self.buckets, self.active_bucket, id)
    }

    /// Why the output `id`, of which `bytes` were read, cannot be given as
    /// four-byte elements of type `dtype`.
    pub open spec fn read_error(self, id: usize, bytes: Seq<u8>, dtype: DType) -> Option<
        HexagonReadError,
    > {
        match self.read_plan(id) {
            Err(error) => Some(HexagonReadError::Output(error)),
            Ok(readback) => if readback.dtype != dtype {
                Some(HexagonReadError::WrongType(readback.dtype))
            } else if bytes.len() % 4 != 0 {
                Some(HexagonReadError::Misaligned)
            } else {
                None
            },
        }
    }

    fn get_words(&self, id: usize, bytes: &Vec<u8>, dtype: DType) -> (r: Result<
        Vec<u32>,
        HexagonReadError,
    >)
        ensures
            match r {
                Ok(words) => self.read_error(id, bytes@, dtype) is None && native_words(words@)
                    == bytes@,
                Err(error) => self.read_error(id, bytes@, dtype) == Some(error),
            },
    {
        match self.output_buffer(id) {
            Err(error) => Err(HexagonReadError::Output(error)),
            Ok(readback) => {
                if readback.dtype != dtype {
                    return Err(HexagonReadError::WrongType(readback.dtype));
                }
                if bytes.len() % 4 != 0 {
                    return Err(HexagonReadError::Misaligned);
                }
                Ok(decode_words(bytes))
            },
        }
    }

    /// The bits of a single-precision output, given the bytes that were read for
    /// it.
    pub fn get_f32(&self, id: usize, bytes: &Vec<u8>) -> (r: Result<Vec<u32>, HexagonReadError>)
        ensures
            match r {
                Ok(bits) => self.read_error(id, bytes@, DType::F32) is None && native_words(bits@)
                    == bytes@,
                Err(error) => self.read_error(id, bytes@, DType::F32) == Some(error),
            },
    {
        self.get_words(id, bytes, DType::F32)
    }

    /// The elements of an integer output, given the bytes that were read for it.
    pub fn get_i32(&self, id: usize, bytes: &Vec<u8>) -> (r: Result<Vec<i32>, HexagonReadError>)
        ensures
            match r {
                Ok(values) => self.read_error(id, bytes@, DType::Int) is None && native_words(
                    values@.map_values(|value: i32| as_word(value)),
                ) == bytes@,
                Err(error) => self.read_error(id, bytes@, DType::Int) == Some(error),
            },
    {
        let words = match self.get_words(id, bytes, DType::Int) {
            Ok(words) => words,
            Err(error) => return Err(error),
        };
        let mut values: Vec<i32> = Vec::new();
        for i in 0..words.len()
            invariant
                values@ == words@.take(i as int).map_values(|word: u32| as_signed(word)),
        {
            proof {
                assert(words@.take(i + 1) == words@.take(i as int).push(words@[i as int]));
            }
            values.push(signed(words[i]));
        }
        proof {
            assert(words@.take(words@.len() as int) == words@);
            assert(values@.map_values(|value: i32| as_word(value)) == words@);
        }
        Ok(values)
    }

    /// The call for a step of the active graph whose result has this many
    /// elements, or why it cannot be run.
    pub open spec fn step_call(self, step: int, elements: usize) -> Result<
        HexagonCall<E>,
        ExecuteError,
    > {
        let bucket = self.active();
        let nodes = bucket.steps@[step].input_nodes@;
        let node = bucket.steps@[step].node;
        match first_missing(self.input_buffers@, bucket, nodes) {
            Some(error) => Err(error),
            None => if !bucket.buffers@.contains_key(node) {
                Err(ExecuteError::MissingOutput(node))
            } else if nodes.len() < 2 {
                Err(ExecuteError::MissingArgument(node))
            } else {
                Ok(
                    HexagonCall {
                        dispatch: bucket.op(step).dispatched(),
                        elements,
                        a: buffer_of(bucket, nodes[0]),
                        b: buffer_of(bucket, nodes[1]),
                        output: BufferRef::Intermediate(node),
                    },
                )
            },
        }
    }

    fn plan_call(&self, step: usize, elements: usize) -> (r: Result<HexagonCall<E>, ExecuteError>)
        requires
            self.wf(),
            self.compiled(),
            step < self.active().steps@.len(),
        ensures
            r == self.step_call(step as int, elements),
    {
        let bucket = &self.buckets[self.active_bucket];
        let inputs = step_inputs(&self.input_buffers, bucket, &bucket.steps[step].input_nodes)?;
        let node = bucket.steps[step].node;
        if lookup(&bucket.buffers, node).is_none() {
            return Err(ExecuteError::MissingOutput(node));
        }
        if inputs.len() < 2 {
            return Err(ExecuteError::MissingArgument(node));
        }
        match &bucket.graph.nodes[node] {
            GraphNode::Op(op) => Ok(
                HexagonCall {
                    dispatch: op.dispatch(),
                    elements,
                    a: inputs[0],
                    b: inputs[1],
                    output: BufferRef::Intermediate(node),
                },
            ),
            _ => Err(ExecuteError::MissingArgument(node)),
        }
    }

    /// The calls for all steps of the active graph, in order, given the numbers
    /// of elements of their results.
    pub fn execute(&self, elements: &Vec<usize>) -> (r: Result<Vec<HexagonCall<E>>, ExecuteError>)
        requires
            self.wf(),
            self.compiled() ==> elements@.len() == self.active().steps@.len(),
        ensures
            match r {
                Ok(calls) => {
                    &&& self.compiled()
                    &&& calls@.len() == self.active().steps@.len()
                    &&& forall|i: int|
                        0 <= i < calls@.len() ==> self.step_call(i, elements@[i]) == Ok::<
                            HexagonCall<E>,
                            ExecuteError,
                        >(#[trigger] calls@[i])
                },
                Err(error) => if !self.compiled() {
                    error == ExecuteError::NotCompiled
                } else {
                    exists|i: int|
                        0 <= i < self.active().steps@.len() && self.step_call(
                            i,
                            #[trigger] elements@[i],
                        ) == Err::<HexagonCall<E>, ExecuteError>(error) && forall|j: int|
                            0 <= j < i ==> self.step_call(j, #[trigger] elements@[j]) is Ok
                },
            },
    {
        if self.active_bucket >= self.buckets.len() {
            return Err(ExecuteError::NotCompiled);
        }
        let count = self.buckets[self.active_bucket].steps.len();
        let mut calls: Vec<HexagonCall<E>> = Vec::new();
        for i in 0..count
            invariant
                self.wf(),
                self.compiled(),
                count == self.active().steps@.len(),
                elements@.len() == count,
                calls@.len() == i,
                forall|j: int|
                    0 <= j < calls@.len() ==> self.step_call(j, elements@[j]) == Ok::<
                        HexagonCall<E>,
                        ExecuteError,
                    >(#[trigger] calls@[j]),
        {
            match self.plan_call(i, elements[i]) {
                Ok(call) => calls.push(call),
                Err(error) => {
                    proof {
                        assert forall|j: int| 0 <= j < i implies self.step_call(
                            j,
                            #[trigger] elements@[j],
                        ) is Ok by {
                            assert(self.step_call(j, elements@[j]) == Ok::<
                                HexagonCall<E>,
                                ExecuteError,
                            >(calls@[j]));
                        }
                    }
                    return Err(error);
                },
            }
        }
        Ok(calls)
    }
}

/// What was uploaded is what is read back: the bytes of a tensor are those of
/// its elements and of no others.
pub proof fn law_read_gives_what_was_uploaded(data: HostData, bits: Seq<u32>, values: Seq<i32>)
    ensures
        data matches HostData::F32(uploaded) ==> (native_words(bits) == data.stored() ==> bits
            == uploaded@),
        data matches HostData::Int(uploaded) ==> (native_words(
            values.map_values(|value: i32| as_word(value)),
        ) == data.stored() ==> values == uploaded@),
{
    let words = values.map_values(|value: i32| as_word(value));
    match data {
        HostData::F32(uploaded) => {
            if native_words(bits) == data.stored() {
                law_words_survive_encoding(bits, uploaded@);
            }
        },
        HostData::Int(uploaded) => {
            let uploaded_words = uploaded@.map_values(|value: i32| as_word(value));
            if native_words(words) == data.stored() {
                law_words_survive_encoding(words, uploaded_words);
                assert(values.len() == uploaded@.len());
                assert forall|i: int| 0 <= i < values.len() implies values[i] == uploaded@[i] by {
                    assert(words[i] == uploaded_words[i]);
                }
            }
        },
        _ => {},
    }
}

/// Once every input of a compiled graph is uploaded and its results are
/// allocated, every step can be run, on two arguments of the type it takes.
pub proof fn law_prepared_graph_runs<E: Copy + PartialEq, D>(
    runtime: HexagonRuntime<E, D>,
    llir: BucketLlir<HexagonKernelOp<E>>,
    compiled: CompiledBucket<HexagonKernelOp<E>>,
    step: int,
    elements: usize,
)
    requires
        runtime.compiled(),
        llir.graph.wf(),
        compiles_to(llir, HexagonV73, Ok(compiled)),
        runtime.active() == (CompiledBucket { buffers: runtime.active().buffers, ..compiled }),
        forall|i: int|
            0 <= i < compiled.steps@.len() ==> runtime.active().buffers@.contains_key(
                (#[trigger] compiled.steps@[i]).node,
            ),
        forall|node: usize| #[trigger]
            llir.graph.hlir_inputs().contains_key(node) ==> runtime.input_buffers@.contains_key(
                llir.graph.hlir_inputs()[node],
            ),
        0 <= step < compiled.steps@.len(),
    ensures
        runtime.step_call(step, elements) is Ok,
        compiled.steps@[step].input_nodes@.len() == 2,
        forall|k: int|
            0 <= k < 2 ==> #[trigger] compiled.steps@[step].input_dtypes@[k] == compiled.op(
                step,
            ).argument_type(),
{
    let bucket = runtime.active();
    let inputs = runtime.input_buffers@;
    let order = llir.graph.order()->Some_0;
    let steps = llir.graph.steps_before(order, order.len());
    let nodes = bucket.steps@[step].input_nodes@;
    assert(step_views(compiled.steps@) == steps);
    assert(step_views(compiled.steps@)[step] == compiled.steps@[step]@);
    lemma_op_positions(llir.graph, order, order.len());
    let at = op_positions(llir.graph, order, order.len())[step];
    assert(steps[step] == llir.graph.step_at(order, at));
    assert(llir.graph.fault_at(order, at, HexagonV73) is None);
    let op = llir.graph.nodes@[order[at] as int]->Op_0;
    let dtypes = llir.graph.input_dtypes_at(order, at);
    assert(op.operand_fault(order[at], nodes.len()) is None);
    assert(op.type_fault(order[at], HexagonV73, dtypes) is None);
    assert forall|k: int| 0 <= k < 2 implies #[trigger] compiled.steps@[step].input_dtypes@[k]
        == compiled.op(step).argument_type() by {
        assert(dtypes[k] == op.argument_type());
    }
    assert forall|k: int| 0 <= k < nodes.len() implies buffer_size(
        inputs,
        bucket,
        buffer_of(bucket, #[trigger] nodes[k]),
    ) is Some by {
        assert(steps[step].input_nodes[k] == nodes[k]);
        law_steps_read_what_is_there(llir.graph, order, HexagonV73, step, k);
        if !llir.graph.hlir_inputs().contains_key(nodes[k]) {
            let j = choose|j: int| 0 <= j < step && (#[trigger] steps[j]).node == nodes[k];
            assert(step_views(compiled.steps@)[j] == compiled.steps@[j]@);
            assert(runtime.active().buffers@.contains_key(compiled.steps@[j].node));
        }
    }
    lemma_nothing_missing(inputs, bucket, nodes);
}

/// Carrying an output over to an input copies the whole of the output's buffer, and
/// only into an input buffer of the same size. Nothing is copied only where the
/// output is that very input or has no bytes.
pub proof fn law_outputs_are_carried_over_whole<E: Copy + PartialEq, D>(
    runtime: HexagonRuntime<E, D>,
    output: usize,
    input: usize,
    r: Result<Option<HexagonCopy>, OutputError>,
)
    requires
        runtime.compiled(),
        runtime.active().output_data@.contains_key(output),
        call_ensures(
            HexagonRuntime::<E, D>::copy_output_to_input,
            (&runtime, output, input),
            r,
        ),
    ensures
        ({
            let bucket = runtime.active();
            let inputs = runtime.input_buffers@;
            let from = home(bucket, bucket.output_data@[output]);
            let size = match from {
                BufferRef::Input(hlir) => inputs[hlir],
                BufferRef::Intermediate(node) => bucket.buffers@[node],
            };
            let there = is_there(inputs, bucket, from) && inputs.contains_key(input);
            match r {
                Ok(Some(copy)) => there && copy.source == from && from != BufferRef::Input(input)
                    && copy.bytes == size && copy.bytes == inputs[input] && copy.bytes > 0,
                Ok(None) => from == BufferRef::Input(input) || there && size == 0 && inputs[input]
                    == 0,
                Err(OutputError::SizeChanged { source, destination }) => there && source == size
                    && destination == inputs[input] && source != destination,
                Err(OutputError::InputNotSet(id)) => !inputs.contains_key(id) && (id == input
                    || from == BufferRef::Input(id)),
                Err(OutputError::NotAllocated(node)) => from == BufferRef::Intermediate(node)
                    && !bucket.buffers@.contains_key(node),
                Err(_) => false,
            }
        }),
{
}

/// Allocating gives the result of every step of the active graph four bytes for each
/// of its elements, as the types that the dialect gives have, as far as that many
/// bytes can be counted, and changes nothing else.
pub proof fn law_results_take_their_elements_bytes<E: Copy + PartialEq, D>(
    runtime: &mut HexagonRuntime<E, D>,
    elements: Vec<usize>,
    r: Option<Vec<Allocation>>,
    i: int,
)
    requires
        old(runtime).wf(),
        old(runtime).compiled(),
        0 <= i < old(runtime).active().steps@.len() == elements@.len(),
        4 * elements@[i] <= usize::MAX,
        call_ensures(HexagonRuntime::<E, D>::allocate_intermediates, (runtime, &elements), r),
    ensures
        ({
            let step = old(runtime).active().steps@[i];
            let before = old(runtime).active().buffers@;
            let after = final(runtime).active().buffers@;
            let bytes = old(runtime).active().op(i).result_dtype(step.input_dtypes@).width()
                * elements@[i];
            let kept = before.contains_key(step.node) && before[step.node] == bytes;
            &&& bytes == 4 * elements@[i]
            &&& after.contains_key(step.node) && after[step.node] == bytes
            &&& r matches Some(made) && (kept <==> forall|a: int|
                0 <= a < made@.len() ==> (#[trigger] made@[a]).node != step.node)
            &&& final(runtime).active().steps == old(runtime).active().steps
            &&& final(runtime).active().graph == old(runtime).active().graph
            &&& final(runtime).input_buffers == old(runtime).input_buffers
            &&& final(runtime).input_data == old(runtime).input_data
        }),
{
    assert(old(runtime).active().wf());
    law_results_have_room(old(runtime).active(), all_result_bytes(elements@), i);
}

/// A host tensor that was set is uploaded exactly where a loaded graph reads it, in
/// the type that an input of the graph declares.
pub proof fn law_set_tensors_are_uploaded<E: Copy + PartialEq, D>(
    runtime: HexagonRuntime<E, D>,
    r: Vec<(usize, DType)>,
    id: usize,
)
    requires
        call_ensures(HexagonRuntime::<E, D>::refresh_inputs, (&runtime,), r),
    ensures
        (exists|k: int| 0 <= k < r@.len() && (#[trigger] r@[k]).0 == id)
            <==> runtime.input_data@.contains_key(id) && is_read(runtime.buckets@, id),
        forall|k: int|
            0 <= k < r@.len() ==> is_declared(
                runtime.buckets@,
                (#[trigger] r@[k]).0,
                r@[k].1,
            ),
{
    lemma_pending_is_read(runtime.input_data@, runtime.buckets@, r@, id);
}

/// The graph that is made active was compiled for ranges that hold the values of all
/// dimensions, and is the first such; where there is none, nothing changes. A single
/// graph is active whatever the values.
pub proof fn law_active_graph_fits<E: Copy + PartialEq, D>(
    runtime: &mut HexagonRuntime<E, D>,
    fits: Vec<DimFit>,
    r: bool,
)
    requires
        old(runtime).wf(),
        old(runtime).buckets@.len() > 0,
        call_ensures(HexagonRuntime::<E, D>::select_bucket, (runtime, &fits), r),
    ensures
        ({
            let buckets = old(runtime).buckets@;
            &&& final(runtime).buckets == old(runtime).buckets
            &&& r && buckets.len() > 1 ==> holds_values(fits@, final(runtime).active())
            &&& r ==> forall|i: int|
                0 <= i < buckets.len() && holds_values(fits@, #[trigger] buckets[i])
                    ==> final(runtime).active_bucket <= i
            &&& !r ==> *final(runtime) == *old(runtime) && buckets.len() > 1 && forall|i: int|
                0 <= i < buckets.len() ==> !holds_values(fits@, #[trigger] buckets[i])
        }),
{
    let chosen = if r {
        Some(final(runtime).active_bucket)
    } else {
        None
    };
    lemma_chosen_fits(old(runtime).buckets@, fits@, chosen);
}

/// Loading takes the graphs that are given, in the order in which they are given, and
/// makes the first active; every buffer that there was is freed, once, and tensors
/// that were set are kept. Where a graph is refused, nothing changes.
pub proof fn law_loading_replaces_the_graphs<E: Copy + PartialEq, D>(
    runtime: &mut HexagonRuntime<E, D>,
    llirs: Vec<BucketLlir<HexagonKernelOp<E>>>,
    r: Result<Vec<FreedBuffer>, LoadError<HexagonFault>>,
    i: int,
    b: int,
    key: usize,
)
    requires
        0 <= i < llirs@.len(),
        call_ensures(HexagonRuntime::<E, D>::load_llir_buckets, (runtime, llirs), r),
    ensures
        r matches Ok(freed) ==> {
            &&& final(runtime).buckets@.len() == llirs@.len()
            &&& final(runtime).buckets@[i].graph == llirs@[i].graph
            &&& final(runtime).buckets@[i].bucket_indices == llirs@[i].indices
            &&& final(runtime).buckets@[i].buffers@ == Map::<usize, usize>::empty()
            &&& final(runtime).active_bucket == 0
            &&& final(runtime).input_data == old(runtime).input_data
            &&& final(runtime).input_buffers@ == Map::<usize, usize>::empty()
            &&& freed@.no_duplicates()
            &&& freed@.contains(FreedBuffer::Input(key)) <==> old(
                runtime,
            ).input_buffers@.contains_key(key)
            &&& 0 <= b < old(runtime).buckets@.len() && b <= usize::MAX ==> (freed@.contains(
                (FreedBuffer::Result { bucket: b as usize, node: key }),
            ) <==> old(runtime).buckets@[b].buffers@.contains_key(key))
        },
        r is Err ==> *final(runtime) == *old(runtime),
{
    if let Ok(freed) = r {
        assert(compiles_to(llirs@[i], HexagonV73, Ok(final(runtime).buckets@[i])));
        assert(freed@.contains(FreedBuffer::Input(key)) <==> old(runtime).holds_buffer(
            FreedBuffer::Input(key),
        ));
        if 0 <= b < old(runtime).buckets@.len() && b <= usize::MAX {
            let buffer = FreedBuffer::Result { bucket: b as usize, node: key };
            assert(freed@.contains(buffer) <==> old(runtime).holds_buffer(buffer));
        }
    }
}

} // verus!
