//! The runtime for a graph that is one resident model step.

use std::collections::HashMap;

use vstd::prelude::*;
use vstd::string::StringExecFns;

use crate::bytes::{
    as_signed, law_read_gives_what_was_written, le_u32, read_i32, with_u32, with_words, write_u32,
};
use crate::graph::{
    arrows, is_cycle, law_arguments_come_first, lemma_order_names_every_node, GraphNode, LlirGraph,
};
use crate::hexagon::qwen35::session::{
    decode_words, law_generation_counts_up, prefill_words, reply_token, zeros, ComputeCall,
    Qwen35Session, Qwen35Token,
};
use crate::hexagon::qwen35::step::Qwen35Q4Step;
use crate::hexagon::qwen35::{MAX_DECODE_CONTEXT, MAX_PREFILL_TOKENS, OP_COMPUTE};
use crate::hexagon::runtime::HexagonUpload;
use crate::maps::{keys_of, lookup};
use crate::text::{decimal_text, push_decimal};

verus! {

/// What a compiled graph comes down to.
#[derive(Clone, Copy)]
pub struct CompiledQwen<E> {
    /// The number of the host tensor that holds the prompt.
    pub prompt_hlir: usize,
    /// The number of the host output that receives the token.
    pub output_hlir: usize,
    pub prompt_len: E,
}

/// Why a graph is not one resident model step.
#[derive(Clone, Copy, PartialEq, Eq, Structural, Debug)]
pub enum QwenGraphError {
    Cycle,
    /// An output reads nothing.
    OutputWithoutSource,
    /// The node is no operation of the resident model.
    Unrecognized(usize),
    /// There is more than one model step.
    MoreThanOneStep,
    /// The step does not read exactly one tensor.
    NotOneInput,
    /// What the step reads does not come from the host.
    PromptIsNoInput,
    /// There is no model step.
    NoStep,
    /// The output does not come from the step.
    OutputIsNotTheStep,
}

impl<E: Copy> LlirGraph<Qwen35Q4Step<E>> {
    /// The model step among the first `count` nodes of `order`.
    pub open spec fn step_before(self, order: Seq<usize>, count: nat) -> Option<usize>
        decreases count,
    {
        if count == 0 {
            None
        } else if self.nodes@[order[count - 1] as int] is Op {
            Some(order[count - 1])
        } else {
            self.step_before(order, (count - 1) as nat)
        }
    }

    /// The last output among the first `count` nodes of `order`.
    pub open spec fn output_before(self, order: Seq<usize>, count: nat) -> Option<usize>
        decreases count,
    {
        if count == 0 {
            None
        } else if self.nodes@[order[count - 1] as int] is Output {
            Some(order[count - 1])
        } else {
            self.output_before(order, (count - 1) as nat)
        }
    }

    /// What is wrong with the node at position `at`, if anything.
    pub open spec fn qwen_fault_at(self, order: Seq<usize>, at: int) -> Option<QwenGraphError> {
        let sources = self.sources(order[at]);
        match self.nodes@[order[at] as int] {
            GraphNode::Input { .. } => None,
            GraphNode::Output { .. } => if sources.len() == 0 {
                Some(QwenGraphError::OutputWithoutSource)
            } else {
                None
            },
            GraphNode::Unlowered => Some(QwenGraphError::Unrecognized(order[at])),
            GraphNode::Op(_) => if self.step_before(order, at as nat) is Some {
                Some(QwenGraphError::MoreThanOneStep)
            } else if sources.len() != 1 {
                Some(QwenGraphError::NotOneInput)
            } else if !(self.nodes@[sources[0] as int] is Input) {
                Some(QwenGraphError::PromptIsNoInput)
            } else {
                None
            },
        }
    }

    /// Whether nothing is wrong with the first `count` nodes of `order`.
    pub open spec fn qwen_sound_before(self, order: Seq<usize>, count: int) -> bool {
        forall|at: int| 0 <= at < count ==> #[trigger] self.qwen_fault_at(order, at) is None
    }

    /// What is wrong with a graph of which every node is in order, if anything.
    pub open spec fn qwen_shape_fault(self, order: Seq<usize>) -> Option<QwenGraphError> {
        match self.step_before(order, order.len()) {
            None => Some(QwenGraphError::NoStep),
            Some(step) => match self.output_before(order, order.len()) {
                Some(output) if self.sources(output)[0] == step => None,
                _ => Some(QwenGraphError::OutputIsNotTheStep),
            },
        }
    }

    /// Whether compiling the graph in this order gives `r`.
    pub open spec fn qwen_compile_gives(
        self,
        order: Seq<usize>,
        r: Result<CompiledQwen<E>, QwenGraphError>,
    ) -> bool {
        let step = self.step_before(order, order.len())->Some_0;
        let output = self.output_before(order, order.len())->Some_0;
        match r {
            Ok(compiled) => {
                &&& self.qwen_sound_before(order, order.len() as int)
                &&& self.qwen_shape_fault(order) is None
                &&& self.nodes@[self.sources(step)[0] as int]->Input_hlir == compiled.prompt_hlir
                &&& self.nodes@[output as int]->Output_hlir == compiled.output_hlir
                &&& self.nodes@[step as int]->Op_0.prompt_len == compiled.prompt_len
            },
            Err(error) => {
                ||| exists|at: int|
                    0 <= at < order.len() && self.qwen_sound_before(order, at)
                        && #[trigger] self.qwen_fault_at(order, at) == Some(error)
                ||| self.qwen_sound_before(order, order.len() as int) && self.qwen_shape_fault(
                    order,
                ) == Some(error)
            },
        }
    }
}

/// Compiles a graph in the given order of its nodes.
pub fn compile_graph_in_order<E: Copy>(
    graph: &LlirGraph<Qwen35Q4Step<E>>,
    order: &Vec<usize>,
) -> (r: Result<CompiledQwen<E>, QwenGraphError>)
    requires
        graph.wf(),
        graph.ordered_by(order@),
    ensures
        graph.qwen_compile_gives(order@, r),
{
    let mut step: Option<(usize, usize, E)> = None;
    let mut output: Option<(usize, usize)> = None;
    for i in 0..order.len()
        invariant
            graph.wf(),
            graph.ordered_by(order@),
            graph.qwen_sound_before(order@, i as int),
            match step {
                None => graph.step_before(order@, i as nat) is None,
                Some((node, prompt_hlir, prompt_len)) => {
                    &&& graph.step_before(order@, i as nat) == Some(node)
                    &&& graph.nodes@[node as int] is Op
                    &&& graph.nodes@[node as int]->Op_0.prompt_len == prompt_len
                    &&& graph.nodes@[graph.sources(node)[0] as int]->Input_hlir == prompt_hlir
                },
            },
            match output {
                None => graph.output_before(order@, i as nat) is None,
                Some((hlir, source)) => {
                    &&& graph.output_before(order@, i as nat) matches Some(node)
                    &&& graph.nodes@[node as int] is Output
                    &&& graph.nodes@[node as int]->Output_hlir == hlir
                    &&& graph.sources(node).len() > 0
                    &&& graph.sources(node)[0] == source
                },
            },
    {
        let node = order[i];
        proof {
            assert(order@[i as int] == node);
        }
        match &graph.nodes[node] {
            GraphNode::Input { .. } => {},
            GraphNode::Output { hlir } => {
                let sources = graph.input_nodes(node);
                if sources.len() == 0 {
                    proof {
                        assert(graph.qwen_fault_at(order@, i as int) == Some(
                            QwenGraphError::OutputWithoutSource,
                        ));
                    }
                    return Err(QwenGraphError::OutputWithoutSource);
                }
                output = Some((*hlir, sources[0]));
            },
            GraphNode::Unlowered => {
                proof {
                    assert(graph.qwen_fault_at(order@, i as int) == Some(
                        QwenGraphError::Unrecognized(node),
                    ));
                }
                return Err(QwenGraphError::Unrecognized(node));
            },
            GraphNode::Op(op) => {
                if step.is_some() {
                    proof {
                        assert(graph.qwen_fault_at(order@, i as int) == Some(
                            QwenGraphError::MoreThanOneStep,
                        ));
                    }
                    return Err(QwenGraphError::MoreThanOneStep);
                }
                let input_nodes = graph.input_nodes(node);
                if input_nodes.len() != 1 {
                    proof {
                        assert(graph.qwen_fault_at(order@, i as int) == Some(
                            QwenGraphError::NotOneInput,
                        ));
                    }
                    return Err(QwenGraphError::NotOneInput);
                }
                proof {
                    law_arguments_come_first(*graph, order@, i as int, 0);
                }
                match &graph.nodes[input_nodes[0]] {
                    GraphNode::Input { hlir, .. } => {
                        step = Some((node, *hlir, op.prompt_len()));
                    },
                    _ => {
                        proof {
                            assert(graph.qwen_fault_at(order@, i as int) == Some(
                                QwenGraphError::PromptIsNoInput,
                            ));
                        }
                        return Err(QwenGraphError::PromptIsNoInput);
                    },
                }
            },
        }
    }
    let (step_node, prompt_hlir, prompt_len) = match step {
        Some(found) => found,
        None => return Err(QwenGraphError::NoStep),
    };
    match output {
        Some((output_hlir, source)) if source == step_node => Ok(
            CompiledQwen { prompt_hlir, output_hlir, prompt_len },
        ),
        _ => Err(QwenGraphError::OutputIsNotTheStep),
    }
}

/// Whether compiling a graph gives `r`.
pub open spec fn qwen_compiles_to<E: Copy>(
    graph: LlirGraph<Qwen35Q4Step<E>>,
    r: Result<CompiledQwen<E>, QwenGraphError>,
) -> bool {
    match graph.order() {
        None => r == Err::<CompiledQwen<E>, QwenGraphError>(QwenGraphError::Cycle) && exists|
            walk: Seq<usize>,
        | is_cycle(arrows(graph.edges@), walk),
        Some(order) => graph.ordered_by(order) && graph.qwen_compile_gives(order, r),
    }
}

/// Compiles a graph that is one resident model step.
pub fn compile_graph<E: Copy>(graph: &LlirGraph<Qwen35Q4Step<E>>) -> (r: Result<
    CompiledQwen<E>,
    QwenGraphError,
>)
    requires
        graph.wf(),
    ensures
        qwen_compiles_to(*graph, r),
{
    match graph.topological_order() {
        Some(order) => compile_graph_in_order(graph, &order),
        None => Err(QwenGraphError::Cycle),
    }
}

/// The runtime's bookkeeping, for symbolic expressions `E` and host tensors `D`.
pub struct Qwen35Runtime<E, D> {
    pub session: Qwen35Session,
    /// The host tensors that were set, by number.
    pub input_data: HashMap<usize, D>,
    /// The logical size in bytes of each uploaded prompt.
    pub input_buffers: HashMap<usize, usize>,
    pub compiled: Option<CompiledQwen<E>>,
    /// Whether the buffer for the token is allocated.
    pub output_allocated: bool,
    /// Whether the prompt was processed.
    pub started: bool,
    pub last_token: Option<Qwen35Token>,
    pub max_prefill_tokens: usize,
}

/// The buffers to free when a graph is given up.
pub struct FreedPrompts {
    /// Whether the buffer for the token is freed.
    pub output: bool,
    /// The prompts whose buffers are freed.
    pub prompts: Vec<usize>,
}

/// Why graphs cannot be loaded.
#[derive(Clone, Copy, PartialEq, Eq, Structural, Debug)]
pub enum QwenLoadError {
    /// There is not exactly one graph.
    NotOneBucket(usize),
    /// The graph is not one resident model step.
    Graph(QwenGraphError),
    /// The graph's prompt is longer than this limit.
    PromptLimit(usize),
}

/// What is reported for a graph whose prompt is longer than a limit.
pub fn prompt_limit_text(limit: usize) -> (r: String)
    ensures
        r@ == "Qwen3.5 graph prompt length exceeds configured limit "@ + decimal_text(limit as nat),
{
    let mut text = "Qwen3.5 graph prompt length exceeds configured limit ".to_owned();
    push_decimal(&mut text, limit as u64);
    text
}

/// What is wrong with a prefill limit, if anything.
pub open spec fn limit_error(max_prefill_tokens: usize) -> Option<Seq<char>> {
    if 2 <= max_prefill_tokens <= MAX_PREFILL_TOKENS {
        None
    } else {
        Some(
            "Qwen3.5 prefill limit must be in [2, "@ + decimal_text(MAX_PREFILL_TOKENS as nat)
                + "], got "@ + decimal_text(max_prefill_tokens as nat),
        )
    }
}

/// Checks a prefill limit, before anything is opened.
pub fn check_limit(max_prefill_tokens: usize) -> (r: Result<(), String>)
    ensures
        match r {
            Ok(_) => limit_error(max_prefill_tokens) is None,
            Err(error) => limit_error(max_prefill_tokens) == Some(error@),
        },
{
    if max_prefill_tokens < 2 || max_prefill_tokens > MAX_PREFILL_TOKENS {
        let mut error = "Qwen3.5 prefill limit must be in [2, ".to_owned();
        push_decimal(&mut error, MAX_PREFILL_TOKENS as u64);
        error.append("], got ");
        push_decimal(&mut error, max_prefill_tokens as u64);
        return Err(error);
    }
    Ok(())
}

impl<E: Copy, D> Qwen35Runtime<E, D> {
    /// The session is in order, the limit is one that a session can be opened
    /// with, a compiled graph has a buffer for its token, and there is a token
    /// exactly when the prompt was processed.
    pub open spec fn wf(self) -> bool {
        &&& self.session.wf()
        &&& limit_error(self.max_prefill_tokens) is None
        &&& self.compiled is Some ==> self.output_allocated
        &&& self.started ==> self.compiled is Some && self.session.cache_len > 0
        &&& self.started <==> self.last_token is Some
    }

    /// A runtime for an open session, with this prefill limit.
    pub fn try_initialize(session: Qwen35Session, max_prefill_tokens: usize) -> (r: Result<
        Self,
        String,
    >)
        requires
            session.wf(),
        ensures
            match r {
                Ok(runtime) => {
                    &&& limit_error(max_prefill_tokens) is None
                    &&& runtime.wf()
                    &&& runtime.session == session
                    &&& runtime.max_prefill_tokens == max_prefill_tokens
                    &&& runtime.compiled is None
                    &&& !runtime.started
                    &&& !runtime.output_allocated
                    &&& runtime.input_data@ == Map::<usize, D>::empty()
                    &&& runtime.input_buffers@ == Map::<usize, usize>::empty()
                },
                Err(error) => limit_error(max_prefill_tokens) == Some(error@),
            },
    {
        broadcast use vstd::std_specs::hash::group_hash_axioms;

        check_limit(max_prefill_tokens)?;
        Ok(
            Qwen35Runtime {
                session,
                input_data: HashMap::new(),
                input_buffers: HashMap::new(),
                compiled: None,
                output_allocated: false,
                started: false,
                last_token: None,
                max_prefill_tokens,
            },
        )
    }

    /// Keeps a host tensor, and says whether it is the prompt of the loaded
    /// graph, which is to be uploaded now.
    pub fn set_data(&mut self, id: usize, data: D) -> (r: bool)
        requires
            old(self).wf(),
        ensures
            final(self).wf(),
            final(self).input_data@ == old(self).input_data@.insert(id, data),
            *final(self) == (Qwen35Runtime { input_data: final(self).input_data, ..*old(self) }),
            r <==> (old(self).compiled matches Some(compiled) && compiled.prompt_hlir == id),
    {
        broadcast use vstd::std_specs::hash::group_hash_axioms;

        self.input_data.insert(id, data);
        match &self.compiled {
            Some(compiled) => compiled.prompt_hlir == id,
            None => false,
        }
    }

    /// The token of the last step, if there was one.
    pub fn get_token(&self) -> (r: Option<Qwen35Token>)
        ensures
            r == self.last_token,
    {
        self.last_token
    }

    /// Why there is nothing to read for the output `id`.
    pub open spec fn read_error(self, id: usize) -> Option<Seq<char>> {
        match self.compiled {
            None => Some("Qwen3.5 runtime has not been compiled"@),
            Some(compiled) => if id != compiled.output_hlir {
                Some("unknown Qwen3.5 output id"@)
            } else {
                None
            },
        }
    }

    /// The graph's output, given the bytes of the buffer for the token. Before
    /// the first step that is whatever the buffer holds.
    pub fn get_i32(&self, id: usize, output: &Vec<u8>) -> (r: Result<Vec<i32>, String>)
        requires
            4 <= output@.len(),
        ensures
            match r {
                Ok(values) => self.read_error(id) is None && values@ == seq![
                    as_signed(le_u32(output@, 0)),
                ],
                Err(error) => self.read_error(id) == Some(error@),
            },
    {
        match &self.compiled {
            None => Err("Qwen3.5 runtime has not been compiled".to_owned()),
            Some(compiled) => {
                if id != compiled.output_hlir {
                    return Err("unknown Qwen3.5 output id".to_owned());
                }
                Ok(vec![read_i32(output, 0)])
            },
        }
    }

    /// Records the upload of a prompt's bytes. A buffer of the right size is
    /// written again; one of another size is freed and replaced.
    pub fn upload_prompt(&mut self, id: usize, byte_count: usize) -> (r: HexagonUpload)
        requires
            old(self).wf(),
        ensures
            final(self).wf(),
            final(self).input_buffers@ == old(self).input_buffers@.insert(id, byte_count),
            *final(self) == (Qwen35Runtime {
                input_buffers: final(self).input_buffers,
                ..*old(self)
            }),
            r.allocates <==> !(old(self).input_buffers@.contains_key(id)
                && old(self).input_buffers@[id] == byte_count),
            r.frees <==> r.allocates && old(self).input_buffers@.contains_key(id),
            r.writes <==> byte_count > 0,
    {
        broadcast use vstd::std_specs::hash::group_hash_axioms;

        let known = lookup(&self.input_buffers, id);
        let allocates = known != Some(byte_count);
        self.input_buffers.insert(id, byte_count);
        HexagonUpload {
            frees: allocates && known.is_some(),
            allocates,
            writes: byte_count > 0,
        }
    }

    /// The prompt to upload after a graph was loaded, if it was set.
    pub fn refresh_prompt(&self) -> (r: Option<usize>)
        ensures
            r == (match self.compiled {
                Some(compiled) => if self.input_data@.contains_key(compiled.prompt_hlir) {
                    Some(compiled.prompt_hlir)
                } else {
                    None
                },
                None => None,
            }),
    {
        broadcast use vstd::std_specs::hash::group_hash_axioms;

        match &self.compiled {
            Some(compiled) => if self.input_data.contains_key(&compiled.prompt_hlir) {
                Some(compiled.prompt_hlir)
            } else {
                None
            },
            None => None,
        }
    }

    /// Gives the graph up, and lists the buffers to free: the token's, and each
    /// prompt's once.
    pub fn clear_compiled(&mut self) -> (r: FreedPrompts)
        requires
            old(self).wf(),
        ensures
            final(self).wf(),
            r.output == old(self).output_allocated,
            r.prompts@.no_duplicates(),
            r.prompts@.to_set() == old(self).input_buffers@.dom(),
            final(self).compiled is None,
            !final(self).output_allocated,
            final(self).input_buffers@ == Map::<usize, usize>::empty(),
            final(self).last_token is None,
            final(self).session == old(self).session,
            final(self).input_data == old(self).input_data,
            final(self).max_prefill_tokens == old(self).max_prefill_tokens,
    {
        broadcast use vstd::std_specs::hash::group_hash_axioms;

        let freed = FreedPrompts {
            output: self.output_allocated,
            prompts: keys_of(&self.input_buffers),
        };
        self.compiled = None;
        self.output_allocated = false;
        self.input_buffers = HashMap::new();
        self.started = false;
        self.last_token = None;
        freed
    }

    /// Whether a prompt of this length, where it is fixed, is longer than the
    /// limit.
    pub open spec fn exceeds_limit(self, fixed_len: Option<usize>) -> bool {
        fixed_len matches Some(len) && len > self.max_prefill_tokens
    }

    /// Compiles the one graph in place of one that was loaded before, and lists
    /// the buffers to free. The buffer for the token is to be allocated then.
    /// `fixed_len` gives the value of a length that depends on no dynamic
    /// dimension; a prompt whose fixed length exceeds the limit is refused.
    /// Where the graph is refused, nothing changes.
    pub fn load_llir_buckets<F: Fn(E) -> Option<usize>>(
        &mut self,
        graphs: &Vec<LlirGraph<Qwen35Q4Step<E>>>,
        fixed_len: F,
    ) -> (r: Result<FreedPrompts, QwenLoadError>)
        requires
            old(self).wf(),
            forall|i: int| 0 <= i < graphs@.len() ==> (#[trigger] graphs@[i]).wf(),
            forall|expr: E| #[trigger] call_requires(fixed_len, (expr,)),
        ensures
            final(self).wf(),
            match r {
                Ok(freed) => {
                    &&& graphs@.len() == 1
                    &&& final(self).compiled matches Some(compiled)
                    &&& qwen_compiles_to(graphs@[0], Ok(compiled))
                    &&& exists|len: Option<usize>| #[trigger]
                        call_ensures(fixed_len, (compiled.prompt_len,), len) && !old(
                            self,
                        ).exceeds_limit(len)
                    &&& !final(self).started
                    &&& final(self).output_allocated
                    &&& final(self).input_buffers@ == Map::<usize, usize>::empty()
                    &&& freed.output == old(self).output_allocated
                    &&& freed.prompts@.no_duplicates()
                    &&& freed.prompts@.to_set() == old(self).input_buffers@.dom()
                    &&& final(self).session == old(self).session
                    &&& final(self).input_data == old(self).input_data
                    &&& final(self).max_prefill_tokens == old(self).max_prefill_tokens
                },
                Err(QwenLoadError::NotOneBucket(count)) => count == graphs@.len() && count != 1
                    && *final(self) == *old(self),
                Err(QwenLoadError::Graph(error)) => graphs@.len() == 1 && qwen_compiles_to(
                    graphs@[0],
                    Err(error),
                ) && *final(self) == *old(self),
                Err(QwenLoadError::PromptLimit(limit)) => {
                    &&& graphs@.len() == 1
                    &&& exists|compiled: CompiledQwen<E>, len: Option<usize>|
                        #![trigger qwen_compiles_to(graphs@[0], Ok(compiled)), old(self).exceeds_limit(len)]
                        qwen_compiles_to(graphs@[0], Ok(compiled)) && call_ensures(
                            fixed_len,
                            (compiled.prompt_len,),
                            len,
                        ) && old(self).exceeds_limit(len)
                    &&& limit == old(self).max_prefill_tokens
                    &&& *final(self) == *old(self)
                },
            },
    {
        if graphs.len() != 1 {
            return Err(QwenLoadError::NotOneBucket(graphs.len()));
        }
        let compiled = match compile_graph(&graphs[0]) {
            Ok(compiled) => compiled,
            Err(error) => return Err(QwenLoadError::Graph(error)),
        };
        let fixed = fixed_len(compiled.prompt_len);
        if let Some(len) = fixed {
            if len > self.max_prefill_tokens {
                proof {
                    assert(old(self).exceeds_limit(fixed));
                }
                return Err(QwenLoadError::PromptLimit(self.max_prefill_tokens));
            }
        }
        let freed = self.clear_compiled();
        self.output_allocated = true;
        self.compiled = Some(compiled);
        Ok(freed)
    }

    /// Why the next step cannot be run, given the length of the prompt, its
    /// tokens and the size of the request buffer.
    pub open spec fn refusal(
        self,
        prompt_len: Option<usize>,
        input_ids: Seq<i32>,
        request_bytes: nat,
    ) -> Option<Seq<char>> {
        match self.compiled {
            None => Some("Qwen3.5 runtime has not been compiled"@),
            Some(compiled) => if self.started {
                self.session.decode_refusal()
            } else {
                match prompt_len {
                    None => Some("Qwen3.5 prompt length is not resolved"@),
                    Some(len) => if len < 2 || len > self.max_prefill_tokens {
                        Some(
                            "Qwen3.5 prompt length must be in [2, "@ + decimal_text(
                                self.max_prefill_tokens as nat,
                            ) + "], got "@ + decimal_text(len as nat),
                        )
                    } else if !self.input_data@.contains_key(compiled.prompt_hlir) {
                        Some(
                            "Qwen3.5 prompt input NodeIndex("@ + decimal_text(
                                compiled.prompt_hlir as nat,
                            ) + ") was not set"@,
                        )
                    } else if input_ids.len() != len {
                        Some("Qwen3.5 prompt data/shape mismatch"@)
                    } else {
                        self.session.prefill_refusal(input_ids.len(), request_bytes)
                    },
                }
            },
        }
    }

    /// Writes the request for the next step, clears the response and describes
    /// the call: first the whole prompt, then one token at a time.
    pub fn execute(
        &self,
        prompt_len: Option<usize>,
        input_ids: &Vec<i32>,
        request: &mut Vec<u8>,
        response: &mut Vec<u8>,
    ) -> (r: Result<ComputeCall, String>)
        requires
            24 <= old(request).len(),
        ensures
            match r {
                Ok(call) => {
                    &&& self.refusal(prompt_len, input_ids@, old(request)@.len()) is None
                    &&& call.method == OP_COMPUTE
                    &&& call.sent == (if self.started {
                        24
                    } else {
                        32 + 4 * input_ids@.len()
                    })
                    &&& final(request)@ == with_words(
                        old(request)@,
                        if self.started {
                            decode_words(self.session.position, self.session.generated_count)
                        } else {
                            prefill_words(input_ids@)
                        },
                    )
                    &&& final(response)@ == zeros(old(response)@.len())
                },
                Err(error) => {
                    &&& self.refusal(prompt_len, input_ids@, old(request)@.len()) == Some(error@)
                    &&& *final(request) == *old(request)
                    &&& *final(response) == *old(response)
                },
            },
    {
        broadcast use vstd::std_specs::hash::group_hash_axioms;

        let compiled = match &self.compiled {
            Some(compiled) => compiled,
            None => return Err("Qwen3.5 runtime has not been compiled".to_owned()),
        };
        if self.started {
            return self.session.decode(request, response);
        }
        let len = match prompt_len {
            Some(len) => len,
            None => return Err("Qwen3.5 prompt length is not resolved".to_owned()),
        };
        if len < 2 || len > self.max_prefill_tokens {
            let mut error = "Qwen3.5 prompt length must be in [2, ".to_owned();
            push_decimal(&mut error, self.max_prefill_tokens as u64);
            error.append("], got ");
            push_decimal(&mut error, len as u64);
            return Err(error);
        }
        if !self.input_data.contains_key(&compiled.prompt_hlir) {
            let mut error = "Qwen3.5 prompt input NodeIndex(".to_owned();
            push_decimal(&mut error, compiled.prompt_hlir as u64);
            error.append(") was not set");
            return Err(error);
        }
        if input_ids.len() != len {
            return Err("Qwen3.5 prompt data/shape mismatch".to_owned());
        }
        self.session.prefill(input_ids, request, response)
    }

    /// What is wrong with the reply to the request for the next step, which was
    /// for `prompt_len` tokens if it was the prompt.
    pub open spec fn reply_fault(self, prompt_len: usize, response: Seq<u8>) -> Option<Seq<char>> {
        if self.started {
            self.session.decode_fault(response)
        } else {
            Qwen35Session::prefill_fault(prompt_len as nat, response)
        }
    }

    /// Takes in the reply to the request for the next step, which was for
    /// `prompt_len` tokens if it was the prompt, and stores the token's number in
    /// the output.
    pub fn execute_reply(
        &mut self,
        prompt_len: usize,
        response: &Vec<u8>,
        output: &mut Vec<u8>,
    ) -> (r: Result<Qwen35Token, String>)
        requires
            old(self).wf(),
            old(self).compiled is Some,
            !old(self).started ==> 2 <= prompt_len <= MAX_PREFILL_TOKENS,
            old(self).started ==> old(self).session.decode_refusal() is None,
            24 <= response@.len(),
            4 <= old(output).len(),
        ensures
            final(self).wf(),
            match r {
                Ok(token) => {
                    &&& old(self).reply_fault(prompt_len, response@) is None
                    &&& token == reply_token(response@)
                    &&& final(self).started
                    &&& final(self).last_token == Some(token)
                    &&& final(self).session == (if old(self).started {
                        old(self).session.decoded()
                    } else {
                        old(self).session.prefilled(prompt_len)
                    })
                    &&& *final(self) == (Qwen35Runtime {
                        session: final(self).session,
                        started: true,
                        last_token: Some(token),
                        ..*old(self)
                    })
                    &&& final(output)@ == with_u32(old(output)@, 0, token.id)
                },
                Err(error) => {
                    &&& old(self).reply_fault(prompt_len, response@) == Some(error@)
                    &&& *final(self) == *old(self)
                    &&& *final(output) == *old(output)
                },
            },
    {
        let reply = if self.started {
            self.session.decode_reply(response)
        } else {
            self.session.prefill_reply(prompt_len, response)
        };
        let token = reply?;
        self.started = true;
        self.last_token = Some(token);
        write_u32(output, 0, token.id);
        Ok(token)
    }
}

/// Once the first step of a loaded graph has processed the prompt, every later
/// one generates a token, whatever the prompt then is, until the cache is full;
/// and the graph's output can be read.
pub proof fn law_prompt_first_then_one_token_a_step<E: Copy, D>(
    before: Qwen35Runtime<E, D>,
    after: Qwen35Runtime<E, D>,
    prompt_len: usize,
    steps: nat,
    token: Qwen35Token,
)
    requires
        before.wf(),
        !before.started,
        before.compiled is Some,
        2 <= prompt_len <= before.max_prefill_tokens,
        prompt_len + steps <= MAX_DECODE_CONTEXT,
        after == (Qwen35Runtime {
            session: before.session.prefilled(prompt_len).decoded_times(steps),
            started: true,
            last_token: Some(token),
            ..before
        }),
    ensures
        after.session.cache_len == prompt_len + steps,
        forall|ids: Seq<i32>, len: Option<usize>, bytes: nat| #[trigger]
            after.refusal(len, ids, bytes) is None <==> prompt_len + steps < MAX_DECODE_CONTEXT,
        after.read_error(after.compiled->Some_0.output_hlir) is None,
{
    law_generation_counts_up(before.session, prompt_len, steps);
}

/// What is read as the graph's output after a step is the number of the step's
/// token.
pub proof fn law_output_holds_the_last_token(output: Seq<u8>, token: Qwen35Token)
    requires
        4 <= output.len(),
    ensures
        as_signed(le_u32(with_u32(output, 0, token.id), 0)) == as_signed(token.id),
{
    law_read_gives_what_was_written(output, 0, token.id);
}

/// Whether a graph is one model step: `step` is its only operation and reads one
/// tensor of the host, `prompt`, and every node was lowered.
pub open spec fn is_one_step<E: Copy>(
    graph: LlirGraph<Qwen35Q4Step<E>>,
    step: usize,
    prompt: usize,
) -> bool {
    &&& step < graph.nodes@.len()
    &&& prompt < graph.nodes@.len()
    &&& graph.nodes@[step as int] is Op
    &&& graph.nodes@[prompt as int] is Input
    &&& graph.sources(step) == seq![prompt]
    &&& forall|node: usize|
        node < graph.nodes@.len() ==> match #[trigger] graph.nodes@[node as int] {
            GraphNode::Op(_) => node == step,
            GraphNode::Unlowered => false,
            GraphNode::Output { .. } => graph.sources(node).len() > 0,
            GraphNode::Input { .. } => true,
        }
}

/// What compiles is one model step: the prompt is the host tensor that the step
/// reads, its length is the one that the step has, and the token goes to an output
/// that reads the step.
pub proof fn law_compiled_graphs_are_one_step<E: Copy>(
    graph: LlirGraph<Qwen35Q4Step<E>>,
    compiled: CompiledQwen<E>,
)
    requires
        graph.wf(),
        call_ensures(compile_graph::<E>, (&graph,), Ok(compiled)),
    ensures
        exists|step: usize, prompt: usize, output: usize|
            {
                &&& #[trigger] is_one_step(graph, step, prompt)
                &&& graph.nodes@[prompt as int]->Input_hlir == compiled.prompt_hlir
                &&& graph.nodes@[step as int]->Op_0.prompt_len == compiled.prompt_len
                &&& #[trigger] is_output_of(graph, output, step)
                &&& graph.nodes@[output as int]->Output_hlir == compiled.output_hlir
            },
{
    let order = graph.order()->Some_0;
    let count = order.len();
    let step = graph.step_before(order, count)->Some_0;
    let output = graph.output_before(order, count)->Some_0;
    lemma_step_before(graph, order, count);
    lemma_output_before(graph, order, count);
    let at = choose|at: int|
        0 <= at < count && #[trigger] order[at] == step && graph.nodes@[step as int] is Op;
    assert(graph.qwen_fault_at(order, at) is None);
    let prompt = graph.sources(step)[0];
    assert(graph.sources(step) =~= seq![prompt]);
    law_arguments_come_first(graph, order, at, 0);
    assert forall|node: usize| node < graph.nodes@.len() implies match #[trigger] graph.nodes@[node as int] {
        GraphNode::Op(_) => node == step,
        GraphNode::Unlowered => false,
        GraphNode::Output { .. } => graph.sources(node).len() > 0,
        GraphNode::Input { .. } => true,
    } by {
        lemma_order_names_every_node(graph.nodes@.len(), order, node);
        let place = choose|place: int| 0 <= place < order.len() && #[trigger] order[place] == node;
        assert(graph.qwen_fault_at(order, place) is None);
        if graph.nodes@[node as int] is Op {
            lemma_one_step(graph, order, count, place);
        }
    }
    let to = choose|to: int|
        0 <= to < count && #[trigger] order[to] == output && graph.nodes@[output as int] is Output;
    assert(graph.qwen_fault_at(order, to) is None);
    assert(is_one_step(graph, step, prompt));
    assert(is_output_of(graph, output, step));
}

/// Whether a node is an output that reads the step.
pub open spec fn is_output_of<E: Copy>(
    graph: LlirGraph<Qwen35Q4Step<E>>,
    output: usize,
    step: usize,
) -> bool {
    &&& output < graph.nodes@.len()
    &&& graph.nodes@[output as int] is Output
    &&& graph.sources(output).len() > 0
    &&& graph.sources(output)[0] == step
}

/// A graph that is one model step, with an output that reads it and no other
/// output, is compiled, unless it has a cycle.
pub proof fn law_one_step_is_compiled<E: Copy>(
    graph: LlirGraph<Qwen35Q4Step<E>>,
    step: usize,
    prompt: usize,
    output: usize,
    r: Result<CompiledQwen<E>, QwenGraphError>,
)
    requires
        graph.wf(),
        graph.order() is Some,
        call_ensures(compile_graph::<E>, (&graph,), r),
        is_one_step(graph, step, prompt),
        is_output_of(graph, output, step),
        forall|node: usize|
            node < graph.nodes@.len() && #[trigger] graph.nodes@[node as int] is Output ==> node
                == output,
    ensures
        r matches Ok(compiled) && compiled.prompt_hlir == graph.nodes@[prompt as int]->Input_hlir
            && compiled.output_hlir == graph.nodes@[output as int]->Output_hlir
            && compiled.prompt_len == graph.nodes@[step as int]->Op_0.prompt_len,
{
    let order = graph.order()->Some_0;
    let count = order.len();
    lemma_step_before(graph, order, count);
    lemma_output_before(graph, order, count);
    lemma_order_names_every_node(graph.nodes@.len(), order, step);
    lemma_order_names_every_node(graph.nodes@.len(), order, output);
    assert(graph.step_before(order, count) == Some(step));
    assert(graph.output_before(order, count) == Some(output));
    assert forall|at: int| 0 <= at < count implies #[trigger] graph.qwen_fault_at(order, at) is None by {
        let node = order[at];
        assert(node < graph.nodes@.len());
        assert(graph.nodes@[node as int] is Op ==> node == step);
        if graph.nodes@[node as int] is Op {
            lemma_step_before(graph, order, at as nat);
            if let Some(earlier) = graph.step_before(order, at as nat) {
                let place = choose|place: int|
                    0 <= place < at && #[trigger] order[place] == earlier
                        && graph.nodes@[earlier as int] is Op;
                assert(earlier < graph.nodes@.len());
                assert(order[place] != order[at]);
            }
        }
    }
}

proof fn lemma_step_before<E: Copy>(
    graph: LlirGraph<Qwen35Q4Step<E>>,
    order: Seq<usize>,
    count: nat,
)
    requires
        count <= order.len(),
    ensures
        match graph.step_before(order, count) {
            Some(step) => exists|at: int|
                0 <= at < count && #[trigger] order[at] == step && graph.nodes@[step as int] is Op,
            None => forall|at: int|
                0 <= at < count ==> !(graph.nodes@[#[trigger] order[at] as int] is Op),
        },
    decreases count,
{
    if count > 0 {
        lemma_step_before(graph, order, (count - 1) as nat);
        assert(order[count - 1] == order[count - 1]);
    }
}

proof fn lemma_output_before<E: Copy>(
    graph: LlirGraph<Qwen35Q4Step<E>>,
    order: Seq<usize>,
    count: nat,
)
    requires
        count <= order.len(),
    ensures
        match graph.output_before(order, count) {
            Some(output) => exists|at: int|
                0 <= at < count && #[trigger] order[at] == output
                    && graph.nodes@[output as int] is Output,
            None => forall|at: int|
                0 <= at < count ==> !(graph.nodes@[#[trigger] order[at] as int] is Output),
        },
    decreases count,
{
    if count > 0 {
        lemma_output_before(graph, order, (count - 1) as nat);
        assert(order[count - 1] == order[count - 1]);
    }
}

proof fn lemma_one_step<E: Copy>(
    graph: LlirGraph<Qwen35Q4Step<E>>,
    order: Seq<usize>,
    count: nat,
    at: int,
)
    requires
        count <= order.len(),
        0 <= at < count,
        graph.nodes@[order[at] as int] is Op,
        graph.qwen_sound_before(order, count as int),
    ensures
        graph.step_before(order, count) == Some(order[at]),
    decreases count,
{
    if at < count - 1 {
        assert(graph.qwen_sound_before(order, count - 1));
        lemma_one_step(graph, order, (count - 1) as nat, at);
        assert(graph.qwen_fault_at(order, count - 1) is None);
    }
}

} // verus!
