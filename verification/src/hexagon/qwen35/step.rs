//! The resident model step of a graph.

use vstd::prelude::*;

use crate::dtype::DType;

verus! {

/// A resident model step whose prompt has this many tokens.
#[derive(Clone, Debug)]
pub struct Qwen35Q4Step<E> {
    pub prompt_len: E,
}

/// Why a tensor is no prompt.
#[derive(Clone, Copy, PartialEq, Eq, Structural, Debug)]
pub enum PromptError {
    /// It holds no integers.
    NotInt(DType),
    /// It has not exactly one dimension.
    NotOneDimensional(usize),
}

impl<E: Copy> Qwen35Q4Step<E> {
    /// A step whose prompt has this many tokens.
    pub fn new(prompt_len: E) -> (r: Self)
        ensures
            r.prompt_len == prompt_len,
    {
        Qwen35Q4Step { prompt_len }
    }

    /// The number of tokens of the prompt.
    pub fn prompt_len(&self) -> (r: E)
        ensures
            r == self.prompt_len,
    {
        self.prompt_len
    }
}

/// A model step in a graph: what it reads and what it gives.
pub struct StepNode<E, T> {
    pub step: Qwen35Q4Step<E>,
    /// The one tensor that the step reads.
    pub prompt: T,
    /// The number of elements that the step gives.
    pub output_elements: usize,
    /// The type of the elements that the step gives.
    pub output_dtype: DType,
}

/// The model step for a prompt of this type and shape. The prompt must be a
/// one-dimensional list of token numbers; the step reads it alone and gives one
/// token number.
pub fn qwen35_q4_step<E: Copy, T>(prompt: T, dtype: DType, shape: &Vec<E>) -> (r: Result<
    StepNode<E, T>,
    PromptError,
>)
    ensures
        match r {
            Ok(node) => {
                &&& dtype is Int
                &&& shape@.len() == 1
                &&& node.step.prompt_len == shape@[0]
                &&& node.prompt == prompt
                &&& node.output_elements == 1
                &&& node.output_dtype is Int
            },
            Err(PromptError::NotInt(found)) => !(dtype is Int) && found == dtype,
            Err(PromptError::NotOneDimensional(rank)) => dtype is Int && rank == shape@.len()
                && rank != 1,
        },
{
    if dtype != DType::Int {
        return Err(PromptError::NotInt(dtype));
    }
    if shape.len() != 1 {
        return Err(PromptError::NotOneDimensional(shape.len()));
    }
    Ok(
        StepNode {
            step: Qwen35Q4Step::new(shape[0]),
            prompt,
            output_elements: 1,
            output_dtype: DType::Int,
        },
    )
}

/// Exactly lists of integers are prompts; the step then reads the tensor that was
/// given, knows its length, and gives one integer, whatever the prompt.
pub proof fn law_lists_of_integers_are_prompts<E: Copy, T>(
    prompt: T,
    dtype: DType,
    shape: Vec<E>,
    r: Result<StepNode<E, T>, PromptError>,
    len: E,
)
    requires
        call_ensures(qwen35_q4_step::<E, T>, (prompt, dtype, &shape), r),
    ensures
        r is Ok <==> dtype == DType::Int && shape@.len() == 1,
        r matches Ok(node) ==> node.prompt == prompt && (call_ensures(
            Qwen35Q4Step::<E>::prompt_len,
            (&node.step,),
            len,
        ) ==> shape@ == seq![len]) && node.output_elements == 1 && node.output_dtype
            == DType::Int,
{
    if r is Ok {
        assert(shape@ =~= seq![shape@[0]]);
    }
}

} // verus!
