//! The operations of the Hexagon dialect.

use vstd::prelude::*;
use vstd::std_specs::cmp::PartialEqSpec;

use crate::dtype::DType;
use crate::program::GraphOp;

verus! {

/// The schedule selected for the first HTP GEMM kernel.
///
/// Both variants implement the same I8 x I8 -> I32 contract. Keeping the choice
/// among the rewrite rules lets the search measure it on the target instead of
/// baking a host-side architecture heuristic into the runtime.
#[derive(Clone, Copy, PartialEq, Eq, Structural, Debug)]
pub enum MatmulVariant {
    Scalar,
    Hvx,
}

impl MatmulVariant {
    /// The number that stands for the schedule.
    pub open spec fn code(self) -> int {
        match self {
            MatmulVariant::Scalar => 0,
            MatmulVariant::Hvx => 1,
        }
    }

    /// The number that stands for the schedule.
    pub fn to_i64(self) -> (r: i64)
        ensures
            r == self.code(),
    {
        match self {
            MatmulVariant::Scalar => 0,
            MatmulVariant::Hvx => 1,
        }
    }

    /// The schedule that a number stands for.
    pub fn from_i64(value: i64) -> (r: Option<Self>)
        ensures
            match r {
                Some(variant) => variant.code() == value,
                None => value != 0 && value != 1,
            },
    {
        match value {
            0 => Some(MatmulVariant::Scalar),
            1 => Some(MatmulVariant::Hvx),
            _ => None,
        }
    }
}

/// An elementwise function of two single-precision arguments.
#[derive(Clone, Copy, PartialEq, Eq, Structural, Debug)]
pub enum BinaryOp {
    AddF32,
    MulF32,
}

impl BinaryOp {
    /// The name of the function.
    pub open spec fn text(self) -> Seq<char> {
        match self {
            BinaryOp::AddF32 => "AddF32"@,
            BinaryOp::MulF32 => "MulF32"@,
        }
    }

    /// The name of the function.
    pub fn name(self) -> (r: &'static str)
        ensures
            r@ == self.text(),
    {
        match self {
            BinaryOp::AddF32 => "AddF32",
            BinaryOp::MulF32 => "MulF32",
        }
    }
}

/// Applies a function to every pair of elements.
#[derive(Clone, Debug)]
pub struct HexagonBinary<E> {
    pub function: BinaryOp,
    pub shape: Vec<E>,
    pub a_strides: Vec<E>,
    pub b_strides: Vec<E>,
    pub output_strides: Vec<E>,
}

/// Multiplies an `m` by `k` matrix with the transpose of an `n` by `k` matrix.
#[derive(Clone, Debug)]
pub struct HexagonMatmulI8<E> {
    pub m: E,
    pub n: E,
    pub k: E,
    pub variant: MatmulVariant,
}

/// An extracted operation for the direct Hexagon dispatcher. Pattern matches
/// that create this dialect live in the rewrite rules; the runtime only
/// validates the resulting layout and dispatches the selected kernel.
#[derive(Clone, Debug)]
pub enum HexagonKernelOp<E> {
    Binary(HexagonBinary<E>),
    MatmulI8(HexagonMatmulI8<E>),
}

/// Dispatch information carried by an extracted Hexagon op.
#[derive(Clone, Copy)]
pub enum HexagonDispatch<E> {
    F32(BinaryOp),
    MatmulI8 { m: E, n: E, k: E, variant: MatmulVariant },
}

/// The number of elements of a result.
pub enum HexagonSize<'a, E> {
    /// The product of the extents, at least one.
    ProductOrOne(&'a Vec<E>),
    /// The product of two extents, at least one.
    PairOrOne(&'a E, &'a E),
}

/// Whether two lists of expressions are equal, one by one.
pub open spec fn same_list<E: PartialEq>(a: Seq<E>, b: Seq<E>) -> bool {
    a.len() == b.len() && forall|i: int| 0 <= i < a.len() ==> (#[trigger] a[i]).eq_spec(&b[i])
}

fn lists_equal<E: PartialEq>(a: &Vec<E>, b: &Vec<E>) -> (r: bool)
    ensures
        E::obeys_eq_spec() ==> r == same_list(a@, b@),
{
    if a.len() != b.len() {
        return false;
    }
    for i in 0..a.len()
        invariant
            a@.len() == b@.len(),
            E::obeys_eq_spec() ==> forall|j: int|
                0 <= j < i ==> (#[trigger] a@[j]).eq_spec(&b@[j]),
    {
        if !(a[i] == b[i]) {
            return false;
        }
    }
    true
}

impl<E: Copy + PartialEq> HexagonKernelOp<E> {
    /// The number of elements of the result.
    pub open spec fn result_size(&self) -> HexagonSize<'_, E> {
        match self {
            HexagonKernelOp::Binary(op) => HexagonSize::ProductOrOne(&op.shape),
            HexagonKernelOp::MatmulI8(op) => HexagonSize::PairOrOne(&op.m, &op.n),
        }
    }

    /// The number of elements of the result.
    pub fn output_size(&self) -> (r: HexagonSize<'_, E>)
        ensures
            r == self.result_size(),
    {
        match self {
            HexagonKernelOp::Binary(op) => HexagonSize::ProductOrOne(&op.shape),
            HexagonKernelOp::MatmulI8(op) => HexagonSize::PairOrOne(&op.m, &op.n),
        }
    }

    /// What is dispatched for the operation.
    pub open spec fn dispatched(self) -> HexagonDispatch<E> {
        match self {
            HexagonKernelOp::Binary(op) => HexagonDispatch::F32(op.function),
            HexagonKernelOp::MatmulI8(op) => HexagonDispatch::MatmulI8 {
                m: op.m,
                n: op.n,
                k: op.k,
                variant: op.variant,
            },
        }
    }

    /// What is dispatched for the operation.
    pub fn dispatch(&self) -> (r: HexagonDispatch<E>)
        ensures
            r == self.dispatched(),
    {
        match self {
            HexagonKernelOp::Binary(op) => HexagonDispatch::F32(op.function),
            HexagonKernelOp::MatmulI8(op) => HexagonDispatch::MatmulI8 {
                m: op.m,
                n: op.n,
                k: op.k,
                variant: op.variant,
            },
        }
    }

    /// Whether both arguments are laid out as the result is.
    pub open spec fn contiguous(self) -> bool {
        match self {
            HexagonKernelOp::Binary(op) => same_list(op.a_strides@, op.output_strides@)
                && same_list(op.b_strides@, op.output_strides@),
            HexagonKernelOp::MatmulI8(_) => true,
        }
    }

    /// Whether both arguments are laid out as the result is: the backend uses
    /// one contiguous vector stream per input.
    pub fn is_contiguous(&self) -> (r: bool)
        ensures
            E::obeys_eq_spec() ==> r == self.contiguous(),
    {
        match self {
            HexagonKernelOp::Binary(op) => lists_equal(&op.a_strides, &op.output_strides)
                && lists_equal(&op.b_strides, &op.output_strides),
            HexagonKernelOp::MatmulI8(_) => true,
        }
    }

    /// The type that both arguments must have.
    pub open spec fn argument_type(self) -> DType {
        match self {
            HexagonKernelOp::Binary(_) => DType::F32,
            HexagonKernelOp::MatmulI8(_) => DType::I8,
        }
    }

    /// The type that both arguments must have.
    pub fn argument_dtype(&self) -> (r: DType)
        ensures
            r == self.argument_type(),
    {
        match self {
            HexagonKernelOp::Binary(_) => DType::F32,
            HexagonKernelOp::MatmulI8(_) => DType::I8,
        }
    }
}

/// What can be wrong with a Hexagon operation.
#[derive(Clone, Copy, PartialEq, Eq, Structural, Debug)]
pub enum HexagonFault {
    /// The operation at this node has not two arguments laid out as its result.
    Layout(usize),
    /// The arguments of the operation at this node have not the type it takes.
    Types(usize),
}

/// What is known of the DSP: it is the v73 slice.
#[derive(Clone, Copy, PartialEq, Eq, Structural, Debug)]
pub struct HexagonV73;

impl<E: Copy + PartialEq> GraphOp for HexagonKernelOp<E> {
    type Fault = HexagonFault;

    type Device = HexagonV73;

    open spec fn lawful() -> bool {
        E::obeys_eq_spec()
    }

    open spec fn result_dtype(&self, inputs: Seq<DType>) -> DType {
        match self {
            HexagonKernelOp::Binary(_) => DType::F32,
            HexagonKernelOp::MatmulI8(_) => DType::Int,
        }
    }

    open spec fn operand_fault(&self, node: usize, count: nat) -> Option<HexagonFault> {
        if count != 2 || !self.contiguous() {
            Some(HexagonFault::Layout(node))
        } else {
            None
        }
    }

    open spec fn type_fault(
        &self,
        node: usize,
        device: HexagonV73,
        inputs: Seq<DType>,
    ) -> Option<HexagonFault> {
        if exists|i: int| 0 <= i < inputs.len() && #[trigger] inputs[i] != self.argument_type() {
            Some(HexagonFault::Types(node))
        } else {
            None
        }
    }

    fn infer_dtype(&self, inputs: &Vec<DType>) -> DType {
        match self {
            HexagonKernelOp::Binary(_) => DType::F32,
            HexagonKernelOp::MatmulI8(_) => DType::Int,
        }
    }

    fn check_operands(&self, node: usize, count: usize) -> Option<HexagonFault> {
        if count != 2 || !self.is_contiguous() {
            Some(HexagonFault::Layout(node))
        } else {
            None
        }
    }

    fn check_types(&self, node: usize, device: &HexagonV73, inputs: &Vec<DType>) -> Option<
        HexagonFault,
    > {
        let wanted = self.argument_dtype();
        for i in 0..inputs.len()
            invariant
                wanted == self.argument_type(),
                forall|j: int| 0 <= j < i ==> #[trigger] inputs@[j] == wanted,
        {
            if inputs[i] != wanted {
                return Some(HexagonFault::Types(node));
            }
        }
        None
    }
}

/// Schedules and their numbers stand for each other: every schedule is found again
/// from its number, different schedules have different numbers, and no other number
/// stands for a schedule.
pub proof fn law_schedules_are_found_by_number(
    variant: MatmulVariant,
    other: MatmulVariant,
    number: i64,
    other_number: i64,
    found: Option<MatmulVariant>,
    asked: i64,
    given: Option<MatmulVariant>,
)
    requires
        call_ensures(MatmulVariant::to_i64, (variant,), number),
        call_ensures(MatmulVariant::to_i64, (other,), other_number),
        call_ensures(MatmulVariant::from_i64, (number,), found),
        call_ensures(MatmulVariant::from_i64, (asked,), given),
    ensures
        found == Some(variant),
        number == other_number ==> variant == other,
        given is Some <==> asked == 0 || asked == 1,
        given == Some(variant) ==> asked == number,
{
}

} // verus!
