//! The operations of the OpenCL dialect: their element types, their kernels
//! and how those are launched.
//!
//! Shapes, strides and sizes are symbolic expressions of a type `E` that is
//! only carried. [`OpenClKernelOp::index_exprs`] lists the expressions whose
//! OpenCL text a kernel needs, and [`OpenClKernelOp::compile`] takes the texts.
//! [`OpenClKernelOp::launch_counts`] lists the expressions whose value a launch
//! needs, and [`OpenClKernelOp::launches`] takes the values.

use vstd::prelude::*;
use vstd::string::StringExecFns;

use crate::dtype::DType;
use crate::opencl::dialect::{
    binary_values, buffer_type, buffer_type_text, call, call_text, cast_value, cast_value_text,
    element_text, exact_read, header_text, infix, infix_text, numeric_read, numeric_read_text,
    numeric_write, numeric_write_text, operand, operand_text, source_header, storable, KernelError,
    FP16_PRAGMA,
};
use crate::opencl::templates::{
    binary_parts, cast_parts, constant_parts, gather_parts, iota_parts, less_than_parts,
    matmul_parts, max_parts, scatter_parts, sum_parts, unary_parts, write_binary, write_cast,
    write_constant, write_gather, write_iota, write_less_than, write_matmul, write_max,
    write_scatter, write_sum, write_unary, BINARY_KERNEL, CAST_KERNEL, CONSTANT_KERNEL,
    GATHER_KERNEL, IOTA_KERNEL, KERNEL_KEYWORD, LESS_THAN_KERNEL, MATMUL_KERNEL, MAX_KERNEL, PARAMETERS_OPEN, SCATTER_COPY_KERNEL,
    SCATTER_WRITE_KERNEL, SUM_KERNEL, UNARY_KERNEL,
};
use crate::text::{
    contains_text, hex_word, hex_word_text, joined, lemma_first_part_is_prefix,
    lemma_three_parts_occur, texts,
};

verus! {

/// A function of one argument.
#[derive(Clone, Copy, PartialEq, Eq, Structural, Debug)]
pub enum UnaryFunction {
    Exp2,
    Log2,
    Sin,
    Sqrt,
    Recip,
}

/// A function of two arguments.
#[derive(Clone, Copy, PartialEq, Eq, Structural, Debug)]
pub enum BinaryFunction {
    Add,
    Mul,
    Mod,
}

/// Applies a function of one argument to every element.
#[derive(Clone, Debug)]
pub struct OpenClUnary<E> {
    pub function: UnaryFunction,
    pub shape: Vec<E>,
    pub input_strides: Vec<E>,
    pub output_strides: Vec<E>,
}

/// Applies a function of two arguments to every pair of elements.
#[derive(Clone, Debug)]
pub struct OpenClBinary<E> {
    pub function: BinaryFunction,
    pub shape: Vec<E>,
    pub a_strides: Vec<E>,
    pub b_strides: Vec<E>,
    pub output_strides: Vec<E>,
}

/// Compares every pair of elements.
#[derive(Clone, Debug)]
pub struct OpenClLessThan<E> {
    pub shape: Vec<E>,
    pub a_strides: Vec<E>,
    pub b_strides: Vec<E>,
    pub output_strides: Vec<E>,
}

/// Sums along one dimension.
#[derive(Clone, Debug)]
pub struct OpenClSumReduce<E> {
    pub out_shape: Vec<E>,
    pub iters: E,
    pub input_strides: Vec<E>,
    pub iter_stride: E,
    pub output_strides: Vec<E>,
}

/// Takes the maximum along one dimension.
#[derive(Clone, Debug)]
pub struct OpenClMaxReduce<E> {
    pub out_shape: Vec<E>,
    pub iters: E,
    pub input_strides: Vec<E>,
    pub iter_stride: E,
    pub output_strides: Vec<E>,
}

/// Fuses the primitive broadcast-multiply plus sum-reduce matmul shape into a
/// single OpenCL kernel.
#[derive(Clone, Debug)]
pub struct OpenClMatmul<E> {
    pub out_shape: Vec<E>,
    pub mul_shape: Vec<E>,
    pub k: E,
    pub lhs_strides: Vec<E>,
    pub rhs_strides: Vec<E>,
    pub sum_input_strides: Vec<E>,
    pub sum_iter_stride: E,
    pub out_strides: Vec<E>,
}

/// Stores one single-precision number, given by its bits.
#[derive(Clone, Debug)]
pub struct OpenClConstant {
    pub bits: u32,
}

/// Stores a function of the element number.
#[derive(Clone, Debug)]
pub struct OpenClIota<E> {
    pub expression: E,
    pub range: E,
}

/// Reads elements by index.
#[derive(Clone, Debug)]
pub struct OpenClGather<E> {
    pub out_shape: Vec<E>,
    pub index_strides: Vec<E>,
    pub data_shape: Vec<E>,
    pub data_strides: Vec<E>,
    pub out_strides: Vec<E>,
}

/// Copies a tensor and then writes elements by index.
#[derive(Clone, Debug)]
pub struct OpenClScatter<E> {
    pub dest_shape: Vec<E>,
    pub dest_strides: Vec<E>,
    pub index_shape: Vec<E>,
    pub index_strides: Vec<E>,
    pub src_strides: Vec<E>,
    pub out_strides: Vec<E>,
}

/// Converts every element.
#[derive(Clone, Debug)]
pub struct OpenClCast<E> {
    pub size: E,
    pub target_dtype: DType,
}

/// An extracted OpenCL operation. Every pattern match that creates one lives in
/// the rewrite rules; the runtime only compiles and dispatches the operation.
#[derive(Clone, Debug)]
pub enum OpenClKernelOp<E> {
    Unary(OpenClUnary<E>),
    Binary(OpenClBinary<E>),
    LessThan(OpenClLessThan<E>),
    SumReduce(OpenClSumReduce<E>),
    MaxReduce(OpenClMaxReduce<E>),
    Matmul(OpenClMatmul<E>),
    Constant(OpenClConstant),
    Iota(OpenClIota<E>),
    Gather(OpenClGather<E>),
    Scatter(OpenClScatter<E>),
    Cast(OpenClCast<E>),
}

/// An expression whose OpenCL text a kernel needs, and the variable that
/// stands for the element number in it.
pub enum IndexExpr<'a, E> {
    /// The position that an element number has under these strides.
    Flat { shape: &'a Vec<E>, strides: &'a Vec<E>, variable: &'static str },
    /// The expression itself.
    Plain { expr: &'a E, variable: &'static str },
}

/// An expression whose value gives a number of elements.
pub enum SizeExpr<'a, E> {
    /// One element.
    One,
    /// The expression itself.
    Plain(&'a E),
    /// The product of the extents.
    Product(&'a Vec<E>),
    /// The product of the extents, at least one.
    ProductOrOne(&'a Vec<E>),
}

/// A program and the kernels to take from it.
pub struct KernelSource {
    pub text: String,
    pub names: Vec<&'static str>,
}

/// An argument of a kernel.
#[derive(Clone, Copy, PartialEq, Eq, Structural, Debug)]
pub enum KernelArg {
    /// The buffer of the operation's argument with this number.
    Input(usize),
    /// The buffer of the result.
    Output,
    /// The buffer with the values of the dynamic dimensions.
    DynDims,
    /// A number of elements.
    Count(u32),
}

/// One launch of a kernel.
pub struct Launch {
    /// The position of the kernel among those of the operation.
    pub kernel: usize,
    pub args: Vec<KernelArg>,
    pub work_items: usize,
}

/// A launch, as a value.
pub struct LaunchView {
    pub kernel: usize,
    pub args: Seq<KernelArg>,
    pub work_items: usize,
}

impl View for Launch {
    type V = LaunchView;

    open spec fn view(&self) -> LaunchView {
        LaunchView { kernel: self.kernel, args: self.args@, work_items: self.work_items }
    }
}

/// The launches, as values.
pub open spec fn launch_views(launches: Seq<Launch>) -> Seq<LaunchView> {
    launches.map_values(|launch: Launch| launch@)
}

/// What the strings hold.
pub open spec fn owned_texts(parts: Seq<String>) -> Seq<Seq<char>> {
    parts.map_values(|part: String| part@)
}

/// The type of the argument with this number, or a type to take its place.
pub open spec fn argument_dtype(dtypes: Seq<DType>, index: int, otherwise: DType) -> DType {
    if index < dtypes.len() {
        dtypes[index]
    } else {
        otherwise
    }
}

fn argument(dtypes: &Vec<DType>, index: usize, otherwise: DType) -> (r: DType)
    ensures
        r == argument_dtype(dtypes@, index as int, otherwise),
{
    if index < dtypes.len() {
        dtypes[index]
    } else {
        otherwise
    }
}

/// The first type without storage.
pub open spec fn first_unsupported(dtypes: Seq<DType>) -> Option<KernelError>
    decreases dtypes.len(),
{
    if dtypes.len() == 0 {
        None
    } else if !storable(dtypes[0]) {
        Some(KernelError::UnsupportedDType(dtypes[0]))
    } else {
        first_unsupported(dtypes.skip(1))
    }
}

proof fn lemma_first_of_two(a: DType, b: DType)
    ensures
        first_unsupported(seq![a, b]) == (if !storable(a) {
            Some(KernelError::UnsupportedDType(a))
        } else if !storable(b) {
            Some(KernelError::UnsupportedDType(b))
        } else {
            None
        }),
{
    reveal_with_fuel(first_unsupported, 3);
    assert(seq![a, b].skip(1) == seq![b]);
    assert(seq![b].skip(1) == Seq::<DType>::empty());
}

proof fn lemma_first_of_three(a: DType, b: DType, c: DType)
    ensures
        first_unsupported(seq![a, b, c]) == (if !storable(a) {
            Some(KernelError::UnsupportedDType(a))
        } else {
            first_unsupported(seq![b, c])
        }),
{
    assert(seq![a, b, c].skip(1) == seq![b, c]);
}

/// The low 32 bits of a number of elements.
pub open spec fn low_word(n: usize) -> u32 {
    (n as int % 0x1_0000_0000) as u32
}

fn to_word(n: usize) -> (r: u32)
    ensures
        r == low_word(n),
{
    proof {
        let wide = n as u64;
        assert(wide as u32 == wide % 0x1_0000_0000) by (bit_vector);
    }
    n as u64 as u32
}

impl UnaryFunction {
    /// The function of a value.
    pub open spec fn text(self, x: Seq<char>) -> Seq<char> {
        match self {
            UnaryFunction::Exp2 => call_text("exp2"@, x),
            UnaryFunction::Log2 => call_text("log2"@, x),
            UnaryFunction::Sin => call_text("sin"@, x),
            UnaryFunction::Sqrt => call_text("sqrt"@, x),
            UnaryFunction::Recip => "1.0f / ("@ + x + ")"@,
        }
    }

    /// The function of a value.
    pub fn of(self, x: &str) -> (r: String)
        ensures
            r@ == self.text(x@),
    {
        match self {
            UnaryFunction::Exp2 => call("exp2", x),
            UnaryFunction::Log2 => call("log2", x),
            UnaryFunction::Sin => call("sin", x),
            UnaryFunction::Sqrt => call("sqrt", x),
            UnaryFunction::Recip => {
                let mut text = "1.0f / (".to_owned();
                text.append(x);
                text.append(")");
                text
            },
        }
    }
}

impl BinaryFunction {
    /// The function of two values, for a result of the given type.
    pub open spec fn text(self, a: Seq<char>, b: Seq<char>, dtype: DType) -> Seq<char> {
        match self {
            BinaryFunction::Add => infix_text(a, "+"@, b),
            BinaryFunction::Mul => infix_text(a, "*"@, b),
            BinaryFunction::Mod => if dtype is Int {
                infix_text(a, "%"@, b)
            } else {
                "fmod(("@ + a + "), ("@ + b + "))"@
            },
        }
    }

    /// The function of two values, for a result of the given type.
    pub fn of(self, a: &str, b: &str, dtype: DType) -> (r: String)
        ensures
            r@ == self.text(a@, b@, dtype),
    {
        match self {
            BinaryFunction::Add => infix(a, "+", b),
            BinaryFunction::Mul => infix(a, "*", b),
            BinaryFunction::Mod => if dtype == DType::Int {
                infix(a, "%", b)
            } else {
                let mut text = "fmod((".to_owned();
                text.append(a);
                text.append("), (");
                text.append(b);
                text.append("))");
                text
            },
        }
    }
}

impl<E> OpenClKernelOp<E> {
    /// The type of the result.
    pub open spec fn output_dtype(self, inputs: Seq<DType>) -> DType {
        match self {
            OpenClKernelOp::LessThan(_) => DType::Bool,
            OpenClKernelOp::Constant(_) => DType::F32,
            OpenClKernelOp::Iota(_) => DType::Int,
            OpenClKernelOp::Gather(_) => argument_dtype(inputs, 1, DType::F32),
            OpenClKernelOp::Cast(op) => op.target_dtype,
            _ => argument_dtype(inputs, 0, DType::F32),
        }
    }

    /// The type of the result.
    pub fn infer_output_dtype(&self, input_dtypes: &Vec<DType>) -> (r: DType)
        ensures
            r == self.output_dtype(input_dtypes@),
    {
        match self {
            OpenClKernelOp::LessThan(_) => DType::Bool,
            OpenClKernelOp::Constant(_) => DType::F32,
            OpenClKernelOp::Iota(_) => DType::Int,
            OpenClKernelOp::Gather(_) => argument(input_dtypes, 1, DType::F32),
            OpenClKernelOp::Cast(op) => op.target_dtype,
            _ => argument(input_dtypes, 0, DType::F32),
        }
    }

    /// The element types of the buffers that the kernel handles as typed: the
    /// arguments', then the result's.
    pub open spec fn buffer_dtypes(self, inputs: Seq<DType>, output: DType) -> Seq<DType> {
        let first = argument_dtype(inputs, 0, DType::F32);
        match self {
            OpenClKernelOp::Unary(_) => seq![first, output],
            OpenClKernelOp::Binary(_) => seq![first, argument_dtype(inputs, 1, first), output],
            OpenClKernelOp::LessThan(_) => seq![first, argument_dtype(inputs, 1, first), output],
            OpenClKernelOp::SumReduce(_) => seq![first, output],
            OpenClKernelOp::MaxReduce(_) => seq![first, output],
            OpenClKernelOp::Matmul(_) => seq![first, argument_dtype(inputs, 1, first), output],
            OpenClKernelOp::Constant(_) => seq![],
            OpenClKernelOp::Iota(_) => seq![],
            OpenClKernelOp::Gather(_) => seq![argument_dtype(inputs, 1, DType::F32), output],
            OpenClKernelOp::Scatter(_) => seq![first, argument_dtype(inputs, 2, output), output],
            OpenClKernelOp::Cast(_) => seq![first, output],
        }
    }

    /// The element types of the buffers that the kernel handles as typed.
    fn typed_buffers(&self, inputs: &Vec<DType>, output: DType) -> (r: Vec<DType>)
        ensures
            r@ == self.buffer_dtypes(inputs@, output),
    {
        let first = argument(inputs, 0, DType::F32);
        match self {
            OpenClKernelOp::Unary(_) => vec![first, output],
            OpenClKernelOp::Binary(_) => vec![first, argument(inputs, 1, first), output],
            OpenClKernelOp::LessThan(_) => vec![first, argument(inputs, 1, first), output],
            OpenClKernelOp::SumReduce(_) => vec![first, output],
            OpenClKernelOp::MaxReduce(_) => vec![first, output],
            OpenClKernelOp::Matmul(_) => vec![first, argument(inputs, 1, first), output],
            OpenClKernelOp::Constant(_) => Vec::new(),
            OpenClKernelOp::Iota(_) => Vec::new(),
            OpenClKernelOp::Gather(_) => vec![argument(inputs, 1, DType::F32), output],
            OpenClKernelOp::Scatter(_) => vec![first, argument(inputs, 2, output), output],
            OpenClKernelOp::Cast(_) => vec![first, output],
        }
    }

    /// Why no kernel can be written for these types, if so.
    pub open spec fn kernel_error(self, inputs: Seq<DType>, output: DType) -> Option<KernelError> {
        let first = argument_dtype(inputs, 0, DType::F32);
        if self is SumReduce && first is Bool {
            Some(KernelError::BoolSum)
        } else if self is MaxReduce && first is Bool {
            Some(KernelError::BoolMax)
        } else {
            first_unsupported(self.buffer_dtypes(inputs, output))
        }
    }

    /// Why no kernel can be written for these types, if so.
    pub fn check(&self, inputs: &Vec<DType>, output: DType) -> (r: Option<KernelError>)
        ensures
            r == self.kernel_error(inputs@, output),
    {
        let first = argument(inputs, 0, DType::F32);
        if matches!(self, OpenClKernelOp::SumReduce(_)) && first == DType::Bool {
            return Some(KernelError::BoolSum);
        }
        if matches!(self, OpenClKernelOp::MaxReduce(_)) && first == DType::Bool {
            return Some(KernelError::BoolMax);
        }
        let dtypes = self.typed_buffers(inputs, output);
        proof {
            assert(dtypes@.skip(0) == dtypes@);
        }
        for i in 0..dtypes.len()
            invariant
                self.kernel_error(inputs@, output) == first_unsupported(dtypes@.skip(i as int)),
        {
            proof {
                assert(dtypes@.skip(i as int).skip(1) == dtypes@.skip(i + 1));
            }
            if let Err(error) = buffer_type(dtypes[i]) {
                return Some(error);
            }
        }
        None
    }

    /// The expressions whose text the kernel needs, in the order in which they
    /// are written out.
    pub open spec fn needed_exprs(&self) -> Seq<IndexExpr<'_, E>> {
        match self {
            OpenClKernelOp::Unary(op) => seq![
                IndexExpr::Flat { shape: &op.shape, strides: &op.input_strides, variable: "idx" },
                IndexExpr::Flat { shape: &op.shape, strides: &op.output_strides, variable: "idx" },
            ],
            OpenClKernelOp::Binary(op) => seq![
                IndexExpr::Flat { shape: &op.shape, strides: &op.a_strides, variable: "idx" },
                IndexExpr::Flat { shape: &op.shape, strides: &op.b_strides, variable: "idx" },
                IndexExpr::Flat { shape: &op.shape, strides: &op.output_strides, variable: "idx" },
            ],
            OpenClKernelOp::LessThan(op) => seq![
                IndexExpr::Flat { shape: &op.shape, strides: &op.a_strides, variable: "idx" },
                IndexExpr::Flat { shape: &op.shape, strides: &op.b_strides, variable: "idx" },
                IndexExpr::Flat { shape: &op.shape, strides: &op.output_strides, variable: "idx" },
            ],
            OpenClKernelOp::SumReduce(op) => seq![
                IndexExpr::Flat { shape: &op.out_shape, strides: &op.input_strides, variable: "idx" },
                IndexExpr::Flat { shape: &op.out_shape, strides: &op.output_strides, variable: "idx" },
                IndexExpr::Plain { expr: &op.iters, variable: "idx" },
                IndexExpr::Plain { expr: &op.iter_stride, variable: "i" },
            ],
            OpenClKernelOp::MaxReduce(op) => seq![
                IndexExpr::Flat { shape: &op.out_shape, strides: &op.input_strides, variable: "idx" },
                IndexExpr::Flat { shape: &op.out_shape, strides: &op.output_strides, variable: "idx" },
                IndexExpr::Plain { expr: &op.iters, variable: "idx" },
                IndexExpr::Plain { expr: &op.iter_stride, variable: "i" },
            ],
            OpenClKernelOp::Matmul(op) => seq![
                IndexExpr::Flat { shape: &op.out_shape, strides: &op.sum_input_strides, variable: "idx" },
                IndexExpr::Plain { expr: &op.sum_iter_stride, variable: "i" },
                IndexExpr::Flat { shape: &op.mul_shape, strides: &op.lhs_strides, variable: "mul_idx" },
                IndexExpr::Flat { shape: &op.mul_shape, strides: &op.rhs_strides, variable: "mul_idx" },
                IndexExpr::Flat { shape: &op.out_shape, strides: &op.out_strides, variable: "idx" },
                IndexExpr::Plain { expr: &op.k, variable: "idx" },
            ],
            OpenClKernelOp::Constant(_) => seq![],
            OpenClKernelOp::Iota(op) => seq![
                IndexExpr::Plain { expr: &op.expression, variable: "idx" },
            ],
            OpenClKernelOp::Gather(op) => seq![
                IndexExpr::Flat { shape: &op.out_shape, strides: &op.out_strides, variable: "idx" },
                IndexExpr::Flat { shape: &op.out_shape, strides: &op.index_strides, variable: "idx" },
                IndexExpr::Flat { shape: &op.data_shape, strides: &op.data_strides, variable: "gathered_index" },
            ],
            OpenClKernelOp::Scatter(op) => seq![
                IndexExpr::Flat { shape: &op.dest_shape, strides: &op.dest_strides, variable: "idx" },
                IndexExpr::Flat { shape: &op.dest_shape, strides: &op.out_strides, variable: "idx" },
                IndexExpr::Flat { shape: &op.index_shape, strides: &op.index_strides, variable: "idx" },
                IndexExpr::Flat { shape: &op.index_shape, strides: &op.src_strides, variable: "idx" },
            ],
            OpenClKernelOp::Cast(_) => seq![],
        }
    }

    /// The expressions whose text the kernel needs, in the order in which they
    /// are written out.
    pub fn index_exprs(&self) -> (r: Vec<IndexExpr<'_, E>>)
        ensures
            r@ == self.needed_exprs(),
    {
        match self {
            OpenClKernelOp::Unary(op) => vec![
                IndexExpr::Flat { shape: &op.shape, strides: &op.input_strides, variable: "idx" },
                IndexExpr::Flat { shape: &op.shape, strides: &op.output_strides, variable: "idx" },
            ],
            OpenClKernelOp::Binary(op) => vec![
                IndexExpr::Flat { shape: &op.shape, strides: &op.a_strides, variable: "idx" },
                IndexExpr::Flat { shape: &op.shape, strides: &op.b_strides, variable: "idx" },
                IndexExpr::Flat { shape: &op.shape, strides: &op.output_strides, variable: "idx" },
            ],
            OpenClKernelOp::LessThan(op) => vec![
                IndexExpr::Flat { shape: &op.shape, strides: &op.a_strides, variable: "idx" },
                IndexExpr::Flat { shape: &op.shape, strides: &op.b_strides, variable: "idx" },
                IndexExpr::Flat { shape: &op.shape, strides: &op.output_strides, variable: "idx" },
            ],
            OpenClKernelOp::SumReduce(op) => vec![
                IndexExpr::Flat { shape: &op.out_shape, strides: &op.input_strides, variable: "idx" },
                IndexExpr::Flat { shape: &op.out_shape, strides: &op.output_strides, variable: "idx" },
                IndexExpr::Plain { expr: &op.iters, variable: "idx" },
                IndexExpr::Plain { expr: &op.iter_stride, variable: "i" },
            ],
            OpenClKernelOp::MaxReduce(op) => vec![
                IndexExpr::Flat { shape: &op.out_shape, strides: &op.input_strides, variable: "idx" },
                IndexExpr::Flat { shape: &op.out_shape, strides: &op.output_strides, variable: "idx" },
                IndexExpr::Plain { expr: &op.iters, variable: "idx" },
                IndexExpr::Plain { expr: &op.iter_stride, variable: "i" },
            ],
            OpenClKernelOp::Matmul(op) => vec![
                IndexExpr::Flat { shape: &op.out_shape, strides: &op.sum_input_strides, variable: "idx" },
                IndexExpr::Plain { expr: &op.sum_iter_stride, variable: "i" },
                IndexExpr::Flat { shape: &op.mul_shape, strides: &op.lhs_strides, variable: "mul_idx" },
                IndexExpr::Flat { shape: &op.mul_shape, strides: &op.rhs_strides, variable: "mul_idx" },
                IndexExpr::Flat { shape: &op.out_shape, strides: &op.out_strides, variable: "idx" },
                IndexExpr::Plain { expr: &op.k, variable: "idx" },
            ],
            OpenClKernelOp::Constant(_) => Vec::new(),
            OpenClKernelOp::Iota(op) => vec![
                IndexExpr::Plain { expr: &op.expression, variable: "idx" },
            ],
            OpenClKernelOp::Gather(op) => vec![
                IndexExpr::Flat { shape: &op.out_shape, strides: &op.out_strides, variable: "idx" },
                IndexExpr::Flat { shape: &op.out_shape, strides: &op.index_strides, variable: "idx" },
                IndexExpr::Flat { shape: &op.data_shape, strides: &op.data_strides, variable: "gathered_index" },
            ],
            OpenClKernelOp::Scatter(op) => vec![
                IndexExpr::Flat { shape: &op.dest_shape, strides: &op.dest_strides, variable: "idx" },
                IndexExpr::Flat { shape: &op.dest_shape, strides: &op.out_strides, variable: "idx" },
                IndexExpr::Flat { shape: &op.index_shape, strides: &op.index_strides, variable: "idx" },
                IndexExpr::Flat { shape: &op.index_shape, strides: &op.src_strides, variable: "idx" },
            ],
            OpenClKernelOp::Cast(_) => Vec::new(),
        }
    }

    /// The number of elements of the result.
    pub open spec fn result_size(&self) -> SizeExpr<'_, E> {
        match self {
            OpenClKernelOp::Unary(op) => SizeExpr::ProductOrOne(&op.shape),
            OpenClKernelOp::Binary(op) => SizeExpr::ProductOrOne(&op.shape),
            OpenClKernelOp::LessThan(op) => SizeExpr::ProductOrOne(&op.shape),
            OpenClKernelOp::SumReduce(op) => SizeExpr::ProductOrOne(&op.out_shape),
            OpenClKernelOp::MaxReduce(op) => SizeExpr::ProductOrOne(&op.out_shape),
            OpenClKernelOp::Matmul(op) => SizeExpr::ProductOrOne(&op.out_shape),
            OpenClKernelOp::Constant(_) => SizeExpr::One,
            OpenClKernelOp::Iota(op) => SizeExpr::Plain(&op.range),
            OpenClKernelOp::Gather(op) => SizeExpr::ProductOrOne(&op.out_shape),
            OpenClKernelOp::Scatter(op) => SizeExpr::ProductOrOne(&op.dest_shape),
            OpenClKernelOp::Cast(op) => SizeExpr::Plain(&op.size),
        }
    }

    /// The number of elements of the result.
    pub fn output_size(&self) -> (r: SizeExpr<'_, E>)
        ensures
            r == self.result_size(),
    {
        match self {
            OpenClKernelOp::Unary(op) => SizeExpr::ProductOrOne(&op.shape),
            OpenClKernelOp::Binary(op) => SizeExpr::ProductOrOne(&op.shape),
            OpenClKernelOp::LessThan(op) => SizeExpr::ProductOrOne(&op.shape),
            OpenClKernelOp::SumReduce(op) => SizeExpr::ProductOrOne(&op.out_shape),
            OpenClKernelOp::MaxReduce(op) => SizeExpr::ProductOrOne(&op.out_shape),
            OpenClKernelOp::Matmul(op) => SizeExpr::ProductOrOne(&op.out_shape),
            OpenClKernelOp::Constant(_) => SizeExpr::One,
            OpenClKernelOp::Iota(op) => SizeExpr::Plain(&op.range),
            OpenClKernelOp::Gather(op) => SizeExpr::ProductOrOne(&op.out_shape),
            OpenClKernelOp::Scatter(op) => SizeExpr::ProductOrOne(&op.dest_shape),
            OpenClKernelOp::Cast(op) => SizeExpr::Plain(&op.size),
        }
    }
}

impl<E> OpenClUnary<E> {
    /// The parts of the program for these element types and index texts.
    pub open spec fn program_parts(
        self,
        inputs: Seq<DType>,
        output: DType,
        lowered: Seq<Seq<char>>,
    ) -> Seq<Seq<char>> {
        let input = argument_dtype(inputs, 0, DType::F32);
        unary_parts(
            header_text(seq![input, output]),
            buffer_type_text(input),
            buffer_type_text(output),
            lowered[1],
            numeric_write_text(
                output,
                self.function.text(numeric_read_text(input, "input"@, lowered[0])),
            ),
        )
    }

    /// Writes the program.
    fn write(
        &self,
        inputs: &Vec<DType>,
        output: DType,
        lowered: &Vec<String>,
    ) -> (r: Result<String, KernelError>)
        requires
            lowered@.len() == 2,
        ensures
            match r {
                Ok(text) => first_unsupported(
                    seq![argument_dtype(inputs@, 0, DType::F32), output],
                ) is None && text@ == joined(
                    self.program_parts(inputs@, output, owned_texts(lowered@)),
                ),
                Err(error) => first_unsupported(
                    seq![argument_dtype(inputs@, 0, DType::F32), output],
                ) == Some(error),
            },
    {
        let input = argument(inputs, 0, DType::F32);
        proof {
            lemma_first_of_two(input, output);
        }
        let input_ty = buffer_type(input)?;
        let output_ty = buffer_type(output)?;
        let input_value = numeric_read(input, "input", lowered[0].as_str());
        let value = self.function.of(input_value.as_str());
        let value = numeric_write(output, value.as_str());
        let header = source_header(&vec![input, output]);
        Ok(write_unary(header, input_ty, output_ty, lowered[1].as_str(), value.as_str()))
    }
}

impl<E> OpenClBinary<E> {
    /// The parts of the program for these element types and index texts.
    pub open spec fn program_parts(
        self,
        inputs: Seq<DType>,
        output: DType,
        lowered: Seq<Seq<char>>,
    ) -> Seq<Seq<char>> {
        let a = argument_dtype(inputs, 0, DType::F32);
        let b = argument_dtype(inputs, 1, a);
        binary_parts(
            header_text(seq![a, b, output]),
            buffer_type_text(a),
            buffer_type_text(b),
            buffer_type_text(output),
            lowered[2],
            numeric_write_text(
                output,
                self.function.text(
                    operand_text(output, a, "a"@, lowered[0]),
                    operand_text(output, b, "b"@, lowered[1]),
                    output,
                ),
            ),
        )
    }

    /// Writes the program.
    fn write(
        &self,
        inputs: &Vec<DType>,
        output: DType,
        lowered: &Vec<String>,
    ) -> (r: Result<String, KernelError>)
        requires
            lowered@.len() == 3,
        ensures
            match r {
                Ok(text) => first_unsupported(seq![
                    argument_dtype(inputs@, 0, DType::F32),
                    argument_dtype(inputs@, 1, argument_dtype(inputs@, 0, DType::F32)),
                    output,
                ]) is None && text@ == joined(
                    self.program_parts(inputs@, output, owned_texts(lowered@)),
                ),
                Err(error) => first_unsupported(seq![
                    argument_dtype(inputs@, 0, DType::F32),
                    argument_dtype(inputs@, 1, argument_dtype(inputs@, 0, DType::F32)),
                    output,
                ]) == Some(error),
            },
    {
        let a = argument(inputs, 0, DType::F32);
        let b = argument(inputs, 1, a);
        proof {
            lemma_first_of_three(a, b, output);
            lemma_first_of_two(b, output);
        }
        let a_ty = buffer_type(a)?;
        let b_ty = buffer_type(b)?;
        let output_ty = buffer_type(output)?;
        let (a_value, b_value) = binary_values(
            output,
            a,
            b,
            lowered[0].as_str(),
            lowered[1].as_str(),
        );
        let value = self.function.of(a_value.as_str(), b_value.as_str(), output);
        let value = numeric_write(output, value.as_str());
        let header = source_header(&vec![a, b, output]);
        Ok(write_binary(header, a_ty, b_ty, output_ty, lowered[2].as_str(), value.as_str()))
    }
}

impl<E> OpenClLessThan<E> {
    /// The parts of the program for these element types and index texts.
    pub open spec fn program_parts(
        self,
        inputs: Seq<DType>,
        output: DType,
        lowered: Seq<Seq<char>>,
    ) -> Seq<Seq<char>> {
        let a = argument_dtype(inputs, 0, DType::F32);
        let b = argument_dtype(inputs, 1, a);
        less_than_parts(
            header_text(seq![a, b]),
            buffer_type_text(a),
            buffer_type_text(b),
            buffer_type_text(output),
            lowered[2],
            element_text("a"@, lowered[0]),
            element_text("b"@, lowered[1]),
        )
    }

    /// Writes the program.
    fn write(
        &self,
        inputs: &Vec<DType>,
        output: DType,
        lowered: &Vec<String>,
    ) -> (r: Result<String, KernelError>)
        requires
            lowered@.len() == 3,
        ensures
            match r {
                Ok(text) => first_unsupported(seq![
                    argument_dtype(inputs@, 0, DType::F32),
                    argument_dtype(inputs@, 1, argument_dtype(inputs@, 0, DType::F32)),
                    output,
                ]) is None && text@ == joined(
                    self.program_parts(inputs@, output, owned_texts(lowered@)),
                ),
                Err(error) => first_unsupported(seq![
                    argument_dtype(inputs@, 0, DType::F32),
                    argument_dtype(inputs@, 1, argument_dtype(inputs@, 0, DType::F32)),
                    output,
                ]) == Some(error),
            },
    {
        let a = argument(inputs, 0, DType::F32);
        let b = argument(inputs, 1, a);
        proof {
            lemma_first_of_three(a, b, output);
            lemma_first_of_two(b, output);
        }
        let a_ty = buffer_type(a)?;
        let b_ty = buffer_type(b)?;
        let output_ty = buffer_type(output)?;
        let a_value = exact_read(a, "a", lowered[0].as_str());
        let b_value = exact_read(b, "b", lowered[1].as_str());
        let header = source_header(&vec![a, b]);
        Ok(
            write_less_than(
                header,
                a_ty,
                b_ty,
                output_ty,
                lowered[2].as_str(),
                a_value.as_str(),
                b_value.as_str(),
            ),
        )
    }
}

/// The type in which a kernel with this result type accumulates.
pub open spec fn accumulator_text(output: DType) -> Seq<char> {
    if output is Int {
        "int"@
    } else {
        "float"@
    }
}

fn accumulator(output: DType) -> (r: &'static str)
    ensures
        r@ == accumulator_text(output),
{
    if output == DType::Int {
        "int"
    } else {
        "float"
    }
}

/// The value that a sum of this type starts from.
pub open spec fn zero_text(output: DType) -> Seq<char> {
    if output is Int {
        "0"@
    } else {
        "0.0f"@
    }
}

fn zero(output: DType) -> (r: &'static str)
    ensures
        r@ == zero_text(output),
{
    if output == DType::Int {
        "0"
    } else {
        "0.0f"
    }
}

/// The value that a maximum of this type starts from.
pub open spec fn lowest_text(output: DType) -> Seq<char> {
    if output is Int {
        "(-2147483647 - 1)"@
    } else {
        "-INFINITY"@
    }
}

fn lowest(output: DType) -> (r: &'static str)
    ensures
        r@ == lowest_text(output),
{
    if output == DType::Int {
        "(-2147483647 - 1)"
    } else {
        "-INFINITY"
    }
}

/// How a maximum of this type takes in a value.
pub open spec fn max_update_text(output: DType) -> Seq<char> {
    if output is Int {
        "max_value = max(max_value, value);"@
    } else {
        "max_value = fmax(max_value, value);"@
    }
}

fn max_update(output: DType) -> (r: &'static str)
    ensures
        r@ == max_update_text(output),
{
    if output == DType::Int {
        "max_value = max(max_value, value);"
    } else {
        "max_value = fmax(max_value, value);"
    }
}

/// The position of an iteration's element in a reduced tensor.
pub open spec fn iteration_text(offset: Seq<char>) -> Seq<char> {
    "input_start + "@ + offset
}

fn iteration(offset: &str) -> (r: String)
    ensures
        r@ == iteration_text(offset@),
{
    let mut text = "input_start + ".to_owned();
    text.append(offset);
    text
}

impl<E> OpenClSumReduce<E> {
    /// The parts of the program for these element types and index texts.
    pub open spec fn program_parts(
        self,
        inputs: Seq<DType>,
        output: DType,
        lowered: Seq<Seq<char>>,
    ) -> Seq<Seq<char>> {
        let input = argument_dtype(inputs, 0, DType::F32);
        sum_parts(
            header_text(seq![input, output]),
            buffer_type_text(input),
            buffer_type_text(output),
            lowered[0],
            lowered[2],
            accumulator_text(output),
            zero_text(output),
            operand_text(output, input, "input"@, iteration_text(lowered[3])),
            lowered[1],
            numeric_write_text(output, "sum"@),
        )
    }

    /// Writes the program.
    fn write(
        &self,
        inputs: &Vec<DType>,
        output: DType,
        lowered: &Vec<String>,
    ) -> (r: Result<String, KernelError>)
        requires
            lowered@.len() == 4,
        ensures
            match r {
                Ok(text) => first_unsupported(
                    seq![argument_dtype(inputs@, 0, DType::F32), output],
                ) is None && text@ == joined(
                    self.program_parts(inputs@, output, owned_texts(lowered@)),
                ),
                Err(error) => first_unsupported(
                    seq![argument_dtype(inputs@, 0, DType::F32), output],
                ) == Some(error),
            },
    {
        let input = argument(inputs, 0, DType::F32);
        proof {
            lemma_first_of_two(input, output);
        }
        let input_ty = buffer_type(input)?;
        let output_ty = buffer_type(output)?;
        let position = iteration(lowered[3].as_str());
        let input_value = operand(output, input, "input", position.as_str());
        let output_value = numeric_write(output, "sum");
        let header = source_header(&vec![input, output]);
        Ok(
            write_sum(
                header,
                input_ty,
                output_ty,
                lowered[0].as_str(),
                lowered[2].as_str(),
                accumulator(output),
                zero(output),
                input_value.as_str(),
                lowered[1].as_str(),
                output_value.as_str(),
            ),
        )
    }
}

impl<E> OpenClMaxReduce<E> {
    /// The parts of the program for these element types and index texts.
    pub open spec fn program_parts(
        self,
        inputs: Seq<DType>,
        output: DType,
        lowered: Seq<Seq<char>>,
    ) -> Seq<Seq<char>> {
        let input = argument_dtype(inputs, 0, DType::F32);
        max_parts(
            header_text(seq![input, output]),
            buffer_type_text(input),
            buffer_type_text(output),
            lowered[0],
            lowered[2],
            accumulator_text(output),
            lowest_text(output),
            operand_text(output, input, "input"@, iteration_text(lowered[3])),
            max_update_text(output),
            lowered[1],
            numeric_write_text(output, "max_value"@),
        )
    }

    /// Writes the program.
    fn write(
        &self,
        inputs: &Vec<DType>,
        output: DType,
        lowered: &Vec<String>,
    ) -> (r: Result<String, KernelError>)
        requires
            lowered@.len() == 4,
        ensures
            match r {
                Ok(text) => first_unsupported(
                    seq![argument_dtype(inputs@, 0, DType::F32), output],
                ) is None && text@ == joined(
                    self.program_parts(inputs@, output, owned_texts(lowered@)),
                ),
                Err(error) => first_unsupported(
                    seq![argument_dtype(inputs@, 0, DType::F32), output],
                ) == Some(error),
            },
    {
        let input = argument(inputs, 0, DType::F32);
        proof {
            lemma_first_of_two(input, output);
        }
        let input_ty = buffer_type(input)?;
        let output_ty = buffer_type(output)?;
        let position = iteration(lowered[3].as_str());
        let input_value = operand(output, input, "input", position.as_str());
        let output_value = numeric_write(output, "max_value");
        let header = source_header(&vec![input, output]);
        Ok(
            write_max(
                header,
                input_ty,
                output_ty,
                lowered[0].as_str(),
                lowered[2].as_str(),
                accumulator(output),
                lowest(output),
                input_value.as_str(),
                max_update(output),
                lowered[1].as_str(),
                output_value.as_str(),
            ),
        )
    }
}

impl<E> OpenClMatmul<E> {
    /// The parts of the program for these element types and index texts.
    pub open spec fn program_parts(
        self,
        inputs: Seq<DType>,
        output: DType,
        lowered: Seq<Seq<char>>,
    ) -> Seq<Seq<char>> {
        let lhs = argument_dtype(inputs, 0, DType::F32);
        let rhs = argument_dtype(inputs, 1, lhs);
        matmul_parts(
            header_text(seq![lhs, rhs, output]),
            buffer_type_text(lhs),
            buffer_type_text(rhs),
            buffer_type_text(output),
            lowered[0],
            lowered[5],
            accumulator_text(output),
            zero_text(output),
            lowered[1],
            operand_text(output, lhs, "lhs"@, lowered[2]),
            operand_text(output, rhs, "rhs"@, lowered[3]),
            lowered[4],
            numeric_write_text(output, "sum"@),
        )
    }

    /// Writes the program.
    fn write(
        &self,
        inputs: &Vec<DType>,
        output: DType,
        lowered: &Vec<String>,
    ) -> (r: Result<String, KernelError>)
        requires
            lowered@.len() == 6,
        ensures
            match r {
                Ok(text) => first_unsupported(seq![
                    argument_dtype(inputs@, 0, DType::F32),
                    argument_dtype(inputs@, 1, argument_dtype(inputs@, 0, DType::F32)),
                    output,
                ]) is None && text@ == joined(
                    self.program_parts(inputs@, output, owned_texts(lowered@)),
                ),
                Err(error) => first_unsupported(seq![
                    argument_dtype(inputs@, 0, DType::F32),
                    argument_dtype(inputs@, 1, argument_dtype(inputs@, 0, DType::F32)),
                    output,
                ]) == Some(error),
            },
    {
        let lhs = argument(inputs, 0, DType::F32);
        let rhs = argument(inputs, 1, lhs);
        proof {
            lemma_first_of_three(lhs, rhs, output);
            lemma_first_of_two(rhs, output);
        }
        let lhs_ty = buffer_type(lhs)?;
        let rhs_ty = buffer_type(rhs)?;
        let output_ty = buffer_type(output)?;
        let lhs_value = operand(output, lhs, "lhs", lowered[2].as_str());
        let rhs_value = operand(output, rhs, "rhs", lowered[3].as_str());
        let output_value = numeric_write(output, "sum");
        let header = source_header(&vec![lhs, rhs, output]);
        Ok(
            write_matmul(
                header,
                lhs_ty,
                rhs_ty,
                output_ty,
                lowered[0].as_str(),
                lowered[5].as_str(),
                accumulator(output),
                zero(output),
                lowered[1].as_str(),
                lhs_value.as_str(),
                rhs_value.as_str(),
                lowered[4].as_str(),
                output_value.as_str(),
            ),
        )
    }
}

impl OpenClConstant {
    /// The parts of the program.
    pub open spec fn program_parts(self) -> Seq<Seq<char>> {
        constant_parts(hex_word_text(self.bits))
    }
}

impl<E> OpenClIota<E> {
    /// The parts of the program for this index text.
    pub open spec fn program_parts(self, lowered: Seq<Seq<char>>) -> Seq<Seq<char>> {
        iota_parts(lowered[0])
    }
}

impl<E> OpenClGather<E> {
    /// The parts of the program for these element types and index texts.
    pub open spec fn program_parts(
        self,
        inputs: Seq<DType>,
        output: DType,
        lowered: Seq<Seq<char>>,
    ) -> Seq<Seq<char>> {
        let data = argument_dtype(inputs, 1, DType::F32);
        gather_parts(
            header_text(seq![data, output]),
            buffer_type_text(data),
            buffer_type_text(output),
            lowered[1],
            lowered[0],
            element_text("data"@, lowered[2]),
        )
    }

    /// Writes the program.
    fn write(
        &self,
        inputs: &Vec<DType>,
        output: DType,
        lowered: &Vec<String>,
    ) -> (r: Result<String, KernelError>)
        requires
            lowered@.len() == 3,
        ensures
            match r {
                Ok(text) => first_unsupported(seq![argument_dtype(inputs@, 1, DType::F32), output]) is None && text@ == joined(
                    self.program_parts(inputs@, output, owned_texts(lowered@)),
                ),
                Err(error) => first_unsupported(seq![argument_dtype(inputs@, 1, DType::F32), output]) == Some(error),
            },
    {
        let data = argument(inputs, 1, DType::F32);
        proof {
            lemma_first_of_two(data, output);
        }
        let data_ty = buffer_type(data)?;
        let output_ty = buffer_type(output)?;
        let value = exact_read(data, "data", lowered[2].as_str());
        let header = source_header(&vec![data, output]);
        Ok(
            write_gather(
                header,
                data_ty,
                output_ty,
                lowered[1].as_str(),
                lowered[0].as_str(),
                value.as_str(),
            ),
        )
    }
}

impl<E> OpenClScatter<E> {
    /// The parts of the program for these element types and index texts.
    pub open spec fn program_parts(
        self,
        inputs: Seq<DType>,
        output: DType,
        lowered: Seq<Seq<char>>,
    ) -> Seq<Seq<char>> {
        let dest = argument_dtype(inputs, 0, DType::F32);
        let src = argument_dtype(inputs, 2, output);
        scatter_parts(
            header_text(seq![dest, src, output]),
            buffer_type_text(dest),
            buffer_type_text(output),
            lowered[1],
            lowered[0],
            buffer_type_text(src),
            lowered[2],
            lowered[3],
        )
    }

    /// Writes the program.
    fn write(
        &self,
        inputs: &Vec<DType>,
        output: DType,
        lowered: &Vec<String>,
    ) -> (r: Result<String, KernelError>)
        requires
            lowered@.len() == 4,
        ensures
            match r {
                Ok(text) => first_unsupported(seq![
                    argument_dtype(inputs@, 0, DType::F32),
                    argument_dtype(inputs@, 2, output),
                    output,
                ]) is None && text@ == joined(
                    self.program_parts(inputs@, output, owned_texts(lowered@)),
                ),
                Err(error) => first_unsupported(seq![
                    argument_dtype(inputs@, 0, DType::F32),
                    argument_dtype(inputs@, 2, output),
                    output,
                ]) == Some(error),
            },
    {
        let dest = argument(inputs, 0, DType::F32);
        let src = argument(inputs, 2, output);
        proof {
            lemma_first_of_three(dest, src, output);
            lemma_first_of_two(src, output);
        }
        let dest_ty = buffer_type(dest)?;
        let src_ty = buffer_type(src)?;
        let output_ty = buffer_type(output)?;
        let header = source_header(&vec![dest, src, output]);
        Ok(
            write_scatter(
                header,
                dest_ty,
                output_ty,
                lowered[1].as_str(),
                lowered[0].as_str(),
                src_ty,
                lowered[2].as_str(),
                lowered[3].as_str(),
            ),
        )
    }
}

impl<E> OpenClCast<E> {
    /// The parts of the program for these element types.
    pub open spec fn program_parts(self, inputs: Seq<DType>, output: DType) -> Seq<Seq<char>> {
        let input = argument_dtype(inputs, 0, DType::F32);
        cast_parts(
            header_text(seq![input, output]),
            buffer_type_text(input),
            buffer_type_text(output),
            cast_value_text(input, output),
        )
    }

    /// Writes the program.
    fn write(&self, inputs: &Vec<DType>, output: DType) -> (r: Result<String, KernelError>)
        ensures
            match r {
                Ok(text) => first_unsupported(
                    seq![argument_dtype(inputs@, 0, DType::F32), output],
                ) is None && text@ == joined(
                    self.program_parts(inputs@, output),
                ),
                Err(error) => first_unsupported(
                    seq![argument_dtype(inputs@, 0, DType::F32), output],
                ) == Some(error),
            },
    {
        let input = argument(inputs, 0, DType::F32);
        proof {
            lemma_first_of_two(input, output);
        }
        let input_ty = buffer_type(input)?;
        let output_ty = buffer_type(output)?;
        let header = source_header(&vec![input, output]);
        Ok(write_cast(header, input_ty, output_ty, cast_value(input, output)))
    }
}

impl<E> OpenClKernelOp<E> {
    /// The program for these element types and index texts.
    pub open spec fn program(
        self,
        inputs: Seq<DType>,
        output: DType,
        lowered: Seq<Seq<char>>,
    ) -> Seq<char> {
        joined(match self {
            OpenClKernelOp::Unary(op) => op.program_parts(inputs, output, lowered),
            OpenClKernelOp::Binary(op) => op.program_parts(inputs, output, lowered),
            OpenClKernelOp::LessThan(op) => op.program_parts(inputs, output, lowered),
            OpenClKernelOp::SumReduce(op) => op.program_parts(inputs, output, lowered),
            OpenClKernelOp::MaxReduce(op) => op.program_parts(inputs, output, lowered),
            OpenClKernelOp::Matmul(op) => op.program_parts(inputs, output, lowered),
            OpenClKernelOp::Constant(op) => op.program_parts(),
            OpenClKernelOp::Iota(op) => op.program_parts(lowered),
            OpenClKernelOp::Gather(op) => op.program_parts(inputs, output, lowered),
            OpenClKernelOp::Scatter(op) => op.program_parts(inputs, output, lowered),
            OpenClKernelOp::Cast(op) => op.program_parts(inputs, output),
        })
    }

    /// The names of the kernels in the program.
    pub open spec fn kernel_names(self) -> Seq<Seq<char>> {
        match self {
            OpenClKernelOp::Unary(_) => seq![UNARY_KERNEL@],
            OpenClKernelOp::Binary(_) => seq![BINARY_KERNEL@],
            OpenClKernelOp::LessThan(_) => seq![LESS_THAN_KERNEL@],
            OpenClKernelOp::SumReduce(_) => seq![SUM_KERNEL@],
            OpenClKernelOp::MaxReduce(_) => seq![MAX_KERNEL@],
            OpenClKernelOp::Matmul(_) => seq![MATMUL_KERNEL@],
            OpenClKernelOp::Constant(_) => seq![CONSTANT_KERNEL@],
            OpenClKernelOp::Iota(_) => seq![IOTA_KERNEL@],
            OpenClKernelOp::Gather(_) => seq![GATHER_KERNEL@],
            OpenClKernelOp::Scatter(_) => seq![SCATTER_COPY_KERNEL@, SCATTER_WRITE_KERNEL@],
            OpenClKernelOp::Cast(_) => seq![CAST_KERNEL@],
        }
    }

    /// The names of the kernels in the program.
    fn names(&self) -> (r: Vec<&'static str>)
        ensures
            texts(r@) == self.kernel_names(),
    {
        match self {
            OpenClKernelOp::Unary(_) => vec![UNARY_KERNEL],
            OpenClKernelOp::Binary(_) => vec![BINARY_KERNEL],
            OpenClKernelOp::LessThan(_) => vec![LESS_THAN_KERNEL],
            OpenClKernelOp::SumReduce(_) => vec![SUM_KERNEL],
            OpenClKernelOp::MaxReduce(_) => vec![MAX_KERNEL],
            OpenClKernelOp::Matmul(_) => vec![MATMUL_KERNEL],
            OpenClKernelOp::Constant(_) => vec![CONSTANT_KERNEL],
            OpenClKernelOp::Iota(_) => vec![IOTA_KERNEL],
            OpenClKernelOp::Gather(_) => vec![GATHER_KERNEL],
            OpenClKernelOp::Scatter(_) => vec![SCATTER_COPY_KERNEL, SCATTER_WRITE_KERNEL],
            OpenClKernelOp::Cast(_) => vec![CAST_KERNEL],
        }
    }

    /// The program for these element types, given the texts of the index
    /// expressions.
    pub fn compile(
        &self,
        input_dtypes: &Vec<DType>,
        output_dtype: DType,
        lowered: &Vec<String>,
    ) -> (r: Result<KernelSource, KernelError>)
        requires
            lowered@.len() == self.needed_exprs().len(),
        ensures
            match r {
                Ok(source) => {
                    &&& self.kernel_error(input_dtypes@, output_dtype) is None
                    &&& source.text@ == self.program(
                        input_dtypes@,
                        output_dtype,
                        owned_texts(lowered@),
                    )
                    &&& texts(source.names@) == self.kernel_names()
                },
                Err(error) => self.kernel_error(input_dtypes@, output_dtype) == Some(error),
            },
    {
        if let Some(error) = self.check(input_dtypes, output_dtype) {
            return Err(error);
        }
        let text = match self {
            OpenClKernelOp::Unary(op) => op.write(input_dtypes, output_dtype, lowered)?,
            OpenClKernelOp::Binary(op) => op.write(input_dtypes, output_dtype, lowered)?,
            OpenClKernelOp::LessThan(op) => op.write(input_dtypes, output_dtype, lowered)?,
            OpenClKernelOp::SumReduce(op) => op.write(input_dtypes, output_dtype, lowered)?,
            OpenClKernelOp::MaxReduce(op) => op.write(input_dtypes, output_dtype, lowered)?,
            OpenClKernelOp::Matmul(op) => op.write(input_dtypes, output_dtype, lowered)?,
            OpenClKernelOp::Constant(op) => write_constant(hex_word(op.bits).as_str()),
            OpenClKernelOp::Iota(_) => write_iota(lowered[0].as_str()),
            OpenClKernelOp::Gather(op) => op.write(input_dtypes, output_dtype, lowered)?,
            OpenClKernelOp::Scatter(op) => op.write(input_dtypes, output_dtype, lowered)?,
            OpenClKernelOp::Cast(op) => op.write(input_dtypes, output_dtype)?,
        };
        Ok(KernelSource { text, names: self.names() })
    }
}

/// A launch over `n` elements of a kernel that reads one argument.
pub open spec fn one_argument_launch(n: u32) -> LaunchView {
    LaunchView {
        kernel: 0,
        args: seq![KernelArg::Input(0), KernelArg::Output, KernelArg::DynDims, KernelArg::Count(n)],
        work_items: n as usize,
    }
}

/// A launch over `n` elements of a kernel that reads two arguments.
pub open spec fn two_argument_launch(
    kernel: usize,
    first: usize,
    second: usize,
    n: u32,
) -> LaunchView {
    LaunchView {
        kernel,
        args: seq![
            KernelArg::Input(first),
            KernelArg::Input(second),
            KernelArg::Output,
            KernelArg::DynDims,
            KernelArg::Count(n),
        ],
        work_items: n as usize,
    }
}

impl<E> OpenClKernelOp<E> {
    /// The expressions whose values the launches need.
    pub open spec fn needed_counts(&self) -> Seq<SizeExpr<'_, E>> {
        match self {
            OpenClKernelOp::Constant(_) => seq![],
            OpenClKernelOp::Scatter(op) => seq![
                SizeExpr::Product(&op.dest_shape),
                SizeExpr::Product(&op.index_shape),
            ],
            _ => seq![self.result_size()],
        }
    }

    /// The expressions whose values the launches need.
    pub fn launch_counts(&self) -> (r: Vec<SizeExpr<'_, E>>)
        ensures
            r@ == self.needed_counts(),
    {
        match self {
            OpenClKernelOp::Constant(_) => Vec::new(),
            OpenClKernelOp::Scatter(op) => vec![
                SizeExpr::Product(&op.dest_shape),
                SizeExpr::Product(&op.index_shape),
            ],
            _ => vec![self.output_size()],
        }
    }

    /// The launches for these numbers of elements. Nothing is launched over no
    /// elements.
    pub open spec fn launch_plan(self, counts: Seq<usize>) -> Seq<LaunchView> {
        match self {
            OpenClKernelOp::Constant(_) => seq![
                LaunchView { kernel: 0, args: seq![KernelArg::Output], work_items: 1 },
            ],
            OpenClKernelOp::Iota(_) => if low_word(counts[0]) == 0 {
                seq![]
            } else {
                seq![
                    LaunchView {
                        kernel: 0,
                        args: seq![
                            KernelArg::Output,
                            KernelArg::DynDims,
                            KernelArg::Count(low_word(counts[0])),
                        ],
                        work_items: low_word(counts[0]) as usize,
                    },
                ]
            },
            OpenClKernelOp::Unary(_)
            | OpenClKernelOp::SumReduce(_)
            | OpenClKernelOp::MaxReduce(_)
            | OpenClKernelOp::Cast(_) => if low_word(counts[0]) == 0 {
                seq![]
            } else {
                seq![one_argument_launch(low_word(counts[0]))]
            },
            OpenClKernelOp::Binary(_)
            | OpenClKernelOp::LessThan(_)
            | OpenClKernelOp::Matmul(_)
            | OpenClKernelOp::Gather(_) => if counts[0] == 0 {
                seq![]
            } else {
                seq![two_argument_launch(0, 0, 1, low_word(counts[0]))]
            },
            OpenClKernelOp::Scatter(_) => {
                let copy = if low_word(counts[0]) == 0 {
                    seq![]
                } else {
                    seq![one_argument_launch(low_word(counts[0]))]
                };
                if low_word(counts[1]) == 0 {
                    copy
                } else {
                    copy.push(two_argument_launch(1, 1, 2, low_word(counts[1])))
                }
            },
        }
    }

    /// The launches for these numbers of elements.
    pub fn launches(&self, counts: &Vec<usize>) -> (r: Vec<Launch>)
        requires
            counts@.len() == self.needed_counts().len(),
        ensures
            launch_views(r@) == self.launch_plan(counts@),
    {
        match self {
            OpenClKernelOp::Constant(_) => {
                let args = vec![KernelArg::Output];
                assert(args@ == seq![KernelArg::Output]);
                vec![Launch { kernel: 0, args, work_items: 1 }]
            },
            OpenClKernelOp::Iota(_) => {
                let n = to_word(counts[0]);
                let mut launches = Vec::new();
                if n != 0 {
                    let args = vec![KernelArg::Output, KernelArg::DynDims, KernelArg::Count(n)];
                    assert(args@ == seq![
                        KernelArg::Output,
                        KernelArg::DynDims,
                        KernelArg::Count(n),
                    ]);
                    launches.push(Launch { kernel: 0, args, work_items: n as usize });
                }
                launches
            },
            OpenClKernelOp::Unary(_)
            | OpenClKernelOp::SumReduce(_)
            | OpenClKernelOp::MaxReduce(_)
            | OpenClKernelOp::Cast(_) => {
                let n = to_word(counts[0]);
                let mut launches = Vec::new();
                if n != 0 {
                    launches.push(launch_one_argument(n));
                }
                launches
            },
            OpenClKernelOp::Binary(_)
            | OpenClKernelOp::LessThan(_)
            | OpenClKernelOp::Matmul(_)
            | OpenClKernelOp::Gather(_) => {
                let mut launches = Vec::new();
                if counts[0] != 0 {
                    launches.push(launch_two_arguments(0, 0, 1, to_word(counts[0])));
                }
                launches
            },
            OpenClKernelOp::Scatter(_) => {
                let n_dest = to_word(counts[0]);
                let n_src = to_word(counts[1]);
                let mut launches = Vec::new();
                if n_dest > 0 {
                    launches.push(launch_one_argument(n_dest));
                }
                if n_src > 0 {
                    launches.push(launch_two_arguments(1, 1, 2, n_src));
                }
                launches
            },
        }
    }

    /// The number of arguments that the launches read.
    pub open spec fn arity(self) -> nat {
        match self {
            OpenClKernelOp::Constant(_) => 0,
            OpenClKernelOp::Iota(_) => 0,
            OpenClKernelOp::Unary(_)
            | OpenClKernelOp::SumReduce(_)
            | OpenClKernelOp::MaxReduce(_)
            | OpenClKernelOp::Cast(_) => 1,
            OpenClKernelOp::Binary(_)
            | OpenClKernelOp::LessThan(_)
            | OpenClKernelOp::Matmul(_)
            | OpenClKernelOp::Gather(_) => 2,
            OpenClKernelOp::Scatter(_) => 3,
        }
    }
}

fn launch_one_argument(n: u32) -> (r: Launch)
    ensures
        r@ == one_argument_launch(n),
{
    Launch {
        kernel: 0,
        args: vec![
            KernelArg::Input(0),
            KernelArg::Output,
            KernelArg::DynDims,
            KernelArg::Count(n),
        ],
        work_items: n as usize,
    }
}

fn launch_two_arguments(kernel: usize, first: usize, second: usize, n: u32) -> (r: Launch)
    ensures
        r@ == two_argument_launch(kernel, first, second, n),
{
    Launch {
        kernel,
        args: vec![
            KernelArg::Input(first),
            KernelArg::Input(second),
            KernelArg::Output,
            KernelArg::DynDims,
            KernelArg::Count(n),
        ],
        work_items: n as usize,
    }
}

/// A kernel can be written if and only if all its typed buffers can be stored
/// and no Bool tensor is reduced.
pub proof fn law_kernel_exists_iff_types_are_stored<E>(
    op: OpenClKernelOp<E>,
    inputs: Seq<DType>,
    output: DType,
)
    ensures
        op.kernel_error(inputs, output) is None <==> {
            &&& forall|i: int|
                0 <= i < op.buffer_dtypes(inputs, output).len() ==> storable(
                    #[trigger] op.buffer_dtypes(inputs, output)[i],
                )
            &&& (op is SumReduce || op is MaxReduce) ==> !(argument_dtype(
                inputs,
                0,
                DType::F32,
            ) is Bool)
        },
{
    lemma_first_unsupported(op.buffer_dtypes(inputs, output));
}

proof fn lemma_first_unsupported(dtypes: Seq<DType>)
    ensures
        first_unsupported(dtypes) is None <==> forall|i: int|
            0 <= i < dtypes.len() ==> storable(#[trigger] dtypes[i]),
    decreases dtypes.len(),
{
    if dtypes.len() > 0 {
        lemma_first_unsupported(dtypes.skip(1));
        assert forall|i: int| 0 <= i < dtypes.len() && first_unsupported(dtypes) is None implies storable(
            #[trigger] dtypes[i],
        ) by {
            if i > 0 {
                assert(dtypes.skip(1)[i - 1] == dtypes[i]);
            }
        }
    }
}

/// Every launch names a kernel of the program, covers as many work items as the
/// count that it passes, and reads no argument beyond the operation's own.
pub proof fn law_launches_fit_the_program<E>(op: OpenClKernelOp<E>, counts: Seq<usize>, i: int)
    requires
        counts.len() == op.needed_counts().len(),
        0 <= i < op.launch_plan(counts).len(),
    ensures
        op.launch_plan(counts)[i].kernel < op.kernel_names().len(),
        forall|a: int|
            0 <= a < op.launch_plan(counts)[i].args.len() ==> match #[trigger] op.launch_plan(
                counts,
            )[i].args[a] {
                KernelArg::Input(index) => index < op.arity(),
                KernelArg::Count(n) => n == op.launch_plan(counts)[i].work_items,
                _ => true,
            },
{
}

/// Every kernel that is taken from a program is defined in it.
pub proof fn law_program_defines_its_kernels<E>(
    op: OpenClKernelOp<E>,
    inputs: Seq<DType>,
    output: DType,
    lowered: Seq<Seq<char>>,
    i: int,
)
    requires
        0 <= i < op.kernel_names().len(),
    ensures
        contains_text(
            op.program(inputs, output, lowered),
            KERNEL_KEYWORD@ + op.kernel_names()[i] + PARAMETERS_OPEN@,
        ),
{
    match op {
        OpenClKernelOp::Unary(op) => {
            lemma_three_parts_occur(op.program_parts(inputs, output, lowered), 2);
        },
        OpenClKernelOp::Binary(op) => {
            lemma_three_parts_occur(op.program_parts(inputs, output, lowered), 2);
        },
        OpenClKernelOp::LessThan(op) => {
            lemma_three_parts_occur(op.program_parts(inputs, output, lowered), 2);
        },
        OpenClKernelOp::SumReduce(op) => {
            lemma_three_parts_occur(op.program_parts(inputs, output, lowered), 2);
        },
        OpenClKernelOp::MaxReduce(op) => {
            lemma_three_parts_occur(op.program_parts(inputs, output, lowered), 2);
        },
        OpenClKernelOp::Matmul(op) => {
            lemma_three_parts_occur(op.program_parts(inputs, output, lowered), 2);
        },
        OpenClKernelOp::Constant(op) => {
            lemma_three_parts_occur(op.program_parts(), 1);
        },
        OpenClKernelOp::Iota(op) => {
            lemma_three_parts_occur(op.program_parts(lowered), 1);
        },
        OpenClKernelOp::Gather(op) => {
            lemma_three_parts_occur(op.program_parts(inputs, output, lowered), 2);
        },
        OpenClKernelOp::Scatter(op) => {
            lemma_three_parts_occur(
                op.program_parts(inputs, output, lowered),
                if i == 0 { 2 } else { 14 },
            );
        },
        OpenClKernelOp::Cast(op) => {
            lemma_three_parts_occur(op.program_parts(inputs, output), 2);
        },
    }
}

/// A program that handles a half-precision buffer enables half precision before
/// anything else.
pub proof fn law_program_enables_half_precision<E>(
    op: OpenClKernelOp<E>,
    inputs: Seq<DType>,
    lowered: Seq<Seq<char>>,
)
    requires
        op.buffer_dtypes(inputs, op.output_dtype(inputs)).contains(DType::F16),
    ensures
        FP16_PRAGMA@.is_prefix_of(op.program(inputs, op.output_dtype(inputs), lowered)),
{
    let output = op.output_dtype(inputs);
    let dtypes = op.buffer_dtypes(inputs, output);
    let at = dtypes.index_of(DType::F16);
    match op {
        OpenClKernelOp::Unary(op) => {
            lemma_first_part_is_prefix(op.program_parts(inputs, output, lowered));
        },
        OpenClKernelOp::Binary(op) => {
            lemma_first_part_is_prefix(op.program_parts(inputs, output, lowered));
        },
        OpenClKernelOp::LessThan(op) => {
            let handled = seq![dtypes[0], dtypes[1]];
            assert(handled[at] == DType::F16);
            assert(handled.contains(DType::F16));
            lemma_first_part_is_prefix(op.program_parts(inputs, output, lowered));
        },
        OpenClKernelOp::SumReduce(op) => {
            lemma_first_part_is_prefix(op.program_parts(inputs, output, lowered));
        },
        OpenClKernelOp::MaxReduce(op) => {
            lemma_first_part_is_prefix(op.program_parts(inputs, output, lowered));
        },
        OpenClKernelOp::Matmul(op) => {
            lemma_first_part_is_prefix(op.program_parts(inputs, output, lowered));
        },
        OpenClKernelOp::Constant(_) => {},
        OpenClKernelOp::Iota(_) => {},
        OpenClKernelOp::Gather(op) => {
            lemma_first_part_is_prefix(op.program_parts(inputs, output, lowered));
        },
        OpenClKernelOp::Scatter(op) => {
            lemma_first_part_is_prefix(op.program_parts(inputs, output, lowered));
        },
        OpenClKernelOp::Cast(op) => {
            lemma_first_part_is_prefix(op.program_parts(inputs, output));
        },
    }
}

/// A matrix product is one kernel and at most one launch.
pub proof fn law_matmul_is_one_kernel<E>(op: OpenClMatmul<E>, counts: Seq<usize>)
    ensures
        OpenClKernelOp::Matmul(op).kernel_names().len() == 1,
        OpenClKernelOp::Matmul(op).launch_plan(counts).len() == (if counts[0] == 0 {
            0int
        } else {
            1
        }),
{
}

} // verus!
