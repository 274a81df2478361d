//! What the operations of the OpenCL dialect compute.
//!
//! The meaning of an operation is given element by element: which position of
//! the result is written, and which formula over the elements of the operands is
//! written there. Shapes, strides and sizes are evaluated by a [`Host`], of which
//! nothing is assumed. A kernel's text is read as a formula over its parameters,
//! and a launch says which buffer each parameter is. The laws say that the text,
//! the index expressions and the launches together compute the operation.

use vstd::prelude::*;

use crate::dtype::DType;
use crate::opencl::kernel::{
    accumulator_text, argument_dtype, launch_views, lowest_text, max_update_text, owned_texts,
    zero_text, BinaryFunction, IndexExpr, KernelArg, KernelSource, Launch, LaunchView,
    OpenClKernelOp, SizeExpr, UnaryFunction,
};
use crate::opencl::dialect::{
    cast_value_text, element_text, header_text, numeric_read_text, numeric_write_text,
    operand_text,
};
use crate::opencl::templates::{
    binary_parts, cast_parts, constant_parts, gather_parts, iota_parts, less_than_parts,
    matmul_parts, max_parts, scatter_parts, sum_parts, unary_parts,
};
use crate::opencl::runtime::{
    bound_arg, bound_launch, bound_views, reads_only, BoundArg, BoundLaunch, BoundLaunchView, OpenClRuntime,
};
use crate::program::{buffers_of, home, BufferRef, ExecuteError};
use crate::text::{hex_word_text, joined};

verus! {

/// How the symbolic expressions of a graph are evaluated.
#[verifier::reject_recursive_types(E)]
pub struct Host<E> {
    /// The position that an element number has in a tensor of the first list's
    /// extents under the second list's strides.
    pub flat: spec_fn(Seq<E>, Seq<E>, int) -> int,
    /// The value of an expression, with a number for its variable.
    pub plain: spec_fn(E, int) -> int,
    /// The number of elements of a tensor with these extents.
    pub product: spec_fn(Seq<E>) -> int,
    /// The integer at a position of an operand.
    pub integer: spec_fn(int, int) -> int,
}

/// An operator between two numbers.
pub enum Operator {
    Plus,
    Times,
    /// The remainder of integers.
    Remainder,
    /// The remainder of numbers with a fraction.
    FloatRemainder,
}

/// A formula over leaves.
pub enum Value<L> {
    Read(L),
    /// The number in single precision.
    Single(Box<Value<L>>),
    /// The number in half precision.
    Half(Box<Value<L>>),
    /// The number without its fraction.
    Integer(Box<Value<L>>),
    /// The truth value as an integer.
    Whole(Box<Value<L>>),
    /// Whether the number is not zero.
    NonZero(Box<Value<L>>),
    Exp2(Box<Value<L>>),
    Log2(Box<Value<L>>),
    Sin(Box<Value<L>>),
    Sqrt(Box<Value<L>>),
    Reciprocal(Box<Value<L>>),
    Infix(Operator, Box<Value<L>>, Box<Value<L>>),
    /// Whether the first number is less than the second.
    Less(Box<Value<L>>, Box<Value<L>>),
    /// The larger of two numbers.
    Larger(Box<Value<L>>, Box<Value<L>>),
    Zero,
    /// The least number of the type.
    Least,
    /// The single-precision number with these bits.
    Bits(u32),
    /// A number that is known from the element number.
    Number(int),
}

/// An element of an operand.
pub struct Element {
    pub operand: int,
    pub position: int,
}

/// What is written for one element number.
pub struct Store {
    pub position: int,
    pub value: Value<Element>,
}

/// The function of a number.
pub open spec fn applied<L>(function: UnaryFunction, x: Value<L>) -> Value<L> {
    match function {
        UnaryFunction::Exp2 => Value::Exp2(Box::new(x)),
        UnaryFunction::Log2 => Value::Log2(Box::new(x)),
        UnaryFunction::Sin => Value::Sin(Box::new(x)),
        UnaryFunction::Sqrt => Value::Sqrt(Box::new(x)),
        UnaryFunction::Recip => Value::Reciprocal(Box::new(x)),
    }
}

/// The operator of a function, for a result of this type.
pub open spec fn operator_of(function: BinaryFunction, output: DType) -> Operator {
    match function {
        BinaryFunction::Add => Operator::Plus,
        BinaryFunction::Mul => Operator::Times,
        BinaryFunction::Mod => if output is Int {
            Operator::Remainder
        } else {
            Operator::FloatRemainder
        },
    }
}

/// A number of this type in single precision.
pub open spec fn single<L>(dtype: DType, x: Value<L>) -> Value<L> {
    if dtype is F32 {
        x
    } else {
        Value::Single(Box::new(x))
    }
}

/// An operand of this type as it is computed with: integer results are computed
/// on the operands' own values, all others in single precision.
pub open spec fn number<L>(output: DType, dtype: DType, x: Value<L>) -> Value<L> {
    if output is Int {
        x
    } else {
        single(dtype, x)
    }
}

/// A computed number in the type in which it is stored.
pub open spec fn stored<L>(output: DType, x: Value<L>) -> Value<L> {
    match output {
        DType::F16 => Value::Half(Box::new(x)),
        DType::Int => Value::Integer(Box::new(x)),
        DType::Bool => Value::NonZero(Box::new(x)),
        _ => x,
    }
}

/// An element of one type in another.
pub open spec fn converted<L>(from: DType, to: DType, x: Value<L>) -> Value<L> {
    match to {
        DType::Bool => Value::NonZero(Box::new(x)),
        DType::F32 => single(from, x),
        DType::F16 => if from is F16 {
            x
        } else {
            Value::Half(Box::new(x))
        },
        _ => if from == to {
            x
        } else if from is Bool {
            Value::Whole(Box::new(x))
        } else {
            Value::Integer(Box::new(x))
        },
    }
}

/// The sum of the first `count` terms, one after the other.
pub open spec fn total<L>(count: int, term: spec_fn(int) -> Value<L>) -> Value<L>
    decreases count,
{
    if count <= 0 {
        Value::Zero
    } else {
        Value::Infix(
            Operator::Plus,
            Box::new(total(count - 1, term)),
            Box::new(term(count - 1)),
        )
    }
}

/// The largest of the first `count` terms.
pub open spec fn largest<L>(count: int, term: spec_fn(int) -> Value<L>) -> Value<L>
    decreases count,
{
    if count <= 0 {
        Value::Least
    } else {
        Value::Larger(Box::new(largest(count - 1, term)), Box::new(term(count - 1)))
    }
}

/// The product of two operands of these types, as it is added up.
pub open spec fn factor_product<L>(
    output: DType,
    lhs: DType,
    rhs: DType,
    a: Value<L>,
    b: Value<L>,
) -> Value<L> {
    Value::Infix(
        Operator::Times,
        Box::new(number(output, lhs, a)),
        Box::new(number(output, rhs, b)),
    )
}

/// The element of an operand at a position.
pub open spec fn element(operand: int, position: int) -> Value<Element> {
    Value::Read(Element { operand, position })
}

/// The element types of the operands and of the result.
pub struct Types {
    pub inputs: Seq<DType>,
    pub output: DType,
}

impl Types {
    /// The type of the first operand.
    pub open spec fn first(self) -> DType {
        argument_dtype(self.inputs, 0, DType::F32)
    }

    /// The type of the second operand.
    pub open spec fn second(self) -> DType {
        argument_dtype(self.inputs, 1, self.first())
    }
}

/// A function of every element.
pub open spec fn unary_at<E>(
    host: Host<E>,
    types: Types,
    function: UnaryFunction,
    shape: Seq<E>,
    strides: Seq<E>,
    out_strides: Seq<E>,
    id: int,
) -> Store {
    Store {
        position: (host.flat)(shape, out_strides, id),
        value: stored(
            types.output,
            applied(function, single(types.first(), element(0, (host.flat)(shape, strides, id)))),
        ),
    }
}

/// A function of every pair of elements.
pub open spec fn binary_at<E>(
    host: Host<E>,
    types: Types,
    function: BinaryFunction,
    shape: Seq<E>,
    a_strides: Seq<E>,
    b_strides: Seq<E>,
    out_strides: Seq<E>,
    id: int,
) -> Store {
    let a = element(0, (host.flat)(shape, a_strides, id));
    let b = element(1, (host.flat)(shape, b_strides, id));
    Store {
        position: (host.flat)(shape, out_strides, id),
        value: stored(
            types.output,
            Value::Infix(
                operator_of(function, types.output),
                Box::new(number(types.output, types.first(), a)),
                Box::new(number(types.output, types.second(), b)),
            ),
        ),
    }
}

/// A comparison of every pair of elements.
pub open spec fn less_than_at<E>(
    host: Host<E>,
    shape: Seq<E>,
    a_strides: Seq<E>,
    b_strides: Seq<E>,
    out_strides: Seq<E>,
    id: int,
) -> Store {
    Store {
        position: (host.flat)(shape, out_strides, id),
        value: Value::Less(
            Box::new(element(0, (host.flat)(shape, a_strides, id))),
            Box::new(element(1, (host.flat)(shape, b_strides, id))),
        ),
    }
}

/// The element that a reduction takes in at an iteration.
pub open spec fn reduced<E>(
    host: Host<E>,
    types: Types,
    shape: Seq<E>,
    strides: Seq<E>,
    iter_stride: E,
    id: int,
) -> spec_fn(int) -> Value<Element> {
    |i: int|
        number(
            types.output,
            types.first(),
            element(0, (host.flat)(shape, strides, id) + (host.plain)(iter_stride, i)),
        )
}

/// A sum along one dimension.
pub open spec fn sum_at<E>(
    host: Host<E>,
    types: Types,
    shape: Seq<E>,
    iters: E,
    strides: Seq<E>,
    iter_stride: E,
    out_strides: Seq<E>,
    id: int,
) -> Store {
    Store {
        position: (host.flat)(shape, out_strides, id),
        value: stored(
            types.output,
            total(
                (host.plain)(iters, id),
                reduced(host, types, shape, strides, iter_stride, id),
            ),
        ),
    }
}

/// The maximum along one dimension.
pub open spec fn max_at<E>(
    host: Host<E>,
    types: Types,
    shape: Seq<E>,
    iters: E,
    strides: Seq<E>,
    iter_stride: E,
    out_strides: Seq<E>,
    id: int,
) -> Store {
    Store {
        position: (host.flat)(shape, out_strides, id),
        value: stored(
            types.output,
            largest(
                (host.plain)(iters, id),
                reduced(host, types, shape, strides, iter_stride, id),
            ),
        ),
    }
}

/// A read by index: the first operand says which element of the second.
pub open spec fn gather_at<E>(
    host: Host<E>,
    shape: Seq<E>,
    index_strides: Seq<E>,
    data_shape: Seq<E>,
    data_strides: Seq<E>,
    out_strides: Seq<E>,
    id: int,
) -> Store {
    let index = (host.integer)(0, (host.flat)(shape, index_strides, id));
    Store {
        position: (host.flat)(shape, out_strides, id),
        value: element(1, (host.flat)(data_shape, data_strides, index)),
    }
}

impl<E> OpenClKernelOp<E> {
    /// The number of elements that the operation writes: a scatter first copies
    /// its destination and then writes its source.
    pub open spec fn items(self, host: Host<E>, kernel: int) -> int {
        let at_least_one = |n: int| if n < 1 {
            1
        } else {
            n
        };
        match self {
            OpenClKernelOp::Unary(op) => at_least_one((host.product)(op.shape@)),
            OpenClKernelOp::Binary(op) => at_least_one((host.product)(op.shape@)),
            OpenClKernelOp::LessThan(op) => at_least_one((host.product)(op.shape@)),
            OpenClKernelOp::SumReduce(op) => at_least_one((host.product)(op.out_shape@)),
            OpenClKernelOp::MaxReduce(op) => at_least_one((host.product)(op.out_shape@)),
            OpenClKernelOp::Matmul(op) => at_least_one((host.product)(op.out_shape@)),
            OpenClKernelOp::Constant(_) => 1,
            OpenClKernelOp::Iota(op) => (host.plain)(op.range, 0),
            OpenClKernelOp::Gather(op) => at_least_one((host.product)(op.out_shape@)),
            OpenClKernelOp::Scatter(op) => if kernel == 0 {
                (host.product)(op.dest_shape@)
            } else {
                (host.product)(op.index_shape@)
            },
            OpenClKernelOp::Cast(op) => (host.plain)(op.size, 0),
        }
    }

    /// What the operation writes for an element number, for operands and a result
    /// of these types.
    pub open spec fn writes(
        self,
        host: Host<E>,
        inputs: Seq<DType>,
        output: DType,
        kernel: int,
        id: int,
    ) -> Store {
        let types = Types { inputs, output };
        match self {
            OpenClKernelOp::Unary(op) => unary_at(
                host,
                types,
                op.function,
                op.shape@,
                op.input_strides@,
                op.output_strides@,
                id,
            ),
            OpenClKernelOp::Binary(op) => binary_at(
                host,
                types,
                op.function,
                op.shape@,
                op.a_strides@,
                op.b_strides@,
                op.output_strides@,
                id,
            ),
            OpenClKernelOp::LessThan(op) => less_than_at(
                host,
                op.shape@,
                op.a_strides@,
                op.b_strides@,
                op.output_strides@,
                id,
            ),
            OpenClKernelOp::SumReduce(op) => sum_at(
                host,
                types,
                op.out_shape@,
                op.iters,
                op.input_strides@,
                op.iter_stride,
                op.output_strides@,
                id,
            ),
            OpenClKernelOp::MaxReduce(op) => max_at(
                host,
                types,
                op.out_shape@,
                op.iters,
                op.input_strides@,
                op.iter_stride,
                op.output_strides@,
                id,
            ),
            OpenClKernelOp::Matmul(op) => Store {
                position: (host.flat)(op.out_shape@, op.out_strides@, id),
                value: stored(
                    output,
                    total(
                        (host.plain)(op.k, id),
                        |i: int|
                            {
                                let product = (host.flat)(op.out_shape@, op.sum_input_strides@, id)
                                    + (host.plain)(op.sum_iter_stride, i);
                                factor_product(
                                    output,
                                    types.first(),
                                    types.second(),
                                    element(0, (host.flat)(op.mul_shape@, op.lhs_strides@, product)),
                                    element(1, (host.flat)(op.mul_shape@, op.rhs_strides@, product)),
                                )
                            },
                    ),
                ),
            },
            OpenClKernelOp::Constant(op) => Store { position: 0, value: Value::Bits(op.bits) },
            OpenClKernelOp::Iota(op) => Store {
                position: id,
                value: Value::Number((host.plain)(op.expression, id)),
            },
            OpenClKernelOp::Gather(op) => gather_at(
                host,
                op.out_shape@,
                op.index_strides@,
                op.data_shape@,
                op.data_strides@,
                op.out_strides@,
                id,
            ),
            OpenClKernelOp::Scatter(op) => if kernel == 0 {
                Store {
                    position: (host.flat)(op.dest_shape@, op.out_strides@, id),
                    value: element(0, (host.flat)(op.dest_shape@, op.dest_strides@, id)),
                }
            } else {
                Store {
                    position: (host.integer)(
                        1,
                        (host.flat)(op.index_shape@, op.index_strides@, id),
                    ),
                    value: element(2, (host.flat)(op.index_shape@, op.src_strides@, id)),
                }
            },
            OpenClKernelOp::Cast(_) => Store {
                position: id,
                value: converted(types.first(), output, element(0, id)),
            },
        }
    }
}

/// A parameter of a kernel.
pub enum Parameter {
    /// A buffer of this name.
    Buffer(Seq<char>),
    /// The values of the dynamic dimensions.
    Dims,
    /// The number of elements.
    Count,
}

impl<E> OpenClKernelOp<E> {
    /// The names of the buffers that a kernel of the operation declares, the
    /// result last.
    pub open spec fn buffers(self, kernel: int) -> Seq<Seq<char>> {
        match self {
            OpenClKernelOp::Unary(_)
            | OpenClKernelOp::SumReduce(_)
            | OpenClKernelOp::MaxReduce(_)
            | OpenClKernelOp::Cast(_) => seq!["input"@, "output"@],
            OpenClKernelOp::Binary(_) | OpenClKernelOp::LessThan(_) => seq![
                "a"@,
                "b"@,
                "output"@,
            ],
            OpenClKernelOp::Matmul(_) => seq!["lhs"@, "rhs"@, "output"@],
            OpenClKernelOp::Constant(_) | OpenClKernelOp::Iota(_) => seq!["output"@],
            OpenClKernelOp::Gather(_) => seq!["indexes"@, "data"@, "output"@],
            OpenClKernelOp::Scatter(_) => if kernel == 0 {
                seq!["dest"@, "output"@]
            } else {
                seq!["indexes"@, "src"@, "output"@]
            },
        }
    }

    /// The parameters of a kernel of the operation, in the order in which it
    /// declares them.
    pub open spec fn parameters(self, kernel: int) -> Seq<Parameter> {
        let buffers = self.buffers(kernel).map_values(|name: Seq<char>| Parameter::Buffer(name));
        if self is Constant {
            buffers
        } else {
            buffers + seq![Parameter::Dims, Parameter::Count]
        }
    }
}

/// Whether the arguments of a launch are what the parameters of its kernel take:
/// operands for all buffers but the last, the result for the last, then the
/// dynamic dimensions and the number of work items.
pub open spec fn fits(parameters: Seq<Parameter>, launch: LaunchView) -> bool {
    &&& launch.args.len() == parameters.len()
    &&& forall|p: int|
        0 <= p < parameters.len() ==> match (#[trigger] parameters[p], launch.args[p]) {
            (Parameter::Buffer(name), KernelArg::Output) => name == "output"@,
            (Parameter::Buffer(name), KernelArg::Input(_)) => name != "output"@,
            (Parameter::Dims, KernelArg::DynDims) => true,
            (Parameter::Count, KernelArg::Count(n)) => n == launch.work_items,
            _ => false,
        }
}

/// The operand that a launch hands over for a parameter.
pub open spec fn handed(launch: LaunchView, parameter: int) -> int {
    match launch.args[parameter] {
        KernelArg::Input(operand) => operand as int,
        _ => -1,
    }
}

/// The variables that index texts may use in a kernel.
pub struct Scope {
    /// The number of the work item.
    pub idx: int,
    /// The number of the iteration.
    pub i: int,
    /// The element number in the product.
    pub mul_idx: int,
    /// The index that was read.
    pub gathered_index: int,
}

impl Scope {
    /// The value of a variable.
    pub open spec fn variable(self, name: Seq<char>) -> int {
        if name == "idx"@ {
            self.idx
        } else if name == "i"@ {
            self.i
        } else if name == "mul_idx"@ {
            self.mul_idx
        } else {
            self.gathered_index
        }
    }
}

/// Where only the number of the work item is known.
pub open spec fn of_item(id: int) -> Scope {
    Scope { idx: id, i: 0, mul_idx: 0, gathered_index: 0 }
}

/// The value of the text with this number, where the texts stand for the
/// expressions that the operation lists.
pub open spec fn text_value<E>(
    host: Host<E>,
    exprs: Seq<IndexExpr<'_, E>>,
    number: int,
    scope: Scope,
) -> int {
    match exprs[number] {
        IndexExpr::Flat { shape, strides, variable } => (host.flat)(
            shape@,
            strides@,
            scope.variable(variable@),
        ),
        IndexExpr::Plain { expr, variable } => (host.plain)(*expr, scope.variable(variable@)),
    }
}

/// What a work item of a launch writes: the kernel's text says which buffer is
/// accessed with which index text, the launch says which buffer each parameter
/// is, and the texts stand for these expressions.
pub open spec fn item_writes<E>(
    op: &OpenClKernelOp<E>,
    exprs: Seq<IndexExpr<'_, E>>,
    host: Host<E>,
    inputs: Seq<DType>,
    output: DType,
    launch: LaunchView,
    id: int,
) -> Store {
    let item = of_item(id);
    let first = argument_dtype(inputs, 0, DType::F32);
    let second = argument_dtype(inputs, 1, first);
    let read = |parameter: int, text: int, scope: Scope|
        element(handed(launch, parameter), text_value(host, exprs, text, scope));
    match op {
        // output[<1>] = f(input[<0>])
        OpenClKernelOp::Unary(op) => Store {
            position: text_value(host, exprs, 1, item),
            value: stored(output, applied(op.function, single(first, read(0, 0, item)))),
        },
        // output[<2>] = a[<0>] f b[<1>]
        OpenClKernelOp::Binary(op) => Store {
            position: text_value(host, exprs, 2, item),
            value: stored(
                output,
                Value::Infix(
                    operator_of(op.function, output),
                    Box::new(number(output, first, read(0, 0, item))),
                    Box::new(number(output, second, read(1, 1, item))),
                ),
            ),
        },
        // output[<2>] = a[<0>] < b[<1>]
        OpenClKernelOp::LessThan(_) => Store {
            position: text_value(host, exprs, 2, item),
            value: Value::Less(Box::new(read(0, 0, item)), Box::new(read(1, 1, item))),
        },
        // start = <0>; for i < <2>: sum += input[start + <3>]; output[<1>] = sum
        OpenClKernelOp::SumReduce(_) => Store {
            position: text_value(host, exprs, 1, item),
            value: stored(
                output,
                total(
                    text_value(host, exprs, 2, item),
                    |i: int|
                        number(
                            output,
                            first,
                            element(
                                handed(launch, 0),
                                text_value(host, exprs, 0, item) + text_value(
                                    host,
                                    exprs,
                                    3,
                                    Scope { i, ..item },
                                ),
                            ),
                        ),
                ),
            ),
        },
        OpenClKernelOp::MaxReduce(_) => Store {
            position: text_value(host, exprs, 1, item),
            value: stored(
                output,
                largest(
                    text_value(host, exprs, 2, item),
                    |i: int|
                        number(
                            output,
                            first,
                            element(
                                handed(launch, 0),
                                text_value(host, exprs, 0, item) + text_value(
                                    host,
                                    exprs,
                                    3,
                                    Scope { i, ..item },
                                ),
                            ),
                        ),
                ),
            ),
        },
        // base = <0>; for i < <5>: mul_idx = base + <1>; sum += lhs[<2>] * rhs[<3>];
        // output[<4>] = sum
        OpenClKernelOp::Matmul(_) => Store {
            position: text_value(host, exprs, 4, item),
            value: stored(
                output,
                total(
                    text_value(host, exprs, 5, item),
                    |i: int|
                        {
                            let mul_idx = text_value(host, exprs, 0, item) + text_value(
                                host,
                                exprs,
                                1,
                                Scope { i, ..item },
                            );
                            let inner = Scope { i, mul_idx, ..item };
                            factor_product(
                                output,
                                first,
                                second,
                                read(0, 2, inner),
                                read(1, 3, inner),
                            )
                        },
                ),
            ),
        },
        // output[0] = bits
        OpenClKernelOp::Constant(op) => Store { position: 0, value: Value::Bits(op.bits) },
        // output[idx] = <0>
        OpenClKernelOp::Iota(_) => Store {
            position: id,
            value: Value::Number(text_value(host, exprs, 0, item)),
        },
        // gathered_index = indexes[<1>]; output[<0>] = data[<2>]
        OpenClKernelOp::Gather(_) => {
            let gathered_index = (host.integer)(
                handed(launch, 0),
                text_value(host, exprs, 1, item),
            );
            Store {
                position: text_value(host, exprs, 0, item),
                value: read(1, 2, Scope { gathered_index, ..item }),
            }
        },
        // output[<1>] = dest[<0>], and output[indexes[<2>]] = src[<3>]
        OpenClKernelOp::Scatter(_) => if launch.kernel == 0 {
            Store { position: text_value(host, exprs, 1, item), value: read(0, 0, item) }
        } else {
            Store {
                position: (host.integer)(handed(launch, 0), text_value(host, exprs, 2, item)),
                value: read(1, 3, item),
            }
        },
        // output[idx] = input[idx]
        OpenClKernelOp::Cast(_) => Store {
            position: id,
            value: converted(first, output, element(handed(launch, 0), id)),
        },
    }
}

proof fn lemma_variables_differ()
    ensures
        "idx"@ != "i"@,
        "idx"@ != "mul_idx"@,
        "idx"@ != "gathered_index"@,
        "i"@ != "mul_idx"@,
        "i"@ != "gathered_index"@,
        "mul_idx"@ != "gathered_index"@,
{
    reveal_strlit("idx");
    reveal_strlit("i");
    reveal_strlit("mul_idx");
    reveal_strlit("gathered_index");
    assert("idx"@.len() == 3);
    assert("i"@.len() == 1);
    assert("mul_idx"@.len() == 7);
    assert("gathered_index"@.len() == 14);
}

proof fn lemma_output_is_no_operand()
    ensures
        "input"@ != "output"@,
        "a"@ != "output"@,
        "b"@ != "output"@,
        "lhs"@ != "output"@,
        "rhs"@ != "output"@,
        "indexes"@ != "output"@,
        "data"@ != "output"@,
        "dest"@ != "output"@,
        "src"@ != "output"@,
{
    reveal_strlit("output");
    assert("input"@ != "output"@) by {
        reveal_strlit("input");
        assert("input"@.len() == 5);
    }
    assert("a"@ != "output"@) by {
        reveal_strlit("a");
        assert("a"@.len() == 1);
    }
    assert("b"@ != "output"@) by {
        reveal_strlit("b");
        assert("b"@.len() == 1);
    }
    assert("lhs"@ != "output"@) by {
        reveal_strlit("lhs");
        assert("lhs"@.len() == 3);
    }
    assert("rhs"@ != "output"@) by {
        reveal_strlit("rhs");
        assert("rhs"@.len() == 3);
    }
    assert("indexes"@ != "output"@) by {
        reveal_strlit("indexes");
        assert("indexes"@.len() == 7);
    }
    assert("data"@ != "output"@) by {
        reveal_strlit("data");
        assert("data"@.len() == 4);
    }
    assert("dest"@ != "output"@) by {
        reveal_strlit("dest");
        assert("dest"@.len() == 4);
    }
    assert("src"@ != "output"@) by {
        reveal_strlit("src");
        assert("src"@.len() == 3);
    }
}

/// Every launch of an operation hands each parameter of its kernel what the
/// parameter stands for, and every work item writes what the operation writes for
/// its element number, where the index texts stand for the expressions that the
/// operation lists.
pub proof fn law_launches_compute_the_operation<'a, E>(
    op: &'a OpenClKernelOp<E>,
    exprs: Vec<IndexExpr<'a, E>>,
    host: Host<E>,
    inputs: Seq<DType>,
    output: DType,
    counts: Vec<usize>,
    launches: Vec<Launch>,
    l: int,
    id: int,
)
    requires
        counts@.len() == op.needed_counts().len(),
        call_ensures(OpenClKernelOp::<E>::index_exprs, (op,), exprs),
        call_ensures(OpenClKernelOp::<E>::launches, (op, &counts), launches),
        0 <= l < launches@.len(),
    ensures
        ({
            let launch = launches@[l]@;
            &&& fits(op.parameters(launch.kernel as int), launch)
            &&& item_writes(op, exprs@, host, inputs, output, launch, id) == op.writes(
                host,
                inputs,
                output,
                launch.kernel as int,
                id,
            )
        }),
{
    assert(launch_views(launches@)[l] == launches@[l]@);
    lemma_launch_computes(op, host, inputs, output, counts@, l, id);
}

proof fn lemma_launch_computes<E>(
    op: &OpenClKernelOp<E>,
    host: Host<E>,
    inputs: Seq<DType>,
    output: DType,
    counts: Seq<usize>,
    l: int,
    id: int,
)
    requires
        counts.len() == op.needed_counts().len(),
        0 <= l < op.launch_plan(counts).len(),
    ensures
        ({
            let launch = op.launch_plan(counts)[l];
            &&& fits(op.parameters(launch.kernel as int), launch)
            &&& item_writes(op, op.needed_exprs(), host, inputs, output, launch, id) == op.writes(
                host,
                inputs,
                output,
                launch.kernel as int,
                id,
            )
        }),
{
    lemma_variables_differ();
    lemma_output_is_no_operand();
    let launch = op.launch_plan(counts)[l];
    let got = item_writes(op, op.needed_exprs(), host, inputs, output, launch, id);
    let want = op.writes(host, inputs, output, launch.kernel as int, id);
    let exprs = op.needed_exprs();
    let item = of_item(id);
    let first = argument_dtype(inputs, 0, DType::F32);
    let second = argument_dtype(inputs, 1, first);
    match op {
        OpenClKernelOp::SumReduce(sum) => {
            let a = |i: int|
                number(
                    output,
                    first,
                    element(
                        handed(launch, 0),
                        text_value(host, exprs, 0, item) + text_value(
                            host,
                            exprs,
                            3,
                            Scope { i, ..item },
                        ),
                    ),
                );
            let types = Types { inputs, output };
            let b = reduced(
                host,
                types,
                sum.out_shape@,
                sum.input_strides@,
                sum.iter_stride,
                id,
            );
            assert(a =~= b);
        },
        OpenClKernelOp::MaxReduce(max) => {
            let a = |i: int|
                number(
                    output,
                    first,
                    element(
                        handed(launch, 0),
                        text_value(host, exprs, 0, item) + text_value(
                            host,
                            exprs,
                            3,
                            Scope { i, ..item },
                        ),
                    ),
                );
            let types = Types { inputs, output };
            let b = reduced(
                host,
                types,
                max.out_shape@,
                max.input_strides@,
                max.iter_stride,
                id,
            );
            assert(a =~= b);
        },
        OpenClKernelOp::Matmul(mm) => {
            let read = |parameter: int, text: int, scope: Scope|
                element(handed(launch, parameter), text_value(host, exprs, text, scope));
            let a = |i: int|
                {
                    let mul_idx = text_value(host, exprs, 0, item) + text_value(
                        host,
                        exprs,
                        1,
                        Scope { i, ..item },
                    );
                    let inner = Scope { i, mul_idx, ..item };
                    factor_product(output, first, second, read(0, 2, inner), read(1, 3, inner))
                };
            let b = |i: int|
                {
                    let product = (host.flat)(mm.out_shape@, mm.sum_input_strides@, id) + (
                    host.plain)(mm.sum_iter_stride, i);
                    factor_product(
                        output,
                        first,
                        second,
                        element(0, (host.flat)(mm.mul_shape@, mm.lhs_strides@, product)),
                        element(1, (host.flat)(mm.mul_shape@, mm.rhs_strides@, product)),
                    )
                };
            assert(a =~= b);
        },
        _ => {},
    }
    assert(fits(op.parameters(launch.kernel as int), launch));
    assert(got.position == want.position);
    assert(got.value == want.value);
}

/// A leaf of a formula in the text of a kernel.
pub enum Text {
    /// An element of a buffer.
    Element(Seq<char>),
    /// A variable of the kernel.
    Variable(Seq<char>),
}

/// A call in OpenCL C.
pub open spec fn called(function: Seq<char>, argument: Seq<char>) -> Seq<char> {
    function + "("@ + argument + ")"@
}

/// How OpenCL C writes a formula in a kernel whose result has this type.
pub open spec fn written(output: DType, value: Value<Text>) -> Seq<char>
    decreases value,
{
    match value {
        Value::Read(Text::Element(text)) => text,
        Value::Read(Text::Variable(text)) => text,
        Value::Single(x) => called("convert_float"@, written(output, *x)),
        Value::Half(x) => called("convert_half"@, written(output, *x)),
        Value::Integer(x) => called("convert_int_rtz"@, written(output, *x)),
        Value::Whole(x) => called("convert_int"@, written(output, *x)),
        Value::NonZero(x) => match *x {
            Value::Read(Text::Element(text)) => "(uchar)("@ + text + " != 0)"@,
            _ => "(uchar)(("@ + written(output, *x) + ") != 0)"@,
        },
        Value::Exp2(x) => called("exp2"@, written(output, *x)),
        Value::Log2(x) => called("log2"@, written(output, *x)),
        Value::Sin(x) => called("sin"@, written(output, *x)),
        Value::Sqrt(x) => called("sqrt"@, written(output, *x)),
        Value::Reciprocal(x) => "1.0f / ("@ + written(output, *x) + ")"@,
        Value::Infix(Operator::FloatRemainder, a, b) => "fmod(("@ + written(output, *a) + "), ("@
            + written(output, *b) + "))"@,
        Value::Infix(operator, a, b) => "("@ + written(output, *a) + ") "@ + (match operator {
            Operator::Plus => "+"@,
            Operator::Times => "*"@,
            _ => "%"@,
        }) + " ("@ + written(output, *b) + ")"@,
        Value::Larger(a, b) => (if output is Int {
            "max"@
        } else {
            "fmax"@
        }) + "("@ + written(output, *a) + ", "@ + written(output, *b) + ")"@,
        Value::Zero => if output is Int {
            "0"@
        } else {
            "0.0f"@
        },
        Value::Least => if output is Int {
            "(-2147483647 - 1)"@
        } else {
            "-INFINITY"@
        },
        Value::Less(_, _) | Value::Bits(_) | Value::Number(_) => Seq::empty(),
    }
}

/// The OpenCL C type of the elements of a buffer.
pub open spec fn c_type(dtype: DType) -> Seq<char> {
    match dtype {
        DType::F32 => "float"@,
        DType::F16 => "half"@,
        DType::Int => "int"@,
        DType::Bool => "uchar"@,
        _ => Seq::empty(),
    }
}

/// The type in which a kernel whose result has this type adds up and compares.
pub open spec fn working_type(output: DType) -> DType {
    if output is Int {
        DType::Int
    } else {
        DType::F32
    }
}

/// What a program that handles buffers of these types starts with.
pub open spec fn pragma(dtypes: Seq<DType>) -> Seq<char> {
    if exists|i: int| 0 <= i < dtypes.len() && #[trigger] dtypes[i] is F16 {
        "#pragma OPENCL EXTENSION cl_khr_fp16 : enable\n"@
    } else {
        ""@
    }
}

impl<E> OpenClKernelOp<E> {
    /// The text of the program, given the index texts: each access names the
    /// buffer of its parameter, and the value written is the formula of the
    /// operation over those accesses.
    pub open spec fn reads_as(
        self,
        inputs: Seq<DType>,
        output: DType,
        lowered: Seq<Seq<char>>,
    ) -> Seq<char> {
        joined(self.read_parts(inputs, output, lowered))
    }

    /// The parts of that text.
    pub open spec fn read_parts(
        self,
        inputs: Seq<DType>,
        output: DType,
        lowered: Seq<Seq<char>>,
    ) -> Seq<Seq<char>> {
        let first = argument_dtype(inputs, 0, DType::F32);
        let second = argument_dtype(inputs, 1, first);
        let named = |kernel: int, parameter: int, index: Seq<char>|
            self.buffers(kernel)[parameter] + "["@ + index + "]"@;
        let access = |parameter: int, index: Seq<char>|
            Value::Read(Text::Element(named(0, parameter, index)));
        match self {
            OpenClKernelOp::Unary(op) => unary_parts(
                pragma(seq![first, output]),
                c_type(first),
                c_type(output),
                lowered[1],
                written(
                    output,
                    stored(
                        output,
                        applied(op.function, single(first, access(0, lowered[0]))),
                    ),
                ),
            ),
            OpenClKernelOp::Binary(op) => binary_parts(
                pragma(seq![first, second, output]),
                c_type(first),
                c_type(second),
                c_type(output),
                lowered[2],
                written(
                    output,
                    stored(
                        output,
                        Value::Infix(
                            operator_of(op.function, output),
                            Box::new(number(output, first, access(0, lowered[0]))),
                            Box::new(number(output, second, access(1, lowered[1]))),
                        ),
                    ),
                ),
            ),
            OpenClKernelOp::LessThan(_) => less_than_parts(
                pragma(seq![first, second]),
                c_type(first),
                c_type(second),
                c_type(output),
                lowered[2],
                written(output, access(0, lowered[0])),
                written(output, access(1, lowered[1])),
            ),
            OpenClKernelOp::SumReduce(_) => sum_parts(
                pragma(seq![first, output]),
                c_type(first),
                c_type(output),
                lowered[0],
                lowered[2],
                c_type(working_type(output)),
                written(output, Value::Zero),
                written(
                    output,
                    number(output, first, access(0, "input_start + "@ + lowered[3])),
                ),
                lowered[1],
                written(output, stored(output, Value::Read(Text::Variable("sum"@)))),
            ),
            OpenClKernelOp::MaxReduce(_) => max_parts(
                pragma(seq![first, output]),
                c_type(first),
                c_type(output),
                lowered[0],
                lowered[2],
                c_type(working_type(output)),
                written(output, Value::Least),
                written(
                    output,
                    number(output, first, access(0, "input_start + "@ + lowered[3])),
                ),
                "max_value = "@ + written(
                    output,
                    Value::Larger(
                        Box::new(Value::Read(Text::Variable("max_value"@))),
                        Box::new(Value::Read(Text::Variable("value"@))),
                    ),
                ) + ";"@,
                lowered[1],
                written(output, stored(output, Value::Read(Text::Variable("max_value"@)))),
            ),
            OpenClKernelOp::Matmul(_) => matmul_parts(
                pragma(seq![first, second, output]),
                c_type(first),
                c_type(second),
                c_type(output),
                lowered[0],
                lowered[5],
                c_type(working_type(output)),
                written(output, Value::Zero),
                lowered[1],
                written(output, number(output, first, access(0, lowered[2]))),
                written(output, number(output, second, access(1, lowered[3]))),
                lowered[4],
                written(output, stored(output, Value::Read(Text::Variable("sum"@)))),
            ),
            OpenClKernelOp::Constant(op) => constant_parts(hex_word_text(op.bits)),
            OpenClKernelOp::Iota(_) => iota_parts(lowered[0]),
            OpenClKernelOp::Gather(_) => {
                let data = argument_dtype(inputs, 1, DType::F32);
                gather_parts(
                    pragma(seq![data, output]),
                    c_type(data),
                    c_type(output),
                    lowered[1],
                    lowered[0],
                    written(output, access(1, lowered[2])),
                )
            },
            OpenClKernelOp::Scatter(_) => {
                let src = argument_dtype(inputs, 2, output);
                scatter_parts(
                    pragma(seq![first, src, output]),
                    c_type(first),
                    c_type(output),
                    lowered[1],
                    lowered[0],
                    c_type(src),
                    lowered[2],
                    lowered[3],
                )
            },
            OpenClKernelOp::Cast(_) => cast_parts(
                pragma(seq![first, output]),
                c_type(first),
                c_type(output),
                written(output, converted(first, output, access(0, "idx"@))),
            ),
        }
    }
}

proof fn lemma_pragma(dtypes: Seq<DType>)
    ensures
        pragma(dtypes) == header_text(dtypes),
{
    if dtypes.contains(DType::F16) {
        let i = dtypes.index_of(DType::F16);
        assert(dtypes[i] is F16);
    } else if exists|i: int| 0 <= i < dtypes.len() && #[trigger] dtypes[i] is F16 {
        let i = choose|i: int| 0 <= i < dtypes.len() && #[trigger] dtypes[i] is F16;
        assert(dtypes[i] == DType::F16);
    }
}

proof fn lemma_update_texts()
    ensures
        "max_value = max(max_value, value);"@ == "max_value = "@ + ("max"@ + "("@ + "max_value"@
            + ", "@ + "value"@ + ")"@) + ";"@,
        "max_value = fmax(max_value, value);"@ == "max_value = "@ + ("fmax"@ + "("@ + "max_value"@
            + ", "@ + "value"@ + ")"@) + ";"@,
{
    reveal_strlit("max_value = max(max_value, value);");
    reveal_strlit("max_value = fmax(max_value, value);");
    reveal_strlit("max_value = ");
    reveal_strlit("max_value");
    reveal_strlit("max");
    reveal_strlit("fmax");
    reveal_strlit("value");
    reveal_strlit("(");
    reveal_strlit(", ");
    reveal_strlit(")");
    reveal_strlit(";");
}

proof fn lemma_cast_texts()
    ensures
        "input[idx]"@ == "input"@ + "["@ + "idx"@ + "]"@,
        "(uchar)(input[idx] != 0)"@ == "(uchar)("@ + "input[idx]"@ + " != 0)"@,
        "convert_float(input[idx])"@ == called("convert_float"@, "input[idx]"@),
        "convert_half(input[idx])"@ == called("convert_half"@, "input[idx]"@),
        "convert_int(input[idx])"@ == called("convert_int"@, "input[idx]"@),
        "convert_int_rtz(input[idx])"@ == called("convert_int_rtz"@, "input[idx]"@),
{
    reveal_strlit("input[idx]");
    reveal_strlit("input");
    reveal_strlit("[");
    reveal_strlit("idx");
    reveal_strlit("]");
    reveal_strlit("(");
    reveal_strlit(")");
    assert("(uchar)(input[idx] != 0)"@ == "(uchar)("@ + "input[idx]"@ + " != 0)"@) by {
        reveal_strlit("(uchar)(input[idx] != 0)");
        reveal_strlit("(uchar)(");
        reveal_strlit(" != 0)");
    }
    assert("convert_float(input[idx])"@ == called("convert_float"@, "input[idx]"@)) by {
        reveal_strlit("convert_float(input[idx])");
        reveal_strlit("convert_float");
    }
    assert("convert_half(input[idx])"@ == called("convert_half"@, "input[idx]"@)) by {
        reveal_strlit("convert_half(input[idx])");
        reveal_strlit("convert_half");
    }
    assert("convert_int(input[idx])"@ == called("convert_int"@, "input[idx]"@)) by {
        reveal_strlit("convert_int(input[idx])");
        reveal_strlit("convert_int");
    }
    assert("convert_int_rtz(input[idx])"@ == called("convert_int_rtz"@, "input[idx]"@)) by {
        reveal_strlit("convert_int_rtz(input[idx])");
        reveal_strlit("convert_int_rtz");
    }
}

proof fn lemma_number_text(output: DType, dtype: DType, buffer: Seq<char>, index: Seq<char>)
    ensures
        ({
            let leaf = Value::Read(Text::Element(buffer + "["@ + index + "]"@));
            &&& written(output, number(output, dtype, leaf)) == operand_text(
                output,
                dtype,
                buffer,
                index,
            )
            &&& written(output, single(dtype, leaf)) == numeric_read_text(dtype, buffer, index)
            &&& written(output, leaf) == element_text(buffer, index)
        }),
{
    reveal_with_fuel(written, 3);
}

proof fn lemma_stored_text(output: DType, value: Value<Text>)
    requires
        !(value matches Value::Read(Text::Element(_))),
    ensures
        written(output, stored(output, value)) == numeric_write_text(
            output,
            written(output, value),
        ),
{
    reveal_with_fuel(written, 2);
}

proof fn lemma_applied_text(output: DType, function: UnaryFunction, value: Value<Text>)
    ensures
        written(output, applied(function, value)) == function.text(written(output, value)),
        !(applied(function, value) is Read),
{
    reveal_with_fuel(written, 2);
}

proof fn lemma_infix_text(
    output: DType,
    function: BinaryFunction,
    a: Value<Text>,
    b: Value<Text>,
)
    ensures
        written(
            output,
            Value::Infix(operator_of(function, output), Box::new(a), Box::new(b)),
        ) == function.text(written(output, a), written(output, b), output),
{
    reveal_with_fuel(written, 2);
}

proof fn lemma_variable_text(output: DType, name: Seq<char>)
    ensures
        written(output, stored(output, Value::Read(Text::Variable(name)))) == numeric_write_text(
            output,
            name,
        ),
        written(output, Value::<Text>::Zero) == zero_text(output),
        written(output, Value::<Text>::Least) == lowest_text(output),
        c_type(working_type(output)) == accumulator_text(output),
{
    reveal_with_fuel(written, 2);
}

proof fn lemma_larger_text(output: DType)
    ensures
        "max_value = "@ + written(
            output,
            Value::Larger(
                Box::new(Value::Read(Text::Variable("max_value"@))),
                Box::new(Value::Read(Text::Variable("value"@))),
            ),
        ) + ";"@ == max_update_text(output),
{
    reveal_with_fuel(written, 2);
    lemma_update_texts();
}

proof fn lemma_converted_text(from: DType, to: DType)
    ensures
        written(
            to,
            converted(
                from,
                to,
                Value::Read(Text::Element("input"@ + "["@ + "idx"@ + "]"@)),
            ),
        ) == cast_value_text(from, to),
{
    reveal_with_fuel(written, 2);
    lemma_cast_texts();
}

/// The program that an operation is compiled to accesses the buffers of its
/// parameters at the index texts, and writes the formula of the operation over those
/// accesses.
pub proof fn law_program_reads_as_the_operation<E>(
    op: OpenClKernelOp<E>,
    inputs: Vec<DType>,
    output: DType,
    lowered: Vec<String>,
    source: KernelSource,
)
    requires
        call_ensures(OpenClKernelOp::<E>::compile, (&op, &inputs, output, &lowered), Ok(source)),
    ensures
        source.text@ == op.reads_as(inputs@, output, owned_texts(lowered@)),
{
    lemma_program_text(op, inputs@, output, owned_texts(lowered@));
}

proof fn lemma_program_text<E>(
    op: OpenClKernelOp<E>,
    inputs: Seq<DType>,
    output: DType,
    lowered: Seq<Seq<char>>,
)
    ensures
        op.program(inputs, output, lowered) == op.reads_as(inputs, output, lowered),
{
    let first = argument_dtype(inputs, 0, DType::F32);
    let second = argument_dtype(inputs, 1, first);
    lemma_pragma(seq![first, output]);
    match op {
        OpenClKernelOp::Unary(unary) => {
            let leaf = Value::Read(Text::Element("input"@ + "["@ + lowered[0] + "]"@));
            lemma_number_text(output, first, "input"@, lowered[0]);
            lemma_applied_text(output, unary.function, single(first, leaf));
            lemma_stored_text(output, applied(unary.function, single(first, leaf)));
        },
        OpenClKernelOp::Binary(binary) => {
            lemma_pragma(seq![first, second, output]);
            let a = number(
                output,
                first,
                Value::Read(Text::Element("a"@ + "["@ + lowered[0] + "]"@)),
            );
            let b = number(
                output,
                second,
                Value::Read(Text::Element("b"@ + "["@ + lowered[1] + "]"@)),
            );
            lemma_number_text(output, first, "a"@, lowered[0]);
            lemma_number_text(output, second, "b"@, lowered[1]);
            lemma_infix_text(output, binary.function, a, b);
            lemma_stored_text(
                output,
                Value::Infix(operator_of(binary.function, output), Box::new(a), Box::new(b)),
            );
        },
        OpenClKernelOp::LessThan(_) => {
            lemma_pragma(seq![first, second]);
            lemma_number_text(output, first, "a"@, lowered[0]);
            lemma_number_text(output, second, "b"@, lowered[1]);
        },
        OpenClKernelOp::SumReduce(_) => {
            lemma_number_text(output, first, "input"@, "input_start + "@ + lowered[3]);
            lemma_variable_text(output, "sum"@);
        },
        OpenClKernelOp::MaxReduce(_) => {
            lemma_number_text(output, first, "input"@, "input_start + "@ + lowered[3]);
            lemma_variable_text(output, "max_value"@);
            lemma_larger_text(output);
        },
        OpenClKernelOp::Matmul(_) => {
            lemma_pragma(seq![first, second, output]);
            lemma_number_text(output, first, "lhs"@, lowered[2]);
            lemma_number_text(output, second, "rhs"@, lowered[3]);
            lemma_variable_text(output, "sum"@);
        },
        OpenClKernelOp::Gather(_) => {
            let data = argument_dtype(inputs, 1, DType::F32);
            lemma_pragma(seq![data, output]);
            lemma_number_text(output, data, "data"@, lowered[2]);
        },
        OpenClKernelOp::Scatter(_) => {
            lemma_pragma(seq![first, argument_dtype(inputs, 2, output), output]);
        },
        OpenClKernelOp::Cast(_) => {
            lemma_converted_text(first, output);
        },
        OpenClKernelOp::Constant(_) | OpenClKernelOp::Iota(_) => {},
    }
}

/// The number that a size expression stands for.
pub open spec fn size_value<E>(host: Host<E>, size: SizeExpr<'_, E>) -> int {
    match size {
        SizeExpr::One => 1,
        SizeExpr::Plain(expr) => (host.plain)(*expr, 0),
        SizeExpr::Product(shape) => (host.product)(shape@),
        SizeExpr::ProductOrOne(shape) => if (host.product)(shape@) < 1 {
            1
        } else {
            (host.product)(shape@)
        },
    }
}

/// The launches cover every element that the operation writes: one launch for
/// each kernel that has elements, in the order of the kernels, over as many work
/// items as there are elements. The result has room for as many elements as the
/// first kernel writes.
pub proof fn law_launches_cover_every_element<'a, E>(
    op: &'a OpenClKernelOp<E>,
    host: Host<E>,
    sizes: Vec<SizeExpr<'a, E>>,
    size: SizeExpr<'a, E>,
    counts: Vec<usize>,
    launches: Vec<Launch>,
)
    requires
        call_ensures(OpenClKernelOp::<E>::launch_counts, (op,), sizes),
        call_ensures(OpenClKernelOp::<E>::output_size, (op,), size),
        call_ensures(OpenClKernelOp::<E>::launches, (op, &counts), launches),
        counts@.len() == sizes@.len(),
        forall|c: int|
            0 <= c < counts@.len() ==> #[trigger] counts@[c] == size_value(host, sizes@[c])
                && counts@[c] < 0x1_0000_0000,
    ensures
        ({
            let copies = if op.items(host, 0) == 0 {
                0int
            } else {
                1
            };
            if op is Scatter {
                &&& launches@.len() == copies + (if op.items(host, 1) == 0 {
                    0int
                } else {
                    1
                })
                &&& copies == 1 ==> launches@[0].kernel == 0 && launches@[0].work_items == op.items(
                    host,
                    0,
                )
                &&& op.items(host, 1) != 0 ==> launches@[copies].kernel == 1
                    && launches@[copies].work_items == op.items(host, 1)
            } else {
                &&& launches@.len() == copies
                &&& copies == 1 ==> launches@[0].kernel == 0 && launches@[0].work_items == op.items(
                    host,
                    0,
                )
            }
        }),
        !(op is Scatter) ==> size_value(host, size) == op.items(host, 0),
        op is Scatter ==> size_value(host, size) >= op.items(host, 0) && (op.items(host, 0) >= 1
            ==> size_value(host, size) == op.items(host, 0)),
{
    let counts = counts@;
    let plan = op.launch_plan(counts);
    assert(launch_views(launches@) == plan);
    assert(plan.len() == launches@.len());
    assert forall|l: int| 0 <= l < plan.len() implies #[trigger] plan[l] == launches@[l]@ by {
        assert(launch_views(launches@)[l] == launches@[l]@);
    }
    if plan.len() > 0 {
        assert(plan[0] == launches@[0]@);
    }
    if plan.len() > 1 {
        assert(plan[1] == launches@[1]@);
    }
    if counts.len() > 0 {
        assert(counts[0] == size_value(host, op.needed_counts()[0]));
    }
    if counts.len() > 1 {
        assert(counts[1] == size_value(host, op.needed_counts()[1]));
    }
}

/// Running a compiled graph makes the launches of each step's operation, in
/// order, over as many work items, with a buffer for each operand: the operand
/// with a number is the buffer of the step's argument with that number, and the
/// result is the step's own buffer.
pub proof fn law_launches_take_the_buffers_of_the_step<E, D>(
    runtime: OpenClRuntime<E, D>,
    counts: Vec<Vec<usize>>,
    plans: Vec<Vec<BoundLaunch>>,
    step: int,
    l: int,
    a: int,
)
    requires
        call_ensures(OpenClRuntime::<E, D>::execute, (&runtime, &counts), Ok(plans)),
        0 <= step < runtime.active().steps@.len(),
        0 <= l < runtime.active().op(step).launch_plan(counts@[step]@).len(),
        0 <= a < runtime.active().op(step).launch_plan(counts@[step]@)[l].args.len(),
    ensures
        ({
            let bucket = runtime.active();
            let nodes = bucket.steps@[step].input_nodes@;
            let launches = bucket.op(step).launch_plan(counts@[step]@);
            let bound = plans@[step]@[l];
            &&& plans@.len() == bucket.steps@.len()
            &&& plans@[step]@.len() == launches.len()
            &&& bound.kernel == launches[l].kernel
            &&& bound.work_items == launches[l].work_items
            &&& bound.args@.len() == launches[l].args.len()
            &&& bound.args@[a] == (match launches[l].args[a] {
                KernelArg::Input(k) => BoundArg::Buffer(home(bucket, nodes[k as int])),
                KernelArg::Output => BoundArg::Buffer(
                    BufferRef::Intermediate(bucket.steps@[step].node),
                ),
                KernelArg::DynDims => BoundArg::DynDims,
                KernelArg::Count(n) => BoundArg::Count(n),
            })
            &&& launches[l].args[a] matches KernelArg::Input(k) ==> k < nodes.len()
        }),
{
    let bucket = runtime.active();
    let nodes = bucket.steps@[step].input_nodes@;
    let launches = bucket.op(step).launch_plan(counts@[step]@);
    let views = bound_views(plans@[step]@);
    assert(runtime.step_plan(step, counts@[step]@) == Ok::<Seq<BoundLaunchView>, ExecuteError>(
        views,
    ));
    let buffers = buffers_of(bucket, nodes);
    let output = BufferRef::Intermediate(bucket.steps@[step].node);
    assert(views == launches.map_values(
        |launch: LaunchView| bound_launch(buffers, output, launch),
    ));
    assert(views.len() == launches.len());
    assert(views.len() == plans@[step]@.len());
    assert(views[l] == plans@[step]@[l]@);
    assert(views[l] == bound_launch(buffers, output, launches[l]));
    assert(reads_only(launches[l], nodes.len()));
    assert(plans@[step]@[l].args@ == views[l].args);
    assert(views[l].args[a] == bound_arg(buffers, output, launches[l].args[a]));
}

} // verus!
