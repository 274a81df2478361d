//! Why the rules of the OpenCL dialect may be applied: both sides of a rule
//! compute the same elements from the same operands.

use vstd::prelude::*;

use crate::children::{child_kinds, Child};
use crate::dtype::DType;
use crate::opencl::extract::{
    binary_kinds, cast_kinds, constant_kinds, extract_binary, extract_cast, extract_constant,
    extract_gather, extract_iota, extract_less_than, extract_matmul, extract_max_reduce,
    extract_scatter, extract_sum_reduce, extract_unary, gather_kinds, iota_kinds, less_than_kinds,
    matmul_kinds, max_reduce_kinds, scatter_kinds, sum_reduce_kinds, unary_kinds,
};
use crate::opencl::kernel::{
    BinaryFunction, OpenClBinary, OpenClCast, OpenClConstant, OpenClGather, OpenClIota,
    OpenClKernelOp, OpenClLessThan, OpenClMatmul, OpenClMaxReduce, OpenClScatter, OpenClSumReduce,
    OpenClUnary, UnaryFunction,
};
use crate::opencl::meaning::{
    binary_at, converted, element, factor_product, gather_at, less_than_at, max_at, number,
    reduced, single, stored, sum_at, total, unary_at, Element, Host, Operator, Store, Types, Value,
};
use crate::opencl::rewrite::{
    field_names, matmul_rule, opencl_rewrites,
};
use crate::rules::{
    lemma_summed_same, operands_of, rule_views, summed, FieldKind, HlirOp, Rule, RuleView, Term,
};

verus! {

/// The value of a field, as a value.
pub enum FieldValue<E> {
    List(Seq<E>),
    Expr(E),
    /// A node of the graph.
    Operand(int),
    DType(DType),
    /// A single-precision number, given by its bits.
    Float(u32),
    Int(int),
}

/// The value that a child holds.
pub open spec fn held<E>(child: Child<E>) -> FieldValue<E> {
    match child {
        Child::List(list) => FieldValue::List(list@),
        Child::Expr(expr) => FieldValue::Expr(expr),
        Child::Operand(node) => FieldValue::Operand(node as int),
        Child::DType(dtype) => FieldValue::DType(dtype),
        Child::Float(bits) => FieldValue::Float(bits),
        Child::Int(value) => FieldValue::Int(value as int),
    }
}

/// A match of a rule: what its variables and the fields and operands of the
/// matched primitive stand for.
#[verifier::reject_recursive_types(E)]
pub struct Match<E> {
    pub variable: spec_fn(&'static str) -> FieldValue<E>,
    pub matched: spec_fn(&'static str) -> FieldValue<E>,
    /// The row-major strides of a shape.
    pub row_major: spec_fn(Seq<E>) -> Seq<E>,
}

impl<E> Match<E> {
    /// What a term stands for as the value of a field.
    pub open spec fn value(self, term: Term) -> FieldValue<E>
        decreases term,
    {
        match term {
            Term::Var(name) => (self.variable)(name),
            Term::Matching(name) => (self.matched)(name),
            Term::DType(dtype) => FieldValue::DType(dtype),
            Term::RowMajor(list) => FieldValue::List((self.row_major)(self.value(*list)->List_0)),
            _ => arbitrary(),
        }
    }

    /// What the fields of a term stand for.
    pub open spec fn values(self, fields: Term) -> Seq<FieldValue<E>>
        decreases fields,
    {
        match fields {
            Term::Field { value, rest, .. } => seq![self.value(*value)] + self.values(*rest),
            _ => Seq::empty(),
        }
    }

    /// What the operands in a list stand for.
    pub open spec fn operands(self, inputs: Term) -> Seq<FieldValue<E>>
        decreases inputs,
    {
        match inputs {
            Term::InputCons(first, rest) => seq![self.value(*first)] + self.operands(*rest),
            _ => Seq::empty(),
        }
    }

    /// A field of the matched primitive that is a list.
    pub open spec fn list(self, name: &'static str) -> Seq<E> {
        (self.matched)(name)->List_0
    }

    /// A field of the matched primitive that is an expression.
    pub open spec fn expr(self, name: &'static str) -> E {
        (self.matched)(name)->Expr_0
    }
}

/// The function of a unary primitive.
pub open spec fn unary_function(hlir: HlirOp) -> UnaryFunction {
    match hlir {
        HlirOp::Exp2 => UnaryFunction::Exp2,
        HlirOp::Log2 => UnaryFunction::Log2,
        HlirOp::Sin => UnaryFunction::Sin,
        HlirOp::Sqrt => UnaryFunction::Sqrt,
        _ => UnaryFunction::Recip,
    }
}

/// The function of a binary primitive.
pub open spec fn binary_function(hlir: HlirOp) -> BinaryFunction {
    match hlir {
        HlirOp::Add => BinaryFunction::Add,
        HlirOp::Mul => BinaryFunction::Mul,
        _ => BinaryFunction::Mod,
    }
}

/// What a primitive computes at an element number. A gather and a scatter give a
/// row-major tensor.
pub open spec fn primitive_writes<E>(
    hlir: HlirOp,
    m: Match<E>,
    host: Host<E>,
    types: Types,
    kernel: int,
    id: int,
) -> Store {
    match hlir {
        HlirOp::Exp2 | HlirOp::Log2 | HlirOp::Sin | HlirOp::Sqrt | HlirOp::Recip => unary_at(
            host,
            types,
            unary_function(hlir),
            m.list("shape"),
            m.list("strides"),
            m.list("out_strides"),
            id,
        ),
        HlirOp::Add | HlirOp::Mul | HlirOp::Mod => binary_at(
            host,
            types,
            binary_function(hlir),
            m.list("shape"),
            m.list("a_strides"),
            m.list("b_strides"),
            m.list("out_strides"),
            id,
        ),
        HlirOp::LessThan => less_than_at(
            host,
            m.list("shape"),
            m.list("a_strides"),
            m.list("b_strides"),
            m.list("out_strides"),
            id,
        ),
        HlirOp::SumReduce => sum_at(
            host,
            types,
            m.list("shape"),
            m.expr("iters"),
            m.list("strides"),
            m.expr("iter_stride"),
            m.list("out_strides"),
            id,
        ),
        HlirOp::MaxReduce => max_at(
            host,
            types,
            m.list("shape"),
            m.expr("iters"),
            m.list("strides"),
            m.expr("iter_stride"),
            m.list("out_strides"),
            id,
        ),
        HlirOp::Constant => Store {
            position: 0,
            value: Value::Bits((m.matched)("value")->Float_0),
        },
        HlirOp::Iota => Store {
            position: id,
            value: Value::Number((host.plain)(m.expr("expr"), id)),
        },
        HlirOp::Gather => gather_at(
            host,
            m.list("index_shape"),
            m.list("index_strides"),
            m.list("data_shape"),
            m.list("data_strides"),
            (m.row_major)(m.list("index_shape")),
            id,
        ),
        HlirOp::Scatter => if kernel == 0 {
            Store {
                position: (host.flat)(
                    m.list("dest_shape"),
                    (m.row_major)(m.list("dest_shape")),
                    id,
                ),
                value: element(0, (host.flat)(m.list("dest_shape"), m.list("dest_strides"), id)),
            }
        } else {
            Store {
                position: (host.integer)(
                    1,
                    (host.flat)(m.list("index_shape"), m.list("index_strides"), id),
                ),
                value: element(2, (host.flat)(m.list("index_shape"), m.list("src_strides"), id)),
            }
        },
        HlirOp::Cast => Store {
            position: id,
            value: converted(types.first(), types.output, element(0, id)),
        },
    }
}

/// The operands of a primitive, in the order in which its meaning numbers them.
pub open spec fn primitive_operands<E>(hlir: HlirOp, m: Match<E>) -> Seq<FieldValue<E>> {
    match hlir {
        HlirOp::Constant | HlirOp::Iota => seq![],
        HlirOp::Add | HlirOp::Mul | HlirOp::Mod | HlirOp::LessThan => seq![
            (m.matched)("inp_a"),
            (m.matched)("inp_b"),
        ],
        HlirOp::Gather => seq![(m.matched)("indexes"), (m.matched)("data")],
        HlirOp::Scatter => seq![(m.matched)("dest"), (m.matched)("indexes"), (m.matched)("src")],
        _ => seq![(m.matched)("inp")],
    }
}

/// An operation that the dialect names.
pub enum Named {
    /// The one that computes a primitive.
    Primitive(HlirOp),
    Matmul,
}

impl Named {
    /// The name of the operation.
    pub open spec fn name(self) -> &'static str {
        match self {
            Named::Matmul => "OpenClMatmul",
            Named::Primitive(hlir) => match hlir {
                HlirOp::Exp2 => "OpenClExp2",
                HlirOp::Log2 => "OpenClLog2",
                HlirOp::Sin => "OpenClSin",
                HlirOp::Sqrt => "OpenClSqrt",
                HlirOp::Recip => "OpenClRecip",
                HlirOp::Add => "OpenClAdd",
                HlirOp::Mul => "OpenClMul",
                HlirOp::Mod => "OpenClMod",
                HlirOp::LessThan => "OpenClLessThan",
                HlirOp::SumReduce => "OpenClSum",
                HlirOp::MaxReduce => "OpenClMax",
                HlirOp::Constant => "OpenClConstant",
                HlirOp::Iota => "OpenClIota",
                HlirOp::Gather => "OpenClGather",
                HlirOp::Scatter => "OpenClScatter",
                HlirOp::Cast => "OpenClCast",
            },
        }
    }

    /// The names of the operation's fields.
    pub open spec fn fields(self) -> Seq<&'static str> {
        match self {
            Named::Matmul => seq![
                "out_shape",
                "mul_shape",
                "k",
                "lhs",
                "lhs_strides",
                "rhs",
                "rhs_strides",
                "sum_input_strides",
                "sum_iter_stride",
                "out_strides",
            ],
            Named::Primitive(hlir) => match hlir {
                HlirOp::Exp2 | HlirOp::Log2 | HlirOp::Sin | HlirOp::Sqrt | HlirOp::Recip => seq![
                    "shape",
                    "strides",
                    "out_strides",
                ],
                HlirOp::Add | HlirOp::Mul | HlirOp::Mod | HlirOp::LessThan => seq![
                    "shape",
                    "a_strides",
                    "b_strides",
                    "out_strides",
                ],
                HlirOp::SumReduce | HlirOp::MaxReduce => seq![
                    "shape",
                    "iters",
                    "strides",
                    "iter_stride",
                    "out_strides",
                ],
                HlirOp::Constant => seq!["value"],
                HlirOp::Iota => seq!["expr", "range"],
                HlirOp::Gather => seq![
                    "out_shape",
                    "indexes",
                    "index_strides",
                    "data",
                    "data_shape",
                    "data_strides",
                    "out_strides",
                ],
                HlirOp::Scatter => seq![
                    "dest_shape",
                    "dest_strides",
                    "dest",
                    "indexes",
                    "index_shape",
                    "index_strides",
                    "src",
                    "src_strides",
                    "out_strides",
                ],
                HlirOp::Cast => seq!["inp", "size", "dtype"],
            },
        }
    }

    /// Whether `op` is the operation with these values of its fields.
    pub open spec fn is<E>(self, fields: Seq<FieldValue<E>>, op: OpenClKernelOp<E>) -> bool {
        match self {
            Named::Matmul => {
                &&& op matches OpenClKernelOp::Matmul(x)
                &&& x.out_shape@ == fields[0]->List_0
                &&& x.mul_shape@ == fields[1]->List_0
                &&& x.k == fields[2]->Expr_0
                &&& x.lhs_strides@ == fields[4]->List_0
                &&& x.rhs_strides@ == fields[6]->List_0
                &&& x.sum_input_strides@ == fields[7]->List_0
                &&& x.sum_iter_stride == fields[8]->Expr_0
                &&& x.out_strides@ == fields[9]->List_0
            },
            Named::Primitive(hlir) => match hlir {
                HlirOp::Exp2 | HlirOp::Log2 | HlirOp::Sin | HlirOp::Sqrt | HlirOp::Recip => {
                    &&& op matches OpenClKernelOp::Unary(x)
                    &&& x.function == unary_function(hlir)
                    &&& x.shape@ == fields[0]->List_0
                    &&& x.input_strides@ == fields[1]->List_0
                    &&& x.output_strides@ == fields[2]->List_0
                },
                HlirOp::Add | HlirOp::Mul | HlirOp::Mod => {
                    &&& op matches OpenClKernelOp::Binary(x)
                    &&& x.function == binary_function(hlir)
                    &&& x.shape@ == fields[0]->List_0
                    &&& x.a_strides@ == fields[1]->List_0
                    &&& x.b_strides@ == fields[2]->List_0
                    &&& x.output_strides@ == fields[3]->List_0
                },
                HlirOp::LessThan => {
                    &&& op matches OpenClKernelOp::LessThan(x)
                    &&& x.shape@ == fields[0]->List_0
                    &&& x.a_strides@ == fields[1]->List_0
                    &&& x.b_strides@ == fields[2]->List_0
                    &&& x.output_strides@ == fields[3]->List_0
                },
                HlirOp::SumReduce => {
                    &&& op matches OpenClKernelOp::SumReduce(x)
                    &&& x.out_shape@ == fields[0]->List_0
                    &&& x.iters == fields[1]->Expr_0
                    &&& x.input_strides@ == fields[2]->List_0
                    &&& x.iter_stride == fields[3]->Expr_0
                    &&& x.output_strides@ == fields[4]->List_0
                },
                HlirOp::MaxReduce => {
                    &&& op matches OpenClKernelOp::MaxReduce(x)
                    &&& x.out_shape@ == fields[0]->List_0
                    &&& x.iters == fields[1]->Expr_0
                    &&& x.input_strides@ == fields[2]->List_0
                    &&& x.iter_stride == fields[3]->Expr_0
                    &&& x.output_strides@ == fields[4]->List_0
                },
                HlirOp::Constant => {
                    &&& op matches OpenClKernelOp::Constant(x)
                    &&& x.bits == fields[0]->Float_0
                },
                HlirOp::Iota => {
                    &&& op matches OpenClKernelOp::Iota(x)
                    &&& x.expression == fields[0]->Expr_0
                    &&& x.range == fields[1]->Expr_0
                },
                HlirOp::Gather => {
                    &&& op matches OpenClKernelOp::Gather(x)
                    &&& x.out_shape@ == fields[0]->List_0
                    &&& x.index_strides@ == fields[2]->List_0
                    &&& x.data_shape@ == fields[4]->List_0
                    &&& x.data_strides@ == fields[5]->List_0
                    &&& x.out_strides@ == fields[6]->List_0
                },
                HlirOp::Scatter => {
                    &&& op matches OpenClKernelOp::Scatter(x)
                    &&& x.dest_shape@ == fields[0]->List_0
                    &&& x.dest_strides@ == fields[1]->List_0
                    &&& x.index_shape@ == fields[4]->List_0
                    &&& x.index_strides@ == fields[5]->List_0
                    &&& x.src_strides@ == fields[7]->List_0
                    &&& x.out_strides@ == fields[8]->List_0
                },
                HlirOp::Cast => {
                    &&& op matches OpenClKernelOp::Cast(x)
                    &&& x.size == fields[1]->Expr_0
                    &&& x.target_dtype == fields[2]->DType_0
                },
            },
        }
    }

    /// The operands that are among the operation's fields, first operand first.
    pub open spec fn own_operands<E>(self, fields: Seq<FieldValue<E>>) -> Seq<FieldValue<E>> {
        match self {
            Named::Matmul => seq![fields[3], fields[5]],
            Named::Primitive(HlirOp::Gather) => seq![fields[1], fields[3]],
            Named::Primitive(HlirOp::Scatter) => seq![fields[2], fields[3], fields[6]],
            Named::Primitive(HlirOp::Cast) => seq![fields[0]],
            _ => seq![],
        }
    }
}

/// The values that the children hold.
pub open spec fn all_held<E>(children: Seq<Child<E>>) -> Seq<FieldValue<E>> {
    children.map_values(|child: Child<E>| held(child))
}

/// The nodes as operands.
pub open spec fn as_operands<E>(nodes: Seq<usize>) -> Seq<FieldValue<E>> {
    nodes.map_values(|node: usize| FieldValue::Operand(node as int))
}

proof fn lemma_held<E>(children: Seq<Child<E>>, kinds: Seq<FieldKind>)
    requires
        child_kinds(children) == kinds,
    ensures
        children.len() == kinds.len(),
        all_held(children).len() == children.len(),
        forall|i: int|
            0 <= i < children.len() ==> #[trigger] all_held(children)[i] == held(children[i])
                && children[i].kind() == kinds[i],
{
    assert forall|i: int| 0 <= i < children.len() implies #[trigger] all_held(children)[i] == held(
        children[i],
    ) && children[i].kind() == kinds[i] by {
        assert(child_kinds(children)[i] == children[i].kind());
    }
}

/// The extraction of every operation builds the operation that its name stands
/// for from the values of its fields, and lists the operands that are among them.
pub proof fn law_extraction_builds_the_named_operation<E>(children: Vec<Child<E>>)
    ensures
        forall|hlir: HlirOp, x: OpenClUnary<E>|
            #![trigger call_ensures(extract_unary::<E>, (unary_function(hlir), children), Some(x))]
            (hlir is Exp2 || hlir is Log2 || hlir is Sin || hlir is Sqrt || hlir is Recip)
                && call_ensures(extract_unary::<E>, (unary_function(hlir), children), Some(x))
                ==> Named::Primitive(hlir).is(all_held(children@), OpenClKernelOp::Unary(x)),
        forall|hlir: HlirOp, x: OpenClBinary<E>|
            #![trigger call_ensures(extract_binary::<E>, (binary_function(hlir), children), Some(x))]
            (hlir is Add || hlir is Mul || hlir is Mod) && call_ensures(
                extract_binary::<E>,
                (binary_function(hlir), children),
                Some(x),
            ) ==> Named::Primitive(hlir).is(all_held(children@), OpenClKernelOp::Binary(x)),
        forall|x: OpenClLessThan<E>| #[trigger]
            call_ensures(extract_less_than::<E>, (children,), Some(x)) ==> Named::Primitive(
                HlirOp::LessThan,
            ).is(all_held(children@), OpenClKernelOp::LessThan(x)),
        forall|x: OpenClSumReduce<E>| #[trigger]
            call_ensures(extract_sum_reduce::<E>, (children,), Some(x)) ==> Named::Primitive(
                HlirOp::SumReduce,
            ).is(all_held(children@), OpenClKernelOp::SumReduce(x)),
        forall|x: OpenClMaxReduce<E>| #[trigger]
            call_ensures(extract_max_reduce::<E>, (children,), Some(x)) ==> Named::Primitive(
                HlirOp::MaxReduce,
            ).is(all_held(children@), OpenClKernelOp::MaxReduce(x)),
        forall|x: OpenClConstant| #[trigger]
            call_ensures(extract_constant::<E>, (children,), Some(x)) ==> Named::Primitive(
                HlirOp::Constant,
            ).is(all_held(children@), OpenClKernelOp::Constant(x)),
        forall|x: OpenClIota<E>| #[trigger]
            call_ensures(extract_iota::<E>, (children,), Some(x)) ==> Named::Primitive(
                HlirOp::Iota,
            ).is(all_held(children@), OpenClKernelOp::Iota(x)),
        forall|x: OpenClMatmul<E>, nodes: Vec<usize>| #[trigger]
            call_ensures(extract_matmul::<E>, (children,), Some((x, nodes))) ==> Named::Matmul.is(
                all_held(children@),
                OpenClKernelOp::Matmul(x),
            ) && Named::Matmul.own_operands(all_held(children@)) == as_operands::<E>(nodes@),
        forall|x: OpenClGather<E>, nodes: Vec<usize>| #[trigger]
            call_ensures(extract_gather::<E>, (children,), Some((x, nodes))) ==> Named::Primitive(
                HlirOp::Gather,
            ).is(all_held(children@), OpenClKernelOp::Gather(x)) && Named::Primitive(
                HlirOp::Gather,
            ).own_operands(all_held(children@)) == as_operands::<E>(nodes@),
        forall|x: OpenClScatter<E>, nodes: Vec<usize>| #[trigger]
            call_ensures(extract_scatter::<E>, (children,), Some((x, nodes))) ==> Named::Primitive(
                HlirOp::Scatter,
            ).is(all_held(children@), OpenClKernelOp::Scatter(x)) && Named::Primitive(
                HlirOp::Scatter,
            ).own_operands(all_held(children@)) == as_operands::<E>(nodes@),
        forall|x: OpenClCast<E>, nodes: Vec<usize>| #[trigger]
            call_ensures(extract_cast::<E>, (children,), Some((x, nodes))) ==> Named::Primitive(
                HlirOp::Cast,
            ).is(all_held(children@), OpenClKernelOp::Cast(x)) && Named::Primitive(
                HlirOp::Cast,
            ).own_operands(all_held(children@)) == as_operands::<E>(nodes@),
{
    assert forall|hlir: HlirOp, x: OpenClUnary<E>|
        #![trigger call_ensures(extract_unary::<E>, (unary_function(hlir), children), Some(x))]
        (hlir is Exp2 || hlir is Log2 || hlir is Sin || hlir is Sqrt || hlir is Recip)
            && call_ensures(
            extract_unary::<E>,
            (unary_function(hlir), children),
            Some(x),
        ) implies Named::Primitive(hlir).is(all_held(children@), OpenClKernelOp::Unary(x)) by {
        lemma_held(children@, unary_kinds());
    }
    assert forall|hlir: HlirOp, x: OpenClBinary<E>|
        #![trigger call_ensures(extract_binary::<E>, (binary_function(hlir), children), Some(x))]
        (hlir is Add || hlir is Mul || hlir is Mod) && call_ensures(
            extract_binary::<E>,
            (binary_function(hlir), children),
            Some(x),
        ) implies Named::Primitive(hlir).is(all_held(children@), OpenClKernelOp::Binary(x)) by {
        lemma_held(children@, binary_kinds());
    }
    assert forall|x: OpenClLessThan<E>| #[trigger]
        call_ensures(extract_less_than::<E>, (children,), Some(x)) implies Named::Primitive(
        HlirOp::LessThan,
    ).is(all_held(children@), OpenClKernelOp::LessThan(x)) by {
        lemma_held(children@, less_than_kinds());
    }
    assert forall|x: OpenClSumReduce<E>| #[trigger]
        call_ensures(extract_sum_reduce::<E>, (children,), Some(x)) implies Named::Primitive(
        HlirOp::SumReduce,
    ).is(all_held(children@), OpenClKernelOp::SumReduce(x)) by {
        lemma_held(children@, sum_reduce_kinds());
    }
    assert forall|x: OpenClMaxReduce<E>| #[trigger]
        call_ensures(extract_max_reduce::<E>, (children,), Some(x)) implies Named::Primitive(
        HlirOp::MaxReduce,
    ).is(all_held(children@), OpenClKernelOp::MaxReduce(x)) by {
        lemma_held(children@, max_reduce_kinds());
    }
    assert forall|x: OpenClConstant| #[trigger]
        call_ensures(extract_constant::<E>, (children,), Some(x)) implies Named::Primitive(
        HlirOp::Constant,
    ).is(all_held(children@), OpenClKernelOp::Constant(x)) by {
        lemma_held(children@, constant_kinds());
    }
    assert forall|x: OpenClIota<E>| #[trigger]
        call_ensures(extract_iota::<E>, (children,), Some(x)) implies Named::Primitive(
        HlirOp::Iota,
    ).is(all_held(children@), OpenClKernelOp::Iota(x)) by {
        lemma_held(children@, iota_kinds());
    }
    assert forall|x: OpenClGather<E>, nodes: Vec<usize>| #[trigger]
        call_ensures(extract_gather::<E>, (children,), Some((x, nodes))) implies Named::Primitive(HlirOp::Gather).is(
        all_held(children@),
        OpenClKernelOp::Gather(x),
    ) && Named::Primitive(HlirOp::Gather).own_operands(all_held(children@)) == as_operands::<E>(nodes@) by {
        lemma_held(children@, gather_kinds());
        assert(Named::Primitive(HlirOp::Gather).own_operands(all_held(children@)) =~= as_operands::<E>(nodes@));
    }
    assert forall|x: OpenClScatter<E>, nodes: Vec<usize>| #[trigger]
        call_ensures(extract_scatter::<E>, (children,), Some((x, nodes))) implies Named::Primitive(HlirOp::Scatter).is(
        all_held(children@),
        OpenClKernelOp::Scatter(x),
    ) && Named::Primitive(HlirOp::Scatter).own_operands(all_held(children@)) == as_operands::<E>(nodes@) by {
        lemma_held(children@, scatter_kinds());
        assert(Named::Primitive(HlirOp::Scatter).own_operands(all_held(children@)) =~= as_operands::<E>(nodes@));
    }
    assert forall|x: OpenClCast<E>, nodes: Vec<usize>| #[trigger]
        call_ensures(extract_cast::<E>, (children,), Some((x, nodes))) implies Named::Primitive(HlirOp::Cast).is(
        all_held(children@),
        OpenClKernelOp::Cast(x),
    ) && Named::Primitive(HlirOp::Cast).own_operands(all_held(children@)) == as_operands::<E>(nodes@) by {
        lemma_held(children@, cast_kinds());
        assert(Named::Primitive(HlirOp::Cast).own_operands(all_held(children@)) =~= as_operands::<E>(nodes@));
    }
    assert forall|x: OpenClMatmul<E>, nodes: Vec<usize>| #[trigger]
        call_ensures(extract_matmul::<E>, (children,), Some((x, nodes))) implies Named::Matmul.is(
        all_held(children@),
        OpenClKernelOp::Matmul(x),
    ) && Named::Matmul.own_operands(all_held(children@)) == as_operands::<E>(nodes@) by {
        lemma_held(children@, matmul_kinds());
        assert(Named::Matmul.own_operands(all_held(children@)) =~= as_operands::<E>(nodes@));
    }
}

/// The name of the operation that a term builds.
pub open spec fn built_name(term: Term) -> &'static str {
    match term {
        Term::Op { kind, .. } => match *kind {
            Term::FromMatched(name) => name,
            Term::Dialect { name, .. } => name,
            _ => arbitrary(),
        },
        Term::FromMatched(name) => name,
        Term::Dialect { name, .. } => name,
        _ => arbitrary(),
    }
}

/// The values of the fields of the operation that a term builds: those of the
/// matched primitive's fields of the same names, or those that the term lists.
pub open spec fn built_fields<E>(term: Term, named: Named, m: Match<E>) -> Seq<FieldValue<E>> {
    match term {
        Term::Op { kind, .. } => match *kind {
            Term::Dialect { fields, .. } => m.values(*fields),
            _ => named.fields().map_values(|name: &'static str| (m.matched)(name)),
        },
        Term::Dialect { fields, .. } => m.values(*fields),
        _ => named.fields().map_values(|name: &'static str| (m.matched)(name)),
    }
}

/// The operands of the operation that a term builds: those of the matched
/// primitive, those that the term lists, or those among the fields.
pub open spec fn built_operands<E>(
    term: Term,
    named: Named,
    hlir: HlirOp,
    m: Match<E>,
) -> Seq<FieldValue<E>> {
    match term {
        Term::Op { inputs, .. } => match *inputs {
            Term::MatchedInputs => operands_of(hlir).map_values(
                |name: &'static str| (m.matched)(name),
            ),
            _ => m.operands(*inputs),
        },
        _ => named.own_operands(built_fields(term, named, m)),
    }
}

/// The names of the fields that a term lists, if it lists them.
pub open spec fn listed_names(term: Term, named: Named) -> Seq<&'static str> {
    match term {
        Term::Op { kind, .. } => match *kind {
            Term::Dialect { fields, .. } => field_names(*fields),
            _ => named.fields(),
        },
        Term::Dialect { fields, .. } => field_names(*fields),
        _ => named.fields(),
    }
}

/// Whether a rule that lowers a primitive is sound under a match: it builds the
/// operation named for the primitive, which writes at every element number what
/// the primitive computes there, from the primitive's operands.
pub open spec fn lowers_soundly<E>(
    rule: RuleView,
    m: Match<E>,
    host: Host<E>,
    types: Types,
    kernel: int,
    id: int,
    op: OpenClKernelOp<E>,
) -> bool {
    let hlir = rule->Rewrite_left->Matched_0;
    let right = rule->Rewrite_right;
    let named = Named::Primitive(hlir);
    &&& built_name(right) == named.name()
    &&& listed_names(right, named) == named.fields()
    &&& built_operands(right, named, hlir, m) == primitive_operands(hlir, m)
    &&& named.is(built_fields(right, named, m), op) ==> op.writes(
        host,
        types.inputs,
        types.output,
        kernel,
        id,
    ) == primitive_writes(hlir, m, host, types, kernel, id)
}

proof fn lemma_lowering_of_matched<E>(
    hlir: HlirOp,
    m: Match<E>,
    host: Host<E>,
    types: Types,
    kernel: int,
    id: int,
    op: OpenClKernelOp<E>,
)
    requires
        !(hlir is Gather || hlir is Scatter),
        Named::Primitive(hlir).is(
            Named::Primitive(hlir).fields().map_values(|name: &'static str| (m.matched)(name)),
            op,
        ),
    ensures
        op.writes(host, types.inputs, types.output, kernel, id) == primitive_writes(
            hlir,
            m,
            host,
            types,
            kernel,
            id,
        ),
{
    let names = Named::Primitive(hlir).fields();
    let fields = names.map_values(|name: &'static str| (m.matched)(name));
    assert forall|i: int| 0 <= i < names.len() implies #[trigger] fields[i] == (m.matched)(
        names[i],
    ) by {}
    assert(Types { inputs: types.inputs, output: types.output } == types);
}

/// Every rule that lowers a primitive is sound under every match: the operation
/// that it builds computes what the primitive computes, element by element, from
/// the same operands.
pub proof fn law_lowering_rules_are_sound<E>(
    rules: Vec<Rule>,
    r: int,
    m: Match<E>,
    host: Host<E>,
    types: Types,
    kernel: int,
    id: int,
    op: OpenClKernelOp<E>,
)
    requires
        call_ensures(opencl_rewrites, (), rules),
        0 <= r < rules@.len(),
        rules@[r]@ is Rewrite,
        rules@[r]@->Rewrite_left is Matched,
    ensures
        lowers_soundly(rules@[r]@, m, host, types, kernel, id, op),
{
    let rule = rules@[r]@;
    assert(rule_views(rules@)[r] == rule);
    assert(rule_views(rules@).len() == rules@.len());
    let hlir = rule->Rewrite_left->Matched_0;
    let right = rule->Rewrite_right;
    let named = Named::Primitive(hlir);
    assert(Types { inputs: types.inputs, output: types.output } == types);
    reveal_with_fuel(field_names, 11);
    reveal_with_fuel(Match::values, 11);
    reveal_with_fuel(Match::value, 3);
    if hlir is Gather || hlir is Scatter {
        let fields = built_fields(right, named, m);
        assert(built_operands(right, named, hlir, m) =~= primitive_operands(hlir, m));
        assert(listed_names(right, named) =~= named.fields());
    } else {
        if named.is(built_fields(right, named, m), op) {
            lemma_lowering_of_matched(hlir, m, host, types, kernel, id, op);
        }
        assert(built_operands(right, named, hlir, m) =~= primitive_operands(hlir, m));
    }
}

/// Every primitive is lowered by a rule.
pub proof fn law_every_primitive_is_lowered(rules: Vec<Rule>, hlir: HlirOp)
    requires
        call_ensures(opencl_rewrites, (), rules),
    ensures
        exists|r: int|
            0 <= r < rules@.len() && (#[trigger] rules@[r])@ is Rewrite
                && rules@[r]@->Rewrite_left == Term::Matched(hlir),
{
    let r: int = match hlir {
        HlirOp::Exp2 => 0,
        HlirOp::Log2 => 1,
        HlirOp::Sin => 2,
        HlirOp::Sqrt => 3,
        HlirOp::Recip => 4,
        HlirOp::Add => 5,
        HlirOp::Mul => 6,
        HlirOp::Mod => 7,
        HlirOp::LessThan => 8,
        HlirOp::SumReduce => 9,
        HlirOp::MaxReduce => 10,
        HlirOp::Constant => 13,
        HlirOp::Iota => 14,
        HlirOp::Gather => 15,
        HlirOp::Scatter => 16,
        HlirOp::Cast => 17,
    };
    assert(rule_views(rules@).len() == rules@.len());
    assert(rule_views(rules@)[r] == rules@[r]@);
    assert(rules@[r]@->Rewrite_left == Term::Matched(hlir));
}

/// The type that a term stands for under a match, where nodes have these types.
pub open spec fn type_held<E>(
    term: Term,
    m: Match<E>,
    node_type: spec_fn(int) -> DType,
) -> DType {
    match term {
        Term::DType(dtype) => dtype,
        Term::Matching(name) => (m.matched)(name)->DType_0,
        Term::DTypeOf(of) => match *of {
            Term::Matching(name) => node_type((m.matched)(name)->Operand_0),
            _ => arbitrary(),
        },
        _ => arbitrary(),
    }
}

/// The type that a rule gives to what it builds: a variable stands for what the
/// first fact says it is.
pub open spec fn type_given<E>(
    rule: RuleView,
    m: Match<E>,
    node_type: spec_fn(int) -> DType,
) -> DType {
    let dtype = rule->Rewrite_dtype;
    match dtype {
        Term::Var(_) => if rule->Rewrite_facts.len() == 1 && rule->Rewrite_facts[0].0 == dtype {
            type_held(rule->Rewrite_facts[0].1, m, node_type)
        } else {
            arbitrary()
        },
        _ => type_held(dtype, m, node_type),
    }
}

/// The rules and the kernels agree on types: what a rule that lowers a primitive
/// says of its result's type is the type that is found for the operation's result.
/// Comparisons give truth values, constants single precision and counting integers;
/// a conversion gives the type that it names, a read by index that of the data,
/// and every other operation that of its first operand. A write by index has the
/// type of what is written, where that is the type of what is written to.
pub proof fn law_rules_and_kernels_agree_on_types<E>(
    rules: Vec<Rule>,
    r: int,
    m: Match<E>,
    node_type: spec_fn(int) -> DType,
    op: OpenClKernelOp<E>,
)
    requires
        call_ensures(opencl_rewrites, (), rules),
        0 <= r < rules@.len(),
        rules@[r]@ is Rewrite,
        rules@[r]@->Rewrite_left is Matched,
        ({
            let hlir = rules@[r]@->Rewrite_left->Matched_0;
            Named::Primitive(hlir).is(
                built_fields(rules@[r]@->Rewrite_right, Named::Primitive(hlir), m),
                op,
            )
        }),
    ensures
        ({
            let rule = rules@[r]@;
            let hlir = rule->Rewrite_left->Matched_0;
            let inputs = primitive_operands(hlir, m).map_values(
                |operand: FieldValue<E>| node_type(operand->Operand_0),
            );
            let given = type_given(rule, m, node_type);
            &&& hlir is Scatter && inputs[0] == inputs[2] || !(hlir is Scatter) ==> given
                == op.output_dtype(inputs)
            &&& match hlir {
                HlirOp::LessThan => given == DType::Bool,
                HlirOp::Constant => given == DType::F32,
                HlirOp::Iota => given == DType::Int,
                HlirOp::Cast => (m.matched)("dtype") matches FieldValue::DType(dtype) ==> given
                    == dtype,
                HlirOp::Gather => given == node_type((m.matched)("data")->Operand_0),
                HlirOp::Scatter => given == node_type((m.matched)("src")->Operand_0),
                _ => given == inputs[0],
            }
        }),
{
    let rule = rules@[r]@;
    assert(rule_views(rules@)[r] == rule);
    assert(rule_views(rules@).len() == rules@.len());
    let hlir = rule->Rewrite_left->Matched_0;
    let named = Named::Primitive(hlir);
    let right = rule->Rewrite_right;
    let fields = built_fields(right, named, m);
    let names = named.fields();
    if !(hlir is Gather || hlir is Scatter) {
        assert forall|i: int| 0 <= i < names.len() implies #[trigger] fields[i] == (m.matched)(
            names[i],
        ) by {}
    }
}

/// The exact value of a formula of sums, products and conversions, given the
/// numbers that the operands hold: conversions keep a number.
pub open spec fn exact(value: Value<Element>, elements: spec_fn(int, int) -> int) -> int
    decreases value,
{
    match value {
        Value::Read(leaf) => elements(leaf.operand, leaf.position),
        Value::Single(x) => exact(*x, elements),
        Value::Half(x) => exact(*x, elements),
        Value::Integer(x) => exact(*x, elements),
        Value::NonZero(x) => if exact(*x, elements) == 0 {
            0
        } else {
            1
        },
        Value::Infix(Operator::Plus, a, b) => exact(*a, elements) + exact(*b, elements),
        Value::Infix(Operator::Times, a, b) => exact(*a, elements) * exact(*b, elements),
        Value::Zero => 0,
        Value::Number(n) => n,
        _ => arbitrary(),
    }
}

proof fn lemma_exact_total(
    count: int,
    term: spec_fn(int) -> Value<Element>,
    elements: spec_fn(int, int) -> int,
    numbers: spec_fn(int) -> int,
)
    requires
        forall|i: int| 0 <= i < count ==> exact(#[trigger] term(i), elements) == numbers(i),
    ensures
        exact(total(count, term), elements) == summed(count, numbers),
    decreases count,
{
    if count > 0 {
        lemma_exact_total(count - 1, term, elements, numbers);
        assert(exact(term(count - 1), elements) == numbers(count - 1));
    }
}

proof fn lemma_exact_stored(
    output: DType,
    dtype: DType,
    value: Value<Element>,
    elements: spec_fn(int, int) -> int,
)
    ensures
        exact(number(output, dtype, value), elements) == exact(value, elements),
        exact(single(dtype, value), elements) == exact(value, elements),
        !(output is Bool) ==> exact(stored(output, value), elements) == exact(value, elements),
{
    reveal_with_fuel(exact, 2);
}

/// What a fused matrix product computes, on exact numbers: it adds up, over the
/// iterations, the products of the elements of its operands at the positions that
/// the element number of the product has under the strides of each.
pub proof fn law_matmul_adds_up_products<E>(
    op: OpenClMatmul<E>,
    host: Host<E>,
    types: Types,
    id: int,
    elements: spec_fn(int, int) -> int,
)
    requires
        !(types.output is Bool),
    ensures
        exact(
            OpenClKernelOp::Matmul(op).writes(host, types.inputs, types.output, 0, id).value,
            elements,
        ) == summed(
            (host.plain)(op.k, id),
            |i: int|
                {
                    let product = (host.flat)(op.out_shape@, op.sum_input_strides@, id) + (
                    host.plain)(op.sum_iter_stride, i);
                    elements(0, (host.flat)(op.mul_shape@, op.lhs_strides@, product)) * elements(
                        1,
                        (host.flat)(op.mul_shape@, op.rhs_strides@, product),
                    )
                },
        ),
{
    let output = types.output;
    let term = |i: int|
        {
            let product = (host.flat)(op.out_shape@, op.sum_input_strides@, id) + (host.plain)(
                op.sum_iter_stride,
                i,
            );
            factor_product(
                output,
                types.first(),
                types.second(),
                element(0, (host.flat)(op.mul_shape@, op.lhs_strides@, product)),
                element(1, (host.flat)(op.mul_shape@, op.rhs_strides@, product)),
            )
        };
    let numbers = |i: int|
        {
            let product = (host.flat)(op.out_shape@, op.sum_input_strides@, id) + (host.plain)(
                op.sum_iter_stride,
                i,
            );
            elements(0, (host.flat)(op.mul_shape@, op.lhs_strides@, product)) * elements(
                1,
                (host.flat)(op.mul_shape@, op.rhs_strides@, product),
            )
        };
    let count = (host.plain)(op.k, id);
    assert forall|i: int| 0 <= i < count implies exact(#[trigger] term(i), elements) == numbers(
        i,
    ) by {
        let product = (host.flat)(op.out_shape@, op.sum_input_strides@, id) + (host.plain)(
            op.sum_iter_stride,
            i,
        );
        let a = element(0, (host.flat)(op.mul_shape@, op.lhs_strides@, product));
        let b = element(1, (host.flat)(op.mul_shape@, op.rhs_strides@, product));
        lemma_exact_stored(output, types.first(), a, elements);
        lemma_exact_stored(output, types.second(), b, elements);
        reveal_with_fuel(exact, 2);
    }
    lemma_exact_total(count, term, elements, numbers);
    lemma_exact_stored(output, output, total(count, term), elements);
}

/// What a sum computes, on exact numbers.
proof fn lemma_sum_adds_up<E>(
    op: OpenClSumReduce<E>,
    host: Host<E>,
    types: Types,
    id: int,
    elements: spec_fn(int, int) -> int,
)
    requires
        !(types.output is Bool),
    ensures
        exact(
            OpenClKernelOp::SumReduce(op).writes(host, types.inputs, types.output, 0, id).value,
            elements,
        ) == summed(
            (host.plain)(op.iters, id),
            |i: int|
                elements(
                    0,
                    (host.flat)(op.out_shape@, op.input_strides@, id) + (host.plain)(
                        op.iter_stride,
                        i,
                    ),
                ),
        ),
{
    let term = reduced(host, types, op.out_shape@, op.input_strides@, op.iter_stride, id);
    let numbers = |i: int|
        elements(
            0,
            (host.flat)(op.out_shape@, op.input_strides@, id) + (host.plain)(op.iter_stride, i),
        );
    let count = (host.plain)(op.iters, id);
    assert forall|i: int| 0 <= i < count implies exact(#[trigger] term(i), elements) == numbers(
        i,
    ) by {
        let leaf = element(
            0,
            (host.flat)(op.out_shape@, op.input_strides@, id) + (host.plain)(op.iter_stride, i),
        );
        lemma_exact_stored(types.output, types.first(), leaf, elements);
        reveal_with_fuel(exact, 2);
    }
    lemma_exact_total(count, term, elements, numbers);
    lemma_exact_stored(types.output, types.output, total(count, term), elements);
    assert(Types { inputs: types.inputs, output: types.output } == types);
}

/// What a product computes, on exact numbers.
proof fn lemma_product_multiplies<E>(
    op: OpenClBinary<E>,
    host: Host<E>,
    types: Types,
    id: int,
    elements: spec_fn(int, int) -> int,
)
    requires
        op.function is Mul,
        !(types.output is Bool),
    ensures
        exact(
            OpenClKernelOp::Binary(op).writes(host, types.inputs, types.output, 0, id).value,
            elements,
        ) == elements(0, (host.flat)(op.shape@, op.a_strides@, id)) * elements(
            1,
            (host.flat)(op.shape@, op.b_strides@, id),
        ),
{
    let a = element(0, (host.flat)(op.shape@, op.a_strides@, id));
    let b = element(1, (host.flat)(op.shape@, op.b_strides@, id));
    lemma_exact_stored(types.output, types.first(), a, elements);
    lemma_exact_stored(types.output, types.second(), b, elements);
    let product = Value::Infix(
        Operator::Times,
        Box::new(number(types.output, types.first(), a)),
        Box::new(number(types.output, types.second(), b)),
    );
    lemma_exact_stored(types.output, types.output, product, elements);
    reveal_with_fuel(exact, 2);
    assert(Types { inputs: types.inputs, output: types.output } == types);
}

/// The product inside the sum that the fusion rule matches.
pub open spec fn fused_product(rule: RuleView) -> Term {
    match *(rule->Rewrite_left->Op_inputs) {
        Term::InputCons(first, _) => *first,
        _ => arbitrary(),
    }
}

/// Fusion is sound. Take any match of a rule of the dialect whose left side is
/// itself of the dialect: a sum over a product, which is contiguous. Whatever the operands hold, the fused operation
/// writes where the sum writes, and what it writes is, on exact numbers, what the
/// sum makes of what the product has written: each operand is read at the
/// position that the product gives that same operand, and the products are added
/// up over the iterations of the sum.
pub proof fn law_fusion_is_sound<E>(
    rules: Vec<Rule>,
    r: int,
    rule: RuleView,
    m: Match<E>,
    host: Host<E>,
    fused: OpenClKernelOp<E>,
    sum: OpenClKernelOp<E>,
    product: OpenClKernelOp<E>,
    types: Types,
    product_types: Types,
    sum_types: Types,
    tensors: spec_fn(FieldValue<E>) -> spec_fn(int) -> int,
    written: spec_fn(int) -> int,
    size: int,
    id: int,
)
    requires
        call_ensures(opencl_rewrites, (), rules),
        0 <= r < rules@.len(),
        rule == rules@[r]@,
        rule is Rewrite,
        rule->Rewrite_left is Op,
        Named::Matmul.is(built_fields(rule->Rewrite_right, Named::Matmul, m), fused),
        Named::Primitive(HlirOp::SumReduce).is(
            built_fields(
                rule->Rewrite_left,
                Named::Primitive(HlirOp::SumReduce),
                m,
            ),
            sum,
        ),
        Named::Primitive(HlirOp::Mul).is(
            built_fields(fused_product(rule), Named::Primitive(HlirOp::Mul), m),
            product,
        ),
        !(types.output is Bool) && !(product_types.output is Bool) && !(sum_types.output is Bool),
        // the product is contiguous, and its buffer holds what it has written
        forall|n: int|
            0 <= n < size ==> (#[trigger] product.writes(
                host,
                product_types.inputs,
                product_types.output,
                0,
                n,
            )).position == n && written(n) == exact(
                product.writes(host, product_types.inputs, product_types.output, 0, n).value,
                |operand: int, position: int|
                    tensors(
                        built_operands(
                            fused_product(rule),
                            Named::Primitive(HlirOp::Mul),
                            HlirOp::Mul,
                            m,
                        )[operand],
                    )(position),
            ),
        // the sum reads inside that buffer
        forall|i: int|
            0 <= i < (host.plain)(sum->SumReduce_0.iters, id) ==> 0 <= (host.flat)(
                sum->SumReduce_0.out_shape@,
                sum->SumReduce_0.input_strides@,
                id,
            ) + #[trigger] (host.plain)(sum->SumReduce_0.iter_stride, i) < size,
    ensures
        built_name(rule->Rewrite_right) == Named::Matmul.name(),
        built_name(rule->Rewrite_left) == Named::Primitive(HlirOp::SumReduce).name(),
        built_name(fused_product(rule)) == Named::Primitive(HlirOp::Mul).name(),
        listed_names(rule->Rewrite_right, Named::Matmul) == Named::Matmul.fields(),
        listed_names(
            rule->Rewrite_left,
            Named::Primitive(HlirOp::SumReduce),
        ) == Named::Primitive(HlirOp::SumReduce).fields(),
        listed_names(fused_product(rule), Named::Primitive(HlirOp::Mul)) == Named::Primitive(
            HlirOp::Mul,
        ).fields(),
        fused.writes(host, types.inputs, types.output, 0, id).position == sum.writes(
            host,
            sum_types.inputs,
            sum_types.output,
            0,
            id,
        ).position,
        exact(
            fused.writes(host, types.inputs, types.output, 0, id).value,
            |operand: int, position: int|
                tensors(
                    built_operands(
                        rule->Rewrite_right,
                        Named::Matmul,
                        HlirOp::Mul,
                        m,
                    )[operand],
                )(position),
        ) == exact(
            sum.writes(host, sum_types.inputs, sum_types.output, 0, id).value,
            |operand: int, position: int| written(position),
        ),
{
    assert(rule_views(rules@)[r] == rule);
    assert(rule_views(rules@).len() == rules@.len());
    assert(rule == matmul_rule());
    reveal_with_fuel(field_names, 12);
    reveal_with_fuel(Match::values, 12);
    reveal_with_fuel(Match::operands, 4);
    reveal_with_fuel(Match::value, 2);
    let right = rule->Rewrite_right;
    let left = rule->Rewrite_left;
    let mul = Named::Primitive(HlirOp::Mul);
    let reduce = Named::Primitive(HlirOp::SumReduce);
    assert(listed_names(right, Named::Matmul) =~= Named::Matmul.fields());
    assert(listed_names(left, reduce) =~= reduce.fields());
    assert(listed_names(fused_product(rule), mul) =~= mul.fields());
    let fused_operands = built_operands(right, Named::Matmul, HlirOp::Mul, m);
    let product_operands = built_operands(fused_product(rule), mul, HlirOp::Mul, m);
    assert(fused_operands =~= product_operands);
    assert(fused_operands[0] == (m.variable)("?opencl_matmul_lhs"));
    let elements = |operand: int, position: int| tensors(fused_operands[operand])(position);
    let buffer = |operand: int, position: int| written(position);
    let f = fused->Matmul_0;
    let s = sum->SumReduce_0;
    let p = product->Binary_0;
    law_matmul_adds_up_products(f, host, types, id, elements);
    lemma_sum_adds_up(s, host, sum_types, id, buffer);
    let start = (host.flat)(s.out_shape@, s.input_strides@, id);
    let a = |i: int|
        {
            let product = (host.flat)(f.out_shape@, f.sum_input_strides@, id) + (host.plain)(
                f.sum_iter_stride,
                i,
            );
            elements(0, (host.flat)(f.mul_shape@, f.lhs_strides@, product)) * elements(
                1,
                (host.flat)(f.mul_shape@, f.rhs_strides@, product),
            )
        };
    let b = |i: int|
        buffer(
            0,
            (host.flat)(s.out_shape@, s.input_strides@, id) + (host.plain)(s.iter_stride, i),
        );
    let count = (host.plain)(s.iters, id);
    assert forall|i: int| 0 <= i < count implies #[trigger] a(i) == b(i) by {
        let n = start + (host.plain)(s.iter_stride, i);
        assert(0 <= n < size);
        let wrote = product.writes(host, product_types.inputs, product_types.output, 0, n);
        assert(wrote.position == n);
        lemma_product_multiplies(p, host, product_types, n, elements);
    }
    lemma_summed_same(count, a, b);
}

} // verus!
