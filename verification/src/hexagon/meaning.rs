//! What the operations of the Hexagon dialect compute, on exact numbers, and why
//! its rules may be applied.

use vstd::prelude::*;
use vstd::std_specs::cmp::PartialEqSpec;

use crate::children::{lemma_kinds, Child};
use crate::dtype::DType;
use crate::hexagon::extract::{
    binary_kinds, extract_binary, extract_matmul_i8, matmul_i8_kinds,
};
use crate::hexagon::kernel::{
    BinaryOp, HexagonBinary, HexagonDispatch, HexagonKernelOp, HexagonMatmulI8, HexagonSize,
    HexagonV73, MatmulVariant,
};
use crate::hexagon::rewrite::{
    hexagon_rewrites, law_contraction_is_row_major, matmul_i8_rule, I8_K,
};
use crate::hexagon::runtime::{HexagonCall, HexagonRuntime};
use crate::program::{home, BufferRef, GraphOp};
use crate::rules::{
    lemma_summed_same, operands_of, position_of, rule_views, summed, value_of, HlirOp, Rule,
    RuleView, Term,
};

verus! {

/// How the symbolic expressions of a graph are evaluated.
#[verifier::reject_recursive_types(E)]
pub struct Layout<E> {
    /// The position that an element number has in a tensor of the first list's
    /// extents under the second list's strides.
    pub flat: spec_fn(Seq<E>, Seq<E>, int) -> int,
    /// The value of an extent.
    pub extent: spec_fn(E) -> int,
}

/// The function of two numbers.
pub open spec fn applied(function: BinaryOp, a: int, b: int) -> int {
    match function {
        BinaryOp::AddF32 => a + b,
        BinaryOp::MulF32 => a * b,
    }
}

/// The element in row `i` and column `j` of the product of a matrix with rows of
/// `k` elements and the transpose of another one: both schedules compute it.
pub open spec fn projected(
    k: int,
    a: spec_fn(int) -> int,
    b: spec_fn(int) -> int,
    i: int,
    j: int,
) -> int {
    summed(k, |l: int| a(i * k + l) * b(j * k + l))
}

/// What the DSP leaves at a position of the result, given what the two arguments
/// hold: an elementwise function runs over both arguments as they are stored.
pub open spec fn left_by<E>(
    dispatch: HexagonDispatch<E>,
    layout: Layout<E>,
    a: spec_fn(int) -> int,
    b: spec_fn(int) -> int,
    position: int,
) -> int {
    match dispatch {
        HexagonDispatch::F32(function) => applied(function, a(position), b(position)),
        HexagonDispatch::MatmulI8 { n, k, .. } => projected(
            (layout.extent)(k),
            a,
            b,
            position / (layout.extent)(n),
            position % (layout.extent)(n),
        ),
    }
}

impl<E: Copy + PartialEq> HexagonKernelOp<E> {
    /// Where the operation writes the element with a number.
    pub open spec fn written_at(self, layout: Layout<E>, id: int) -> int {
        match self {
            HexagonKernelOp::Binary(op) => (layout.flat)(op.shape@, op.output_strides@, id),
            HexagonKernelOp::MatmulI8(_) => id,
        }
    }

    /// What the operation computes for the element with a number: an elementwise
    /// function reads each argument under its own strides, and a matrix product
    /// gives `m` rows of `n` elements.
    pub open spec fn computes(
        self,
        layout: Layout<E>,
        a: spec_fn(int) -> int,
        b: spec_fn(int) -> int,
        id: int,
    ) -> int {
        match self {
            HexagonKernelOp::Binary(op) => applied(
                op.function,
                a((layout.flat)(op.shape@, op.a_strides@, id)),
                b((layout.flat)(op.shape@, op.b_strides@, id)),
            ),
            HexagonKernelOp::MatmulI8(op) => projected(
                (layout.extent)(op.k),
                a,
                b,
                id / (layout.extent)(op.n),
                id % (layout.extent)(op.n),
            ),
        }
    }
}

/// The call that is dispatched for an operation leaves, where the operation
/// writes an element, what the operation computes for it: an elementwise call
/// computes the operation's own function, and a matrix product has the
/// operation's own extents and schedule.
pub proof fn law_dispatch_computes_the_operation<E: Copy + PartialEq>(
    op: HexagonKernelOp<E>,
    dispatch: HexagonDispatch<E>,
    layout: Layout<E>,
    a: spec_fn(int) -> int,
    b: spec_fn(int) -> int,
    id: int,
)
    requires
        call_ensures(HexagonKernelOp::<E>::dispatch, (&op,), dispatch),
        op.contiguous(),
        forall|x: E, y: E| #[trigger] x.eq_spec(&y) ==> x == y,
    ensures
        left_by(dispatch, layout, a, b, op.written_at(layout, id)) == op.computes(
            layout,
            a,
            b,
            id,
        ),
        op matches HexagonKernelOp::MatmulI8(matmul) ==> dispatch == (HexagonDispatch::MatmulI8 {
            m: matmul.m,
            n: matmul.n,
            k: matmul.k,
            variant: matmul.variant,
        }),
{
    if let HexagonKernelOp::Binary(binary) = op {
        assert(binary.a_strides@ =~= binary.output_strides@);
        assert(binary.b_strides@ =~= binary.output_strides@);
    }
}

/// Calls of elementwise operations with different functions differ.
pub proof fn law_different_functions_are_dispatched_differently<E: Copy + PartialEq>(
    a: HexagonBinary<E>,
    b: HexagonBinary<E>,
    a_dispatch: HexagonDispatch<E>,
    b_dispatch: HexagonDispatch<E>,
)
    requires
        call_ensures(
            HexagonKernelOp::<E>::dispatch,
            (&HexagonKernelOp::Binary(a),),
            a_dispatch,
        ),
        call_ensures(
            HexagonKernelOp::<E>::dispatch,
            (&HexagonKernelOp::Binary(b),),
            b_dispatch,
        ),
    ensures
        a_dispatch == b_dispatch <==> a.function == b.function,
{
}

/// Running a compiled graph makes one call for each step, in order. The call
/// leaves in the step's own buffer, where the step's operation writes an element,
/// what the operation computes for it from the buffers of the step's first and
/// second argument; and it is made for the number of elements of the result.
pub proof fn law_calls_compute_the_steps<E: Copy + PartialEq, D>(
    runtime: HexagonRuntime<E, D>,
    elements: Vec<usize>,
    calls: Vec<HexagonCall<E>>,
    layout: Layout<E>,
    memory: spec_fn(BufferRef) -> spec_fn(int) -> int,
    step: int,
    id: int,
)
    requires
        call_ensures(HexagonRuntime::<E, D>::execute, (&runtime, &elements), Ok(calls)),
        0 <= step < runtime.active().steps@.len(),
        runtime.active().op(step).contiguous(),
        forall|x: E, y: E| #[trigger] x.eq_spec(&y) ==> x == y,
    ensures
        ({
            let bucket = runtime.active();
            let nodes = bucket.steps@[step].input_nodes@;
            let op = bucket.op(step);
            let call = calls@[step];
            &&& calls@.len() == bucket.steps@.len()
            &&& nodes.len() >= 2
            &&& call.elements == elements@[step]
            &&& call.output == BufferRef::Intermediate(bucket.steps@[step].node)
            &&& left_by(
                call.dispatch,
                layout,
                memory(call.a),
                memory(call.b),
                op.written_at(layout, id),
            ) == op.computes(layout, memory(home(bucket, nodes[0])), memory(home(bucket, nodes[1])), id)
        }),
{
    let bucket = runtime.active();
    let op = bucket.op(step);
    let call = calls@[step];
    assert(runtime.step_call(step, elements@[step]) is Ok);
    if let HexagonKernelOp::Binary(binary) = op {
        assert(binary.a_strides@ =~= binary.output_strides@);
        assert(binary.b_strides@ =~= binary.output_strides@);
    }
}

/// Extraction builds, from the values of the fields, the operation that computes
/// the function, or the matrix product of the named schedule.
pub proof fn law_extraction_builds_the_operation<E>(children: Vec<Child<E>>)
    ensures
        forall|function: BinaryOp, x: HexagonBinary<E>| #[trigger]
            call_ensures(extract_binary::<E>, (function, children), Some(x)) ==> {
                &&& x.function == function
                &&& children@.len() == 4
                &&& children@[0] == Child::<E>::List(x.shape)
                &&& children@[1] == Child::<E>::List(x.a_strides)
                &&& children@[2] == Child::<E>::List(x.b_strides)
                &&& children@[3] == Child::<E>::List(x.output_strides)
            },
        forall|x: HexagonMatmulI8<E>| #[trigger]
            call_ensures(extract_matmul_i8::<E>, (children,), Ok(x)) ==> {
                &&& children@.len() == 4
                &&& children@[0] == Child::<E>::Expr(x.m)
                &&& children@[1] == Child::<E>::Expr(x.n)
                &&& children@[2] == Child::<E>::Expr(x.k)
                &&& children@[3] == Child::<E>::Int(
                    match x.variant {
                        MatmulVariant::Scalar => 0,
                        MatmulVariant::Hvx => 1,
                    },
                )
            },
{
    assert forall|function: BinaryOp, x: HexagonBinary<E>| #[trigger]
        call_ensures(extract_binary::<E>, (function, children), Some(x)) implies {
        &&& x.function == function
        &&& children@.len() == 4
        &&& children@[0] == Child::<E>::List(x.shape)
        &&& children@[1] == Child::<E>::List(x.a_strides)
        &&& children@[2] == Child::<E>::List(x.b_strides)
        &&& children@[3] == Child::<E>::List(x.output_strides)
    } by {
        lemma_kinds(children@, binary_kinds());
    }
    assert forall|x: HexagonMatmulI8<E>| #[trigger]
        call_ensures(extract_matmul_i8::<E>, (children,), Ok(x)) implies {
        &&& children@.len() == 4
        &&& children@[0] == Child::<E>::Expr(x.m)
        &&& children@[1] == Child::<E>::Expr(x.n)
        &&& children@[2] == Child::<E>::Expr(x.k)
        &&& children@[3] == Child::<E>::Int(
            match x.variant {
                MatmulVariant::Scalar => 0,
                MatmulVariant::Hvx => 1,
            },
        )
    } by {
        lemma_kinds(children@, matmul_i8_kinds());
    }
}

/// The value of the field with this number in a list of fields.
pub open spec fn field_at(fields: Term, index: int) -> Term
    decreases fields,
{
    match fields {
        Term::Field { value, rest, .. } => if index == 0 {
            *value
        } else {
            field_at(*rest, index - 1)
        },
        _ => arbitrary(),
    }
}

/// The names of a list of fields.
pub open spec fn names_of(fields: Term) -> Seq<&'static str>
    decreases fields,
{
    match fields {
        Term::Field { name, rest, .. } => seq![name] + names_of(*rest),
        _ => Seq::empty(),
    }
}

/// The fields of the operation of a term.
pub open spec fn fields_of(term: Term) -> Term {
    match term {
        Term::Op { kind, .. } => match *kind {
            Term::Primitive { fields, .. } => *fields,
            Term::Dialect { fields, .. } => *fields,
            _ => arbitrary(),
        },
        _ => arbitrary(),
    }
}

/// The operand with this number in a list of operands.
pub open spec fn operand_at(inputs: Term, index: int) -> Term
    decreases inputs,
{
    match inputs {
        Term::InputCons(first, rest) => if index == 0 {
            *first
        } else {
            operand_at(*rest, index - 1)
        },
        _ => arbitrary(),
    }
}

/// The operand with this number of the operation of a term.
pub open spec fn operand_of(term: Term, index: int) -> Term {
    match term {
        Term::Op { inputs, .. } => operand_at(*inputs, index),
        _ => arbitrary(),
    }
}

/// The numbers that a variable holds, also where they are cast to integers.
pub open spec fn numbers_of(
    term: Term,
    tensors: spec_fn(&'static str) -> spec_fn(int) -> int,
) -> spec_fn(int) -> int {
    match term {
        Term::Var(name) => tensors(name),
        Term::Op { kind, inputs } => match (*kind, operand_at(*inputs, 0)) {
            (Term::Primitive { op: HlirOp::Cast, .. }, Term::Var(name)) => tensors(name),
            _ => arbitrary(),
        },
        _ => arbitrary(),
    }
}

/// Three coordinates.
pub open spec fn coordinates(i: int, j: int, l: int) -> Seq<int> {
    seq![i, j, l]
}

/// The rules for the matrix product are sound. Take any match of the left side:
/// a sum over the product of the two operands, each cast to integers. Whatever
/// the operands hold, the sum gives, for row `i` and column `j`, what the matrix
/// product of the right side computes from the same two operands, and it writes
/// it where the matrix product writes it, at the element number `i * n + j`.
pub proof fn law_projection_rules_are_sound(
    rules: Vec<Rule>,
    r: int,
    rule: RuleView,
    assignment: spec_fn(&'static str) -> int,
    tensors: spec_fn(&'static str) -> spec_fn(int) -> int,
    written: spec_fn(int) -> int,
    i: int,
    j: int,
)
    requires
        call_ensures(hexagon_rewrites, (), rules),
        0 <= r < rules@.len(),
        rule == rules@[r]@,
        rule is Rewrite,
        rule->Rewrite_left is Op,
        ({
            let left = rule->Rewrite_left;
            let product = operand_of(left, 0);
            // the buffer holds the product of the two operands
            forall|l: int|
                0 <= l < assignment(I8_K) ==> written(
                    #[trigger] position_of(
                        field_at(fields_of(product), 3),
                        assignment,
                        coordinates(i, j, l),
                    ),
                ) == numbers_of(operand_of(product, 0), tensors)(
                    position_of(field_at(fields_of(product), 1), assignment, coordinates(i, j, l)),
                ) * numbers_of(operand_of(product, 1), tensors)(
                    position_of(field_at(fields_of(product), 2), assignment, coordinates(i, j, l)),
                )
        }),
    ensures
        ({
            let left = rule->Rewrite_left;
            let right = rule->Rewrite_right;
            let product = operand_of(left, 0);
            let m = value_of(field_at(fields_of(right), 0), assignment, 0);
            let n = value_of(field_at(fields_of(right), 1), assignment, 0);
            let k = value_of(field_at(fields_of(right), 2), assignment, 0);
            &&& *left->Op_kind matches Term::Primitive { op: HlirOp::SumReduce, .. }
            &&& *product->Op_kind matches Term::Primitive { op: HlirOp::Mul, .. }
            &&& names_of(fields_of(left)) == seq![
                "shape",
                "iters",
                "strides",
                "iter_stride",
                "out_strides",
            ]
            &&& names_of(fields_of(product)) == seq![
                "shape",
                "a_strides",
                "b_strides",
                "out_strides",
            ]
            &&& names_of(fields_of(right)) == seq!["m", "n", "k", "variant"]
            &&& value_of(field_at(fields_of(left), 1), assignment, 0) == k
            &&& summed(
                k,
                |l: int|
                    written(
                        position_of(field_at(fields_of(left), 2), assignment, seq![i, j])
                            + value_of(field_at(fields_of(left), 3), assignment, l),
                    ),
            ) == projected(
                k,
                numbers_of(operand_of(right, 0), tensors),
                numbers_of(operand_of(right, 1), tensors),
                i,
                j,
            )
            &&& position_of(field_at(fields_of(left), 4), assignment, seq![i, j]) == i * n + j
            &&& field_at(fields_of(left), 0) == Term::Cons(
                Box::new(field_at(fields_of(right), 0)),
                Box::new(
                    Term::Cons(Box::new(field_at(fields_of(right), 1)), Box::new(Term::Nil)),
                ),
            )
            &&& field_at(fields_of(right), 3) == Term::Int(0) || field_at(fields_of(right), 3)
                == Term::Int(1)
            &&& rule->Rewrite_dtype == Term::DType(DType::Int)
        }),
{
    assert(rule_views(rules@)[r] == rule);
    assert(rule_views(rules@).len() == rules@.len());
    assert(rule == matmul_i8_rule(MatmulVariant::Scalar) || rule == matmul_i8_rule(
        MatmulVariant::Hvx,
    ));
    reveal_with_fuel(field_at, 6);
    reveal_with_fuel(names_of, 6);
    reveal_with_fuel(operand_at, 3);
    reveal_with_fuel(value_of, 4);
    let left = rule->Rewrite_left;
    let right = rule->Rewrite_right;
    let product = operand_of(left, 0);
    let k = assignment(I8_K);
    let a = numbers_of(operand_of(right, 0), tensors);
    let b = numbers_of(operand_of(right, 1), tensors);
    assert(names_of(fields_of(left)) =~= seq![
        "shape",
        "iters",
        "strides",
        "iter_stride",
        "out_strides",
    ]);
    assert(names_of(fields_of(product)) =~= seq!["shape", "a_strides", "b_strides", "out_strides"]);
    assert(names_of(fields_of(right)) =~= seq!["m", "n", "k", "variant"]);
    law_contraction_is_row_major(assignment, i, j, 0);
    let sum = |l: int|
        written(
            position_of(field_at(fields_of(left), 2), assignment, seq![i, j]) + value_of(
                field_at(fields_of(left), 3),
                assignment,
                l,
            ),
        );
    let want = |l: int| a(i * k + l) * b(j * k + l);
    assert forall|l: int| 0 <= l < k implies #[trigger] sum(l) == want(l) by {
        law_contraction_is_row_major(assignment, i, j, l);
        assert(written(
            position_of(field_at(fields_of(product), 3), assignment, coordinates(i, j, l)),
        ) == numbers_of(operand_of(product, 0), tensors)(
            position_of(field_at(fields_of(product), 1), assignment, coordinates(i, j, l)),
        ) * numbers_of(operand_of(product, 1), tensors)(
            position_of(field_at(fields_of(product), 2), assignment, coordinates(i, j, l)),
        ));
    }
    lemma_summed_same(k, sum, want);
}

/// Both schedules of the matrix product are offered, each by a rule of its own.
pub proof fn law_both_schedules_are_offered(rules: Vec<Rule>, variant: MatmulVariant)
    requires
        call_ensures(hexagon_rewrites, (), rules),
    ensures
        exists|r: int|
            {
                &&& 0 <= r < rules@.len()
                &&& (#[trigger] rules@[r])@ is Rewrite
                &&& rules@[r]@->Rewrite_left is Op
                &&& field_at(fields_of(rules@[r]@->Rewrite_right), 3) == Term::Int(
                    match variant {
                        MatmulVariant::Scalar => 0,
                        MatmulVariant::Hvx => 1,
                    },
                )
            },
{
    reveal_with_fuel(field_at, 6);
    let r: int = match variant {
        MatmulVariant::Scalar => 2,
        MatmulVariant::Hvx => 3,
    };
    assert(rule_views(rules@).len() == rules@.len());
    assert(rule_views(rules@)[r] == rules@[r]@);
    assert(field_at(fields_of(rules@[r]@->Rewrite_right), 3) is Int);
}

/// The numbers of a primitive of two arguments.
pub open spec fn primitive(hlir: HlirOp, a: int, b: int) -> int {
    match hlir {
        HlirOp::Add => a + b,
        HlirOp::Mul => a * b,
        _ => arbitrary(),
    }
}

/// The name of the elementwise operation with a function.
pub open spec fn name_of(function: BinaryOp) -> &'static str {
    match function {
        BinaryOp::AddF32 => "HexagonAdd",
        BinaryOp::MulF32 => "HexagonMul",
    }
}

/// Every rule for an elementwise operation is sound: for single-precision
/// operands only, it replaces the matched primitive by an operation of the same
/// operands and fields, whose function gives the primitive's numbers.
pub proof fn law_elementwise_rules_are_sound(rules: Vec<Rule>, r: int, a: int, b: int)
    requires
        call_ensures(hexagon_rewrites, (), rules),
        0 <= r < rules@.len(),
        rules@[r]@ is Rewrite,
        rules@[r]@->Rewrite_left is Matched,
    ensures
        ({
            let rule = rules@[r]@;
            let hlir = rule->Rewrite_left->Matched_0;
            let wanted = Term::DType(DType::F32);
            let type_of = |name: &'static str| Term::DTypeOf(Box::new(Term::Matching(name)));
            &&& exists|function: BinaryOp|
                {
                    &&& #[trigger] applied(function, a, b) == primitive(hlir, a, b)
                    &&& rule->Rewrite_right == (Term::Op {
                        kind: Box::new(Term::FromMatched(name_of(function))),
                        inputs: Box::new(Term::MatchedInputs),
                    })
                }
            &&& operands_of(hlir) == seq!["inp_a", "inp_b"]
            &&& rule->Rewrite_dtype == wanted
            &&& rule->Rewrite_facts == seq![(type_of("inp_a"), wanted), (type_of("inp_b"), wanted)]
        }),
{
    let rule = rules@[r]@;
    let hlir = rule->Rewrite_left->Matched_0;
    let wanted = Term::DType(DType::F32);
    let type_of = |name: &'static str| Term::DTypeOf(Box::new(Term::Matching(name)));
    assert(rule_views(rules@)[r] == rule);
    assert(rule_views(rules@).len() == rules@.len());
    assert(rules@.len() == 4);
    assert(r == 0 || r == 1);
    assert(rule->Rewrite_facts =~= seq![(type_of("inp_a"), wanted), (type_of("inp_b"), wanted)]);
    assert(operands_of(hlir) == seq!["inp_a", "inp_b"]);
    let function = if r == 0 {
        BinaryOp::AddF32
    } else {
        BinaryOp::MulF32
    };
    assert(applied(function, a, b) == primitive(hlir, a, b));
}

/// The rules and the dialect agree on types: a rule applies only to operands of the
/// type that the operation takes, and says of the result the type that the
/// operation gives. Elementwise operations take and give single precision; the
/// matrix product takes 8-bit integers and gives 32-bit ones, which hold the sum.
pub proof fn law_rules_and_dialect_agree_on_types<E: Copy + PartialEq>(
    rules: Vec<Rule>,
    binary: HexagonBinary<E>,
    matmul: HexagonMatmulI8<E>,
    inputs: Seq<DType>,
    r: int,
)
    requires
        call_ensures(hexagon_rewrites, (), rules),
        0 <= r < rules@.len(),
        rules@[r]@ is Rewrite,
    ensures
        rules@[r]@->Rewrite_left is Op ==> {
            let product = HexagonKernelOp::MatmulI8(matmul);
            let taken = Term::DType(product.argument_type());
            let right = rules@[r]@->Rewrite_right;
            let type_of = |k: int| Term::DTypeOf(Box::new(operand_of(right, k)));
            let facts = rules@[r]@->Rewrite_facts;
            &&& rules@[r]@->Rewrite_dtype == Term::DType(product.result_dtype(inputs))
            &&& facts.contains((type_of(0), taken))
            &&& facts.contains((type_of(1), taken))
            &&& product.argument_type() == DType::I8
            &&& product.result_dtype(inputs) == DType::Int
        },
        rules@[r]@->Rewrite_left is Matched ==> {
            let pairs = HexagonKernelOp::Binary(binary);
            let taken = Term::DType(pairs.argument_type());
            let type_of = |name: &'static str| Term::DTypeOf(Box::new(Term::Matching(name)));
            let facts = rules@[r]@->Rewrite_facts;
            &&& rules@[r]@->Rewrite_dtype == Term::DType(pairs.result_dtype(inputs))
            &&& facts.contains((type_of("inp_a"), taken))
            &&& facts.contains((type_of("inp_b"), taken))
            &&& pairs.argument_type() == DType::F32
        },
        rules@[r]@->Rewrite_left is Op || rules@[r]@->Rewrite_left is Matched,
{
    reveal_with_fuel(operand_at, 3);
    let rule = rules@[r]@;
    assert(rule_views(rules@)[r] == rule);
    assert(rule_views(rules@).len() == rules@.len());
    let facts = rule->Rewrite_facts;
    if rule->Rewrite_left is Matched {
        law_elementwise_rules_are_sound(rules, r, 0, 0);
        assert(facts.contains(facts[0]) && facts.contains(facts[1]));
    } else {
        assert(rule == matmul_i8_rule(MatmulVariant::Scalar) || rule == matmul_i8_rule(
            MatmulVariant::Hvx,
        ));
        assert(facts.contains(facts[1]) && facts.contains(facts[2]));
    }
}

/// An operation is refused exactly where it has not two arguments laid out as its
/// result, or an argument of another type than it takes.
pub proof fn law_refusals_have_a_reason<E: Copy + PartialEq>(
    op: HexagonKernelOp<E>,
    node: usize,
    count: nat,
    inputs: Seq<DType>,
)
    requires
        forall|x: E, y: E| #[trigger] x.eq_spec(&y) <==> x == y,
    ensures
        match op {
            HexagonKernelOp::Binary(binary) => {
                &&& op.operand_fault(node, count) is None <==> count == 2 && binary.a_strides@
                    == binary.output_strides@ && binary.b_strides@ == binary.output_strides@
                &&& op.type_fault(node, HexagonV73, inputs) is None <==> forall|i: int|
                    0 <= i < inputs.len() ==> #[trigger] inputs[i] == DType::F32
            },
            HexagonKernelOp::MatmulI8(_) => {
                &&& op.operand_fault(node, count) is None <==> count == 2
                &&& op.type_fault(node, HexagonV73, inputs) is None <==> forall|i: int|
                    0 <= i < inputs.len() ==> #[trigger] inputs[i] == DType::I8
            },
        },
{
    if let HexagonKernelOp::Binary(binary) = op {
        if op.contiguous() {
            assert(binary.a_strides@ =~= binary.output_strides@);
            assert(binary.b_strides@ =~= binary.output_strides@);
        }
    }
}

/// The number of elements that a size stands for, given the product of the extents.
pub open spec fn size_value<E>(
    layout: Layout<E>,
    product: spec_fn(Seq<E>) -> int,
    size: HexagonSize<'_, E>,
) -> int {
    let count = match size {
        HexagonSize::ProductOrOne(shape) => product(shape@),
        HexagonSize::PairOrOne(a, b) => (layout.extent)(*a) * (layout.extent)(*b),
    };
    if count < 1 {
        1
    } else {
        count
    }
}

/// The result of an operation has room for every element that the operation writes
/// and for no more: the elements of all rows and columns of a matrix product, the
/// last of them last, and those of an elementwise operation's shape.
pub proof fn law_results_have_every_element<E: Copy + PartialEq>(
    op: HexagonKernelOp<E>,
    layout: Layout<E>,
    product: spec_fn(Seq<E>) -> int,
    i: int,
    j: int,
)
    ensures
        ({
            let size = size_value(layout, product, op.result_size());
            match op {
                HexagonKernelOp::Binary(binary) => product(binary.shape@) >= 1 ==> size == product(
                    binary.shape@,
                ),
                HexagonKernelOp::MatmulI8(matmul) => {
                    let rows = (layout.extent)(matmul.m);
                    let columns = (layout.extent)(matmul.n);
                    0 <= i < rows && 0 <= j < columns ==> i * columns + j < size && (rows - 1)
                        * columns + (columns - 1) == size - 1
                },
            }
        }),
{
    if let HexagonKernelOp::MatmulI8(matmul) = op {
        let rows = (layout.extent)(matmul.m);
        let columns = (layout.extent)(matmul.n);
        if 0 <= i < rows && 0 <= j < columns {
            assert(i * columns + j < rows * columns) by (nonlinear_arith)
                requires
                    0 <= i < rows,
                    0 <= j < columns,
            ;
            assert((rows - 1) * columns + columns == rows * columns) by (nonlinear_arith);
        }
    }
}

} // verus!
