//! The rules that lower primitive operations to the OpenCL dialect.

use vstd::prelude::*;

use crate::dtype::DType;
use crate::rules::{
    dtype_of, dtype_of_term, field, field_term, inputs1, inputs2, one_input, op, op_term,
    rule_views, sort_views, two_inputs, FieldKind, HlirOp, Rule, RuleView, SortClass, SortDef, SortView, Term,
};

verus! {

pub const OPENCL_MUL: &'static str = "OpenClMul";

pub const OPENCL_SUM: &'static str = "OpenClSum";

pub const OPENCL_MATMUL: &'static str = "OpenClMatmul";

pub const OPENCL_CONSTANT: &'static str = "OpenClConstant";

pub const OPENCL_IOTA: &'static str = "OpenClIota";

pub const OPENCL_GATHER: &'static str = "OpenClGather";

pub const OPENCL_SCATTER: &'static str = "OpenClScatter";

pub const OPENCL_CAST: &'static str = "OpenClCast";

/// A rule that lowers a primitive to `right`, whose element type is `dtype`
/// where the facts hold.
pub open spec fn lowering(
    hlir: HlirOp,
    right: Term,
    dtype: Term,
    facts: Seq<(Term, Term)>,
) -> RuleView {
    RuleView::Rewrite {
        left: Term::Matched(hlir),
        right,
        subsumes: true,
        dtype,
        facts,
        ruleset: "kernel_lower",
        name: None,
    }
}

/// A rule that lowers a primitive to `right`, whose element type is that of an
/// operand.
pub open spec fn typed_lowering(
    hlir: HlirOp,
    right: Term,
    variable: &'static str,
    operand: &'static str,
) -> RuleView {
    lowering(
        hlir,
        right,
        Term::Var(variable),
        seq![(Term::Var(variable), dtype_of_term(Term::Matching(operand)))],
    )
}

fn lower(hlir: HlirOp, right: Term, dtype: Term, facts: Vec<(Term, Term)>) -> (r: Rule)
    ensures
        r@ == lowering(hlir, right, dtype, facts@),
{
    Rule::Rewrite {
        left: Term::Matched(hlir),
        right,
        subsumes: true,
        dtype,
        facts,
        ruleset: "kernel_lower",
        name: None,
    }
}

fn lower_typed(
    hlir: HlirOp,
    right: Term,
    variable: &'static str,
    operand: &'static str,
) -> (r: Rule)
    ensures
        r@ == typed_lowering(hlir, right, variable, operand),
{
    let facts = vec![(Term::Var(variable), dtype_of(Term::Matching(operand)))];
    proof {
        assert(facts@ == seq![(Term::Var(variable), dtype_of_term(Term::Matching(operand)))]);
    }
    lower(hlir, right, Term::Var(variable), facts)
}

/// The rule for an operation with the fields and operands of a primitive, of
/// the type of its operand `operand`.
pub open spec fn dtype_rule(
    hlir: HlirOp,
    opencl: &'static str,
    operand: &'static str,
) -> RuleView {
    typed_lowering(
        hlir,
        op_term(Term::FromMatched(opencl), Term::MatchedInputs),
        "?__dt",
        operand,
    )
}

/// The rule for an operation of one argument, of its argument's type.
pub fn unary_dtype_rewrite(hlir: HlirOp, opencl: &'static str) -> (r: Rule)
    ensures
        r@ == dtype_rule(hlir, opencl, "inp"),
{
    lower_typed(hlir, op(Term::FromMatched(opencl), Term::MatchedInputs), "?__dt", "inp")
}

/// The rule for an operation of two arguments, of its first argument's type.
pub fn binary_dtype_rewrite(hlir: HlirOp, opencl: &'static str) -> (r: Rule)
    ensures
        r@ == dtype_rule(hlir, opencl, "inp_a"),
{
    lower_typed(hlir, op(Term::FromMatched(opencl), Term::MatchedInputs), "?__dt", "inp_a")
}

/// The rule for comparisons, which give truth values.
pub open spec fn less_than_rule() -> RuleView {
    lowering(
        HlirOp::LessThan,
        op_term(Term::FromMatched("OpenClLessThan"), Term::MatchedInputs),
        Term::DType(DType::Bool),
        seq![],
    )
}

/// The rule for comparisons.
pub fn less_than_rewrite() -> (r: Rule)
    ensures
        r@ == less_than_rule(),
{
    lower(
        HlirOp::LessThan,
        op(Term::FromMatched("OpenClLessThan"), Term::MatchedInputs),
        Term::DType(DType::Bool),
        Vec::new(),
    )
}

/// The rule for an operation without operands, of a fixed type.
pub open spec fn source_rule(hlir: HlirOp, opencl: &'static str, dtype: DType) -> RuleView {
    lowering(hlir, Term::FromMatched(opencl), Term::DType(dtype), seq![])
}

pub fn source_rewrite(hlir: HlirOp, opencl: &'static str, dtype: DType) -> (r: Rule)
    ensures
        r@ == source_rule(hlir, opencl, dtype),
{
    lower(hlir, Term::FromMatched(opencl), Term::DType(dtype), Vec::new())
}

/// The rule for conversions, which give the type that they name.
pub open spec fn cast_rule() -> RuleView {
    lowering(HlirOp::Cast, Term::FromMatched(OPENCL_CAST), Term::Matching("dtype"), seq![])
}

pub fn cast_rewrite() -> (r: Rule)
    ensures
        r@ == cast_rule(),
{
    lower(HlirOp::Cast, Term::FromMatched(OPENCL_CAST), Term::Matching("dtype"), Vec::new())
}

/// The operation that reads by index.
pub open spec fn gather_term() -> Term {
    Term::Dialect {
        name: OPENCL_GATHER,
        fields: Box::new(
            field_term(
                "out_shape",
                Term::Matching("index_shape"),
                field_term(
                    "indexes",
                    Term::Matching("indexes"),
                    field_term(
                        "index_strides",
                        Term::Matching("index_strides"),
                        field_term(
                            "data",
                            Term::Matching("data"),
                            field_term(
                                "data_shape",
                                Term::Matching("data_shape"),
                                field_term(
                                    "data_strides",
                                    Term::Matching("data_strides"),
                                    field_term("out_strides", Term::RowMajor(Box::new(Term::Matching("index_shape"))), Term::FieldNil),
                                ),
                            ),
                        ),
                    ),
                ),
            ),
        ),
    }
}

/// The rule for reads by index: the result is row-major and of the data's type.
pub open spec fn gather_rule() -> RuleView {
    typed_lowering(HlirOp::Gather, gather_term(), "?opencl_gather_dt", "data")
}

/// The rule for reads by index.
pub fn gather_rewrite() -> (r: Rule)
    ensures
        r@ == gather_rule(),
{
    let right = Term::Dialect {
        name: OPENCL_GATHER,
        fields: Box::new(
            field(
                "out_shape",
                Term::Matching("index_shape"),
                field(
                    "indexes",
                    Term::Matching("indexes"),
                    field(
                        "index_strides",
                        Term::Matching("index_strides"),
                        field(
                            "data",
                            Term::Matching("data"),
                            field(
                                "data_shape",
                                Term::Matching("data_shape"),
                                field(
                                    "data_strides",
                                    Term::Matching("data_strides"),
                                    field("out_strides", Term::RowMajor(Box::new(Term::Matching("index_shape"))), Term::FieldNil),
                                ),
                            ),
                        ),
                    ),
                ),
            ),
        ),
    };
    lower_typed(HlirOp::Gather, right, "?opencl_gather_dt", "data")
}

/// The operation that writes by index.
pub open spec fn scatter_term() -> Term {
    Term::Dialect {
        name: OPENCL_SCATTER,
        fields: Box::new(
            field_term(
                "dest_shape",
                Term::Matching("dest_shape"),
                field_term(
                    "dest_strides",
                    Term::Matching("dest_strides"),
                    field_term(
                        "dest",
                        Term::Matching("dest"),
                        field_term(
                            "indexes",
                            Term::Matching("indexes"),
                            field_term(
                                "index_shape",
                                Term::Matching("index_shape"),
                                field_term(
                                    "index_strides",
                                    Term::Matching("index_strides"),
                                    field_term(
                                        "src",
                                        Term::Matching("src"),
                                        field_term(
                                            "src_strides",
                                            Term::Matching("src_strides"),
                                            field_term("out_strides", Term::RowMajor(Box::new(Term::Matching("dest_shape"))), Term::FieldNil),
                                        ),
                                    ),
                                ),
                            ),
                        ),
                    ),
                ),
            ),
        ),
    }
}

/// The rule for writes by index: the result is row-major and of the source's type.
pub open spec fn scatter_rule() -> RuleView {
    typed_lowering(HlirOp::Scatter, scatter_term(), "?opencl_scatter_dt", "src")
}

/// The rule for writes by index.
pub fn scatter_rewrite() -> (r: Rule)
    ensures
        r@ == scatter_rule(),
{
    let right = Term::Dialect {
        name: OPENCL_SCATTER,
        fields: Box::new(
            field(
                "dest_shape",
                Term::Matching("dest_shape"),
                field(
                    "dest_strides",
                    Term::Matching("dest_strides"),
                    field(
                        "dest",
                        Term::Matching("dest"),
                        field(
                            "indexes",
                            Term::Matching("indexes"),
                            field(
                                "index_shape",
                                Term::Matching("index_shape"),
                                field(
                                    "index_strides",
                                    Term::Matching("index_strides"),
                                    field(
                                        "src",
                                        Term::Matching("src"),
                                        field(
                                            "src_strides",
                                            Term::Matching("src_strides"),
                                            field("out_strides", Term::RowMajor(Box::new(Term::Matching("dest_shape"))), Term::FieldNil),
                                        ),
                                    ),
                                ),
                            ),
                        ),
                    ),
                ),
            ),
        ),
    };
    lower_typed(HlirOp::Scatter, right, "?opencl_scatter_dt", "src")
}

/// The broadcast product that a matrix product starts with.
pub open spec fn broadcast_product() -> Term {
    op_term(
        Term::Dialect {
            name: OPENCL_MUL,
            fields: Box::new(
                field_term(
                    "shape",
                    Term::Var("?opencl_matmul_mul_shape"),
                    field_term(
                        "a_strides",
                        Term::Var("?opencl_matmul_lhs_strides"),
                        field_term(
                            "b_strides",
                            Term::Var("?opencl_matmul_rhs_strides"),
                            field_term("out_strides", Term::Var("?opencl_matmul_mul_output_strides"), Term::FieldNil),
                        ),
                    ),
                ),
            ),
        },
        two_inputs(Term::Var("?opencl_matmul_lhs"), Term::Var("?opencl_matmul_rhs")),
    )
}

/// The sum that a matrix product ends with.
pub open spec fn summed_product() -> Term {
    op_term(
        Term::Dialect {
            name: OPENCL_SUM,
            fields: Box::new(
                field_term(
                    "shape",
                    Term::Var("?opencl_matmul_out_shape"),
                    field_term(
                        "iters",
                        Term::Var("?opencl_matmul_k"),
                        field_term(
                            "strides",
                            Term::Var("?opencl_matmul_sum_input_strides"),
                            field_term(
                                "iter_stride",
                                Term::Var("?opencl_matmul_sum_iter_stride"),
                                field_term("out_strides", Term::Var("?opencl_matmul_out_strides"), Term::FieldNil),
                            ),
                        ),
                    ),
                ),
            ),
        },
        one_input(broadcast_product()),
    )
}

/// The matrix product as one operation.
pub open spec fn matmul_term() -> Term {
    Term::Dialect {
        name: OPENCL_MATMUL,
        fields: Box::new(
            field_term(
                "out_shape",
                Term::Var("?opencl_matmul_out_shape"),
                field_term(
                    "mul_shape",
                    Term::Var("?opencl_matmul_mul_shape"),
                    field_term(
                        "k",
                        Term::Var("?opencl_matmul_k"),
                        field_term(
                            "lhs",
                            Term::Var("?opencl_matmul_lhs"),
                            field_term(
                                "lhs_strides",
                                Term::Var("?opencl_matmul_lhs_strides"),
                                field_term(
                                    "rhs",
                                    Term::Var("?opencl_matmul_rhs"),
                                    field_term(
                                        "rhs_strides",
                                        Term::Var("?opencl_matmul_rhs_strides"),
                                        field_term(
                                            "sum_input_strides",
                                            Term::Var("?opencl_matmul_sum_input_strides"),
                                            field_term(
                                                "sum_iter_stride",
                                                Term::Var("?opencl_matmul_sum_iter_stride"),
                                                field_term("out_strides", Term::Var("?opencl_matmul_out_strides"), Term::FieldNil),
                                            ),
                                        ),
                                    ),
                                ),
                            ),
                        ),
                    ),
                ),
            ),
        ),
    }
}

fn write_summed_product() -> (r: Term)
    ensures
        r == summed_product(),
{
    let mul_op = op(
        Term::Dialect {
            name: OPENCL_MUL,
            fields: Box::new(
                field(
                    "shape",
                    Term::Var("?opencl_matmul_mul_shape"),
                    field(
                        "a_strides",
                        Term::Var("?opencl_matmul_lhs_strides"),
                        field(
                            "b_strides",
                            Term::Var("?opencl_matmul_rhs_strides"),
                            field("out_strides", Term::Var("?opencl_matmul_mul_output_strides"), Term::FieldNil),
                        ),
                    ),
                ),
            ),
        },
        inputs2(Term::Var("?opencl_matmul_lhs"), Term::Var("?opencl_matmul_rhs")),
    );
    op(
        Term::Dialect {
            name: OPENCL_SUM,
            fields: Box::new(
                field(
                    "shape",
                    Term::Var("?opencl_matmul_out_shape"),
                    field(
                        "iters",
                        Term::Var("?opencl_matmul_k"),
                        field(
                            "strides",
                            Term::Var("?opencl_matmul_sum_input_strides"),
                            field(
                                "iter_stride",
                                Term::Var("?opencl_matmul_sum_iter_stride"),
                                field("out_strides", Term::Var("?opencl_matmul_out_strides"), Term::FieldNil),
                            ),
                        ),
                    ),
                ),
            ),
        },
        inputs1(mul_op),
    )
}

fn write_matmul() -> (r: Term)
    ensures
        r == matmul_term(),
{
    Term::Dialect {
        name: OPENCL_MATMUL,
        fields: Box::new(
            field(
                "out_shape",
                Term::Var("?opencl_matmul_out_shape"),
                field(
                    "mul_shape",
                    Term::Var("?opencl_matmul_mul_shape"),
                    field(
                        "k",
                        Term::Var("?opencl_matmul_k"),
                        field(
                            "lhs",
                            Term::Var("?opencl_matmul_lhs"),
                            field(
                                "lhs_strides",
                                Term::Var("?opencl_matmul_lhs_strides"),
                                field(
                                    "rhs",
                                    Term::Var("?opencl_matmul_rhs"),
                                    field(
                                        "rhs_strides",
                                        Term::Var("?opencl_matmul_rhs_strides"),
                                        field(
                                            "sum_input_strides",
                                            Term::Var("?opencl_matmul_sum_input_strides"),
                                            field(
                                                "sum_iter_stride",
                                                Term::Var("?opencl_matmul_sum_iter_stride"),
                                                field("out_strides", Term::Var("?opencl_matmul_out_strides"), Term::FieldNil),
                                            ),
                                        ),
                                    ),
                                ),
                            ),
                        ),
                    ),
                ),
            ),
        ),
    }
}

/// The rule that fuses a summed broadcast product.
pub open spec fn matmul_rule() -> RuleView {
    RuleView::Rewrite {
        left: summed_product(),
        right: matmul_term(),
        subsumes: false,
        dtype: Term::Var("?opencl_matmul_dt"),
        facts: seq![(Term::Var("?opencl_matmul_dt"), dtype_of_term(summed_product()))],
        ruleset: "matmul_backend",
        name: Some("opencl-fused-matmul"),
    }
}

/// The rule that gives up the product and the sum once they are fused.
pub const MATMUL_CLEANUP: &'static str = "(rule
                    ((= ?mul (Op (OpenClMul ?shape ?as ?bs ?os) ?inputs))
                     (= ?sum (Op (OpenClSum ?sshape ?sk ?ssi ?sks ?sso) (ICons ?mul (INil))))
                     (= ?sum (OpenClMatmul ?go ?gm ?gk ?gl ?glas ?gr ?grs ?gsis ?gsit ?gos)))
                    ((delete (Op (OpenClSum ?sshape ?sk ?ssi ?sks ?sso) (ICons ?mul (INil))))
                     (delete (Op (OpenClMul ?shape ?as ?bs ?os) ?inputs)))
                    :ruleset cleanup
                    :name \"delete-opencl-broadcast-mul-sum-when-matmul-exists\")";

fn matmul_fusion() -> (r: Rule)
    ensures
        r@ == matmul_rule(),
{
    let sum_op = write_summed_product();
    let facts = vec![(Term::Var("?opencl_matmul_dt"), dtype_of(sum_op.copy()))];
    proof {
        assert(facts@ == matmul_rule()->Rewrite_facts);
    }
    Rule::Rewrite {
        left: sum_op,
        right: write_matmul(),
        subsumes: false,
        dtype: Term::Var("?opencl_matmul_dt"),
        facts,
        ruleset: "matmul_backend",
        name: Some("opencl-fused-matmul"),
    }
}

/// The rules for matrix products.
pub fn matmul_rewrites() -> (r: Vec<Rule>)
    ensures
        rule_views(r@) == seq![matmul_rule(), RuleView::Raw(MATMUL_CLEANUP)],
{
    vec![matmul_fusion(), Rule::Raw(MATMUL_CLEANUP)]
}

/// All rules of the dialect.
pub open spec fn dialect_rules() -> Seq<RuleView> {
    seq![
        dtype_rule(HlirOp::Exp2, "OpenClExp2", "inp"),
        dtype_rule(HlirOp::Log2, "OpenClLog2", "inp"),
        dtype_rule(HlirOp::Sin, "OpenClSin", "inp"),
        dtype_rule(HlirOp::Sqrt, "OpenClSqrt", "inp"),
        dtype_rule(HlirOp::Recip, "OpenClRecip", "inp"),
        dtype_rule(HlirOp::Add, "OpenClAdd", "inp_a"),
        dtype_rule(HlirOp::Mul, OPENCL_MUL, "inp_a"),
        dtype_rule(HlirOp::Mod, "OpenClMod", "inp_a"),
        less_than_rule(),
        dtype_rule(HlirOp::SumReduce, OPENCL_SUM, "inp"),
        dtype_rule(HlirOp::MaxReduce, "OpenClMax", "inp"),
        matmul_rule(),
        RuleView::Raw(MATMUL_CLEANUP),
        source_rule(HlirOp::Constant, OPENCL_CONSTANT, DType::F32),
        source_rule(HlirOp::Iota, OPENCL_IOTA, DType::Int),
        gather_rule(),
        scatter_rule(),
        cast_rule(),
    ]
}

/// All rules of the dialect.
pub fn opencl_rewrites() -> (r: Vec<Rule>)
    ensures
        rule_views(r@) == dialect_rules(),
{
    vec![
        unary_dtype_rewrite(HlirOp::Exp2, "OpenClExp2"),
        unary_dtype_rewrite(HlirOp::Log2, "OpenClLog2"),
        unary_dtype_rewrite(HlirOp::Sin, "OpenClSin"),
        unary_dtype_rewrite(HlirOp::Sqrt, "OpenClSqrt"),
        unary_dtype_rewrite(HlirOp::Recip, "OpenClRecip"),
        binary_dtype_rewrite(HlirOp::Add, "OpenClAdd"),
        binary_dtype_rewrite(HlirOp::Mul, OPENCL_MUL),
        binary_dtype_rewrite(HlirOp::Mod, "OpenClMod"),
        less_than_rewrite(),
        unary_dtype_rewrite(HlirOp::SumReduce, OPENCL_SUM),
        unary_dtype_rewrite(HlirOp::MaxReduce, "OpenClMax"),
        matmul_fusion(),
        Rule::Raw(MATMUL_CLEANUP),
        source_rewrite(HlirOp::Constant, OPENCL_CONSTANT, DType::F32),
        source_rewrite(HlirOp::Iota, OPENCL_IOTA, DType::Int),
        gather_rewrite(),
        scatter_rewrite(),
        cast_rewrite(),
    ]
}

/// The fields of a fused matrix product.
pub open spec fn matmul_sort_view() -> SortView {
    SortView::Fields {
        class: SortClass::Ir,
        name: OPENCL_MATMUL,
        fields: seq![
            ("out_shape", FieldKind::ExprList),
            ("mul_shape", FieldKind::ExprList),
            ("k", FieldKind::Expr),
            ("lhs", FieldKind::Operand),
            ("lhs_strides", FieldKind::ExprList),
            ("rhs", FieldKind::Operand),
            ("rhs_strides", FieldKind::ExprList),
            ("sum_input_strides", FieldKind::ExprList),
            ("sum_iter_stride", FieldKind::Expr),
            ("out_strides", FieldKind::ExprList),
        ],
    }
}

/// The fields of a fused matrix product.
pub fn matmul_sort() -> (r: SortDef)
    ensures
        r@ == matmul_sort_view(),
{
    let fields = vec![
        ("out_shape", FieldKind::ExprList),
        ("mul_shape", FieldKind::ExprList),
        ("k", FieldKind::Expr),
        ("lhs", FieldKind::Operand),
        ("lhs_strides", FieldKind::ExprList),
        ("rhs", FieldKind::Operand),
        ("rhs_strides", FieldKind::ExprList),
        ("sum_input_strides", FieldKind::ExprList),
        ("sum_iter_stride", FieldKind::Expr),
        ("out_strides", FieldKind::ExprList),
    ];
    proof {
        assert(fields@ == matmul_sort_view()->Fields_fields);
    }
    SortDef::Fields { class: SortClass::Ir, name: OPENCL_MATMUL, fields }
}

/// The fields of a constant.
pub open spec fn constant_sort_view() -> SortView {
    SortView::Fields {
        class: SortClass::Ir,
        name: OPENCL_CONSTANT,
        fields: seq![
            ("value", FieldKind::Float),
        ],
    }
}

/// The fields of a constant.
pub fn constant_sort() -> (r: SortDef)
    ensures
        r@ == constant_sort_view(),
{
    let fields = vec![
        ("value", FieldKind::Float),
    ];
    proof {
        assert(fields@ == constant_sort_view()->Fields_fields);
    }
    SortDef::Fields { class: SortClass::Ir, name: OPENCL_CONSTANT, fields }
}

/// The fields of a function of the element number.
pub open spec fn iota_sort_view() -> SortView {
    SortView::Fields {
        class: SortClass::Ir,
        name: OPENCL_IOTA,
        fields: seq![
            ("expr", FieldKind::Expr),
            ("range", FieldKind::Expr),
        ],
    }
}

/// The fields of a function of the element number.
pub fn iota_sort() -> (r: SortDef)
    ensures
        r@ == iota_sort_view(),
{
    let fields = vec![
        ("expr", FieldKind::Expr),
        ("range", FieldKind::Expr),
    ];
    proof {
        assert(fields@ == iota_sort_view()->Fields_fields);
    }
    SortDef::Fields { class: SortClass::Ir, name: OPENCL_IOTA, fields }
}

/// The fields of reads by index.
pub open spec fn gather_sort_view() -> SortView {
    SortView::Fields {
        class: SortClass::Ir,
        name: OPENCL_GATHER,
        fields: seq![
            ("out_shape", FieldKind::ExprList),
            ("indexes", FieldKind::Operand),
            ("index_strides", FieldKind::ExprList),
            ("data", FieldKind::Operand),
            ("data_shape", FieldKind::ExprList),
            ("data_strides", FieldKind::ExprList),
            ("out_strides", FieldKind::ExprList),
        ],
    }
}

/// The fields of reads by index.
pub fn gather_sort() -> (r: SortDef)
    ensures
        r@ == gather_sort_view(),
{
    let fields = vec![
        ("out_shape", FieldKind::ExprList),
        ("indexes", FieldKind::Operand),
        ("index_strides", FieldKind::ExprList),
        ("data", FieldKind::Operand),
        ("data_shape", FieldKind::ExprList),
        ("data_strides", FieldKind::ExprList),
        ("out_strides", FieldKind::ExprList),
    ];
    proof {
        assert(fields@ == gather_sort_view()->Fields_fields);
    }
    SortDef::Fields { class: SortClass::Ir, name: OPENCL_GATHER, fields }
}

/// The fields of writes by index.
pub open spec fn scatter_sort_view() -> SortView {
    SortView::Fields {
        class: SortClass::Ir,
        name: OPENCL_SCATTER,
        fields: seq![
            ("dest_shape", FieldKind::ExprList),
            ("dest_strides", FieldKind::ExprList),
            ("dest", FieldKind::Operand),
            ("indexes", FieldKind::Operand),
            ("index_shape", FieldKind::ExprList),
            ("index_strides", FieldKind::ExprList),
            ("src", FieldKind::Operand),
            ("src_strides", FieldKind::ExprList),
            ("out_strides", FieldKind::ExprList),
        ],
    }
}

/// The fields of writes by index.
pub fn scatter_sort() -> (r: SortDef)
    ensures
        r@ == scatter_sort_view(),
{
    let fields = vec![
        ("dest_shape", FieldKind::ExprList),
        ("dest_strides", FieldKind::ExprList),
        ("dest", FieldKind::Operand),
        ("indexes", FieldKind::Operand),
        ("index_shape", FieldKind::ExprList),
        ("index_strides", FieldKind::ExprList),
        ("src", FieldKind::Operand),
        ("src_strides", FieldKind::ExprList),
        ("out_strides", FieldKind::ExprList),
    ];
    proof {
        assert(fields@ == scatter_sort_view()->Fields_fields);
    }
    SortDef::Fields { class: SortClass::Ir, name: OPENCL_SCATTER, fields }
}

/// The fields of conversions.
pub open spec fn cast_sort_view() -> SortView {
    SortView::Fields {
        class: SortClass::Ir,
        name: OPENCL_CAST,
        fields: seq![
            ("inp", FieldKind::Operand),
            ("size", FieldKind::Expr),
            ("dtype", FieldKind::DType),
        ],
    }
}

/// The fields of conversions.
pub fn cast_sort() -> (r: SortDef)
    ensures
        r@ == cast_sort_view(),
{
    let fields = vec![
        ("inp", FieldKind::Operand),
        ("size", FieldKind::Expr),
        ("dtype", FieldKind::DType),
    ];
    proof {
        assert(fields@ == cast_sort_view()->Fields_fields);
    }
    SortDef::Fields { class: SortClass::Ir, name: OPENCL_CAST, fields }
}

/// The operations of the dialect.
pub open spec fn dialect_sorts() -> Seq<SortView> {
    seq![
        SortView::Unary("OpenClExp2"),
        SortView::Unary("OpenClLog2"),
        SortView::Unary("OpenClSin"),
        SortView::Unary("OpenClSqrt"),
        SortView::Unary("OpenClRecip"),
        SortView::Binary("OpenClAdd"),
        SortView::Binary(OPENCL_MUL),
        SortView::Binary("OpenClMod"),
        SortView::Binary("OpenClLessThan"),
        SortView::Reduce(OPENCL_SUM),
        SortView::Reduce("OpenClMax"),
        matmul_sort_view(),
        constant_sort_view(),
        iota_sort_view(),
        gather_sort_view(),
        scatter_sort_view(),
        cast_sort_view(),
    ]
}

/// The operations of the dialect.
pub fn opencl_sorts() -> (r: Vec<SortDef>)
    ensures
        sort_views(r@) == dialect_sorts(),
{
    vec![
        SortDef::Unary("OpenClExp2"),
        SortDef::Unary("OpenClLog2"),
        SortDef::Unary("OpenClSin"),
        SortDef::Unary("OpenClSqrt"),
        SortDef::Unary("OpenClRecip"),
        SortDef::Binary("OpenClAdd"),
        SortDef::Binary(OPENCL_MUL),
        SortDef::Binary("OpenClMod"),
        SortDef::Binary("OpenClLessThan"),
        SortDef::Reduce(OPENCL_SUM),
        SortDef::Reduce("OpenClMax"),
        matmul_sort(),
        constant_sort(),
        iota_sort(),
        gather_sort(),
        scatter_sort(),
        cast_sort(),
    ]
}

/// The names of a list of fields.
pub open spec fn field_names(fields: Term) -> Seq<&'static str>
    decreases fields,
{
    match fields {
        Term::Field { name, rest, .. } => seq![name] + field_names(*rest),
        _ => Seq::empty(),
    }
}

/// The names of the fields of an operation.
pub open spec fn sort_names(sort: SortView) -> Seq<&'static str> {
    sort->Fields_fields.map_values(|field: (&'static str, FieldKind)| field.0)
}

/// The rules give every operation all of its fields, in their order.
pub proof fn law_rules_give_all_fields()
    ensures
        field_names(*matmul_term()->Dialect_fields) == sort_names(matmul_sort_view()),
        field_names(*gather_term()->Dialect_fields) == sort_names(gather_sort_view()),
        field_names(*scatter_term()->Dialect_fields) == sort_names(scatter_sort_view()),
{
    reveal_with_fuel(field_names, 11);
}

} // verus!
