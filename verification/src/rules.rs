//! Rewrite rules over operation graphs, as data.
//!
//! A rule says that two terms are equal, for every match of its variables under
//! which its facts hold. Shapes and strides are lists of expressions; a stride
//! is an expression in the reserved unit [`Term::Unit`], which stands for a
//! coordinate.

use vstd::prelude::*;

use crate::dtype::DType;

verus! {

/// A primitive operation of the graph that rules start from.
#[derive(Clone, Copy, PartialEq, Eq, Structural, Debug)]
pub enum HlirOp {
    Exp2,
    Log2,
    Sin,
    Sqrt,
    Recip,
    Add,
    Mul,
    Mod,
    LessThan,
    SumReduce,
    MaxReduce,
    Constant,
    Iota,
    Gather,
    Scatter,
    Cast,
}

/// What a field of an operation holds.
#[derive(Clone, Copy, PartialEq, Eq, Structural, Debug)]
pub enum FieldKind {
    /// A list of expressions.
    ExprList,
    /// One expression.
    Expr,
    /// An operand.
    Operand,
    /// An element type.
    DType,
    /// A floating-point number.
    Float,
    /// An integer.
    Int,
}

/// Whether an operation names its operands among its fields.
#[derive(Clone, Copy, PartialEq, Eq, Structural, Debug)]
pub enum SortClass {
    /// The operands are fields.
    Ir,
    /// The operands stand in a list beside the fields.
    OpKind,
}

/// The name and the fields of an operation.
pub enum SortDef {
    /// An operation with the fields of a primitive of one argument.
    Unary(&'static str),
    /// An operation with the fields of a primitive of two arguments.
    Binary(&'static str),
    /// An operation with the fields of a primitive reduction.
    Reduce(&'static str),
    /// An operation with these fields.
    Fields { class: SortClass, name: &'static str, fields: Vec<(&'static str, FieldKind)> },
}

/// The name and the fields of an operation, as a value.
#[verifier::ext_equal]
pub enum SortView {
    Unary(&'static str),
    Binary(&'static str),
    Reduce(&'static str),
    Fields { class: SortClass, name: &'static str, fields: Seq<(&'static str, FieldKind)> },
}

impl View for SortDef {
    type V = SortView;

    open spec fn view(&self) -> SortView {
        match self {
            SortDef::Unary(name) => SortView::Unary(name),
            SortDef::Binary(name) => SortView::Binary(name),
            SortDef::Reduce(name) => SortView::Reduce(name),
            SortDef::Fields { class, name, fields } => SortView::Fields {
                class: *class,
                name,
                fields: fields@,
            },
        }
    }
}

/// What the fields of an operation hold.
pub open spec fn sort_kinds(sort: SortView) -> Seq<FieldKind> {
    match sort {
        SortView::Unary(_) => seq![FieldKind::ExprList, FieldKind::ExprList, FieldKind::ExprList],
        SortView::Binary(_) => seq![
            FieldKind::ExprList,
            FieldKind::ExprList,
            FieldKind::ExprList,
            FieldKind::ExprList,
        ],
        SortView::Reduce(_) => seq![
            FieldKind::ExprList,
            FieldKind::Expr,
            FieldKind::ExprList,
            FieldKind::Expr,
            FieldKind::ExprList,
        ],
        SortView::Fields { fields, .. } => fields.map_values(
            |field: (&'static str, FieldKind)| field.1,
        ),
    }
}

/// What each of these sorts is.
pub open spec fn sort_views(sorts: Seq<SortDef>) -> Seq<SortView> {
    sorts.map_values(|sort: SortDef| sort@)
}

impl SortView {
    /// The name of the operation.
    pub open spec fn named(self) -> &'static str {
        match self {
            SortView::Unary(name) => name,
            SortView::Binary(name) => name,
            SortView::Reduce(name) => name,
            SortView::Fields { name, .. } => name,
        }
    }
}

impl SortDef {
    /// The name of the operation.
    pub fn name(&self) -> (r: &'static str)
        ensures
            r == self@.named(),
    {
        match self {
            SortDef::Unary(name) => name,
            SortDef::Binary(name) => name,
            SortDef::Reduce(name) => name,
            SortDef::Fields { name, .. } => name,
        }
    }

    /// What the fields of the operation hold.
    pub fn field_kinds(&self) -> (r: Vec<FieldKind>)
        ensures
            r@ == sort_kinds(self@),
    {
        match self {
            SortDef::Unary(_) => vec![
                FieldKind::ExprList,
                FieldKind::ExprList,
                FieldKind::ExprList,
            ],
            SortDef::Binary(_) => vec![
                FieldKind::ExprList,
                FieldKind::ExprList,
                FieldKind::ExprList,
                FieldKind::ExprList,
            ],
            SortDef::Reduce(_) => vec![
                FieldKind::ExprList,
                FieldKind::Expr,
                FieldKind::ExprList,
                FieldKind::Expr,
                FieldKind::ExprList,
            ],
            SortDef::Fields { fields, .. } => {
                let mut kinds: Vec<FieldKind> = Vec::new();
                for i in 0..fields.len()
                    invariant
                        kinds@.len() == i,
                        forall|j: int| 0 <= j < i ==> #[trigger] kinds@[j] == fields@[j].1,
                {
                    kinds.push(fields[i].1);
                }
                kinds
            },
        }
    }
}

/// The names under which a rule matches the operands of a primitive operation,
/// first operand first.
pub open spec fn operands_of(op: HlirOp) -> Seq<&'static str> {
    match op {
        HlirOp::Exp2 | HlirOp::Log2 | HlirOp::Sin | HlirOp::Sqrt | HlirOp::Recip => seq!["inp"],
        HlirOp::Add | HlirOp::Mul | HlirOp::Mod | HlirOp::LessThan => seq!["inp_a", "inp_b"],
        HlirOp::SumReduce | HlirOp::MaxReduce | HlirOp::Cast => seq!["inp"],
        HlirOp::Constant | HlirOp::Iota => seq![],
        HlirOp::Gather => seq!["indexes", "data"],
        HlirOp::Scatter => seq!["dest", "indexes", "src"],
    }
}

/// The names under which a rule matches the operands of a primitive operation,
/// first operand first.
pub fn operand_names(op: HlirOp) -> (r: Vec<&'static str>)
    ensures
        r@ == operands_of(op),
{
    match op {
        HlirOp::Exp2 | HlirOp::Log2 | HlirOp::Sin | HlirOp::Sqrt | HlirOp::Recip => vec!["inp"],
        HlirOp::Add | HlirOp::Mul | HlirOp::Mod | HlirOp::LessThan => vec!["inp_a", "inp_b"],
        HlirOp::SumReduce | HlirOp::MaxReduce | HlirOp::Cast => vec!["inp"],
        HlirOp::Constant | HlirOp::Iota => vec![],
        HlirOp::Gather => vec!["indexes", "data"],
        HlirOp::Scatter => vec!["dest", "indexes", "src"],
    }
}

/// A term of a rule.
pub enum Term {
    /// A variable.
    Var(&'static str),
    /// An integer.
    Int(i64),
    /// An expression that is a number.
    Num(i64),
    /// The reserved unit stride.
    Unit,
    /// The product of two expressions.
    Times(Box<Term>, Box<Term>),
    /// The empty list of expressions.
    Nil,
    /// A list of expressions: the first and the rest.
    Cons(Box<Term>, Box<Term>),
    /// The row-major strides of a shape.
    RowMajor(Box<Term>),
    /// An element type.
    DType(DType),
    /// The element type of a term.
    DTypeOf(Box<Term>),
    /// The empty list of operands.
    InputNil,
    /// A list of operands: the first and the rest.
    InputCons(Box<Term>, Box<Term>),
    /// An operation with its operands.
    Op { kind: Box<Term>, inputs: Box<Term> },
    /// A primitive operation with the values of its fields.
    Primitive { op: HlirOp, fields: Box<Term> },
    /// An operation of the backend's dialect with the values of its fields.
    Dialect { name: &'static str, fields: Box<Term> },
    /// No field.
    FieldNil,
    /// A list of fields: the first, its value and the rest.
    Field { name: &'static str, value: Box<Term>, rest: Box<Term> },
    /// A primitive operation with a variable for each of its fields and
    /// operands, the latter under the names of [`operand_names`].
    Matched(HlirOp),
    /// The variable for a field or an operand of the matched operation.
    Matching(&'static str),
    /// The operands of the matched operation.
    MatchedInputs,
    /// An operation of the backend's dialect whose fields have the values of
    /// the matched operation's fields of the same names.
    FromMatched(&'static str),
}

impl Term {
    /// The same term once more.
    pub fn copy(&self) -> (r: Term)
        ensures
            r == *self,
        decreases self,
    {
        match self {
            Term::Var(name) => Term::Var(name),
            Term::Int(value) => Term::Int(*value),
            Term::Num(value) => Term::Num(*value),
            Term::Unit => Term::Unit,
            Term::Times(a, b) => Term::Times(Box::new(a.copy()), Box::new(b.copy())),
            Term::Nil => Term::Nil,
            Term::Cons(a, b) => Term::Cons(Box::new(a.copy()), Box::new(b.copy())),
            Term::RowMajor(a) => Term::RowMajor(Box::new(a.copy())),
            Term::DType(dtype) => Term::DType(*dtype),
            Term::DTypeOf(a) => Term::DTypeOf(Box::new(a.copy())),
            Term::InputNil => Term::InputNil,
            Term::InputCons(a, b) => Term::InputCons(Box::new(a.copy()), Box::new(b.copy())),
            Term::Op { kind, inputs } => Term::Op {
                kind: Box::new(kind.copy()),
                inputs: Box::new(inputs.copy()),
            },
            Term::Primitive { op, fields } => Term::Primitive {
                op: *op,
                fields: Box::new(fields.copy()),
            },
            Term::Dialect { name, fields } => Term::Dialect {
                name,
                fields: Box::new(fields.copy()),
            },
            Term::FieldNil => Term::FieldNil,
            Term::Field { name, value, rest } => Term::Field {
                name,
                value: Box::new(value.copy()),
                rest: Box::new(rest.copy()),
            },
            Term::Matched(op) => Term::Matched(*op),
            Term::Matching(name) => Term::Matching(name),
            Term::MatchedInputs => Term::MatchedInputs,
            Term::FromMatched(name) => Term::FromMatched(name),
        }
    }
}

/// A rule.
pub enum Rule {
    /// `left` and `right` are equal where the facts hold, and the element type
    /// of `right` is `dtype`.
    Rewrite {
        left: Term,
        right: Term,
        /// Whether `left` need not be considered any more.
        subsumes: bool,
        dtype: Term,
        /// Pairs of equal terms.
        facts: Vec<(Term, Term)>,
        ruleset: &'static str,
        name: Option<&'static str>,
    },
    /// A rule in the notation of the rule engine.
    Raw(&'static str),
}

/// A rule, as a value.
#[verifier::ext_equal]
pub enum RuleView {
    Rewrite {
        left: Term,
        right: Term,
        subsumes: bool,
        dtype: Term,
        facts: Seq<(Term, Term)>,
        ruleset: &'static str,
        name: Option<&'static str>,
    },
    Raw(&'static str),
}

impl View for Rule {
    type V = RuleView;

    open spec fn view(&self) -> RuleView {
        match self {
            Rule::Rewrite { left, right, subsumes, dtype, facts, ruleset, name } =>
                RuleView::Rewrite {
                    left: *left,
                    right: *right,
                    subsumes: *subsumes,
                    dtype: *dtype,
                    facts: facts@,
                    ruleset,
                    name: *name,
                },
            Rule::Raw(text) => RuleView::Raw(text),
        }
    }
}

/// The rules, as values.
pub open spec fn rule_views(rules: Seq<Rule>) -> Seq<RuleView> {
    rules.map_values(|rule: Rule| rule@)
}

/// A list of two expressions.
pub open spec fn list_of_two(a: Term, b: Term) -> Term {
    Term::Cons(Box::new(a), Box::new(Term::Cons(Box::new(b), Box::new(Term::Nil))))
}

/// A list of three expressions.
pub open spec fn list_of_three(a: Term, b: Term, c: Term) -> Term {
    Term::Cons(Box::new(a), Box::new(list_of_two(b, c)))
}

pub(crate) fn list2(a: Term, b: Term) -> (r: Term)
    ensures
        r == list_of_two(a, b),
{
    Term::Cons(Box::new(a), Box::new(Term::Cons(Box::new(b), Box::new(Term::Nil))))
}

pub(crate) fn list3(a: Term, b: Term, c: Term) -> (r: Term)
    ensures
        r == list_of_three(a, b, c),
{
    Term::Cons(Box::new(a), Box::new(list2(b, c)))
}

/// The list of one operand.
pub open spec fn one_input(a: Term) -> Term {
    Term::InputCons(Box::new(a), Box::new(Term::InputNil))
}

/// The list of two operands.
pub open spec fn two_inputs(a: Term, b: Term) -> Term {
    Term::InputCons(Box::new(a), Box::new(one_input(b)))
}

pub(crate) fn inputs1(a: Term) -> (r: Term)
    ensures
        r == one_input(a),
{
    Term::InputCons(Box::new(a), Box::new(Term::InputNil))
}

pub(crate) fn inputs2(a: Term, b: Term) -> (r: Term)
    ensures
        r == two_inputs(a, b),
{
    Term::InputCons(Box::new(a), Box::new(inputs1(b)))
}

/// An operation with its operands.
pub open spec fn op_term(kind: Term, inputs: Term) -> Term {
    Term::Op { kind: Box::new(kind), inputs: Box::new(inputs) }
}

pub(crate) fn op(kind: Term, inputs: Term) -> (r: Term)
    ensures
        r == op_term(kind, inputs),
{
    Term::Op { kind: Box::new(kind), inputs: Box::new(inputs) }
}

/// A field before other fields.
pub open spec fn field_term(name: &'static str, value: Term, rest: Term) -> Term {
    Term::Field { name, value: Box::new(value), rest: Box::new(rest) }
}

pub(crate) fn field(name: &'static str, value: Term, rest: Term) -> (r: Term)
    ensures
        r == field_term(name, value, rest),
{
    Term::Field { name, value: Box::new(value), rest: Box::new(rest) }
}

/// The product of two expressions.
pub open spec fn product_term(a: Term, b: Term) -> Term {
    Term::Times(Box::new(a), Box::new(b))
}

pub(crate) fn product(a: Term, b: Term) -> (r: Term)
    ensures
        r == product_term(a, b),
{
    Term::Times(Box::new(a), Box::new(b))
}

/// The element type of a term.
pub open spec fn dtype_of_term(a: Term) -> Term {
    Term::DTypeOf(Box::new(a))
}

pub(crate) fn dtype_of(a: Term) -> (r: Term)
    ensures
        r == dtype_of_term(a),
{
    Term::DTypeOf(Box::new(a))
}

/// The value of an expression under an assignment to its variables, where the
/// unit stands for the coordinate `unit`.
pub open spec fn value_of(term: Term, assignment: spec_fn(&'static str) -> int, unit: int) -> int
    decreases term,
{
    match term {
        Term::Var(name) => assignment(name),
        Term::Num(value) => value as int,
        Term::Unit => unit,
        Term::Times(a, b) => value_of(*a, assignment, unit) * value_of(*b, assignment, unit),
        _ => 0,
    }
}

/// The position that coordinates have under a list of strides: the sum of what
/// each stride gives for its coordinate.
pub open spec fn position_of(
    strides: Term,
    assignment: spec_fn(&'static str) -> int,
    coordinates: Seq<int>,
) -> int
    decreases strides,
{
    match strides {
        Term::Cons(first, rest) => value_of(*first, assignment, coordinates[0]) + position_of(
            *rest,
            assignment,
            coordinates.skip(1),
        ),
        _ => 0,
    }
}

/// The position of two coordinates under two strides.
pub proof fn lemma_position_of_two(
    a: Term,
    b: Term,
    assignment: spec_fn(&'static str) -> int,
    i: int,
    j: int,
)
    ensures
        position_of(list_of_two(a, b), assignment, seq![i, j]) == value_of(a, assignment, i)
            + value_of(b, assignment, j),
{
    reveal_with_fuel(position_of, 3);
    assert(seq![i, j].skip(1) == seq![j]);
}

/// The position of three coordinates under three strides.
pub proof fn lemma_position_of_three(
    a: Term,
    b: Term,
    c: Term,
    assignment: spec_fn(&'static str) -> int,
    i: int,
    j: int,
    l: int,
)
    ensures
        position_of(list_of_three(a, b, c), assignment, seq![i, j, l]) == value_of(
            a,
            assignment,
            i,
        ) + value_of(b, assignment, j) + value_of(c, assignment, l),
{
    lemma_position_of_two(b, c, assignment, j, l);
    assert(seq![i, j, l].skip(1) == seq![j, l]);
}

/// The sum of the first `count` numbers.
pub open spec fn summed(count: int, term: spec_fn(int) -> int) -> int
    decreases count,
{
    if count <= 0 {
        0
    } else {
        summed(count - 1, term) + term(count - 1)
    }
}

/// Sums of the same numbers are the same.
pub proof fn lemma_summed_same(count: int, a: spec_fn(int) -> int, b: spec_fn(int) -> int)
    requires
        forall|i: int| 0 <= i < count ==> #[trigger] a(i) == b(i),
    ensures
        summed(count, a) == summed(count, b),
    decreases count,
{
    if count > 0 {
        lemma_summed_same(count - 1, a, b);
    }
}

} // verus!
