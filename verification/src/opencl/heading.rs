//! How the kernels declare their parameters.

use vstd::prelude::*;

use crate::dtype::DType;
use crate::opencl::kernel::{argument_dtype, owned_texts, KernelSource, OpenClKernelOp};
use crate::opencl::meaning::{c_type, law_program_reads_as_the_operation};
use crate::opencl::templates::{
    BINARY_KERNEL, BINARY_TO_A_TY, BINARY_TO_B_TY, BINARY_TO_OUTPUT_INDEX, BINARY_TO_OUTPUT_TY,
    CAST_KERNEL, CAST_TO_INPUT_TY, CAST_TO_OUTPUT_TY, CAST_TO_VALUE, GATHER_KERNEL,
    GATHER_TO_DATA_TY, GATHER_TO_INDEX_INDEX, GATHER_TO_OUTPUT_TY, IOTA_KERNEL,
    IOTA_TO_EXPRESSION, KERNEL_KEYWORD, LESS_THAN_KERNEL, LESS_THAN_TO_A_TY, LESS_THAN_TO_B_TY,
    LESS_THAN_TO_OUTPUT_INDEX, LESS_THAN_TO_OUTPUT_TY, MATMUL_KERNEL, MATMUL_TO_LHS_TY,
    MATMUL_TO_OUTPUT_TY, MATMUL_TO_RHS_TY, MATMUL_TO_SUM_BASE, MAX_KERNEL, MAX_TO_INPUT_START,
    MAX_TO_INPUT_TY, MAX_TO_OUTPUT_TY, PARAMETERS_OPEN, SCATTER_COPY_KERNEL,
    SCATTER_TO_COPY_OUTPUT_INDEX, SCATTER_TO_DEST_TY, SCATTER_TO_INDEX_INDEX,
    SCATTER_TO_OUTPUT_TY, SCATTER_TO_OUTPUT_TY_2, SCATTER_TO_SRC_TY, SCATTER_WRITE_KERNEL,
    SUM_KERNEL, SUM_TO_INPUT_START, SUM_TO_INPUT_TY, SUM_TO_OUTPUT_TY, UNARY_KERNEL,
    UNARY_TO_INPUT_TY, UNARY_TO_OUTPUT_INDEX, UNARY_TO_OUTPUT_TY,
};
use crate::text::{contains_text, joined, lemma_joined_add, occurs_at, texts};

verus! {

/// A buffer that a kernel declares.
pub struct Declaration {
    /// Whether the kernel only reads it.
    pub constant: bool,
    /// The type of its elements.
    pub element: Seq<char>,
    pub name: Seq<char>,
}

/// A buffer that a kernel declares.
pub open spec fn declaration(constant: bool, element: Seq<char>, name: Seq<char>) -> Declaration {
    Declaration { constant, element, name }
}

impl Declaration {
    /// The declaration in OpenCL C, behind white space.
    pub open spec fn tokens(self, gap: Seq<char>) -> Seq<Seq<char>> {
        seq![
            gap,
            if self.constant {
                "__global const "@
            } else {
                "__global "@
            },
            self.element,
            " *"@,
            self.name,
            ","@,
        ]
    }
}

/// The declarations one after the other, each behind white space.
pub open spec fn declared_tokens(gap: Seq<char>, declared: Seq<Declaration>) -> Seq<Seq<char>>
    decreases declared.len(),
{
    if declared.len() == 0 {
        Seq::empty()
    } else {
        declared_tokens(gap, declared.drop_last()) + declared.last().tokens(gap)
    }
}

/// The heading of a kernel: its name, its buffers, the dynamic dimensions and the
/// number of work items.
pub open spec fn heading_tokens(
    name: Seq<char>,
    gap: Seq<char>,
    declared: Seq<Declaration>,
) -> Seq<Seq<char>> {
    seq!["__kernel void "@, name, "("@] + declared_tokens(gap, declared) + seq![
        gap,
        "__global const int *dyn,"@,
        gap,
        "uint n"@,
    ]
}

/// The text of the heading of a kernel.
pub open spec fn heading(name: Seq<char>, gap: Seq<char>, declared: Seq<Declaration>) -> Seq<char> {
    joined(heading_tokens(name, gap, declared))
}

/// Whether a text is white space only.
pub open spec fn is_blank(text: Seq<char>) -> bool {
    forall|i: int| 0 <= i < text.len() ==> #[trigger] text[i] == ' ' || text[i] == '\n'
}

impl<E> OpenClKernelOp<E> {
    /// The buffers of a kernel of the operation in the order in which launches hand
    /// them over: the operands, then the result, each with the type of its elements;
    /// indexes are integers.
    pub open spec fn declarations(
        self,
        inputs: Seq<DType>,
        output: DType,
        kernel: int,
    ) -> Seq<Declaration> {
        let names = self.buffers(kernel);
        let first = c_type(argument_dtype(inputs, 0, DType::F32));
        let second = c_type(argument_dtype(inputs, 1, argument_dtype(inputs, 0, DType::F32)));
        let types = match self {
            OpenClKernelOp::Constant(_) | OpenClKernelOp::Iota(_) => seq![c_type(DType::Int)],
            OpenClKernelOp::Binary(_)
            | OpenClKernelOp::LessThan(_)
            | OpenClKernelOp::Matmul(_) => seq![first, second, c_type(output)],
            OpenClKernelOp::Gather(_) => seq![
                c_type(DType::Int),
                c_type(argument_dtype(inputs, 1, DType::F32)),
                c_type(output),
            ],
            OpenClKernelOp::Scatter(_) => if kernel == 0 {
                seq![first, c_type(output)]
            } else {
                seq![
                    c_type(DType::Int),
                    c_type(argument_dtype(inputs, 2, output)),
                    c_type(output),
                ]
            },
            _ => seq![first, c_type(output)],
        };
        Seq::new(
            names.len(),
            |p: int| declaration(p < names.len() - 1, types[p], names[p]),
        )
    }
}

/// Every kernel of a program declares the buffers that launches hand to it, in the
/// order in which they do, with the types of their elements: the operands, which it
/// only reads, then the result, and behind them the dynamic dimensions and the number
/// of work items.
pub proof fn law_kernels_declare_what_launches_hand_over<E>(
    op: OpenClKernelOp<E>,
    inputs: Vec<DType>,
    output: DType,
    lowered: Vec<String>,
    source: KernelSource,
    kernel: int,
)
    requires
        !(op is Constant),
        0 <= kernel < source.names@.len(),
        call_ensures(OpenClKernelOp::<E>::compile, (&op, &inputs, output, &lowered), Ok(source)),
    ensures
        exists|gap: Seq<char>|
            is_blank(gap) && contains_text(
                source.text@,
                #[trigger] heading(
                    source.names@[kernel]@,
                    gap,
                    op.declarations(inputs@, output, kernel),
                ),
            ),
{
    law_program_reads_as_the_operation(op, inputs, output, lowered, source);
    assert(texts(source.names@)[kernel] == source.names@[kernel]@);
    assert(texts(source.names@) == op.kernel_names());
    assert(texts(source.names@).len() == source.names@.len());
    let text = source.text@;
    let name = source.names@[kernel]@;
    let lowered = owned_texts(lowered@);
    let inputs = inputs@;
    let parts = op.read_parts(inputs, output, lowered);
    let declared = op.declarations(inputs, output, kernel);
    assert(name == op.kernel_names()[kernel]);
    assert(text == joined(parts));
    lemma_gaps();
    match op {
        OpenClKernelOp::Unary(_) => {
            lemma_unary_declares(op, inputs, output, lowered);
            assert(contains_text(text, heading(name, "\n                        "@, declared)));
        },
        OpenClKernelOp::Binary(_) => {
            lemma_binary_declares(op, inputs, output, lowered);
            assert(contains_text(text, heading(name, "\n            "@, declared)));
        },
        OpenClKernelOp::LessThan(_) => {
            lemma_less_than_declares(op, inputs, output, lowered);
            assert(contains_text(text, heading(name, "\n                "@, declared)));
        },
        OpenClKernelOp::SumReduce(_) => {
            lemma_sum_declares(op, inputs, output, lowered);
            assert(contains_text(text, heading(name, "\n                "@, declared)));
        },
        OpenClKernelOp::MaxReduce(_) => {
            lemma_max_declares(op, inputs, output, lowered);
            assert(contains_text(text, heading(name, "\n                "@, declared)));
        },
        OpenClKernelOp::Matmul(_) => {
            lemma_matmul_declares(op, inputs, output, lowered);
            assert(contains_text(text, heading(name, "\n                "@, declared)));
        },
        OpenClKernelOp::Iota(_) => {
            lemma_iota_declares(op, inputs, output, lowered);
            assert(contains_text(text, heading(name, "\n                "@, declared)));
        },
        OpenClKernelOp::Gather(_) => {
            lemma_gather_declares(op, inputs, output, lowered);
            assert(contains_text(text, heading(name, "\n                "@, declared)));
        },
        OpenClKernelOp::Scatter(_) => if kernel == 0 {
            lemma_scatter_declares_copy(op, inputs, output, lowered);
            assert(contains_text(text, heading(name, "\n                "@, declared)));
        } else {
            lemma_scatter_declares_write(op, inputs, output, lowered);
            assert(contains_text(text, heading(name, "\n                "@, declared)));
        },
        OpenClKernelOp::Cast(_) => {
            lemma_cast_declares(op, inputs, output, lowered);
            assert(contains_text(text, heading(name, "\n                "@, declared)));
        },
        OpenClKernelOp::Constant(_) => {},
    }
}

proof fn lemma_gaps()
    ensures
        is_blank("\n            "@),
        is_blank("\n                "@),
        is_blank("\n                        "@),
{
    reveal_strlit("\n            ");
    reveal_strlit("\n                ");
    reveal_strlit("\n                        ");
}

proof fn lemma_joined_push(parts: Seq<Seq<char>>, part: Seq<char>)
    ensures
        joined(parts.push(part)) == joined(parts) + part,
{
    assert(parts.push(part).drop_last() =~= parts);
}

proof fn lemma_occurs(parts: Seq<Seq<char>>, i: int, j: int, word: Seq<char>, rest: Seq<char>)
    requires
        0 <= i <= j <= parts.len(),
        joined(parts.subrange(i, j)) == word + rest,
    ensures
        contains_text(joined(parts), word),
{
    let before = parts.take(i);
    let middle = parts.subrange(i, j);
    let after = parts.skip(j);
    lemma_joined_add(before + middle, after);
    lemma_joined_add(before, middle);
    assert(parts =~= before + middle + after);
    let at = joined(before).len() as int;
    assert(joined(parts).subrange(at, at + word.len()) =~= word);
    assert(occurs_at(joined(parts), word, at));
}

proof fn lemma_join2(a: Seq<char>, b: Seq<char>)
    ensures
        joined(seq![a, b]) == a + b,
{
    let none = Seq::<Seq<char>>::empty();
    lemma_joined_push(none, a);
    assert(seq![a] =~= none.push(a));
    assert(joined(none) + a =~= a);
    lemma_joined_push(seq![a], b);
    assert(seq![a, b] =~= seq![a].push(b));
}

proof fn lemma_join5(a: Seq<char>, b: Seq<char>, c: Seq<char>, d: Seq<char>, e: Seq<char>)
    ensures
        joined(seq![a, b, c, d, e]) == a + b + c + d + e,
{
    let none = Seq::<Seq<char>>::empty();
    lemma_joined_push(none, a);
    assert(seq![a] =~= none.push(a));
    assert(joined(none) + a =~= a);
    lemma_joined_push(seq![a], b);
    assert(seq![a, b] =~= seq![a].push(b));
    lemma_joined_push(seq![a, b], c);
    assert(seq![a, b, c] =~= seq![a, b].push(c));
    lemma_joined_push(seq![a, b, c], d);
    assert(seq![a, b, c, d] =~= seq![a, b, c].push(d));
    lemma_joined_push(seq![a, b, c, d], e);
    assert(seq![a, b, c, d, e] =~= seq![a, b, c, d].push(e));
}

proof fn lemma_join7(
    a: Seq<char>,
    b: Seq<char>,
    c: Seq<char>,
    d: Seq<char>,
    e: Seq<char>,
    f: Seq<char>,
    g: Seq<char>,
)
    ensures
        joined(seq![a, b, c, d, e, f, g]) == a + b + c + d + e + f + g,
{
    let none = Seq::<Seq<char>>::empty();
    lemma_joined_push(none, a);
    assert(seq![a] =~= none.push(a));
    assert(joined(none) + a =~= a);
    lemma_joined_push(seq![a], b);
    assert(seq![a, b] =~= seq![a].push(b));
    lemma_joined_push(seq![a, b], c);
    assert(seq![a, b, c] =~= seq![a, b].push(c));
    lemma_joined_push(seq![a, b, c], d);
    assert(seq![a, b, c, d] =~= seq![a, b, c].push(d));
    lemma_joined_push(seq![a, b, c, d], e);
    assert(seq![a, b, c, d, e] =~= seq![a, b, c, d].push(e));
    lemma_joined_push(seq![a, b, c, d, e], f);
    assert(seq![a, b, c, d, e, f] =~= seq![a, b, c, d, e].push(f));
    lemma_joined_push(seq![a, b, c, d, e, f], g);
    assert(seq![a, b, c, d, e, f, g] =~= seq![a, b, c, d, e, f].push(g));
}

proof fn lemma_join8(
    a: Seq<char>,
    b: Seq<char>,
    c: Seq<char>,
    d: Seq<char>,
    e: Seq<char>,
    f: Seq<char>,
    g: Seq<char>,
    h: Seq<char>,
)
    ensures
        joined(seq![a, b, c, d, e, f, g, h]) == a + b + c + d + e + f + g + h,
{
    let none = Seq::<Seq<char>>::empty();
    lemma_joined_push(none, a);
    assert(seq![a] =~= none.push(a));
    assert(joined(none) + a =~= a);
    lemma_joined_push(seq![a], b);
    assert(seq![a, b] =~= seq![a].push(b));
    lemma_joined_push(seq![a, b], c);
    assert(seq![a, b, c] =~= seq![a, b].push(c));
    lemma_joined_push(seq![a, b, c], d);
    assert(seq![a, b, c, d] =~= seq![a, b, c].push(d));
    lemma_joined_push(seq![a, b, c, d], e);
    assert(seq![a, b, c, d, e] =~= seq![a, b, c, d].push(e));
    lemma_joined_push(seq![a, b, c, d, e], f);
    assert(seq![a, b, c, d, e, f] =~= seq![a, b, c, d, e].push(f));
    lemma_joined_push(seq![a, b, c, d, e, f], g);
    assert(seq![a, b, c, d, e, f, g] =~= seq![a, b, c, d, e, f].push(g));
    lemma_joined_push(seq![a, b, c, d, e, f, g], h);
    assert(seq![a, b, c, d, e, f, g, h] =~= seq![a, b, c, d, e, f, g].push(h));
}

proof fn lemma_join10(
    a: Seq<char>,
    b: Seq<char>,
    c: Seq<char>,
    d: Seq<char>,
    e: Seq<char>,
    f: Seq<char>,
    g: Seq<char>,
    h: Seq<char>,
    i: Seq<char>,
    j: Seq<char>,
)
    ensures
        joined(seq![a, b, c, d, e, f, g, h, i, j]) == a + b + c + d + e + f + g + h + i + j,
{
    let none = Seq::<Seq<char>>::empty();
    lemma_joined_push(none, a);
    assert(seq![a] =~= none.push(a));
    assert(joined(none) + a =~= a);
    lemma_joined_push(seq![a], b);
    assert(seq![a, b] =~= seq![a].push(b));
    lemma_joined_push(seq![a, b], c);
    assert(seq![a, b, c] =~= seq![a, b].push(c));
    lemma_joined_push(seq![a, b, c], d);
    assert(seq![a, b, c, d] =~= seq![a, b, c].push(d));
    lemma_joined_push(seq![a, b, c, d], e);
    assert(seq![a, b, c, d, e] =~= seq![a, b, c, d].push(e));
    lemma_joined_push(seq![a, b, c, d, e], f);
    assert(seq![a, b, c, d, e, f] =~= seq![a, b, c, d, e].push(f));
    lemma_joined_push(seq![a, b, c, d, e, f], g);
    assert(seq![a, b, c, d, e, f, g] =~= seq![a, b, c, d, e, f].push(g));
    lemma_joined_push(seq![a, b, c, d, e, f, g], h);
    assert(seq![a, b, c, d, e, f, g, h] =~= seq![a, b, c, d, e, f, g].push(h));
    lemma_joined_push(seq![a, b, c, d, e, f, g, h], i);
    assert(seq![a, b, c, d, e, f, g, h, i] =~= seq![a, b, c, d, e, f, g, h].push(i));
    lemma_joined_push(seq![a, b, c, d, e, f, g, h, i], j);
    assert(seq![a, b, c, d, e, f, g, h, i, j] =~= seq![a, b, c, d, e, f, g, h, i].push(j));
}

proof fn lemma_declared_tokens1(gap: Seq<char>, a: Declaration)
    ensures
        declared_tokens(gap, seq![a]) == a.tokens(gap),
{
    reveal_with_fuel(declared_tokens, 2);
    assert(seq![a].drop_last() =~= Seq::<Declaration>::empty());
    assert(declared_tokens(gap, Seq::<Declaration>::empty()) + a.tokens(gap) =~= a.tokens(gap));
}

proof fn lemma_declared_tokens2(gap: Seq<char>, a: Declaration, b: Declaration)
    ensures
        declared_tokens(gap, seq![a, b]) == a.tokens(gap) + b.tokens(gap),
{
    reveal_with_fuel(declared_tokens, 3);
    assert(seq![a, b].drop_last() =~= seq![a]);
    assert(seq![a].drop_last() =~= Seq::<Declaration>::empty());
    assert(declared_tokens(gap, Seq::<Declaration>::empty()) + a.tokens(gap) =~= a.tokens(gap));
}

proof fn lemma_declared_tokens3(gap: Seq<char>, a: Declaration, b: Declaration, c: Declaration)
    ensures
        declared_tokens(gap, seq![a, b, c]) == a.tokens(gap) + b.tokens(gap) + c.tokens(gap),
{
    reveal_with_fuel(declared_tokens, 4);
    assert(seq![a, b, c].drop_last() =~= seq![a, b]);
    assert(seq![a, b].drop_last() =~= seq![a]);
    assert(seq![a].drop_last() =~= Seq::<Declaration>::empty());
    assert(declared_tokens(gap, Seq::<Declaration>::empty()) + a.tokens(gap) =~= a.tokens(gap));
}

proof fn lemma_unary_to_input_ty()
    ensures
        UNARY_TO_INPUT_TY@ == joined(seq!["\n                        "@, "__global const "@]),
{
    reveal_strlit("\n                        __global const ");
    reveal_strlit("\n                        ");
    reveal_strlit("__global const ");
    lemma_join2("\n                        "@, "__global const "@);
    assert(UNARY_TO_INPUT_TY@ =~= "\n                        "@ + "__global const "@);
}

proof fn lemma_unary_to_output_ty()
    ensures
        UNARY_TO_OUTPUT_TY@ == joined(seq![" *"@, "input"@, ","@, "\n                        "@,
            "__global "@]),
{
    reveal_strlit(" *input,\n                        __global ");
    reveal_strlit(" *");
    reveal_strlit("input");
    reveal_strlit(",");
    reveal_strlit("\n                        ");
    reveal_strlit("__global ");
    lemma_join5(" *"@, "input"@, ","@, "\n                        "@, "__global "@);
    assert(UNARY_TO_OUTPUT_TY@ =~= " *"@ + "input"@ + ","@ + "\n                        "@
        + "__global "@);
}

proof fn lemma_unary_to_output_index()
    ensures
        UNARY_TO_OUTPUT_INDEX@ == joined(seq![" *"@, "output"@, ","@,
            "\n                        "@, "__global const int *dyn,"@,
            "\n                        "@, "uint n"@]) + UNARY_TO_OUTPUT_INDEX@.skip(89),
{
    reveal_strlit(" *output,\n                        __global const int *dyn,\n                        uint n_elements)\n                    {\n                        int idx = (int)get_global_id(0);\n                        if ((uint)idx < n_elements) {\n                            output[");
    reveal_strlit(" *");
    reveal_strlit("output");
    reveal_strlit(",");
    reveal_strlit("\n                        ");
    reveal_strlit("__global const int *dyn,");
    reveal_strlit("uint n");
    lemma_join7(" *"@, "output"@, ","@, "\n                        "@,
        "__global const int *dyn,"@, "\n                        "@, "uint n"@);
    assert(UNARY_TO_OUTPUT_INDEX@.take(89) =~= " *"@ + "output"@ + ","@
        + "\n                        "@ + "__global const int *dyn,"@
        + "\n                        "@ + "uint n"@);
    assert(UNARY_TO_OUTPUT_INDEX@ =~= UNARY_TO_OUTPUT_INDEX@.take(89)
        + UNARY_TO_OUTPUT_INDEX@.skip(89));
}

proof fn lemma_binary_to_a_ty()
    ensures
        BINARY_TO_A_TY@ == joined(seq!["\n            "@, "__global const "@]),
{
    reveal_strlit("\n            __global const ");
    reveal_strlit("\n            ");
    reveal_strlit("__global const ");
    lemma_join2("\n            "@, "__global const "@);
    assert(BINARY_TO_A_TY@ =~= "\n            "@ + "__global const "@);
}

proof fn lemma_binary_to_b_ty()
    ensures
        BINARY_TO_B_TY@ == joined(seq![" *"@, "a"@, ","@, "\n            "@, "__global const "@]),
{
    reveal_strlit(" *a,\n            __global const ");
    reveal_strlit(" *");
    reveal_strlit("a");
    reveal_strlit(",");
    reveal_strlit("\n            ");
    reveal_strlit("__global const ");
    lemma_join5(" *"@, "a"@, ","@, "\n            "@, "__global const "@);
    assert(BINARY_TO_B_TY@ =~= " *"@ + "a"@ + ","@ + "\n            "@ + "__global const "@);
}

proof fn lemma_binary_to_output_ty()
    ensures
        BINARY_TO_OUTPUT_TY@ == joined(seq![" *"@, "b"@, ","@, "\n            "@, "__global "@]),
{
    reveal_strlit(" *b,\n            __global ");
    reveal_strlit(" *");
    reveal_strlit("b");
    reveal_strlit(",");
    reveal_strlit("\n            ");
    reveal_strlit("__global ");
    lemma_join5(" *"@, "b"@, ","@, "\n            "@, "__global "@);
    assert(BINARY_TO_OUTPUT_TY@ =~= " *"@ + "b"@ + ","@ + "\n            "@ + "__global "@);
}

proof fn lemma_binary_to_output_index()
    ensures
        BINARY_TO_OUTPUT_INDEX@ == joined(seq![" *"@, "output"@, ","@, "\n            "@,
            "__global const int *dyn,"@, "\n            "@, "uint n"@])
            + BINARY_TO_OUTPUT_INDEX@.skip(65),
{
    reveal_strlit(" *output,\n            __global const int *dyn,\n            uint n_elements)\n        {\n            int idx = (int)get_global_id(0);\n            if ((uint)idx < n_elements) {\n                output[");
    reveal_strlit(" *");
    reveal_strlit("output");
    reveal_strlit(",");
    reveal_strlit("\n            ");
    reveal_strlit("__global const int *dyn,");
    reveal_strlit("uint n");
    lemma_join7(" *"@, "output"@, ","@, "\n            "@, "__global const int *dyn,"@,
        "\n            "@, "uint n"@);
    assert(BINARY_TO_OUTPUT_INDEX@.take(65) =~= " *"@ + "output"@ + ","@ + "\n            "@
        + "__global const int *dyn,"@ + "\n            "@ + "uint n"@);
    assert(BINARY_TO_OUTPUT_INDEX@ =~= BINARY_TO_OUTPUT_INDEX@.take(65)
        + BINARY_TO_OUTPUT_INDEX@.skip(65));
}

proof fn lemma_less_than_to_a_ty()
    ensures
        LESS_THAN_TO_A_TY@ == joined(seq!["\n                "@, "__global const "@]),
{
    reveal_strlit("\n                __global const ");
    reveal_strlit("\n                ");
    reveal_strlit("__global const ");
    lemma_join2("\n                "@, "__global const "@);
    assert(LESS_THAN_TO_A_TY@ =~= "\n                "@ + "__global const "@);
}

proof fn lemma_less_than_to_b_ty()
    ensures
        LESS_THAN_TO_B_TY@ == joined(seq![" *"@, "a"@, ","@, "\n                "@,
            "__global const "@]),
{
    reveal_strlit(" *a,\n                __global const ");
    reveal_strlit(" *");
    reveal_strlit("a");
    reveal_strlit(",");
    reveal_strlit("\n                ");
    reveal_strlit("__global const ");
    lemma_join5(" *"@, "a"@, ","@, "\n                "@, "__global const "@);
    assert(LESS_THAN_TO_B_TY@ =~= " *"@ + "a"@ + ","@ + "\n                "@ + "__global const "@);
}

proof fn lemma_less_than_to_output_ty()
    ensures
        LESS_THAN_TO_OUTPUT_TY@ == joined(seq![" *"@, "b"@, ","@, "\n                "@,
            "__global "@]),
{
    reveal_strlit(" *b,\n                __global ");
    reveal_strlit(" *");
    reveal_strlit("b");
    reveal_strlit(",");
    reveal_strlit("\n                ");
    reveal_strlit("__global ");
    lemma_join5(" *"@, "b"@, ","@, "\n                "@, "__global "@);
    assert(LESS_THAN_TO_OUTPUT_TY@ =~= " *"@ + "b"@ + ","@ + "\n                "@ + "__global "@);
}

proof fn lemma_less_than_to_output_index()
    ensures
        LESS_THAN_TO_OUTPUT_INDEX@ == joined(seq![" *"@, "output"@, ","@, "\n                "@,
            "__global const int *dyn,"@, "\n                "@, "uint n"@])
            + LESS_THAN_TO_OUTPUT_INDEX@.skip(73),
{
    reveal_strlit(" *output,\n                __global const int *dyn,\n                uint n_elements)\n            {\n                int idx = (int)get_global_id(0);\n                if ((uint)idx < n_elements) {\n                    output[");
    reveal_strlit(" *");
    reveal_strlit("output");
    reveal_strlit(",");
    reveal_strlit("\n                ");
    reveal_strlit("__global const int *dyn,");
    reveal_strlit("uint n");
    lemma_join7(" *"@, "output"@, ","@, "\n                "@, "__global const int *dyn,"@,
        "\n                "@, "uint n"@);
    assert(LESS_THAN_TO_OUTPUT_INDEX@.take(73) =~= " *"@ + "output"@ + ","@
        + "\n                "@ + "__global const int *dyn,"@ + "\n                "@
        + "uint n"@);
    assert(LESS_THAN_TO_OUTPUT_INDEX@ =~= LESS_THAN_TO_OUTPUT_INDEX@.take(73)
        + LESS_THAN_TO_OUTPUT_INDEX@.skip(73));
}

proof fn lemma_sum_to_input_ty()
    ensures
        SUM_TO_INPUT_TY@ == joined(seq!["\n                "@, "__global const "@]),
{
    reveal_strlit("\n                __global const ");
    reveal_strlit("\n                ");
    reveal_strlit("__global const ");
    lemma_join2("\n                "@, "__global const "@);
    assert(SUM_TO_INPUT_TY@ =~= "\n                "@ + "__global const "@);
}

proof fn lemma_sum_to_output_ty()
    ensures
        SUM_TO_OUTPUT_TY@ == joined(seq![" *"@, "input"@, ","@, "\n                "@,
            "__global "@]),
{
    reveal_strlit(" *input,\n                __global ");
    reveal_strlit(" *");
    reveal_strlit("input");
    reveal_strlit(",");
    reveal_strlit("\n                ");
    reveal_strlit("__global ");
    lemma_join5(" *"@, "input"@, ","@, "\n                "@, "__global "@);
    assert(SUM_TO_OUTPUT_TY@ =~= " *"@ + "input"@ + ","@ + "\n                "@ + "__global "@);
}

proof fn lemma_sum_to_input_start()
    ensures
        SUM_TO_INPUT_START@ == joined(seq![" *"@, "output"@, ","@, "\n                "@,
            "__global const int *dyn,"@, "\n                "@, "uint n"@])
            + SUM_TO_INPUT_START@.skip(73),
{
    reveal_strlit(" *output,\n                __global const int *dyn,\n                uint n_outputs)\n            {\n                int idx = (int)get_global_id(0);\n                if ((uint)idx >= n_outputs) return;\n                int input_start = ");
    reveal_strlit(" *");
    reveal_strlit("output");
    reveal_strlit(",");
    reveal_strlit("\n                ");
    reveal_strlit("__global const int *dyn,");
    reveal_strlit("uint n");
    lemma_join7(" *"@, "output"@, ","@, "\n                "@, "__global const int *dyn,"@,
        "\n                "@, "uint n"@);
    assert(SUM_TO_INPUT_START@.take(73) =~= " *"@ + "output"@ + ","@ + "\n                "@
        + "__global const int *dyn,"@ + "\n                "@ + "uint n"@);
    assert(SUM_TO_INPUT_START@ =~= SUM_TO_INPUT_START@.take(73) + SUM_TO_INPUT_START@.skip(73));
}

proof fn lemma_max_to_input_ty()
    ensures
        MAX_TO_INPUT_TY@ == joined(seq!["\n                "@, "__global const "@]),
{
    reveal_strlit("\n                __global const ");
    reveal_strlit("\n                ");
    reveal_strlit("__global const ");
    lemma_join2("\n                "@, "__global const "@);
    assert(MAX_TO_INPUT_TY@ =~= "\n                "@ + "__global const "@);
}

proof fn lemma_max_to_output_ty()
    ensures
        MAX_TO_OUTPUT_TY@ == joined(seq![" *"@, "input"@, ","@, "\n                "@,
            "__global "@]),
{
    reveal_strlit(" *input,\n                __global ");
    reveal_strlit(" *");
    reveal_strlit("input");
    reveal_strlit(",");
    reveal_strlit("\n                ");
    reveal_strlit("__global ");
    lemma_join5(" *"@, "input"@, ","@, "\n                "@, "__global "@);
    assert(MAX_TO_OUTPUT_TY@ =~= " *"@ + "input"@ + ","@ + "\n                "@ + "__global "@);
}

proof fn lemma_max_to_input_start()
    ensures
        MAX_TO_INPUT_START@ == joined(seq![" *"@, "output"@, ","@, "\n                "@,
            "__global const int *dyn,"@, "\n                "@, "uint n"@])
            + MAX_TO_INPUT_START@.skip(73),
{
    reveal_strlit(" *output,\n                __global const int *dyn,\n                uint n_outputs)\n            {\n                int idx = (int)get_global_id(0);\n                if ((uint)idx >= n_outputs) return;\n                int input_start = ");
    reveal_strlit(" *");
    reveal_strlit("output");
    reveal_strlit(",");
    reveal_strlit("\n                ");
    reveal_strlit("__global const int *dyn,");
    reveal_strlit("uint n");
    lemma_join7(" *"@, "output"@, ","@, "\n                "@, "__global const int *dyn,"@,
        "\n                "@, "uint n"@);
    assert(MAX_TO_INPUT_START@.take(73) =~= " *"@ + "output"@ + ","@ + "\n                "@
        + "__global const int *dyn,"@ + "\n                "@ + "uint n"@);
    assert(MAX_TO_INPUT_START@ =~= MAX_TO_INPUT_START@.take(73) + MAX_TO_INPUT_START@.skip(73));
}

proof fn lemma_matmul_to_lhs_ty()
    ensures
        MATMUL_TO_LHS_TY@ == joined(seq!["\n                "@, "__global const "@]),
{
    reveal_strlit("\n                __global const ");
    reveal_strlit("\n                ");
    reveal_strlit("__global const ");
    lemma_join2("\n                "@, "__global const "@);
    assert(MATMUL_TO_LHS_TY@ =~= "\n                "@ + "__global const "@);
}

proof fn lemma_matmul_to_rhs_ty()
    ensures
        MATMUL_TO_RHS_TY@ == joined(seq![" *"@, "lhs"@, ","@, "\n                "@,
            "__global const "@]),
{
    reveal_strlit(" *lhs,\n                __global const ");
    reveal_strlit(" *");
    reveal_strlit("lhs");
    reveal_strlit(",");
    reveal_strlit("\n                ");
    reveal_strlit("__global const ");
    lemma_join5(" *"@, "lhs"@, ","@, "\n                "@, "__global const "@);
    assert(MATMUL_TO_RHS_TY@ =~= " *"@ + "lhs"@ + ","@ + "\n                "@
        + "__global const "@);
}

proof fn lemma_matmul_to_output_ty()
    ensures
        MATMUL_TO_OUTPUT_TY@ == joined(seq![" *"@, "rhs"@, ","@, "\n                "@,
            "__global "@]),
{
    reveal_strlit(" *rhs,\n                __global ");
    reveal_strlit(" *");
    reveal_strlit("rhs");
    reveal_strlit(",");
    reveal_strlit("\n                ");
    reveal_strlit("__global ");
    lemma_join5(" *"@, "rhs"@, ","@, "\n                "@, "__global "@);
    assert(MATMUL_TO_OUTPUT_TY@ =~= " *"@ + "rhs"@ + ","@ + "\n                "@ + "__global "@);
}

proof fn lemma_matmul_to_sum_base()
    ensures
        MATMUL_TO_SUM_BASE@ == joined(seq![" *"@, "output"@, ","@, "\n                "@,
            "__global const int *dyn,"@, "\n                "@, "uint n"@])
            + MATMUL_TO_SUM_BASE@.skip(73),
{
    reveal_strlit(" *output,\n                __global const int *dyn,\n                uint n_outputs)\n            {\n                int idx = (int)get_global_id(0);\n                if ((uint)idx >= n_outputs) return;\n                int base_idx = ");
    reveal_strlit(" *");
    reveal_strlit("output");
    reveal_strlit(",");
    reveal_strlit("\n                ");
    reveal_strlit("__global const int *dyn,");
    reveal_strlit("uint n");
    lemma_join7(" *"@, "output"@, ","@, "\n                "@, "__global const int *dyn,"@,
        "\n                "@, "uint n"@);
    assert(MATMUL_TO_SUM_BASE@.take(73) =~= " *"@ + "output"@ + ","@ + "\n                "@
        + "__global const int *dyn,"@ + "\n                "@ + "uint n"@);
    assert(MATMUL_TO_SUM_BASE@ =~= MATMUL_TO_SUM_BASE@.take(73) + MATMUL_TO_SUM_BASE@.skip(73));
}

proof fn lemma_iota_to_expression()
    ensures
        IOTA_TO_EXPRESSION@ == joined(seq!["\n                "@, "__global "@, "int"@, " *"@,
            "output"@, ","@, "\n                "@, "__global const int *dyn,"@,
            "\n                "@, "uint n"@]) + IOTA_TO_EXPRESSION@.skip(102),
{
    reveal_strlit("\n                __global int *output,\n                __global const int *dyn,\n                uint n_elements)\n            {\n                int idx = (int)get_global_id(0);\n                if ((uint)idx < n_elements) output[idx] = (int)(");
    reveal_strlit("\n                ");
    reveal_strlit("__global ");
    reveal_strlit("int");
    reveal_strlit(" *");
    reveal_strlit("output");
    reveal_strlit(",");
    reveal_strlit("__global const int *dyn,");
    reveal_strlit("uint n");
    lemma_join10("\n                "@, "__global "@, "int"@, " *"@, "output"@, ","@,
        "\n                "@, "__global const int *dyn,"@, "\n                "@, "uint n"@);
    assert(IOTA_TO_EXPRESSION@.take(102) =~= "\n                "@ + "__global "@ + "int"@ + " *"@
        + "output"@ + ","@ + "\n                "@ + "__global const int *dyn,"@
        + "\n                "@ + "uint n"@);
    assert(IOTA_TO_EXPRESSION@ =~= IOTA_TO_EXPRESSION@.take(102) + IOTA_TO_EXPRESSION@.skip(102));
}

proof fn lemma_gather_to_data_ty()
    ensures
        GATHER_TO_DATA_TY@ == joined(seq!["\n                "@, "__global const "@, "int"@,
            " *"@, "indexes"@, ","@, "\n                "@, "__global const "@]),
{
    reveal_strlit("\n                __global const int *indexes,\n                __global const ");
    reveal_strlit("\n                ");
    reveal_strlit("__global const ");
    reveal_strlit("int");
    reveal_strlit(" *");
    reveal_strlit("indexes");
    reveal_strlit(",");
    lemma_join8("\n                "@, "__global const "@, "int"@, " *"@, "indexes"@, ","@,
        "\n                "@, "__global const "@);
    assert(GATHER_TO_DATA_TY@ =~= "\n                "@ + "__global const "@ + "int"@ + " *"@
        + "indexes"@ + ","@ + "\n                "@ + "__global const "@);
}

proof fn lemma_gather_to_output_ty()
    ensures
        GATHER_TO_OUTPUT_TY@ == joined(seq![" *"@, "data"@, ","@, "\n                "@,
            "__global "@]),
{
    reveal_strlit(" *data,\n                __global ");
    reveal_strlit(" *");
    reveal_strlit("data");
    reveal_strlit(",");
    reveal_strlit("\n                ");
    reveal_strlit("__global ");
    lemma_join5(" *"@, "data"@, ","@, "\n                "@, "__global "@);
    assert(GATHER_TO_OUTPUT_TY@ =~= " *"@ + "data"@ + ","@ + "\n                "@ + "__global "@);
}

proof fn lemma_gather_to_index_index()
    ensures
        GATHER_TO_INDEX_INDEX@ == joined(seq![" *"@, "output"@, ","@, "\n                "@,
            "__global const int *dyn,"@, "\n                "@, "uint n"@])
            + GATHER_TO_INDEX_INDEX@.skip(73),
{
    reveal_strlit(" *output,\n                __global const int *dyn,\n                uint n_elements)\n            {\n                int idx = (int)get_global_id(0);\n                if ((uint)idx < n_elements) {\n                    int gathered_index = indexes[");
    reveal_strlit(" *");
    reveal_strlit("output");
    reveal_strlit(",");
    reveal_strlit("\n                ");
    reveal_strlit("__global const int *dyn,");
    reveal_strlit("uint n");
    lemma_join7(" *"@, "output"@, ","@, "\n                "@, "__global const int *dyn,"@,
        "\n                "@, "uint n"@);
    assert(GATHER_TO_INDEX_INDEX@.take(73) =~= " *"@ + "output"@ + ","@ + "\n                "@
        + "__global const int *dyn,"@ + "\n                "@ + "uint n"@);
    assert(GATHER_TO_INDEX_INDEX@ =~= GATHER_TO_INDEX_INDEX@.take(73)
        + GATHER_TO_INDEX_INDEX@.skip(73));
}

proof fn lemma_scatter_to_dest_ty()
    ensures
        SCATTER_TO_DEST_TY@ == joined(seq!["\n                "@, "__global const "@]),
{
    reveal_strlit("\n                __global const ");
    reveal_strlit("\n                ");
    reveal_strlit("__global const ");
    lemma_join2("\n                "@, "__global const "@);
    assert(SCATTER_TO_DEST_TY@ =~= "\n                "@ + "__global const "@);
}

proof fn lemma_scatter_to_output_ty()
    ensures
        SCATTER_TO_OUTPUT_TY@ == joined(seq![" *"@, "dest"@, ","@, "\n                "@,
            "__global "@]),
{
    reveal_strlit(" *dest,\n                __global ");
    reveal_strlit(" *");
    reveal_strlit("dest");
    reveal_strlit(",");
    reveal_strlit("\n                ");
    reveal_strlit("__global ");
    lemma_join5(" *"@, "dest"@, ","@, "\n                "@, "__global "@);
    assert(SCATTER_TO_OUTPUT_TY@ =~= " *"@ + "dest"@ + ","@ + "\n                "@ + "__global "@);
}

proof fn lemma_scatter_to_copy_output_index()
    ensures
        SCATTER_TO_COPY_OUTPUT_INDEX@ == joined(seq![" *"@, "output"@, ","@,
            "\n                "@, "__global const int *dyn,"@, "\n                "@, "uint n"@])
            + SCATTER_TO_COPY_OUTPUT_INDEX@.skip(73),
{
    reveal_strlit(" *output,\n                __global const int *dyn,\n                uint n_elements)\n            {\n                int idx = (int)get_global_id(0);\n                if ((uint)idx < n_elements) output[");
    reveal_strlit(" *");
    reveal_strlit("output");
    reveal_strlit(",");
    reveal_strlit("\n                ");
    reveal_strlit("__global const int *dyn,");
    reveal_strlit("uint n");
    lemma_join7(" *"@, "output"@, ","@, "\n                "@, "__global const int *dyn,"@,
        "\n                "@, "uint n"@);
    assert(SCATTER_TO_COPY_OUTPUT_INDEX@.take(73) =~= " *"@ + "output"@ + ","@
        + "\n                "@ + "__global const int *dyn,"@ + "\n                "@
        + "uint n"@);
    assert(SCATTER_TO_COPY_OUTPUT_INDEX@ =~= SCATTER_TO_COPY_OUTPUT_INDEX@.take(73)
        + SCATTER_TO_COPY_OUTPUT_INDEX@.skip(73));
}

proof fn lemma_scatter_to_src_ty()
    ensures
        SCATTER_TO_SRC_TY@ == joined(seq!["\n                "@, "__global const "@, "int"@,
            " *"@, "indexes"@, ","@, "\n                "@, "__global const "@]),
{
    reveal_strlit("\n                __global const int *indexes,\n                __global const ");
    reveal_strlit("\n                ");
    reveal_strlit("__global const ");
    reveal_strlit("int");
    reveal_strlit(" *");
    reveal_strlit("indexes");
    reveal_strlit(",");
    lemma_join8("\n                "@, "__global const "@, "int"@, " *"@, "indexes"@, ","@,
        "\n                "@, "__global const "@);
    assert(SCATTER_TO_SRC_TY@ =~= "\n                "@ + "__global const "@ + "int"@ + " *"@
        + "indexes"@ + ","@ + "\n                "@ + "__global const "@);
}

proof fn lemma_scatter_to_output_ty_2()
    ensures
        SCATTER_TO_OUTPUT_TY_2@ == joined(seq![" *"@, "src"@, ","@, "\n                "@,
            "__global "@]),
{
    reveal_strlit(" *src,\n                __global ");
    reveal_strlit(" *");
    reveal_strlit("src");
    reveal_strlit(",");
    reveal_strlit("\n                ");
    reveal_strlit("__global ");
    lemma_join5(" *"@, "src"@, ","@, "\n                "@, "__global "@);
    assert(SCATTER_TO_OUTPUT_TY_2@ =~= " *"@ + "src"@ + ","@ + "\n                "@
        + "__global "@);
}

proof fn lemma_scatter_to_index_index()
    ensures
        SCATTER_TO_INDEX_INDEX@ == joined(seq![" *"@, "output"@, ","@, "\n                "@,
            "__global const int *dyn,"@, "\n                "@, "uint n"@])
            + SCATTER_TO_INDEX_INDEX@.skip(73),
{
    reveal_strlit(" *output,\n                __global const int *dyn,\n                uint n_elements)\n            {\n                int idx = (int)get_global_id(0);\n                if ((uint)idx < n_elements) {\n                    int output_index = indexes[");
    reveal_strlit(" *");
    reveal_strlit("output");
    reveal_strlit(",");
    reveal_strlit("\n                ");
    reveal_strlit("__global const int *dyn,");
    reveal_strlit("uint n");
    lemma_join7(" *"@, "output"@, ","@, "\n                "@, "__global const int *dyn,"@,
        "\n                "@, "uint n"@);
    assert(SCATTER_TO_INDEX_INDEX@.take(73) =~= " *"@ + "output"@ + ","@ + "\n                "@
        + "__global const int *dyn,"@ + "\n                "@ + "uint n"@);
    assert(SCATTER_TO_INDEX_INDEX@ =~= SCATTER_TO_INDEX_INDEX@.take(73)
        + SCATTER_TO_INDEX_INDEX@.skip(73));
}

proof fn lemma_cast_to_input_ty()
    ensures
        CAST_TO_INPUT_TY@ == joined(seq!["\n                "@, "__global const "@]),
{
    reveal_strlit("\n                __global const ");
    reveal_strlit("\n                ");
    reveal_strlit("__global const ");
    lemma_join2("\n                "@, "__global const "@);
    assert(CAST_TO_INPUT_TY@ =~= "\n                "@ + "__global const "@);
}

proof fn lemma_cast_to_output_ty()
    ensures
        CAST_TO_OUTPUT_TY@ == joined(seq![" *"@, "input"@, ","@, "\n                "@,
            "__global "@]),
{
    reveal_strlit(" *input,\n                __global ");
    reveal_strlit(" *");
    reveal_strlit("input");
    reveal_strlit(",");
    reveal_strlit("\n                ");
    reveal_strlit("__global ");
    lemma_join5(" *"@, "input"@, ","@, "\n                "@, "__global "@);
    assert(CAST_TO_OUTPUT_TY@ =~= " *"@ + "input"@ + ","@ + "\n                "@ + "__global "@);
}

proof fn lemma_cast_to_value()
    ensures
        CAST_TO_VALUE@ == joined(seq![" *"@, "output"@, ","@, "\n                "@,
            "__global const int *dyn,"@, "\n                "@, "uint n"@])
            + CAST_TO_VALUE@.skip(73),
{
    reveal_strlit(" *output,\n                __global const int *dyn,\n                uint n_elements)\n            {\n                int idx = (int)get_global_id(0);\n                if ((uint)idx < n_elements) output[idx] = ");
    reveal_strlit(" *");
    reveal_strlit("output");
    reveal_strlit(",");
    reveal_strlit("\n                ");
    reveal_strlit("__global const int *dyn,");
    reveal_strlit("uint n");
    lemma_join7(" *"@, "output"@, ","@, "\n                "@, "__global const int *dyn,"@,
        "\n                "@, "uint n"@);
    assert(CAST_TO_VALUE@.take(73) =~= " *"@ + "output"@ + ","@ + "\n                "@
        + "__global const int *dyn,"@ + "\n                "@ + "uint n"@);
    assert(CAST_TO_VALUE@ =~= CAST_TO_VALUE@.take(73) + CAST_TO_VALUE@.skip(73));
}

proof fn lemma_unary_heading(parts: Seq<Seq<char>>, input_ty: Seq<char>, output_ty: Seq<char>)
    requires
        parts.len() >= 10,
        parts.subrange(2, 10) == seq![
            KERNEL_KEYWORD@,
            UNARY_KERNEL@,
            PARAMETERS_OPEN@,
            UNARY_TO_INPUT_TY@,
            input_ty,
            UNARY_TO_OUTPUT_TY@,
            output_ty,
            UNARY_TO_OUTPUT_INDEX@,
        ],
    ensures
        contains_text(
            joined(parts),
            heading(
                UNARY_KERNEL@,
                "\n                        "@,
                seq![
                    declaration(true, input_ty, "input"@),
                    declaration(false, output_ty, "output"@),
                ],
            ),
        ),
{
    let gap = "\n                        "@;
    let s0 = seq![KERNEL_KEYWORD@, UNARY_KERNEL@, PARAMETERS_OPEN@];
    lemma_unary_to_input_ty();
    let s1 = s0.push(UNARY_TO_INPUT_TY@);
    let f1 = s0 + seq!["\n                        "@, "__global const "@];
    lemma_joined_push(s0, UNARY_TO_INPUT_TY@);
    lemma_joined_add(s0, seq!["\n                        "@, "__global const "@]);
    lemma_joined_push(s1, input_ty);
    let s2 = s1.push(input_ty);
    let f2 = f1.push(input_ty);
    lemma_joined_push(f1, input_ty);
    lemma_unary_to_output_ty();
    let s3 = s2.push(UNARY_TO_OUTPUT_TY@);
    let f3 = f2 + seq![" *"@, "input"@, ","@, "\n                        "@, "__global "@];
    lemma_joined_push(s2, UNARY_TO_OUTPUT_TY@);
    lemma_joined_add(f2, seq![" *"@, "input"@, ","@, "\n                        "@, "__global "@]);
    lemma_joined_push(s3, output_ty);
    let s4 = s3.push(output_ty);
    let f4 = f3.push(output_ty);
    lemma_joined_push(f3, output_ty);
    lemma_unary_to_output_index();
    let s5 = s4.push(UNARY_TO_OUTPUT_INDEX@);
    let f5 = f4 + seq![" *"@, "output"@, ","@, "\n                        "@,
        "__global const int *dyn,"@, "\n                        "@, "uint n"@];
    lemma_joined_push(s4, UNARY_TO_OUTPUT_INDEX@);
    lemma_joined_add(f4, seq![" *"@, "output"@, ","@, "\n                        "@,
        "__global const int *dyn,"@, "\n                        "@, "uint n"@]);
    assert(joined(s5) =~= joined(f5) + UNARY_TO_OUTPUT_INDEX@.skip(89));
    let decls = seq![declaration(true, input_ty, "input"@), declaration(false, output_ty,
        "output"@)];
    lemma_declared_tokens2(gap, declaration(true, input_ty, "input"@), declaration(false,
        output_ty, "output"@));
    assert(f5 =~= heading_tokens(UNARY_KERNEL@, gap, decls));
    assert(parts.subrange(2, 10) =~= s5);
    lemma_occurs(parts, 2, 10, heading(UNARY_KERNEL@, gap, decls), UNARY_TO_OUTPUT_INDEX@.skip(89));
}

proof fn lemma_binary_heading(
    parts: Seq<Seq<char>>,
    a_ty: Seq<char>,
    b_ty: Seq<char>,
    output_ty: Seq<char>,
)
    requires
        parts.len() >= 12,
        parts.subrange(2, 12) == seq![
            KERNEL_KEYWORD@,
            BINARY_KERNEL@,
            PARAMETERS_OPEN@,
            BINARY_TO_A_TY@,
            a_ty,
            BINARY_TO_B_TY@,
            b_ty,
            BINARY_TO_OUTPUT_TY@,
            output_ty,
            BINARY_TO_OUTPUT_INDEX@,
        ],
    ensures
        contains_text(
            joined(parts),
            heading(
                BINARY_KERNEL@,
                "\n            "@,
                seq![
                    declaration(true, a_ty, "a"@),
                    declaration(true, b_ty, "b"@),
                    declaration(false, output_ty, "output"@),
                ],
            ),
        ),
{
    let gap = "\n            "@;
    let s0 = seq![KERNEL_KEYWORD@, BINARY_KERNEL@, PARAMETERS_OPEN@];
    lemma_binary_to_a_ty();
    let s1 = s0.push(BINARY_TO_A_TY@);
    let f1 = s0 + seq!["\n            "@, "__global const "@];
    lemma_joined_push(s0, BINARY_TO_A_TY@);
    lemma_joined_add(s0, seq!["\n            "@, "__global const "@]);
    lemma_joined_push(s1, a_ty);
    let s2 = s1.push(a_ty);
    let f2 = f1.push(a_ty);
    lemma_joined_push(f1, a_ty);
    lemma_binary_to_b_ty();
    let s3 = s2.push(BINARY_TO_B_TY@);
    let f3 = f2 + seq![" *"@, "a"@, ","@, "\n            "@, "__global const "@];
    lemma_joined_push(s2, BINARY_TO_B_TY@);
    lemma_joined_add(f2, seq![" *"@, "a"@, ","@, "\n            "@, "__global const "@]);
    lemma_joined_push(s3, b_ty);
    let s4 = s3.push(b_ty);
    let f4 = f3.push(b_ty);
    lemma_joined_push(f3, b_ty);
    lemma_binary_to_output_ty();
    let s5 = s4.push(BINARY_TO_OUTPUT_TY@);
    let f5 = f4 + seq![" *"@, "b"@, ","@, "\n            "@, "__global "@];
    lemma_joined_push(s4, BINARY_TO_OUTPUT_TY@);
    lemma_joined_add(f4, seq![" *"@, "b"@, ","@, "\n            "@, "__global "@]);
    lemma_joined_push(s5, output_ty);
    let s6 = s5.push(output_ty);
    let f6 = f5.push(output_ty);
    lemma_joined_push(f5, output_ty);
    lemma_binary_to_output_index();
    let s7 = s6.push(BINARY_TO_OUTPUT_INDEX@);
    let f7 = f6 + seq![" *"@, "output"@, ","@, "\n            "@, "__global const int *dyn,"@,
        "\n            "@, "uint n"@];
    lemma_joined_push(s6, BINARY_TO_OUTPUT_INDEX@);
    lemma_joined_add(f6, seq![" *"@, "output"@, ","@, "\n            "@,
        "__global const int *dyn,"@, "\n            "@, "uint n"@]);
    assert(joined(s7) =~= joined(f7) + BINARY_TO_OUTPUT_INDEX@.skip(65));
    let decls = seq![declaration(true, a_ty, "a"@), declaration(true, b_ty, "b"@),
        declaration(false, output_ty, "output"@)];
    lemma_declared_tokens3(gap, declaration(true, a_ty, "a"@), declaration(true, b_ty, "b"@),
        declaration(false, output_ty, "output"@));
    assert(f7 =~= heading_tokens(BINARY_KERNEL@, gap, decls));
    assert(parts.subrange(2, 12) =~= s7);
    lemma_occurs(parts, 2, 12, heading(BINARY_KERNEL@, gap, decls),
        BINARY_TO_OUTPUT_INDEX@.skip(65));
}

proof fn lemma_less_than_heading(
    parts: Seq<Seq<char>>,
    a_ty: Seq<char>,
    b_ty: Seq<char>,
    output_ty: Seq<char>,
)
    requires
        parts.len() >= 12,
        parts.subrange(2, 12) == seq![
            KERNEL_KEYWORD@,
            LESS_THAN_KERNEL@,
            PARAMETERS_OPEN@,
            LESS_THAN_TO_A_TY@,
            a_ty,
            LESS_THAN_TO_B_TY@,
            b_ty,
            LESS_THAN_TO_OUTPUT_TY@,
            output_ty,
            LESS_THAN_TO_OUTPUT_INDEX@,
        ],
    ensures
        contains_text(
            joined(parts),
            heading(
                LESS_THAN_KERNEL@,
                "\n                "@,
                seq![
                    declaration(true, a_ty, "a"@),
                    declaration(true, b_ty, "b"@),
                    declaration(false, output_ty, "output"@),
                ],
            ),
        ),
{
    let gap = "\n                "@;
    let s0 = seq![KERNEL_KEYWORD@, LESS_THAN_KERNEL@, PARAMETERS_OPEN@];
    lemma_less_than_to_a_ty();
    let s1 = s0.push(LESS_THAN_TO_A_TY@);
    let f1 = s0 + seq!["\n                "@, "__global const "@];
    lemma_joined_push(s0, LESS_THAN_TO_A_TY@);
    lemma_joined_add(s0, seq!["\n                "@, "__global const "@]);
    lemma_joined_push(s1, a_ty);
    let s2 = s1.push(a_ty);
    let f2 = f1.push(a_ty);
    lemma_joined_push(f1, a_ty);
    lemma_less_than_to_b_ty();
    let s3 = s2.push(LESS_THAN_TO_B_TY@);
    let f3 = f2 + seq![" *"@, "a"@, ","@, "\n                "@, "__global const "@];
    lemma_joined_push(s2, LESS_THAN_TO_B_TY@);
    lemma_joined_add(f2, seq![" *"@, "a"@, ","@, "\n                "@, "__global const "@]);
    lemma_joined_push(s3, b_ty);
    let s4 = s3.push(b_ty);
    let f4 = f3.push(b_ty);
    lemma_joined_push(f3, b_ty);
    lemma_less_than_to_output_ty();
    let s5 = s4.push(LESS_THAN_TO_OUTPUT_TY@);
    let f5 = f4 + seq![" *"@, "b"@, ","@, "\n                "@, "__global "@];
    lemma_joined_push(s4, LESS_THAN_TO_OUTPUT_TY@);
    lemma_joined_add(f4, seq![" *"@, "b"@, ","@, "\n                "@, "__global "@]);
    lemma_joined_push(s5, output_ty);
    let s6 = s5.push(output_ty);
    let f6 = f5.push(output_ty);
    lemma_joined_push(f5, output_ty);
    lemma_less_than_to_output_index();
    let s7 = s6.push(LESS_THAN_TO_OUTPUT_INDEX@);
    let f7 = f6 + seq![" *"@, "output"@, ","@, "\n                "@, "__global const int *dyn,"@,
        "\n                "@, "uint n"@];
    lemma_joined_push(s6, LESS_THAN_TO_OUTPUT_INDEX@);
    lemma_joined_add(f6, seq![" *"@, "output"@, ","@, "\n                "@,
        "__global const int *dyn,"@, "\n                "@, "uint n"@]);
    assert(joined(s7) =~= joined(f7) + LESS_THAN_TO_OUTPUT_INDEX@.skip(73));
    let decls = seq![declaration(true, a_ty, "a"@), declaration(true, b_ty, "b"@),
        declaration(false, output_ty, "output"@)];
    lemma_declared_tokens3(gap, declaration(true, a_ty, "a"@), declaration(true, b_ty, "b"@),
        declaration(false, output_ty, "output"@));
    assert(f7 =~= heading_tokens(LESS_THAN_KERNEL@, gap, decls));
    assert(parts.subrange(2, 12) =~= s7);
    lemma_occurs(parts, 2, 12, heading(LESS_THAN_KERNEL@, gap, decls),
        LESS_THAN_TO_OUTPUT_INDEX@.skip(73));
}

proof fn lemma_sum_heading(parts: Seq<Seq<char>>, input_ty: Seq<char>, output_ty: Seq<char>)
    requires
        parts.len() >= 10,
        parts.subrange(2, 10) == seq![
            KERNEL_KEYWORD@,
            SUM_KERNEL@,
            PARAMETERS_OPEN@,
            SUM_TO_INPUT_TY@,
            input_ty,
            SUM_TO_OUTPUT_TY@,
            output_ty,
            SUM_TO_INPUT_START@,
        ],
    ensures
        contains_text(
            joined(parts),
            heading(
                SUM_KERNEL@,
                "\n                "@,
                seq![
                    declaration(true, input_ty, "input"@),
                    declaration(false, output_ty, "output"@),
                ],
            ),
        ),
{
    let gap = "\n                "@;
    let s0 = seq![KERNEL_KEYWORD@, SUM_KERNEL@, PARAMETERS_OPEN@];
    lemma_sum_to_input_ty();
    let s1 = s0.push(SUM_TO_INPUT_TY@);
    let f1 = s0 + seq!["\n                "@, "__global const "@];
    lemma_joined_push(s0, SUM_TO_INPUT_TY@);
    lemma_joined_add(s0, seq!["\n                "@, "__global const "@]);
    lemma_joined_push(s1, input_ty);
    let s2 = s1.push(input_ty);
    let f2 = f1.push(input_ty);
    lemma_joined_push(f1, input_ty);
    lemma_sum_to_output_ty();
    let s3 = s2.push(SUM_TO_OUTPUT_TY@);
    let f3 = f2 + seq![" *"@, "input"@, ","@, "\n                "@, "__global "@];
    lemma_joined_push(s2, SUM_TO_OUTPUT_TY@);
    lemma_joined_add(f2, seq![" *"@, "input"@, ","@, "\n                "@, "__global "@]);
    lemma_joined_push(s3, output_ty);
    let s4 = s3.push(output_ty);
    let f4 = f3.push(output_ty);
    lemma_joined_push(f3, output_ty);
    lemma_sum_to_input_start();
    let s5 = s4.push(SUM_TO_INPUT_START@);
    let f5 = f4 + seq![" *"@, "output"@, ","@, "\n                "@, "__global const int *dyn,"@,
        "\n                "@, "uint n"@];
    lemma_joined_push(s4, SUM_TO_INPUT_START@);
    lemma_joined_add(f4, seq![" *"@, "output"@, ","@, "\n                "@,
        "__global const int *dyn,"@, "\n                "@, "uint n"@]);
    assert(joined(s5) =~= joined(f5) + SUM_TO_INPUT_START@.skip(73));
    let decls = seq![declaration(true, input_ty, "input"@), declaration(false, output_ty,
        "output"@)];
    lemma_declared_tokens2(gap, declaration(true, input_ty, "input"@), declaration(false,
        output_ty, "output"@));
    assert(f5 =~= heading_tokens(SUM_KERNEL@, gap, decls));
    assert(parts.subrange(2, 10) =~= s5);
    lemma_occurs(parts, 2, 10, heading(SUM_KERNEL@, gap, decls), SUM_TO_INPUT_START@.skip(73));
}

proof fn lemma_max_heading(parts: Seq<Seq<char>>, input_ty: Seq<char>, output_ty: Seq<char>)
    requires
        parts.len() >= 10,
        parts.subrange(2, 10) == seq![
            KERNEL_KEYWORD@,
            MAX_KERNEL@,
            PARAMETERS_OPEN@,
            MAX_TO_INPUT_TY@,
            input_ty,
            MAX_TO_OUTPUT_TY@,
            output_ty,
            MAX_TO_INPUT_START@,
        ],
    ensures
        contains_text(
            joined(parts),
            heading(
                MAX_KERNEL@,
                "\n                "@,
                seq![
                    declaration(true, input_ty, "input"@),
                    declaration(false, output_ty, "output"@),
                ],
            ),
        ),
{
    let gap = "\n                "@;
    let s0 = seq![KERNEL_KEYWORD@, MAX_KERNEL@, PARAMETERS_OPEN@];
    lemma_max_to_input_ty();
    let s1 = s0.push(MAX_TO_INPUT_TY@);
    let f1 = s0 + seq!["\n                "@, "__global const "@];
    lemma_joined_push(s0, MAX_TO_INPUT_TY@);
    lemma_joined_add(s0, seq!["\n                "@, "__global const "@]);
    lemma_joined_push(s1, input_ty);
    let s2 = s1.push(input_ty);
    let f2 = f1.push(input_ty);
    lemma_joined_push(f1, input_ty);
    lemma_max_to_output_ty();
    let s3 = s2.push(MAX_TO_OUTPUT_TY@);
    let f3 = f2 + seq![" *"@, "input"@, ","@, "\n                "@, "__global "@];
    lemma_joined_push(s2, MAX_TO_OUTPUT_TY@);
    lemma_joined_add(f2, seq![" *"@, "input"@, ","@, "\n                "@, "__global "@]);
    lemma_joined_push(s3, output_ty);
    let s4 = s3.push(output_ty);
    let f4 = f3.push(output_ty);
    lemma_joined_push(f3, output_ty);
    lemma_max_to_input_start();
    let s5 = s4.push(MAX_TO_INPUT_START@);
    let f5 = f4 + seq![" *"@, "output"@, ","@, "\n                "@, "__global const int *dyn,"@,
        "\n                "@, "uint n"@];
    lemma_joined_push(s4, MAX_TO_INPUT_START@);
    lemma_joined_add(f4, seq![" *"@, "output"@, ","@, "\n                "@,
        "__global const int *dyn,"@, "\n                "@, "uint n"@]);
    assert(joined(s5) =~= joined(f5) + MAX_TO_INPUT_START@.skip(73));
    let decls = seq![declaration(true, input_ty, "input"@), declaration(false, output_ty,
        "output"@)];
    lemma_declared_tokens2(gap, declaration(true, input_ty, "input"@), declaration(false,
        output_ty, "output"@));
    assert(f5 =~= heading_tokens(MAX_KERNEL@, gap, decls));
    assert(parts.subrange(2, 10) =~= s5);
    lemma_occurs(parts, 2, 10, heading(MAX_KERNEL@, gap, decls), MAX_TO_INPUT_START@.skip(73));
}

proof fn lemma_matmul_heading(
    parts: Seq<Seq<char>>,
    lhs_ty: Seq<char>,
    rhs_ty: Seq<char>,
    output_ty: Seq<char>,
)
    requires
        parts.len() >= 12,
        parts.subrange(2, 12) == seq![
            KERNEL_KEYWORD@,
            MATMUL_KERNEL@,
            PARAMETERS_OPEN@,
            MATMUL_TO_LHS_TY@,
            lhs_ty,
            MATMUL_TO_RHS_TY@,
            rhs_ty,
            MATMUL_TO_OUTPUT_TY@,
            output_ty,
            MATMUL_TO_SUM_BASE@,
        ],
    ensures
        contains_text(
            joined(parts),
            heading(
                MATMUL_KERNEL@,
                "\n                "@,
                seq![
                    declaration(true, lhs_ty, "lhs"@),
                    declaration(true, rhs_ty, "rhs"@),
                    declaration(false, output_ty, "output"@),
                ],
            ),
        ),
{
    let gap = "\n                "@;
    let s0 = seq![KERNEL_KEYWORD@, MATMUL_KERNEL@, PARAMETERS_OPEN@];
    lemma_matmul_to_lhs_ty();
    let s1 = s0.push(MATMUL_TO_LHS_TY@);
    let f1 = s0 + seq!["\n                "@, "__global const "@];
    lemma_joined_push(s0, MATMUL_TO_LHS_TY@);
    lemma_joined_add(s0, seq!["\n                "@, "__global const "@]);
    lemma_joined_push(s1, lhs_ty);
    let s2 = s1.push(lhs_ty);
    let f2 = f1.push(lhs_ty);
    lemma_joined_push(f1, lhs_ty);
    lemma_matmul_to_rhs_ty();
    let s3 = s2.push(MATMUL_TO_RHS_TY@);
    let f3 = f2 + seq![" *"@, "lhs"@, ","@, "\n                "@, "__global const "@];
    lemma_joined_push(s2, MATMUL_TO_RHS_TY@);
    lemma_joined_add(f2, seq![" *"@, "lhs"@, ","@, "\n                "@, "__global const "@]);
    lemma_joined_push(s3, rhs_ty);
    let s4 = s3.push(rhs_ty);
    let f4 = f3.push(rhs_ty);
    lemma_joined_push(f3, rhs_ty);
    lemma_matmul_to_output_ty();
    let s5 = s4.push(MATMUL_TO_OUTPUT_TY@);
    let f5 = f4 + seq![" *"@, "rhs"@, ","@, "\n                "@, "__global "@];
    lemma_joined_push(s4, MATMUL_TO_OUTPUT_TY@);
    lemma_joined_add(f4, seq![" *"@, "rhs"@, ","@, "\n                "@, "__global "@]);
    lemma_joined_push(s5, output_ty);
    let s6 = s5.push(output_ty);
    let f6 = f5.push(output_ty);
    lemma_joined_push(f5, output_ty);
    lemma_matmul_to_sum_base();
    let s7 = s6.push(MATMUL_TO_SUM_BASE@);
    let f7 = f6 + seq![" *"@, "output"@, ","@, "\n                "@, "__global const int *dyn,"@,
        "\n                "@, "uint n"@];
    lemma_joined_push(s6, MATMUL_TO_SUM_BASE@);
    lemma_joined_add(f6, seq![" *"@, "output"@, ","@, "\n                "@,
        "__global const int *dyn,"@, "\n                "@, "uint n"@]);
    assert(joined(s7) =~= joined(f7) + MATMUL_TO_SUM_BASE@.skip(73));
    let decls = seq![declaration(true, lhs_ty, "lhs"@), declaration(true, rhs_ty, "rhs"@),
        declaration(false, output_ty, "output"@)];
    lemma_declared_tokens3(gap, declaration(true, lhs_ty, "lhs"@), declaration(true, rhs_ty,
        "rhs"@), declaration(false, output_ty, "output"@));
    assert(f7 =~= heading_tokens(MATMUL_KERNEL@, gap, decls));
    assert(parts.subrange(2, 12) =~= s7);
    lemma_occurs(parts, 2, 12, heading(MATMUL_KERNEL@, gap, decls), MATMUL_TO_SUM_BASE@.skip(73));
}

proof fn lemma_iota_heading(parts: Seq<Seq<char>>)
    requires
        parts.len() >= 5,
        parts.subrange(1, 5) == seq![
            KERNEL_KEYWORD@,
            IOTA_KERNEL@,
            PARAMETERS_OPEN@,
            IOTA_TO_EXPRESSION@,
        ],
    ensures
        contains_text(
            joined(parts),
            heading(
                IOTA_KERNEL@,
                "\n                "@,
                seq![
                    declaration(false, "int"@, "output"@),
                ],
            ),
        ),
{
    let gap = "\n                "@;
    let s0 = seq![KERNEL_KEYWORD@, IOTA_KERNEL@, PARAMETERS_OPEN@];
    lemma_iota_to_expression();
    let s1 = s0.push(IOTA_TO_EXPRESSION@);
    let f1 = s0 + seq!["\n                "@, "__global "@, "int"@, " *"@, "output"@, ","@,
        "\n                "@, "__global const int *dyn,"@, "\n                "@, "uint n"@];
    lemma_joined_push(s0, IOTA_TO_EXPRESSION@);
    lemma_joined_add(s0, seq!["\n                "@, "__global "@, "int"@, " *"@, "output"@, ","@,
        "\n                "@, "__global const int *dyn,"@, "\n                "@, "uint n"@]);
    assert(joined(s1) =~= joined(f1) + IOTA_TO_EXPRESSION@.skip(102));
    let decls = seq![declaration(false, "int"@, "output"@)];
    lemma_declared_tokens1(gap, declaration(false, "int"@, "output"@));
    assert(f1 =~= heading_tokens(IOTA_KERNEL@, gap, decls));
    assert(parts.subrange(1, 5) =~= s1);
    lemma_occurs(parts, 1, 5, heading(IOTA_KERNEL@, gap, decls), IOTA_TO_EXPRESSION@.skip(102));
}

proof fn lemma_gather_heading(parts: Seq<Seq<char>>, data_ty: Seq<char>, output_ty: Seq<char>)
    requires
        parts.len() >= 10,
        parts.subrange(2, 10) == seq![
            KERNEL_KEYWORD@,
            GATHER_KERNEL@,
            PARAMETERS_OPEN@,
            GATHER_TO_DATA_TY@,
            data_ty,
            GATHER_TO_OUTPUT_TY@,
            output_ty,
            GATHER_TO_INDEX_INDEX@,
        ],
    ensures
        contains_text(
            joined(parts),
            heading(
                GATHER_KERNEL@,
                "\n                "@,
                seq![
                    declaration(true, "int"@, "indexes"@),
                    declaration(true, data_ty, "data"@),
                    declaration(false, output_ty, "output"@),
                ],
            ),
        ),
{
    let gap = "\n                "@;
    let s0 = seq![KERNEL_KEYWORD@, GATHER_KERNEL@, PARAMETERS_OPEN@];
    lemma_gather_to_data_ty();
    let s1 = s0.push(GATHER_TO_DATA_TY@);
    let f1 = s0 + seq!["\n                "@, "__global const "@, "int"@, " *"@, "indexes"@, ","@,
        "\n                "@, "__global const "@];
    lemma_joined_push(s0, GATHER_TO_DATA_TY@);
    lemma_joined_add(s0, seq!["\n                "@, "__global const "@, "int"@, " *"@,
        "indexes"@, ","@, "\n                "@, "__global const "@]);
    lemma_joined_push(s1, data_ty);
    let s2 = s1.push(data_ty);
    let f2 = f1.push(data_ty);
    lemma_joined_push(f1, data_ty);
    lemma_gather_to_output_ty();
    let s3 = s2.push(GATHER_TO_OUTPUT_TY@);
    let f3 = f2 + seq![" *"@, "data"@, ","@, "\n                "@, "__global "@];
    lemma_joined_push(s2, GATHER_TO_OUTPUT_TY@);
    lemma_joined_add(f2, seq![" *"@, "data"@, ","@, "\n                "@, "__global "@]);
    lemma_joined_push(s3, output_ty);
    let s4 = s3.push(output_ty);
    let f4 = f3.push(output_ty);
    lemma_joined_push(f3, output_ty);
    lemma_gather_to_index_index();
    let s5 = s4.push(GATHER_TO_INDEX_INDEX@);
    let f5 = f4 + seq![" *"@, "output"@, ","@, "\n                "@, "__global const int *dyn,"@,
        "\n                "@, "uint n"@];
    lemma_joined_push(s4, GATHER_TO_INDEX_INDEX@);
    lemma_joined_add(f4, seq![" *"@, "output"@, ","@, "\n                "@,
        "__global const int *dyn,"@, "\n                "@, "uint n"@]);
    assert(joined(s5) =~= joined(f5) + GATHER_TO_INDEX_INDEX@.skip(73));
    let decls = seq![declaration(true, "int"@, "indexes"@), declaration(true, data_ty, "data"@),
        declaration(false, output_ty, "output"@)];
    lemma_declared_tokens3(gap, declaration(true, "int"@, "indexes"@), declaration(true, data_ty,
        "data"@), declaration(false, output_ty, "output"@));
    assert(f5 =~= heading_tokens(GATHER_KERNEL@, gap, decls));
    assert(parts.subrange(2, 10) =~= s5);
    lemma_occurs(parts, 2, 10, heading(GATHER_KERNEL@, gap, decls),
        GATHER_TO_INDEX_INDEX@.skip(73));
}

proof fn lemma_scatter_heading_copy(parts: Seq<Seq<char>>, dest_ty: Seq<char>, output_ty: Seq<char>)
    requires
        parts.len() >= 10,
        parts.subrange(2, 10) == seq![
            KERNEL_KEYWORD@,
            SCATTER_COPY_KERNEL@,
            PARAMETERS_OPEN@,
            SCATTER_TO_DEST_TY@,
            dest_ty,
            SCATTER_TO_OUTPUT_TY@,
            output_ty,
            SCATTER_TO_COPY_OUTPUT_INDEX@,
        ],
    ensures
        contains_text(
            joined(parts),
            heading(
                SCATTER_COPY_KERNEL@,
                "\n                "@,
                seq![
                    declaration(true, dest_ty, "dest"@),
                    declaration(false, output_ty, "output"@),
                ],
            ),
        ),
{
    let gap = "\n                "@;
    let s0 = seq![KERNEL_KEYWORD@, SCATTER_COPY_KERNEL@, PARAMETERS_OPEN@];
    lemma_scatter_to_dest_ty();
    let s1 = s0.push(SCATTER_TO_DEST_TY@);
    let f1 = s0 + seq!["\n                "@, "__global const "@];
    lemma_joined_push(s0, SCATTER_TO_DEST_TY@);
    lemma_joined_add(s0, seq!["\n                "@, "__global const "@]);
    lemma_joined_push(s1, dest_ty);
    let s2 = s1.push(dest_ty);
    let f2 = f1.push(dest_ty);
    lemma_joined_push(f1, dest_ty);
    lemma_scatter_to_output_ty();
    let s3 = s2.push(SCATTER_TO_OUTPUT_TY@);
    let f3 = f2 + seq![" *"@, "dest"@, ","@, "\n                "@, "__global "@];
    lemma_joined_push(s2, SCATTER_TO_OUTPUT_TY@);
    lemma_joined_add(f2, seq![" *"@, "dest"@, ","@, "\n                "@, "__global "@]);
    lemma_joined_push(s3, output_ty);
    let s4 = s3.push(output_ty);
    let f4 = f3.push(output_ty);
    lemma_joined_push(f3, output_ty);
    lemma_scatter_to_copy_output_index();
    let s5 = s4.push(SCATTER_TO_COPY_OUTPUT_INDEX@);
    let f5 = f4 + seq![" *"@, "output"@, ","@, "\n                "@, "__global const int *dyn,"@,
        "\n                "@, "uint n"@];
    lemma_joined_push(s4, SCATTER_TO_COPY_OUTPUT_INDEX@);
    lemma_joined_add(f4, seq![" *"@, "output"@, ","@, "\n                "@,
        "__global const int *dyn,"@, "\n                "@, "uint n"@]);
    assert(joined(s5) =~= joined(f5) + SCATTER_TO_COPY_OUTPUT_INDEX@.skip(73));
    let decls = seq![declaration(true, dest_ty, "dest"@), declaration(false, output_ty, "output"@)];
    lemma_declared_tokens2(gap, declaration(true, dest_ty, "dest"@), declaration(false, output_ty,
        "output"@));
    assert(f5 =~= heading_tokens(SCATTER_COPY_KERNEL@, gap, decls));
    assert(parts.subrange(2, 10) =~= s5);
    lemma_occurs(parts, 2, 10, heading(SCATTER_COPY_KERNEL@, gap, decls),
        SCATTER_TO_COPY_OUTPUT_INDEX@.skip(73));
}

proof fn lemma_scatter_heading_write(parts: Seq<Seq<char>>, src_ty: Seq<char>, output_ty: Seq<char>)
    requires
        parts.len() >= 22,
        parts.subrange(14, 22) == seq![
            KERNEL_KEYWORD@,
            SCATTER_WRITE_KERNEL@,
            PARAMETERS_OPEN@,
            SCATTER_TO_SRC_TY@,
            src_ty,
            SCATTER_TO_OUTPUT_TY_2@,
            output_ty,
            SCATTER_TO_INDEX_INDEX@,
        ],
    ensures
        contains_text(
            joined(parts),
            heading(
                SCATTER_WRITE_KERNEL@,
                "\n                "@,
                seq![
                    declaration(true, "int"@, "indexes"@),
                    declaration(true, src_ty, "src"@),
                    declaration(false, output_ty, "output"@),
                ],
            ),
        ),
{
    let gap = "\n                "@;
    let s0 = seq![KERNEL_KEYWORD@, SCATTER_WRITE_KERNEL@, PARAMETERS_OPEN@];
    lemma_scatter_to_src_ty();
    let s1 = s0.push(SCATTER_TO_SRC_TY@);
    let f1 = s0 + seq!["\n                "@, "__global const "@, "int"@, " *"@, "indexes"@, ","@,
        "\n                "@, "__global const "@];
    lemma_joined_push(s0, SCATTER_TO_SRC_TY@);
    lemma_joined_add(s0, seq!["\n                "@, "__global const "@, "int"@, " *"@,
        "indexes"@, ","@, "\n                "@, "__global const "@]);
    lemma_joined_push(s1, src_ty);
    let s2 = s1.push(src_ty);
    let f2 = f1.push(src_ty);
    lemma_joined_push(f1, src_ty);
    lemma_scatter_to_output_ty_2();
    let s3 = s2.push(SCATTER_TO_OUTPUT_TY_2@);
    let f3 = f2 + seq![" *"@, "src"@, ","@, "\n                "@, "__global "@];
    lemma_joined_push(s2, SCATTER_TO_OUTPUT_TY_2@);
    lemma_joined_add(f2, seq![" *"@, "src"@, ","@, "\n                "@, "__global "@]);
    lemma_joined_push(s3, output_ty);
    let s4 = s3.push(output_ty);
    let f4 = f3.push(output_ty);
    lemma_joined_push(f3, output_ty);
    lemma_scatter_to_index_index();
    let s5 = s4.push(SCATTER_TO_INDEX_INDEX@);
    let f5 = f4 + seq![" *"@, "output"@, ","@, "\n                "@, "__global const int *dyn,"@,
        "\n                "@, "uint n"@];
    lemma_joined_push(s4, SCATTER_TO_INDEX_INDEX@);
    lemma_joined_add(f4, seq![" *"@, "output"@, ","@, "\n                "@,
        "__global const int *dyn,"@, "\n                "@, "uint n"@]);
    assert(joined(s5) =~= joined(f5) + SCATTER_TO_INDEX_INDEX@.skip(73));
    let decls = seq![declaration(true, "int"@, "indexes"@), declaration(true, src_ty, "src"@),
        declaration(false, output_ty, "output"@)];
    lemma_declared_tokens3(gap, declaration(true, "int"@, "indexes"@), declaration(true, src_ty,
        "src"@), declaration(false, output_ty, "output"@));
    assert(f5 =~= heading_tokens(SCATTER_WRITE_KERNEL@, gap, decls));
    assert(parts.subrange(14, 22) =~= s5);
    lemma_occurs(parts, 14, 22, heading(SCATTER_WRITE_KERNEL@, gap, decls),
        SCATTER_TO_INDEX_INDEX@.skip(73));
}

proof fn lemma_cast_heading(parts: Seq<Seq<char>>, input_ty: Seq<char>, output_ty: Seq<char>)
    requires
        parts.len() >= 10,
        parts.subrange(2, 10) == seq![
            KERNEL_KEYWORD@,
            CAST_KERNEL@,
            PARAMETERS_OPEN@,
            CAST_TO_INPUT_TY@,
            input_ty,
            CAST_TO_OUTPUT_TY@,
            output_ty,
            CAST_TO_VALUE@,
        ],
    ensures
        contains_text(
            joined(parts),
            heading(
                CAST_KERNEL@,
                "\n                "@,
                seq![
                    declaration(true, input_ty, "input"@),
                    declaration(false, output_ty, "output"@),
                ],
            ),
        ),
{
    let gap = "\n                "@;
    let s0 = seq![KERNEL_KEYWORD@, CAST_KERNEL@, PARAMETERS_OPEN@];
    lemma_cast_to_input_ty();
    let s1 = s0.push(CAST_TO_INPUT_TY@);
    let f1 = s0 + seq!["\n                "@, "__global const "@];
    lemma_joined_push(s0, CAST_TO_INPUT_TY@);
    lemma_joined_add(s0, seq!["\n                "@, "__global const "@]);
    lemma_joined_push(s1, input_ty);
    let s2 = s1.push(input_ty);
    let f2 = f1.push(input_ty);
    lemma_joined_push(f1, input_ty);
    lemma_cast_to_output_ty();
    let s3 = s2.push(CAST_TO_OUTPUT_TY@);
    let f3 = f2 + seq![" *"@, "input"@, ","@, "\n                "@, "__global "@];
    lemma_joined_push(s2, CAST_TO_OUTPUT_TY@);
    lemma_joined_add(f2, seq![" *"@, "input"@, ","@, "\n                "@, "__global "@]);
    lemma_joined_push(s3, output_ty);
    let s4 = s3.push(output_ty);
    let f4 = f3.push(output_ty);
    lemma_joined_push(f3, output_ty);
    lemma_cast_to_value();
    let s5 = s4.push(CAST_TO_VALUE@);
    let f5 = f4 + seq![" *"@, "output"@, ","@, "\n                "@, "__global const int *dyn,"@,
        "\n                "@, "uint n"@];
    lemma_joined_push(s4, CAST_TO_VALUE@);
    lemma_joined_add(f4, seq![" *"@, "output"@, ","@, "\n                "@,
        "__global const int *dyn,"@, "\n                "@, "uint n"@]);
    assert(joined(s5) =~= joined(f5) + CAST_TO_VALUE@.skip(73));
    let decls = seq![declaration(true, input_ty, "input"@), declaration(false, output_ty,
        "output"@)];
    lemma_declared_tokens2(gap, declaration(true, input_ty, "input"@), declaration(false,
        output_ty, "output"@));
    assert(f5 =~= heading_tokens(CAST_KERNEL@, gap, decls));
    assert(parts.subrange(2, 10) =~= s5);
    lemma_occurs(parts, 2, 10, heading(CAST_KERNEL@, gap, decls), CAST_TO_VALUE@.skip(73));
}

proof fn lemma_unary_declares<E>(
    op: OpenClKernelOp<E>,
    inputs: Seq<DType>,
    output: DType,
    lowered: Seq<Seq<char>>,
)
    requires
        op is Unary,
    ensures
        contains_text(
            joined(op.read_parts(inputs, output, lowered)),
            heading(op.kernel_names()[0], "\n                        "@, op.declarations(inputs,
                output, 0)),
        ),
{
    let parts = op.read_parts(inputs, output, lowered);
    let declared = op.declarations(inputs, output, 0);
    let first = argument_dtype(inputs, 0, DType::F32);
    assert(parts.subrange(2, 10) =~= seq![
        KERNEL_KEYWORD@,
        UNARY_KERNEL@,
        PARAMETERS_OPEN@,
        UNARY_TO_INPUT_TY@,
        c_type(first),
        UNARY_TO_OUTPUT_TY@,
        c_type(output),
        UNARY_TO_OUTPUT_INDEX@,
    ]);
    lemma_unary_heading(parts, c_type(first), c_type(output));
    assert(declared =~= seq![
        declaration(true, c_type(first), "input"@),
        declaration(false, c_type(output), "output"@),
    ]);
}

proof fn lemma_binary_declares<E>(
    op: OpenClKernelOp<E>,
    inputs: Seq<DType>,
    output: DType,
    lowered: Seq<Seq<char>>,
)
    requires
        op is Binary,
    ensures
        contains_text(
            joined(op.read_parts(inputs, output, lowered)),
            heading(op.kernel_names()[0], "\n            "@, op.declarations(inputs, output, 0)),
        ),
{
    let parts = op.read_parts(inputs, output, lowered);
    let declared = op.declarations(inputs, output, 0);
    let first = argument_dtype(inputs, 0, DType::F32);
    let second = argument_dtype(inputs, 1, first);
    assert(parts.subrange(2, 12) =~= seq![
        KERNEL_KEYWORD@,
        BINARY_KERNEL@,
        PARAMETERS_OPEN@,
        BINARY_TO_A_TY@,
        c_type(first),
        BINARY_TO_B_TY@,
        c_type(second),
        BINARY_TO_OUTPUT_TY@,
        c_type(output),
        BINARY_TO_OUTPUT_INDEX@,
    ]);
    lemma_binary_heading(parts, c_type(first), c_type(second), c_type(output));
    assert(declared =~= seq![
        declaration(true, c_type(first), "a"@),
        declaration(true, c_type(second), "b"@),
        declaration(false, c_type(output), "output"@),
    ]);
}

proof fn lemma_less_than_declares<E>(
    op: OpenClKernelOp<E>,
    inputs: Seq<DType>,
    output: DType,
    lowered: Seq<Seq<char>>,
)
    requires
        op is LessThan,
    ensures
        contains_text(
            joined(op.read_parts(inputs, output, lowered)),
            heading(op.kernel_names()[0], "\n                "@, op.declarations(inputs, output,
                0)),
        ),
{
    let parts = op.read_parts(inputs, output, lowered);
    let declared = op.declarations(inputs, output, 0);
    let first = argument_dtype(inputs, 0, DType::F32);
    let second = argument_dtype(inputs, 1, first);
    assert(parts.subrange(2, 12) =~= seq![
        KERNEL_KEYWORD@,
        LESS_THAN_KERNEL@,
        PARAMETERS_OPEN@,
        LESS_THAN_TO_A_TY@,
        c_type(first),
        LESS_THAN_TO_B_TY@,
        c_type(second),
        LESS_THAN_TO_OUTPUT_TY@,
        c_type(output),
        LESS_THAN_TO_OUTPUT_INDEX@,
    ]);
    lemma_less_than_heading(parts, c_type(first), c_type(second), c_type(output));
    assert(declared =~= seq![
        declaration(true, c_type(first), "a"@),
        declaration(true, c_type(second), "b"@),
        declaration(false, c_type(output), "output"@),
    ]);
}

proof fn lemma_sum_declares<E>(
    op: OpenClKernelOp<E>,
    inputs: Seq<DType>,
    output: DType,
    lowered: Seq<Seq<char>>,
)
    requires
        op is SumReduce,
    ensures
        contains_text(
            joined(op.read_parts(inputs, output, lowered)),
            heading(op.kernel_names()[0], "\n                "@, op.declarations(inputs, output,
                0)),
        ),
{
    let parts = op.read_parts(inputs, output, lowered);
    let declared = op.declarations(inputs, output, 0);
    let first = argument_dtype(inputs, 0, DType::F32);
    assert(parts.subrange(2, 10) =~= seq![
        KERNEL_KEYWORD@,
        SUM_KERNEL@,
        PARAMETERS_OPEN@,
        SUM_TO_INPUT_TY@,
        c_type(first),
        SUM_TO_OUTPUT_TY@,
        c_type(output),
        SUM_TO_INPUT_START@,
    ]);
    lemma_sum_heading(parts, c_type(first), c_type(output));
    assert(declared =~= seq![
        declaration(true, c_type(first), "input"@),
        declaration(false, c_type(output), "output"@),
    ]);
}

proof fn lemma_max_declares<E>(
    op: OpenClKernelOp<E>,
    inputs: Seq<DType>,
    output: DType,
    lowered: Seq<Seq<char>>,
)
    requires
        op is MaxReduce,
    ensures
        contains_text(
            joined(op.read_parts(inputs, output, lowered)),
            heading(op.kernel_names()[0], "\n                "@, op.declarations(inputs, output,
                0)),
        ),
{
    let parts = op.read_parts(inputs, output, lowered);
    let declared = op.declarations(inputs, output, 0);
    let first = argument_dtype(inputs, 0, DType::F32);
    assert(parts.subrange(2, 10) =~= seq![
        KERNEL_KEYWORD@,
        MAX_KERNEL@,
        PARAMETERS_OPEN@,
        MAX_TO_INPUT_TY@,
        c_type(first),
        MAX_TO_OUTPUT_TY@,
        c_type(output),
        MAX_TO_INPUT_START@,
    ]);
    lemma_max_heading(parts, c_type(first), c_type(output));
    assert(declared =~= seq![
        declaration(true, c_type(first), "input"@),
        declaration(false, c_type(output), "output"@),
    ]);
}

proof fn lemma_matmul_declares<E>(
    op: OpenClKernelOp<E>,
    inputs: Seq<DType>,
    output: DType,
    lowered: Seq<Seq<char>>,
)
    requires
        op is Matmul,
    ensures
        contains_text(
            joined(op.read_parts(inputs, output, lowered)),
            heading(op.kernel_names()[0], "\n                "@, op.declarations(inputs, output,
                0)),
        ),
{
    let parts = op.read_parts(inputs, output, lowered);
    let declared = op.declarations(inputs, output, 0);
    let first = argument_dtype(inputs, 0, DType::F32);
    let second = argument_dtype(inputs, 1, first);
    assert(parts.subrange(2, 12) =~= seq![
        KERNEL_KEYWORD@,
        MATMUL_KERNEL@,
        PARAMETERS_OPEN@,
        MATMUL_TO_LHS_TY@,
        c_type(first),
        MATMUL_TO_RHS_TY@,
        c_type(second),
        MATMUL_TO_OUTPUT_TY@,
        c_type(output),
        MATMUL_TO_SUM_BASE@,
    ]);
    lemma_matmul_heading(parts, c_type(first), c_type(second), c_type(output));
    assert(declared =~= seq![
        declaration(true, c_type(first), "lhs"@),
        declaration(true, c_type(second), "rhs"@),
        declaration(false, c_type(output), "output"@),
    ]);
}

proof fn lemma_iota_declares<E>(
    op: OpenClKernelOp<E>,
    inputs: Seq<DType>,
    output: DType,
    lowered: Seq<Seq<char>>,
)
    requires
        op is Iota,
    ensures
        contains_text(
            joined(op.read_parts(inputs, output, lowered)),
            heading(op.kernel_names()[0], "\n                "@, op.declarations(inputs, output,
                0)),
        ),
{
    let parts = op.read_parts(inputs, output, lowered);
    let declared = op.declarations(inputs, output, 0);
    assert(parts.subrange(1, 5) =~= seq![
        KERNEL_KEYWORD@,
        IOTA_KERNEL@,
        PARAMETERS_OPEN@,
        IOTA_TO_EXPRESSION@,
    ]);
    lemma_iota_heading(parts);
    assert(declared =~= seq![
        declaration(false, "int"@, "output"@),
    ]);
}

proof fn lemma_gather_declares<E>(
    op: OpenClKernelOp<E>,
    inputs: Seq<DType>,
    output: DType,
    lowered: Seq<Seq<char>>,
)
    requires
        op is Gather,
    ensures
        contains_text(
            joined(op.read_parts(inputs, output, lowered)),
            heading(op.kernel_names()[0], "\n                "@, op.declarations(inputs, output,
                0)),
        ),
{
    let parts = op.read_parts(inputs, output, lowered);
    let declared = op.declarations(inputs, output, 0);
    assert(parts.subrange(2, 10) =~= seq![
        KERNEL_KEYWORD@,
        GATHER_KERNEL@,
        PARAMETERS_OPEN@,
        GATHER_TO_DATA_TY@,
        c_type(argument_dtype(inputs, 1, DType::F32)),
        GATHER_TO_OUTPUT_TY@,
        c_type(output),
        GATHER_TO_INDEX_INDEX@,
    ]);
    lemma_gather_heading(parts, c_type(argument_dtype(inputs, 1, DType::F32)), c_type(output));
    assert(declared =~= seq![
        declaration(true, "int"@, "indexes"@),
        declaration(true, c_type(argument_dtype(inputs, 1, DType::F32)), "data"@),
        declaration(false, c_type(output), "output"@),
    ]);
}

proof fn lemma_scatter_declares_copy<E>(
    op: OpenClKernelOp<E>,
    inputs: Seq<DType>,
    output: DType,
    lowered: Seq<Seq<char>>,
)
    requires
        op is Scatter,
    ensures
        contains_text(
            joined(op.read_parts(inputs, output, lowered)),
            heading(op.kernel_names()[0], "\n                "@, op.declarations(inputs, output,
                0)),
        ),
{
    let parts = op.read_parts(inputs, output, lowered);
    let declared = op.declarations(inputs, output, 0);
    let first = argument_dtype(inputs, 0, DType::F32);
    assert(parts.subrange(2, 10) =~= seq![
        KERNEL_KEYWORD@,
        SCATTER_COPY_KERNEL@,
        PARAMETERS_OPEN@,
        SCATTER_TO_DEST_TY@,
        c_type(first),
        SCATTER_TO_OUTPUT_TY@,
        c_type(output),
        SCATTER_TO_COPY_OUTPUT_INDEX@,
    ]);
    lemma_scatter_heading_copy(parts, c_type(first), c_type(output));
    assert(declared =~= seq![
        declaration(true, c_type(first), "dest"@),
        declaration(false, c_type(output), "output"@),
    ]);
}

proof fn lemma_scatter_declares_write<E>(
    op: OpenClKernelOp<E>,
    inputs: Seq<DType>,
    output: DType,
    lowered: Seq<Seq<char>>,
)
    requires
        op is Scatter,
    ensures
        contains_text(
            joined(op.read_parts(inputs, output, lowered)),
            heading(op.kernel_names()[1], "\n                "@, op.declarations(inputs, output,
                1)),
        ),
{
    let parts = op.read_parts(inputs, output, lowered);
    let declared = op.declarations(inputs, output, 1);
    assert(parts.subrange(14, 22) =~= seq![
        KERNEL_KEYWORD@,
        SCATTER_WRITE_KERNEL@,
        PARAMETERS_OPEN@,
        SCATTER_TO_SRC_TY@,
        c_type(argument_dtype(inputs, 2, output)),
        SCATTER_TO_OUTPUT_TY_2@,
        c_type(output),
        SCATTER_TO_INDEX_INDEX@,
    ]);
    lemma_scatter_heading_write(parts, c_type(argument_dtype(inputs, 2, output)), c_type(output));
    assert(declared =~= seq![
        declaration(true, "int"@, "indexes"@),
        declaration(true, c_type(argument_dtype(inputs, 2, output)), "src"@),
        declaration(false, c_type(output), "output"@),
    ]);
}

proof fn lemma_cast_declares<E>(
    op: OpenClKernelOp<E>,
    inputs: Seq<DType>,
    output: DType,
    lowered: Seq<Seq<char>>,
)
    requires
        op is Cast,
    ensures
        contains_text(
            joined(op.read_parts(inputs, output, lowered)),
            heading(op.kernel_names()[0], "\n                "@, op.declarations(inputs, output,
                0)),
        ),
{
    let parts = op.read_parts(inputs, output, lowered);
    let declared = op.declarations(inputs, output, 0);
    let first = argument_dtype(inputs, 0, DType::F32);
    assert(parts.subrange(2, 10) =~= seq![
        KERNEL_KEYWORD@,
        CAST_KERNEL@,
        PARAMETERS_OPEN@,
        CAST_TO_INPUT_TY@,
        c_type(first),
        CAST_TO_OUTPUT_TY@,
        c_type(output),
        CAST_TO_VALUE@,
    ]);
    lemma_cast_heading(parts, c_type(first), c_type(output));
    assert(declared =~= seq![
        declaration(true, c_type(first), "input"@),
        declaration(false, c_type(output), "output"@),
    ]);
}

} // verus!
