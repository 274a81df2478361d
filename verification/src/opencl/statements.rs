//! What the kernels do with the index texts.

use vstd::prelude::*;

use crate::dtype::DType;
use crate::opencl::kernel::{owned_texts, KernelSource, OpenClKernelOp};
use crate::opencl::meaning::{law_program_reads_as_the_operation, written};
use crate::opencl::templates::{
    BINARY_TO_OUTPUT_INDEX, BINARY_TO_VALUE, CONSTANT_END, CONSTANT_TO_BITS,
    GATHER_TO_INDEX_INDEX, GATHER_TO_OUTPUT_INDEX, GATHER_TO_VALUE, IOTA_END,
    IOTA_TO_EXPRESSION, LESS_THAN_END, LESS_THAN_TO_A_VALUE, LESS_THAN_TO_B_VALUE,
    LESS_THAN_TO_OUTPUT_INDEX, MATMUL_TO_ACC_TY, MATMUL_TO_ITERS, MATMUL_TO_ITER_OFFSET,
    MATMUL_TO_LHS_VALUE, MATMUL_TO_OUTPUT_INDEX, MATMUL_TO_OUTPUT_VALUE, MATMUL_TO_SUM_BASE,
    MAX_TO_ACC_TY, MAX_TO_INPUT_START, MAX_TO_ITERS, MAX_TO_OUTPUT_INDEX, MAX_TO_OUTPUT_VALUE,
    SCATTER_END, SCATTER_SECOND_START, SCATTER_TO_COPY_OUTPUT_INDEX, SCATTER_TO_DEST_INDEX,
    SCATTER_TO_INDEX_INDEX, SCATTER_TO_SRC_INDEX, SUM_TO_ACC_TY, SUM_TO_INPUT_START,
    SUM_TO_ITERS, SUM_TO_OUTPUT_INDEX, SUM_TO_OUTPUT_VALUE, UNARY_TO_OUTPUT_INDEX,
    UNARY_TO_VALUE,
};
use crate::text::{
    contains_text, hex_word_text, joined, lemma_three_parts_occur, occurs_at,
};

verus! {

impl<E> OpenClKernelOp<E> {
    /// Where the index texts stand in the program: behind what names the value that
    /// each gives, and before what ends it. Reductions give a start, a number of
    /// iterations and where the result goes; reads and writes by index give where the
    /// index stands, and where elements are read and written.
    pub open spec fn statements(self, lowered: Seq<Seq<char>>) -> Seq<Seq<char>> {
        match self {
            OpenClKernelOp::Unary(_) => seq![
                "output["@ + lowered[1] + "] = "@,
            ],
            OpenClKernelOp::Binary(_) => seq![
                "output["@ + lowered[2] + "] = "@,
            ],
            OpenClKernelOp::LessThan(_) => seq![
                "output["@ + lowered[2] + "] = (uchar)(("@,
                "] = (uchar)(("@ + ("a"@ + "["@ + lowered[0] + "]"@) + ") < ("@,
                ") < ("@ + ("b"@ + "["@ + lowered[1] + "]"@) + "));"@,
            ],
            OpenClKernelOp::SumReduce(_) => seq![
                "int input_start = "@ + lowered[0] + ";"@,
                "int reduction_len = "@ + lowered[2] + ";"@,
                "output["@ + lowered[1] + "] = "@,
            ],
            OpenClKernelOp::MaxReduce(_) => seq![
                "int input_start = "@ + lowered[0] + ";"@,
                "int reduction_len = "@ + lowered[2] + ";"@,
                "output["@ + lowered[1] + "] = "@,
            ],
            OpenClKernelOp::Matmul(_) => seq![
                "int base_idx = "@ + lowered[0] + ";"@,
                "int reduction_len = "@ + lowered[5] + ";"@,
                "int mul_idx = base_idx + "@ + lowered[1] + ";"@,
                "output["@ + lowered[4] + "] = "@,
            ],
            OpenClKernelOp::Constant(op) => seq![
                "output[0] = as_float(0x"@ + hex_word_text(op.bits) + "u);"@,
            ],
            OpenClKernelOp::Iota(_) => seq![
                "output[idx] = (int)("@ + lowered[0] + ");"@,
            ],
            OpenClKernelOp::Gather(_) => seq![
                "int gathered_index = indexes["@ + lowered[1] + "];"@,
                "output["@ + lowered[0] + "] = "@,
            ],
            OpenClKernelOp::Scatter(_) => seq![
                "output["@ + lowered[1] + "] = dest["@,
                "] = dest["@ + lowered[0] + "];"@,
                "int output_index = indexes["@ + lowered[2] + "];"@,
                "output[output_index] = src["@ + lowered[3] + "];"@,
            ],
            OpenClKernelOp::Cast(_) => seq![],
        }
    }
}

/// Every index text stands in the program where its value is used.
pub proof fn law_index_texts_stand_where_they_are_used<E>(
    op: OpenClKernelOp<E>,
    inputs: Vec<DType>,
    output: DType,
    lowered: Vec<String>,
    source: KernelSource,
    k: int,
)
    requires
        0 <= k < op.statements(owned_texts(lowered@)).len(),
        call_ensures(OpenClKernelOp::<E>::compile, (&op, &inputs, output, &lowered), Ok(source)),
    ensures
        contains_text(source.text@, op.statements(owned_texts(lowered@))[k]),
{
    law_program_reads_as_the_operation(op, inputs, output, lowered, source);
    let lowered = owned_texts(lowered@);
    let inputs = inputs@;
    match op {
        OpenClKernelOp::Unary(_) => lemma_unary_statements(op, inputs, output, lowered, k),
        OpenClKernelOp::Binary(_) => lemma_binary_statements(op, inputs, output, lowered, k),
        OpenClKernelOp::LessThan(_) => lemma_less_than_statements(op, inputs, output, lowered, k),
        OpenClKernelOp::SumReduce(_) => lemma_sum_statements(op, inputs, output, lowered, k),
        OpenClKernelOp::MaxReduce(_) => lemma_max_statements(op, inputs, output, lowered, k),
        OpenClKernelOp::Matmul(_) => lemma_matmul_statements(op, inputs, output, lowered, k),
        OpenClKernelOp::Constant(_) => lemma_constant_statements(op, inputs, output, lowered, k),
        OpenClKernelOp::Iota(_) => lemma_iota_statements(op, inputs, output, lowered, k),
        OpenClKernelOp::Gather(_) => lemma_gather_statements(op, inputs, output, lowered, k),
        OpenClKernelOp::Scatter(_) => lemma_scatter_statements(op, inputs, output, lowered, k),
        OpenClKernelOp::Cast(_) => {},
    }
}

/// Whether a text ends with another.
pub open spec fn ends_with(text: Seq<char>, end: Seq<char>) -> bool {
    end.len() <= text.len() && text.skip(text.len() - end.len()) == end
}

/// Whether a text starts with another.
pub open spec fn starts_with(text: Seq<char>, start: Seq<char>) -> bool {
    start.len() <= text.len() && text.take(start.len() as int) == start
}

proof fn lemma_statement_occurs(parts: Seq<Seq<char>>, i: int, before: Seq<char>, after: Seq<char>)
    requires
        0 <= i,
        i + 3 <= parts.len(),
        ends_with(parts[i], before),
        starts_with(parts[i + 2], after),
    ensures
        contains_text(joined(parts), before + parts[i + 1] + after),
{
    lemma_three_parts_occur(parts, i);
    let text = joined(parts);
    let around = parts[i] + parts[i + 1] + parts[i + 2];
    let at = choose|at: int| occurs_at(text, around, at);
    let skipped = parts[i].len() - before.len();
    let word = before + parts[i + 1] + after;
    assert(text.subrange(at, at + around.len()) == around);
    assert(parts[i] =~= parts[i].take(skipped) + before);
    assert(parts[i + 2] =~= after + parts[i + 2].skip(after.len() as int));
    assert(around.subrange(skipped, skipped + word.len()) =~= word);
    assert(text.subrange(at + skipped, at + skipped + word.len()) =~= around.subrange(
        skipped,
        skipped + word.len(),
    ));
    assert(occurs_at(text, word, at + skipped));
}

proof fn lemma_binary_to_output_index_ends()
    ensures
        ends_with(BINARY_TO_OUTPUT_INDEX@, "output["@),
{
    reveal_strlit(" *output,\n            __global const int *dyn,\n            uint n_elements)\n        {\n            int idx = (int)get_global_id(0);\n            if ((uint)idx < n_elements) {\n                output[");
    reveal_strlit("output[");
    assert(BINARY_TO_OUTPUT_INDEX@.skip(189) =~= "output["@);
}

proof fn lemma_constant_to_bits_ends()
    ensures
        ends_with(CONSTANT_TO_BITS@, "output[0] = as_float(0x"@),
{
    reveal_strlit("__global float *output) {\n                if (get_global_id(0) == 0) output[0] = as_float(0x");
    reveal_strlit("output[0] = as_float(0x");
    assert(CONSTANT_TO_BITS@.skip(69) =~= "output[0] = as_float(0x"@);
}

proof fn lemma_gather_to_index_index_ends()
    ensures
        ends_with(GATHER_TO_INDEX_INDEX@, "int gathered_index = indexes["@),
{
    reveal_strlit(" *output,\n                __global const int *dyn,\n                uint n_elements)\n            {\n                int idx = (int)get_global_id(0);\n                if ((uint)idx < n_elements) {\n                    int gathered_index = indexes[");
    reveal_strlit("int gathered_index = indexes[");
    assert(GATHER_TO_INDEX_INDEX@.skip(213) =~= "int gathered_index = indexes["@);
}

proof fn lemma_gather_to_output_index_ends()
    ensures
        ends_with(GATHER_TO_OUTPUT_INDEX@, "output["@),
{
    reveal_strlit("];\n                    output[");
    reveal_strlit("output[");
    assert(GATHER_TO_OUTPUT_INDEX@.skip(23) =~= "output["@);
}

proof fn lemma_iota_to_expression_ends()
    ensures
        ends_with(IOTA_TO_EXPRESSION@, "output[idx] = (int)("@),
{
    reveal_strlit("\n                __global int *output,\n                __global const int *dyn,\n                uint n_elements)\n            {\n                int idx = (int)get_global_id(0);\n                if ((uint)idx < n_elements) output[idx] = (int)(");
    reveal_strlit("output[idx] = (int)(");
    assert(IOTA_TO_EXPRESSION@.skip(220) =~= "output[idx] = (int)("@);
}

proof fn lemma_less_than_to_a_value_ends()
    ensures
        ends_with(LESS_THAN_TO_A_VALUE@, "] = (uchar)(("@),
{
    reveal_strlit("] = (uchar)((");
    assert(LESS_THAN_TO_A_VALUE@.skip(0) =~= "] = (uchar)(("@);
}

proof fn lemma_less_than_to_b_value_ends()
    ensures
        ends_with(LESS_THAN_TO_B_VALUE@, ") < ("@),
{
    reveal_strlit(") < (");
    assert(LESS_THAN_TO_B_VALUE@.skip(0) =~= ") < ("@);
}

proof fn lemma_less_than_to_output_index_ends()
    ensures
        ends_with(LESS_THAN_TO_OUTPUT_INDEX@, "output["@),
{
    reveal_strlit(" *output,\n                __global const int *dyn,\n                uint n_elements)\n            {\n                int idx = (int)get_global_id(0);\n                if ((uint)idx < n_elements) {\n                    output[");
    reveal_strlit("output[");
    assert(LESS_THAN_TO_OUTPUT_INDEX@.skip(213) =~= "output["@);
}

proof fn lemma_matmul_to_iters_ends()
    ensures
        ends_with(MATMUL_TO_ITERS@, "int reduction_len = "@),
{
    reveal_strlit(";\n                int reduction_len = ");
    reveal_strlit("int reduction_len = ");
    assert(MATMUL_TO_ITERS@.skip(18) =~= "int reduction_len = "@);
}

proof fn lemma_matmul_to_iter_offset_ends()
    ensures
        ends_with(MATMUL_TO_ITER_OFFSET@, "int mul_idx = base_idx + "@),
{
    reveal_strlit(";\n                for (int i = 0; i < reduction_len; ++i) {\n                    int mul_idx = base_idx + ");
    reveal_strlit("int mul_idx = base_idx + ");
    assert(MATMUL_TO_ITER_OFFSET@.skip(80) =~= "int mul_idx = base_idx + "@);
}

proof fn lemma_matmul_to_output_index_ends()
    ensures
        ends_with(MATMUL_TO_OUTPUT_INDEX@, "output["@),
{
    reveal_strlit(");\n                }\n                output[");
    reveal_strlit("output[");
    assert(MATMUL_TO_OUTPUT_INDEX@.skip(37) =~= "output["@);
}

proof fn lemma_matmul_to_sum_base_ends()
    ensures
        ends_with(MATMUL_TO_SUM_BASE@, "int base_idx = "@),
{
    reveal_strlit(" *output,\n                __global const int *dyn,\n                uint n_outputs)\n            {\n                int idx = (int)get_global_id(0);\n                if ((uint)idx >= n_outputs) return;\n                int base_idx = ");
    reveal_strlit("int base_idx = ");
    assert(MATMUL_TO_SUM_BASE@.skip(214) =~= "int base_idx = "@);
}

proof fn lemma_max_to_input_start_ends()
    ensures
        ends_with(MAX_TO_INPUT_START@, "int input_start = "@),
{
    reveal_strlit(" *output,\n                __global const int *dyn,\n                uint n_outputs)\n            {\n                int idx = (int)get_global_id(0);\n                if ((uint)idx >= n_outputs) return;\n                int input_start = ");
    reveal_strlit("int input_start = ");
    assert(MAX_TO_INPUT_START@.skip(214) =~= "int input_start = "@);
}

proof fn lemma_max_to_iters_ends()
    ensures
        ends_with(MAX_TO_ITERS@, "int reduction_len = "@),
{
    reveal_strlit(";\n                int reduction_len = ");
    reveal_strlit("int reduction_len = ");
    assert(MAX_TO_ITERS@.skip(18) =~= "int reduction_len = "@);
}

proof fn lemma_max_to_output_index_ends()
    ensures
        ends_with(MAX_TO_OUTPUT_INDEX@, "output["@),
{
    reveal_strlit("\n                }\n                output[");
    reveal_strlit("output[");
    assert(MAX_TO_OUTPUT_INDEX@.skip(35) =~= "output["@);
}

proof fn lemma_scatter_to_copy_output_index_ends()
    ensures
        ends_with(SCATTER_TO_COPY_OUTPUT_INDEX@, "output["@),
{
    reveal_strlit(" *output,\n                __global const int *dyn,\n                uint n_elements)\n            {\n                int idx = (int)get_global_id(0);\n                if ((uint)idx < n_elements) output[");
    reveal_strlit("output[");
    assert(SCATTER_TO_COPY_OUTPUT_INDEX@.skip(191) =~= "output["@);
}

proof fn lemma_scatter_to_dest_index_ends()
    ensures
        ends_with(SCATTER_TO_DEST_INDEX@, "] = dest["@),
{
    reveal_strlit("] = dest[");
    assert(SCATTER_TO_DEST_INDEX@.skip(0) =~= "] = dest["@);
}

proof fn lemma_scatter_to_index_index_ends()
    ensures
        ends_with(SCATTER_TO_INDEX_INDEX@, "int output_index = indexes["@),
{
    reveal_strlit(" *output,\n                __global const int *dyn,\n                uint n_elements)\n            {\n                int idx = (int)get_global_id(0);\n                if ((uint)idx < n_elements) {\n                    int output_index = indexes[");
    reveal_strlit("int output_index = indexes[");
    assert(SCATTER_TO_INDEX_INDEX@.skip(213) =~= "int output_index = indexes["@);
}

proof fn lemma_scatter_to_src_index_ends()
    ensures
        ends_with(SCATTER_TO_SRC_INDEX@, "output[output_index] = src["@),
{
    reveal_strlit("];\n                    output[output_index] = src[");
    reveal_strlit("output[output_index] = src[");
    assert(SCATTER_TO_SRC_INDEX@.skip(23) =~= "output[output_index] = src["@);
}

proof fn lemma_sum_to_input_start_ends()
    ensures
        ends_with(SUM_TO_INPUT_START@, "int input_start = "@),
{
    reveal_strlit(" *output,\n                __global const int *dyn,\n                uint n_outputs)\n            {\n                int idx = (int)get_global_id(0);\n                if ((uint)idx >= n_outputs) return;\n                int input_start = ");
    reveal_strlit("int input_start = ");
    assert(SUM_TO_INPUT_START@.skip(214) =~= "int input_start = "@);
}

proof fn lemma_sum_to_iters_ends()
    ensures
        ends_with(SUM_TO_ITERS@, "int reduction_len = "@),
{
    reveal_strlit(";\n                int reduction_len = ");
    reveal_strlit("int reduction_len = ");
    assert(SUM_TO_ITERS@.skip(18) =~= "int reduction_len = "@);
}

proof fn lemma_sum_to_output_index_ends()
    ensures
        ends_with(SUM_TO_OUTPUT_INDEX@, "output["@),
{
    reveal_strlit(";\n                }\n                output[");
    reveal_strlit("output[");
    assert(SUM_TO_OUTPUT_INDEX@.skip(36) =~= "output["@);
}

proof fn lemma_unary_to_output_index_ends()
    ensures
        ends_with(UNARY_TO_OUTPUT_INDEX@, "output["@),
{
    reveal_strlit(" *output,\n                        __global const int *dyn,\n                        uint n_elements)\n                    {\n                        int idx = (int)get_global_id(0);\n                        if ((uint)idx < n_elements) {\n                            output[");
    reveal_strlit("output[");
    assert(UNARY_TO_OUTPUT_INDEX@.skip(261) =~= "output["@);
}

proof fn lemma_binary_to_value_starts()
    ensures
        starts_with(BINARY_TO_VALUE@, "] = "@),
{
    reveal_strlit("] = ");
    assert(BINARY_TO_VALUE@.take(4) =~= "] = "@);
}

proof fn lemma_constant_end_starts()
    ensures
        starts_with(CONSTANT_END@, "u);"@),
{
    reveal_strlit("u);\n            }\n            ");
    reveal_strlit("u);");
    assert(CONSTANT_END@.take(3) =~= "u);"@);
}

proof fn lemma_gather_to_output_index_starts()
    ensures
        starts_with(GATHER_TO_OUTPUT_INDEX@, "];"@),
{
    reveal_strlit("];\n                    output[");
    reveal_strlit("];");
    assert(GATHER_TO_OUTPUT_INDEX@.take(2) =~= "];"@);
}

proof fn lemma_gather_to_value_starts()
    ensures
        starts_with(GATHER_TO_VALUE@, "] = "@),
{
    reveal_strlit("] = ");
    assert(GATHER_TO_VALUE@.take(4) =~= "] = "@);
}

proof fn lemma_iota_end_starts()
    ensures
        starts_with(IOTA_END@, ");"@),
{
    reveal_strlit(");\n            }\n            ");
    reveal_strlit(");");
    assert(IOTA_END@.take(2) =~= ");"@);
}

proof fn lemma_less_than_end_starts()
    ensures
        starts_with(LESS_THAN_END@, "));"@),
{
    reveal_strlit("));\n                }\n            }\n            ");
    reveal_strlit("));");
    assert(LESS_THAN_END@.take(3) =~= "));"@);
}

proof fn lemma_less_than_to_a_value_starts()
    ensures
        starts_with(LESS_THAN_TO_A_VALUE@, "] = (uchar)(("@),
{
    reveal_strlit("] = (uchar)((");
    assert(LESS_THAN_TO_A_VALUE@.take(13) =~= "] = (uchar)(("@);
}

proof fn lemma_less_than_to_b_value_starts()
    ensures
        starts_with(LESS_THAN_TO_B_VALUE@, ") < ("@),
{
    reveal_strlit(") < (");
    assert(LESS_THAN_TO_B_VALUE@.take(5) =~= ") < ("@);
}

proof fn lemma_matmul_to_acc_ty_starts()
    ensures
        starts_with(MATMUL_TO_ACC_TY@, ";"@),
{
    reveal_strlit(";\n                ");
    reveal_strlit(";");
    assert(MATMUL_TO_ACC_TY@.take(1) =~= ";"@);
}

proof fn lemma_matmul_to_iters_starts()
    ensures
        starts_with(MATMUL_TO_ITERS@, ";"@),
{
    reveal_strlit(";\n                int reduction_len = ");
    reveal_strlit(";");
    assert(MATMUL_TO_ITERS@.take(1) =~= ";"@);
}

proof fn lemma_matmul_to_lhs_value_starts()
    ensures
        starts_with(MATMUL_TO_LHS_VALUE@, ";"@),
{
    reveal_strlit(";\n                    sum += (");
    reveal_strlit(";");
    assert(MATMUL_TO_LHS_VALUE@.take(1) =~= ";"@);
}

proof fn lemma_matmul_to_output_value_starts()
    ensures
        starts_with(MATMUL_TO_OUTPUT_VALUE@, "] = "@),
{
    reveal_strlit("] = ");
    assert(MATMUL_TO_OUTPUT_VALUE@.take(4) =~= "] = "@);
}

proof fn lemma_max_to_acc_ty_starts()
    ensures
        starts_with(MAX_TO_ACC_TY@, ";"@),
{
    reveal_strlit(";\n                ");
    reveal_strlit(";");
    assert(MAX_TO_ACC_TY@.take(1) =~= ";"@);
}

proof fn lemma_max_to_iters_starts()
    ensures
        starts_with(MAX_TO_ITERS@, ";"@),
{
    reveal_strlit(";\n                int reduction_len = ");
    reveal_strlit(";");
    assert(MAX_TO_ITERS@.take(1) =~= ";"@);
}

proof fn lemma_max_to_output_value_starts()
    ensures
        starts_with(MAX_TO_OUTPUT_VALUE@, "] = "@),
{
    reveal_strlit("] = ");
    assert(MAX_TO_OUTPUT_VALUE@.take(4) =~= "] = "@);
}

proof fn lemma_scatter_end_starts()
    ensures
        starts_with(SCATTER_END@, "];"@),
{
    reveal_strlit("];\n                }\n            }\n            ");
    reveal_strlit("];");
    assert(SCATTER_END@.take(2) =~= "];"@);
}

proof fn lemma_scatter_second_start_starts()
    ensures
        starts_with(SCATTER_SECOND_START@, "];"@),
{
    reveal_strlit("];\n            }\n\n            ");
    reveal_strlit("];");
    assert(SCATTER_SECOND_START@.take(2) =~= "];"@);
}

proof fn lemma_scatter_to_dest_index_starts()
    ensures
        starts_with(SCATTER_TO_DEST_INDEX@, "] = dest["@),
{
    reveal_strlit("] = dest[");
    assert(SCATTER_TO_DEST_INDEX@.take(9) =~= "] = dest["@);
}

proof fn lemma_scatter_to_src_index_starts()
    ensures
        starts_with(SCATTER_TO_SRC_INDEX@, "];"@),
{
    reveal_strlit("];\n                    output[output_index] = src[");
    reveal_strlit("];");
    assert(SCATTER_TO_SRC_INDEX@.take(2) =~= "];"@);
}

proof fn lemma_sum_to_acc_ty_starts()
    ensures
        starts_with(SUM_TO_ACC_TY@, ";"@),
{
    reveal_strlit(";\n                ");
    reveal_strlit(";");
    assert(SUM_TO_ACC_TY@.take(1) =~= ";"@);
}

proof fn lemma_sum_to_iters_starts()
    ensures
        starts_with(SUM_TO_ITERS@, ";"@),
{
    reveal_strlit(";\n                int reduction_len = ");
    reveal_strlit(";");
    assert(SUM_TO_ITERS@.take(1) =~= ";"@);
}

proof fn lemma_sum_to_output_value_starts()
    ensures
        starts_with(SUM_TO_OUTPUT_VALUE@, "] = "@),
{
    reveal_strlit("] = ");
    assert(SUM_TO_OUTPUT_VALUE@.take(4) =~= "] = "@);
}

proof fn lemma_unary_to_value_starts()
    ensures
        starts_with(UNARY_TO_VALUE@, "] = "@),
{
    reveal_strlit("] = ");
    assert(UNARY_TO_VALUE@.take(4) =~= "] = "@);
}

proof fn lemma_unary_statements<E>(
    op: OpenClKernelOp<E>,
    inputs: Seq<DType>,
    output: DType,
    lowered: Seq<Seq<char>>,
    k: int,
)
    requires
        op is Unary,
        0 <= k < op.statements(lowered).len(),
    ensures
        contains_text(joined(op.read_parts(inputs, output, lowered)), op.statements(lowered)[k]),
{
    reveal_with_fuel(written, 2);
    let parts = op.read_parts(inputs, output, lowered);
    lemma_unary_to_output_index_ends();
    lemma_unary_to_value_starts();
    lemma_statement_occurs(parts, 9, "output["@, "] = "@);
}

proof fn lemma_binary_statements<E>(
    op: OpenClKernelOp<E>,
    inputs: Seq<DType>,
    output: DType,
    lowered: Seq<Seq<char>>,
    k: int,
)
    requires
        op is Binary,
        0 <= k < op.statements(lowered).len(),
    ensures
        contains_text(joined(op.read_parts(inputs, output, lowered)), op.statements(lowered)[k]),
{
    reveal_with_fuel(written, 2);
    let parts = op.read_parts(inputs, output, lowered);
    lemma_binary_to_output_index_ends();
    lemma_binary_to_value_starts();
    lemma_statement_occurs(parts, 11, "output["@, "] = "@);
}

proof fn lemma_less_than_statements<E>(
    op: OpenClKernelOp<E>,
    inputs: Seq<DType>,
    output: DType,
    lowered: Seq<Seq<char>>,
    k: int,
)
    requires
        op is LessThan,
        0 <= k < op.statements(lowered).len(),
    ensures
        contains_text(joined(op.read_parts(inputs, output, lowered)), op.statements(lowered)[k]),
{
    reveal_with_fuel(written, 2);
    let parts = op.read_parts(inputs, output, lowered);
    lemma_less_than_to_output_index_ends();
    lemma_less_than_to_a_value_starts();
    lemma_statement_occurs(parts, 11, "output["@, "] = (uchar)(("@);
    lemma_less_than_to_a_value_ends();
    lemma_less_than_to_b_value_starts();
    lemma_statement_occurs(parts, 13, "] = (uchar)(("@, ") < ("@);
    lemma_less_than_to_b_value_ends();
    lemma_less_than_end_starts();
    lemma_statement_occurs(parts, 15, ") < ("@, "));"@);
}

proof fn lemma_sum_statements<E>(
    op: OpenClKernelOp<E>,
    inputs: Seq<DType>,
    output: DType,
    lowered: Seq<Seq<char>>,
    k: int,
)
    requires
        op is SumReduce,
        0 <= k < op.statements(lowered).len(),
    ensures
        contains_text(joined(op.read_parts(inputs, output, lowered)), op.statements(lowered)[k]),
{
    reveal_with_fuel(written, 2);
    let parts = op.read_parts(inputs, output, lowered);
    lemma_sum_to_input_start_ends();
    lemma_sum_to_iters_starts();
    lemma_statement_occurs(parts, 9, "int input_start = "@, ";"@);
    lemma_sum_to_iters_ends();
    lemma_sum_to_acc_ty_starts();
    lemma_statement_occurs(parts, 11, "int reduction_len = "@, ";"@);
    lemma_sum_to_output_index_ends();
    lemma_sum_to_output_value_starts();
    lemma_statement_occurs(parts, 19, "output["@, "] = "@);
}

proof fn lemma_max_statements<E>(
    op: OpenClKernelOp<E>,
    inputs: Seq<DType>,
    output: DType,
    lowered: Seq<Seq<char>>,
    k: int,
)
    requires
        op is MaxReduce,
        0 <= k < op.statements(lowered).len(),
    ensures
        contains_text(joined(op.read_parts(inputs, output, lowered)), op.statements(lowered)[k]),
{
    reveal_with_fuel(written, 2);
    let parts = op.read_parts(inputs, output, lowered);
    lemma_max_to_input_start_ends();
    lemma_max_to_iters_starts();
    lemma_statement_occurs(parts, 9, "int input_start = "@, ";"@);
    lemma_max_to_iters_ends();
    lemma_max_to_acc_ty_starts();
    lemma_statement_occurs(parts, 11, "int reduction_len = "@, ";"@);
    lemma_max_to_output_index_ends();
    lemma_max_to_output_value_starts();
    lemma_statement_occurs(parts, 23, "output["@, "] = "@);
}

proof fn lemma_matmul_statements<E>(
    op: OpenClKernelOp<E>,
    inputs: Seq<DType>,
    output: DType,
    lowered: Seq<Seq<char>>,
    k: int,
)
    requires
        op is Matmul,
        0 <= k < op.statements(lowered).len(),
    ensures
        contains_text(joined(op.read_parts(inputs, output, lowered)), op.statements(lowered)[k]),
{
    reveal_with_fuel(written, 2);
    let parts = op.read_parts(inputs, output, lowered);
    lemma_matmul_to_sum_base_ends();
    lemma_matmul_to_iters_starts();
    lemma_statement_occurs(parts, 11, "int base_idx = "@, ";"@);
    lemma_matmul_to_iters_ends();
    lemma_matmul_to_acc_ty_starts();
    lemma_statement_occurs(parts, 13, "int reduction_len = "@, ";"@);
    lemma_matmul_to_iter_offset_ends();
    lemma_matmul_to_lhs_value_starts();
    lemma_statement_occurs(parts, 19, "int mul_idx = base_idx + "@, ";"@);
    lemma_matmul_to_output_index_ends();
    lemma_matmul_to_output_value_starts();
    lemma_statement_occurs(parts, 25, "output["@, "] = "@);
}

proof fn lemma_constant_statements<E>(
    op: OpenClKernelOp<E>,
    inputs: Seq<DType>,
    output: DType,
    lowered: Seq<Seq<char>>,
    k: int,
)
    requires
        op is Constant,
        0 <= k < op.statements(lowered).len(),
    ensures
        contains_text(joined(op.read_parts(inputs, output, lowered)), op.statements(lowered)[k]),
{
    reveal_with_fuel(written, 2);
    let parts = op.read_parts(inputs, output, lowered);
    lemma_constant_to_bits_ends();
    lemma_constant_end_starts();
    lemma_statement_occurs(parts, 4, "output[0] = as_float(0x"@, "u);"@);
}

proof fn lemma_iota_statements<E>(
    op: OpenClKernelOp<E>,
    inputs: Seq<DType>,
    output: DType,
    lowered: Seq<Seq<char>>,
    k: int,
)
    requires
        op is Iota,
        0 <= k < op.statements(lowered).len(),
    ensures
        contains_text(joined(op.read_parts(inputs, output, lowered)), op.statements(lowered)[k]),
{
    reveal_with_fuel(written, 2);
    let parts = op.read_parts(inputs, output, lowered);
    lemma_iota_to_expression_ends();
    lemma_iota_end_starts();
    lemma_statement_occurs(parts, 4, "output[idx] = (int)("@, ");"@);
}

proof fn lemma_gather_statements<E>(
    op: OpenClKernelOp<E>,
    inputs: Seq<DType>,
    output: DType,
    lowered: Seq<Seq<char>>,
    k: int,
)
    requires
        op is Gather,
        0 <= k < op.statements(lowered).len(),
    ensures
        contains_text(joined(op.read_parts(inputs, output, lowered)), op.statements(lowered)[k]),
{
    reveal_with_fuel(written, 2);
    let parts = op.read_parts(inputs, output, lowered);
    lemma_gather_to_index_index_ends();
    lemma_gather_to_output_index_starts();
    lemma_statement_occurs(parts, 9, "int gathered_index = indexes["@, "];"@);
    lemma_gather_to_output_index_ends();
    lemma_gather_to_value_starts();
    lemma_statement_occurs(parts, 11, "output["@, "] = "@);
}

proof fn lemma_scatter_statements<E>(
    op: OpenClKernelOp<E>,
    inputs: Seq<DType>,
    output: DType,
    lowered: Seq<Seq<char>>,
    k: int,
)
    requires
        op is Scatter,
        0 <= k < op.statements(lowered).len(),
    ensures
        contains_text(joined(op.read_parts(inputs, output, lowered)), op.statements(lowered)[k]),
{
    reveal_with_fuel(written, 2);
    let parts = op.read_parts(inputs, output, lowered);
    lemma_scatter_to_copy_output_index_ends();
    lemma_scatter_to_dest_index_starts();
    lemma_statement_occurs(parts, 9, "output["@, "] = dest["@);
    lemma_scatter_to_dest_index_ends();
    lemma_scatter_second_start_starts();
    lemma_statement_occurs(parts, 11, "] = dest["@, "];"@);
    lemma_scatter_to_index_index_ends();
    lemma_scatter_to_src_index_starts();
    lemma_statement_occurs(parts, 21, "int output_index = indexes["@, "];"@);
    lemma_scatter_to_src_index_ends();
    lemma_scatter_end_starts();
    lemma_statement_occurs(parts, 23, "output[output_index] = src["@, "];"@);
}

} // verus!
