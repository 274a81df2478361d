//! The texts of the OpenCL kernels.
//!
//! Each kernel has a fixed text with gaps for types, index expressions and
//! values. The constants are the text between the gaps.

use vstd::prelude::*;

use crate::text::{concat, joined, texts};

verus! {

/// What stands before the name of every kernel.
pub const KERNEL_KEYWORD: &'static str = "__kernel void ";

/// What stands after the name of every kernel.
pub const PARAMETERS_OPEN: &'static str = "(";

pub const UNARY_START: &'static str = "
                    ";

/// The name of the unary kernel.
pub const UNARY_KERNEL: &'static str = "unary_kernel";

pub const UNARY_TO_INPUT_TY: &'static str = "
                        __global const ";

pub const UNARY_TO_OUTPUT_TY: &'static str = " *input,
                        __global ";

pub const UNARY_TO_OUTPUT_INDEX: &'static str = " *output,
                        __global const int *dyn,
                        uint n_elements)
                    {
                        int idx = (int)get_global_id(0);
                        if ((uint)idx < n_elements) {
                            output[";

pub const UNARY_TO_VALUE: &'static str = "] = ";

pub const UNARY_END: &'static str = ";
                        }
                    }
                    ";

/// The parts of a kernel that applies a function of one argument to every element.
pub open spec fn unary_parts(
    header: Seq<char>,
    input_ty: Seq<char>,
    output_ty: Seq<char>,
    output_index: Seq<char>,
    value: Seq<char>,
) -> Seq<Seq<char>> {
    seq![
        header,
        UNARY_START@,
        KERNEL_KEYWORD@,
        UNARY_KERNEL@,
        PARAMETERS_OPEN@,
        UNARY_TO_INPUT_TY@,
        input_ty,
        UNARY_TO_OUTPUT_TY@,
        output_ty,
        UNARY_TO_OUTPUT_INDEX@,
        output_index,
        UNARY_TO_VALUE@,
        value,
        UNARY_END@,
    ]
}

/// The text of a kernel that applies a function of one argument to every element.
pub(crate) fn write_unary(
    header: &str,
    input_ty: &str,
    output_ty: &str,
    output_index: &str,
    value: &str,
) -> (r: String)
    ensures
        r@ == joined(unary_parts(header@, input_ty@, output_ty@, output_index@, value@)),
{
    let parts: Vec<&str> = vec![
        header,
        UNARY_START,
        KERNEL_KEYWORD,
        UNARY_KERNEL,
        PARAMETERS_OPEN,
        UNARY_TO_INPUT_TY,
        input_ty,
        UNARY_TO_OUTPUT_TY,
        output_ty,
        UNARY_TO_OUTPUT_INDEX,
        output_index,
        UNARY_TO_VALUE,
        value,
        UNARY_END,
    ];
    proof {
        assert(texts(parts@) == unary_parts(header@, input_ty@, output_ty@, output_index@, value@));
    }
    concat(&parts)
}

pub const BINARY_START: &'static str = "
        ";

/// The name of the binary kernel.
pub const BINARY_KERNEL: &'static str = "binary_kernel";

pub const BINARY_TO_A_TY: &'static str = "
            __global const ";

pub const BINARY_TO_B_TY: &'static str = " *a,
            __global const ";

pub const BINARY_TO_OUTPUT_TY: &'static str = " *b,
            __global ";

pub const BINARY_TO_OUTPUT_INDEX: &'static str = " *output,
            __global const int *dyn,
            uint n_elements)
        {
            int idx = (int)get_global_id(0);
            if ((uint)idx < n_elements) {
                output[";

pub const BINARY_TO_VALUE: &'static str = "] = ";

pub const BINARY_END: &'static str = ";
            }
        }
        ";

/// The parts of a kernel that applies a function of two arguments to every pair of elements.
pub open spec fn binary_parts(
    header: Seq<char>,
    a_ty: Seq<char>,
    b_ty: Seq<char>,
    output_ty: Seq<char>,
    output_index: Seq<char>,
    value: Seq<char>,
) -> Seq<Seq<char>> {
    seq![
        header,
        BINARY_START@,
        KERNEL_KEYWORD@,
        BINARY_KERNEL@,
        PARAMETERS_OPEN@,
        BINARY_TO_A_TY@,
        a_ty,
        BINARY_TO_B_TY@,
        b_ty,
        BINARY_TO_OUTPUT_TY@,
        output_ty,
        BINARY_TO_OUTPUT_INDEX@,
        output_index,
        BINARY_TO_VALUE@,
        value,
        BINARY_END@,
    ]
}

/// The text of a kernel that applies a function of two arguments to every pair of elements.
pub(crate) fn write_binary(
    header: &str,
    a_ty: &str,
    b_ty: &str,
    output_ty: &str,
    output_index: &str,
    value: &str,
) -> (r: String)
    ensures
        r@ == joined(binary_parts(header@, a_ty@, b_ty@, output_ty@, output_index@, value@)),
{
    let parts: Vec<&str> = vec![
        header,
        BINARY_START,
        KERNEL_KEYWORD,
        BINARY_KERNEL,
        PARAMETERS_OPEN,
        BINARY_TO_A_TY,
        a_ty,
        BINARY_TO_B_TY,
        b_ty,
        BINARY_TO_OUTPUT_TY,
        output_ty,
        BINARY_TO_OUTPUT_INDEX,
        output_index,
        BINARY_TO_VALUE,
        value,
        BINARY_END,
    ];
    proof {
        assert(texts(parts@) == binary_parts(header@, a_ty@, b_ty@, output_ty@, output_index@, value@));
    }
    concat(&parts)
}

pub const LESS_THAN_START: &'static str = "
            ";

/// The name of the less than kernel.
pub const LESS_THAN_KERNEL: &'static str = "less_than_kernel";

pub const LESS_THAN_TO_A_TY: &'static str = "
                __global const ";

pub const LESS_THAN_TO_B_TY: &'static str = " *a,
                __global const ";

pub const LESS_THAN_TO_OUTPUT_TY: &'static str = " *b,
                __global ";

pub const LESS_THAN_TO_OUTPUT_INDEX: &'static str = " *output,
                __global const int *dyn,
                uint n_elements)
            {
                int idx = (int)get_global_id(0);
                if ((uint)idx < n_elements) {
                    output[";

pub const LESS_THAN_TO_A_VALUE: &'static str = "] = (uchar)((";

pub const LESS_THAN_TO_B_VALUE: &'static str = ") < (";

pub const LESS_THAN_END: &'static str = "));
                }
            }
            ";

/// The parts of a kernel that compares every pair of elements.
pub open spec fn less_than_parts(
    header: Seq<char>,
    a_ty: Seq<char>,
    b_ty: Seq<char>,
    output_ty: Seq<char>,
    output_index: Seq<char>,
    a_value: Seq<char>,
    b_value: Seq<char>,
) -> Seq<Seq<char>> {
    seq![
        header,
        LESS_THAN_START@,
        KERNEL_KEYWORD@,
        LESS_THAN_KERNEL@,
        PARAMETERS_OPEN@,
        LESS_THAN_TO_A_TY@,
        a_ty,
        LESS_THAN_TO_B_TY@,
        b_ty,
        LESS_THAN_TO_OUTPUT_TY@,
        output_ty,
        LESS_THAN_TO_OUTPUT_INDEX@,
        output_index,
        LESS_THAN_TO_A_VALUE@,
        a_value,
        LESS_THAN_TO_B_VALUE@,
        b_value,
        LESS_THAN_END@,
    ]
}

/// The text of a kernel that compares every pair of elements.
pub(crate) fn write_less_than(
    header: &str,
    a_ty: &str,
    b_ty: &str,
    output_ty: &str,
    output_index: &str,
    a_value: &str,
    b_value: &str,
) -> (r: String)
    ensures
        r@ == joined(less_than_parts(header@, a_ty@, b_ty@, output_ty@, output_index@, a_value@, b_value@)),
{
    let parts: Vec<&str> = vec![
        header,
        LESS_THAN_START,
        KERNEL_KEYWORD,
        LESS_THAN_KERNEL,
        PARAMETERS_OPEN,
        LESS_THAN_TO_A_TY,
        a_ty,
        LESS_THAN_TO_B_TY,
        b_ty,
        LESS_THAN_TO_OUTPUT_TY,
        output_ty,
        LESS_THAN_TO_OUTPUT_INDEX,
        output_index,
        LESS_THAN_TO_A_VALUE,
        a_value,
        LESS_THAN_TO_B_VALUE,
        b_value,
        LESS_THAN_END,
    ];
    proof {
        assert(texts(parts@) == less_than_parts(header@, a_ty@, b_ty@, output_ty@, output_index@, a_value@, b_value@));
    }
    concat(&parts)
}

pub const SUM_START: &'static str = "
            ";

/// The name of the sum kernel.
pub const SUM_KERNEL: &'static str = "sum_kernel";

pub const SUM_TO_INPUT_TY: &'static str = "
                __global const ";

pub const SUM_TO_OUTPUT_TY: &'static str = " *input,
                __global ";

pub const SUM_TO_INPUT_START: &'static str = " *output,
                __global const int *dyn,
                uint n_outputs)
            {
                int idx = (int)get_global_id(0);
                if ((uint)idx >= n_outputs) return;
                int input_start = ";

pub const SUM_TO_ITERS: &'static str = ";
                int reduction_len = ";

pub const SUM_TO_ACC_TY: &'static str = ";
                ";

pub const SUM_TO_INITIAL: &'static str = " sum = ";

pub const SUM_TO_INPUT_VALUE: &'static str = ";
                for (int i = 0; i < reduction_len; ++i) {
                    sum += ";

pub const SUM_TO_OUTPUT_INDEX: &'static str = ";
                }
                output[";

pub const SUM_TO_OUTPUT_VALUE: &'static str = "] = ";

pub const SUM_END: &'static str = ";
            }
            ";

/// The parts of a kernel that sums along one dimension.
pub open spec fn sum_parts(
    header: Seq<char>,
    input_ty: Seq<char>,
    output_ty: Seq<char>,
    input_start: Seq<char>,
    iters: Seq<char>,
    acc_ty: Seq<char>,
    initial: Seq<char>,
    input_value: Seq<char>,
    output_index: Seq<char>,
    output_value: Seq<char>,
) -> Seq<Seq<char>> {
    seq![
        header,
        SUM_START@,
        KERNEL_KEYWORD@,
        SUM_KERNEL@,
        PARAMETERS_OPEN@,
        SUM_TO_INPUT_TY@,
        input_ty,
        SUM_TO_OUTPUT_TY@,
        output_ty,
        SUM_TO_INPUT_START@,
        input_start,
        SUM_TO_ITERS@,
        iters,
        SUM_TO_ACC_TY@,
        acc_ty,
        SUM_TO_INITIAL@,
        initial,
        SUM_TO_INPUT_VALUE@,
        input_value,
        SUM_TO_OUTPUT_INDEX@,
        output_index,
        SUM_TO_OUTPUT_VALUE@,
        output_value,
        SUM_END@,
    ]
}

/// The text of a kernel that sums along one dimension.
pub(crate) fn write_sum(
    header: &str,
    input_ty: &str,
    output_ty: &str,
    input_start: &str,
    iters: &str,
    acc_ty: &str,
    initial: &str,
    input_value: &str,
    output_index: &str,
    output_value: &str,
) -> (r: String)
    ensures
        r@ == joined(sum_parts(header@, input_ty@, output_ty@, input_start@, iters@, acc_ty@, initial@, input_value@, output_index@, output_value@)),
{
    let parts: Vec<&str> = vec![
        header,
        SUM_START,
        KERNEL_KEYWORD,
        SUM_KERNEL,
        PARAMETERS_OPEN,
        SUM_TO_INPUT_TY,
        input_ty,
        SUM_TO_OUTPUT_TY,
        output_ty,
        SUM_TO_INPUT_START,
        input_start,
        SUM_TO_ITERS,
        iters,
        SUM_TO_ACC_TY,
        acc_ty,
        SUM_TO_INITIAL,
        initial,
        SUM_TO_INPUT_VALUE,
        input_value,
        SUM_TO_OUTPUT_INDEX,
        output_index,
        SUM_TO_OUTPUT_VALUE,
        output_value,
        SUM_END,
    ];
    proof {
        assert(texts(parts@) == sum_parts(header@, input_ty@, output_ty@, input_start@, iters@, acc_ty@, initial@, input_value@, output_index@, output_value@));
    }
    concat(&parts)
}

pub const MAX_START: &'static str = "
            ";

/// The name of the max kernel.
pub const MAX_KERNEL: &'static str = "max_kernel";

pub const MAX_TO_INPUT_TY: &'static str = "
                __global const ";

pub const MAX_TO_OUTPUT_TY: &'static str = " *input,
                __global ";

pub const MAX_TO_INPUT_START: &'static str = " *output,
                __global const int *dyn,
                uint n_outputs)
            {
                int idx = (int)get_global_id(0);
                if ((uint)idx >= n_outputs) return;
                int input_start = ";

pub const MAX_TO_ITERS: &'static str = ";
                int reduction_len = ";

pub const MAX_TO_ACC_TY: &'static str = ";
                ";

pub const MAX_TO_INITIAL: &'static str = " max_value = ";

pub const MAX_TO_ACC_TY_2: &'static str = ";
                for (int i = 0; i < reduction_len; ++i) {
                    ";

pub const MAX_TO_INPUT_VALUE: &'static str = " value = ";

pub const MAX_TO_UPDATE: &'static str = ";
                    ";

pub const MAX_TO_OUTPUT_INDEX: &'static str = "
                }
                output[";

pub const MAX_TO_OUTPUT_VALUE: &'static str = "] = ";

pub const MAX_END: &'static str = ";
            }
            ";

/// The parts of a kernel that takes the maximum along one dimension.
pub open spec fn max_parts(
    header: Seq<char>,
    input_ty: Seq<char>,
    output_ty: Seq<char>,
    input_start: Seq<char>,
    iters: Seq<char>,
    acc_ty: Seq<char>,
    initial: Seq<char>,
    input_value: Seq<char>,
    update: Seq<char>,
    output_index: Seq<char>,
    output_value: Seq<char>,
) -> Seq<Seq<char>> {
    seq![
        header,
        MAX_START@,
        KERNEL_KEYWORD@,
        MAX_KERNEL@,
        PARAMETERS_OPEN@,
        MAX_TO_INPUT_TY@,
        input_ty,
        MAX_TO_OUTPUT_TY@,
        output_ty,
        MAX_TO_INPUT_START@,
        input_start,
        MAX_TO_ITERS@,
        iters,
        MAX_TO_ACC_TY@,
        acc_ty,
        MAX_TO_INITIAL@,
        initial,
        MAX_TO_ACC_TY_2@,
        acc_ty,
        MAX_TO_INPUT_VALUE@,
        input_value,
        MAX_TO_UPDATE@,
        update,
        MAX_TO_OUTPUT_INDEX@,
        output_index,
        MAX_TO_OUTPUT_VALUE@,
        output_value,
        MAX_END@,
    ]
}

/// The text of a kernel that takes the maximum along one dimension.
pub(crate) fn write_max(
    header: &str,
    input_ty: &str,
    output_ty: &str,
    input_start: &str,
    iters: &str,
    acc_ty: &str,
    initial: &str,
    input_value: &str,
    update: &str,
    output_index: &str,
    output_value: &str,
) -> (r: String)
    ensures
        r@ == joined(max_parts(header@, input_ty@, output_ty@, input_start@, iters@, acc_ty@, initial@, input_value@, update@, output_index@, output_value@)),
{
    let parts: Vec<&str> = vec![
        header,
        MAX_START,
        KERNEL_KEYWORD,
        MAX_KERNEL,
        PARAMETERS_OPEN,
        MAX_TO_INPUT_TY,
        input_ty,
        MAX_TO_OUTPUT_TY,
        output_ty,
        MAX_TO_INPUT_START,
        input_start,
        MAX_TO_ITERS,
        iters,
        MAX_TO_ACC_TY,
        acc_ty,
        MAX_TO_INITIAL,
        initial,
        MAX_TO_ACC_TY_2,
        acc_ty,
        MAX_TO_INPUT_VALUE,
        input_value,
        MAX_TO_UPDATE,
        update,
        MAX_TO_OUTPUT_INDEX,
        output_index,
        MAX_TO_OUTPUT_VALUE,
        output_value,
        MAX_END,
    ];
    proof {
        assert(texts(parts@) == max_parts(header@, input_ty@, output_ty@, input_start@, iters@, acc_ty@, initial@, input_value@, update@, output_index@, output_value@));
    }
    concat(&parts)
}

pub const MATMUL_START: &'static str = "
            ";

/// The name of the matmul kernel.
pub const MATMUL_KERNEL: &'static str = "matmul_kernel";

pub const MATMUL_TO_LHS_TY: &'static str = "
                __global const ";

pub const MATMUL_TO_RHS_TY: &'static str = " *lhs,
                __global const ";

pub const MATMUL_TO_OUTPUT_TY: &'static str = " *rhs,
                __global ";

pub const MATMUL_TO_SUM_BASE: &'static str = " *output,
                __global const int *dyn,
                uint n_outputs)
            {
                int idx = (int)get_global_id(0);
                if ((uint)idx >= n_outputs) return;
                int base_idx = ";

pub const MATMUL_TO_ITERS: &'static str = ";
                int reduction_len = ";

pub const MATMUL_TO_ACC_TY: &'static str = ";
                ";

pub const MATMUL_TO_INITIAL: &'static str = " sum = ";

pub const MATMUL_TO_ITER_OFFSET: &'static str = ";
                for (int i = 0; i < reduction_len; ++i) {
                    int mul_idx = base_idx + ";

pub const MATMUL_TO_LHS_VALUE: &'static str = ";
                    sum += (";

pub const MATMUL_TO_RHS_VALUE: &'static str = ") * (";

pub const MATMUL_TO_OUTPUT_INDEX: &'static str = ");
                }
                output[";

pub const MATMUL_TO_OUTPUT_VALUE: &'static str = "] = ";

pub const MATMUL_END: &'static str = ";
            }
            ";

/// The parts of a kernel that multiplies and sums along one dimension.
pub open spec fn matmul_parts(
    header: Seq<char>,
    lhs_ty: Seq<char>,
    rhs_ty: Seq<char>,
    output_ty: Seq<char>,
    sum_base: Seq<char>,
    iters: Seq<char>,
    acc_ty: Seq<char>,
    initial: Seq<char>,
    iter_offset: Seq<char>,
    lhs_value: Seq<char>,
    rhs_value: Seq<char>,
    output_index: Seq<char>,
    output_value: Seq<char>,
) -> Seq<Seq<char>> {
    seq![
        header,
        MATMUL_START@,
        KERNEL_KEYWORD@,
        MATMUL_KERNEL@,
        PARAMETERS_OPEN@,
        MATMUL_TO_LHS_TY@,
        lhs_ty,
        MATMUL_TO_RHS_TY@,
        rhs_ty,
        MATMUL_TO_OUTPUT_TY@,
        output_ty,
        MATMUL_TO_SUM_BASE@,
        sum_base,
        MATMUL_TO_ITERS@,
        iters,
        MATMUL_TO_ACC_TY@,
        acc_ty,
        MATMUL_TO_INITIAL@,
        initial,
        MATMUL_TO_ITER_OFFSET@,
        iter_offset,
        MATMUL_TO_LHS_VALUE@,
        lhs_value,
        MATMUL_TO_RHS_VALUE@,
        rhs_value,
        MATMUL_TO_OUTPUT_INDEX@,
        output_index,
        MATMUL_TO_OUTPUT_VALUE@,
        output_value,
        MATMUL_END@,
    ]
}

/// The text of a kernel that multiplies and sums along one dimension.
pub(crate) fn write_matmul(
    header: &str,
    lhs_ty: &str,
    rhs_ty: &str,
    output_ty: &str,
    sum_base: &str,
    iters: &str,
    acc_ty: &str,
    initial: &str,
    iter_offset: &str,
    lhs_value: &str,
    rhs_value: &str,
    output_index: &str,
    output_value: &str,
) -> (r: String)
    ensures
        r@ == joined(matmul_parts(header@, lhs_ty@, rhs_ty@, output_ty@, sum_base@, iters@, acc_ty@, initial@, iter_offset@, lhs_value@, rhs_value@, output_index@, output_value@)),
{
    let parts: Vec<&str> = vec![
        header,
        MATMUL_START,
        KERNEL_KEYWORD,
        MATMUL_KERNEL,
        PARAMETERS_OPEN,
        MATMUL_TO_LHS_TY,
        lhs_ty,
        MATMUL_TO_RHS_TY,
        rhs_ty,
        MATMUL_TO_OUTPUT_TY,
        output_ty,
        MATMUL_TO_SUM_BASE,
        sum_base,
        MATMUL_TO_ITERS,
        iters,
        MATMUL_TO_ACC_TY,
        acc_ty,
        MATMUL_TO_INITIAL,
        initial,
        MATMUL_TO_ITER_OFFSET,
        iter_offset,
        MATMUL_TO_LHS_VALUE,
        lhs_value,
        MATMUL_TO_RHS_VALUE,
        rhs_value,
        MATMUL_TO_OUTPUT_INDEX,
        output_index,
        MATMUL_TO_OUTPUT_VALUE,
        output_value,
        MATMUL_END,
    ];
    proof {
        assert(texts(parts@) == matmul_parts(header@, lhs_ty@, rhs_ty@, output_ty@, sum_base@, iters@, acc_ty@, initial@, iter_offset@, lhs_value@, rhs_value@, output_index@, output_value@));
    }
    concat(&parts)
}

pub const CONSTANT_START: &'static str = "
            ";

/// The name of the constant kernel.
pub const CONSTANT_KERNEL: &'static str = "constant_kernel";

pub const CONSTANT_TO_BITS: &'static str = "__global float *output) {
                if (get_global_id(0) == 0) output[0] = as_float(0x";

pub const CONSTANT_END: &'static str = "u);
            }
            ";

/// The parts of a kernel that stores one constant.
pub open spec fn constant_parts(
    bits: Seq<char>,
) -> Seq<Seq<char>> {
    seq![
        CONSTANT_START@,
        KERNEL_KEYWORD@,
        CONSTANT_KERNEL@,
        PARAMETERS_OPEN@,
        CONSTANT_TO_BITS@,
        bits,
        CONSTANT_END@,
    ]
}

/// The text of a kernel that stores one constant.
pub(crate) fn write_constant(
    bits: &str,
) -> (r: String)
    ensures
        r@ == joined(constant_parts(bits@)),
{
    let parts: Vec<&str> = vec![
        CONSTANT_START,
        KERNEL_KEYWORD,
        CONSTANT_KERNEL,
        PARAMETERS_OPEN,
        CONSTANT_TO_BITS,
        bits,
        CONSTANT_END,
    ];
    proof {
        assert(texts(parts@) == constant_parts(bits@));
    }
    concat(&parts)
}

pub const IOTA_START: &'static str = "
            ";

/// The name of an iota kernel.
pub const IOTA_KERNEL: &'static str = "iota_kernel";

pub const IOTA_TO_EXPRESSION: &'static str = "
                __global int *output,
                __global const int *dyn,
                uint n_elements)
            {
                int idx = (int)get_global_id(0);
                if ((uint)idx < n_elements) output[idx] = (int)(";

pub const IOTA_END: &'static str = ");
            }
            ";

/// The parts of a kernel that stores a function of the element number.
pub open spec fn iota_parts(
    expression: Seq<char>,
) -> Seq<Seq<char>> {
    seq![
        IOTA_START@,
        KERNEL_KEYWORD@,
        IOTA_KERNEL@,
        PARAMETERS_OPEN@,
        IOTA_TO_EXPRESSION@,
        expression,
        IOTA_END@,
    ]
}

/// The text of a kernel that stores a function of the element number.
pub(crate) fn write_iota(
    expression: &str,
) -> (r: String)
    ensures
        r@ == joined(iota_parts(expression@)),
{
    let parts: Vec<&str> = vec![
        IOTA_START,
        KERNEL_KEYWORD,
        IOTA_KERNEL,
        PARAMETERS_OPEN,
        IOTA_TO_EXPRESSION,
        expression,
        IOTA_END,
    ];
    proof {
        assert(texts(parts@) == iota_parts(expression@));
    }
    concat(&parts)
}

pub const GATHER_START: &'static str = "
            ";

/// The name of the gather kernel.
pub const GATHER_KERNEL: &'static str = "gather_kernel";

pub const GATHER_TO_DATA_TY: &'static str = "
                __global const int *indexes,
                __global const ";

pub const GATHER_TO_OUTPUT_TY: &'static str = " *data,
                __global ";

pub const GATHER_TO_INDEX_INDEX: &'static str = " *output,
                __global const int *dyn,
                uint n_elements)
            {
                int idx = (int)get_global_id(0);
                if ((uint)idx < n_elements) {
                    int gathered_index = indexes[";

pub const GATHER_TO_OUTPUT_INDEX: &'static str = "];
                    output[";

pub const GATHER_TO_VALUE: &'static str = "] = ";

pub const GATHER_END: &'static str = ";
                }
            }
            ";

/// The parts of a kernel that reads elements by index.
pub open spec fn gather_parts(
    header: Seq<char>,
    data_ty: Seq<char>,
    output_ty: Seq<char>,
    index_index: Seq<char>,
    output_index: Seq<char>,
    value: Seq<char>,
) -> Seq<Seq<char>> {
    seq![
        header,
        GATHER_START@,
        KERNEL_KEYWORD@,
        GATHER_KERNEL@,
        PARAMETERS_OPEN@,
        GATHER_TO_DATA_TY@,
        data_ty,
        GATHER_TO_OUTPUT_TY@,
        output_ty,
        GATHER_TO_INDEX_INDEX@,
        index_index,
        GATHER_TO_OUTPUT_INDEX@,
        output_index,
        GATHER_TO_VALUE@,
        value,
        GATHER_END@,
    ]
}

/// The text of a kernel that reads elements by index.
pub(crate) fn write_gather(
    header: &str,
    data_ty: &str,
    output_ty: &str,
    index_index: &str,
    output_index: &str,
    value: &str,
) -> (r: String)
    ensures
        r@ == joined(gather_parts(header@, data_ty@, output_ty@, index_index@, output_index@, value@)),
{
    let parts: Vec<&str> = vec![
        header,
        GATHER_START,
        KERNEL_KEYWORD,
        GATHER_KERNEL,
        PARAMETERS_OPEN,
        GATHER_TO_DATA_TY,
        data_ty,
        GATHER_TO_OUTPUT_TY,
        output_ty,
        GATHER_TO_INDEX_INDEX,
        index_index,
        GATHER_TO_OUTPUT_INDEX,
        output_index,
        GATHER_TO_VALUE,
        value,
        GATHER_END,
    ];
    proof {
        assert(texts(parts@) == gather_parts(header@, data_ty@, output_ty@, index_index@, output_index@, value@));
    }
    concat(&parts)
}

pub const SCATTER_START: &'static str = "
            ";

/// The name of the scatter copy kernel.
pub const SCATTER_COPY_KERNEL: &'static str = "scatter_copy_kernel";

pub const SCATTER_TO_DEST_TY: &'static str = "
                __global const ";

pub const SCATTER_TO_OUTPUT_TY: &'static str = " *dest,
                __global ";

pub const SCATTER_TO_COPY_OUTPUT_INDEX: &'static str = " *output,
                __global const int *dyn,
                uint n_elements)
            {
                int idx = (int)get_global_id(0);
                if ((uint)idx < n_elements) output[";

pub const SCATTER_TO_DEST_INDEX: &'static str = "] = dest[";

pub const SCATTER_SECOND_START: &'static str = "];
            }

            ";

/// The name of the scatter write kernel.
pub const SCATTER_WRITE_KERNEL: &'static str = "scatter_write_kernel";

pub const SCATTER_TO_SRC_TY: &'static str = "
                __global const int *indexes,
                __global const ";

pub const SCATTER_TO_OUTPUT_TY_2: &'static str = " *src,
                __global ";

pub const SCATTER_TO_INDEX_INDEX: &'static str = " *output,
                __global const int *dyn,
                uint n_elements)
            {
                int idx = (int)get_global_id(0);
                if ((uint)idx < n_elements) {
                    int output_index = indexes[";

pub const SCATTER_TO_SRC_INDEX: &'static str = "];
                    output[output_index] = src[";

pub const SCATTER_END: &'static str = "];
                }
            }
            ";

/// The parts of the two kernels that copy a tensor and then write elements by index.
pub open spec fn scatter_parts(
    header: Seq<char>,
    dest_ty: Seq<char>,
    output_ty: Seq<char>,
    copy_output_index: Seq<char>,
    dest_index: Seq<char>,
    src_ty: Seq<char>,
    index_index: Seq<char>,
    src_index: Seq<char>,
) -> Seq<Seq<char>> {
    seq![
        header,
        SCATTER_START@,
        KERNEL_KEYWORD@,
        SCATTER_COPY_KERNEL@,
        PARAMETERS_OPEN@,
        SCATTER_TO_DEST_TY@,
        dest_ty,
        SCATTER_TO_OUTPUT_TY@,
        output_ty,
        SCATTER_TO_COPY_OUTPUT_INDEX@,
        copy_output_index,
        SCATTER_TO_DEST_INDEX@,
        dest_index,
        SCATTER_SECOND_START@,
        KERNEL_KEYWORD@,
        SCATTER_WRITE_KERNEL@,
        PARAMETERS_OPEN@,
        SCATTER_TO_SRC_TY@,
        src_ty,
        SCATTER_TO_OUTPUT_TY_2@,
        output_ty,
        SCATTER_TO_INDEX_INDEX@,
        index_index,
        SCATTER_TO_SRC_INDEX@,
        src_index,
        SCATTER_END@,
    ]
}

/// The text of the two kernels that copy a tensor and then write elements by index.
pub(crate) fn write_scatter(
    header: &str,
    dest_ty: &str,
    output_ty: &str,
    copy_output_index: &str,
    dest_index: &str,
    src_ty: &str,
    index_index: &str,
    src_index: &str,
) -> (r: String)
    ensures
        r@ == joined(scatter_parts(header@, dest_ty@, output_ty@, copy_output_index@, dest_index@, src_ty@, index_index@, src_index@)),
{
    let parts: Vec<&str> = vec![
        header,
        SCATTER_START,
        KERNEL_KEYWORD,
        SCATTER_COPY_KERNEL,
        PARAMETERS_OPEN,
        SCATTER_TO_DEST_TY,
        dest_ty,
        SCATTER_TO_OUTPUT_TY,
        output_ty,
        SCATTER_TO_COPY_OUTPUT_INDEX,
        copy_output_index,
        SCATTER_TO_DEST_INDEX,
        dest_index,
        SCATTER_SECOND_START,
        KERNEL_KEYWORD,
        SCATTER_WRITE_KERNEL,
        PARAMETERS_OPEN,
        SCATTER_TO_SRC_TY,
        src_ty,
        SCATTER_TO_OUTPUT_TY_2,
        output_ty,
        SCATTER_TO_INDEX_INDEX,
        index_index,
        SCATTER_TO_SRC_INDEX,
        src_index,
        SCATTER_END,
    ];
    proof {
        assert(texts(parts@) == scatter_parts(header@, dest_ty@, output_ty@, copy_output_index@, dest_index@, src_ty@, index_index@, src_index@));
    }
    concat(&parts)
}

pub const CAST_START: &'static str = "
            ";

/// The name of the cast kernel.
pub const CAST_KERNEL: &'static str = "cast_kernel";

pub const CAST_TO_INPUT_TY: &'static str = "
                __global const ";

pub const CAST_TO_OUTPUT_TY: &'static str = " *input,
                __global ";

pub const CAST_TO_VALUE: &'static str = " *output,
                __global const int *dyn,
                uint n_elements)
            {
                int idx = (int)get_global_id(0);
                if ((uint)idx < n_elements) output[idx] = ";

pub const CAST_END: &'static str = ";
            }
            ";

/// The parts of a kernel that converts every element.
pub open spec fn cast_parts(
    header: Seq<char>,
    input_ty: Seq<char>,
    output_ty: Seq<char>,
    value: Seq<char>,
) -> Seq<Seq<char>> {
    seq![
        header,
        CAST_START@,
        KERNEL_KEYWORD@,
        CAST_KERNEL@,
        PARAMETERS_OPEN@,
        CAST_TO_INPUT_TY@,
        input_ty,
        CAST_TO_OUTPUT_TY@,
        output_ty,
        CAST_TO_VALUE@,
        value,
        CAST_END@,
    ]
}

/// The text of a kernel that converts every element.
pub(crate) fn write_cast(
    header: &str,
    input_ty: &str,
    output_ty: &str,
    value: &str,
) -> (r: String)
    ensures
        r@ == joined(cast_parts(header@, input_ty@, output_ty@, value@)),
{
    let parts: Vec<&str> = vec![
        header,
        CAST_START,
        KERNEL_KEYWORD,
        CAST_KERNEL,
        PARAMETERS_OPEN,
        CAST_TO_INPUT_TY,
        input_ty,
        CAST_TO_OUTPUT_TY,
        output_ty,
        CAST_TO_VALUE,
        value,
        CAST_END,
    ];
    proof {
        assert(texts(parts@) == cast_parts(header@, input_ty@, output_ty@, value@));
    }
    concat(&parts)
}

} // verus!
