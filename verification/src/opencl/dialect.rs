//! The OpenCL C notation for element types, reads and writes.

use vstd::prelude::*;
use vstd::string::StringExecFns;

use crate::dtype::DType;

verus! {

/// Why a kernel cannot be written for the given element types.
#[derive(Clone, Copy, PartialEq, Eq, Structural, Debug)]
pub enum KernelError {
    /// The type has no OpenCL storage.
    UnsupportedDType(DType),
    /// Bool tensors have no sum.
    BoolSum,
    /// Bool tensors have no maximum.
    BoolMax,
}

/// Whether the backend stores tensors of this type.
pub open spec fn storable(dtype: DType) -> bool {
    dtype is F32 || dtype is F16 || dtype is Int || dtype is Bool
}

/// The OpenCL type of the elements of a buffer.
pub open spec fn buffer_type_text(dtype: DType) -> Seq<char> {
    match dtype {
        DType::F32 => "float"@,
        DType::F16 => "half"@,
        DType::Int => "int"@,
        DType::Bool => "uchar"@,
        _ => Seq::empty(),
    }
}

/// The OpenCL type of the elements of a buffer.
pub fn buffer_type(dtype: DType) -> (r: Result<&'static str, KernelError>)
    ensures
        match r {
            Ok(text) => storable(dtype) && text@ == buffer_type_text(dtype),
            Err(error) => !storable(dtype) && error == KernelError::UnsupportedDType(dtype),
        },
{
    match dtype {
        DType::F32 => Ok("float"),
        DType::F16 => Ok("half"),
        DType::Int => Ok("int"),
        DType::Bool => Ok("uchar"),
        _ => Err(KernelError::UnsupportedDType(dtype)),
    }
}

/// The pragma that enables half precision.
pub const FP16_PRAGMA: &'static str = "#pragma OPENCL EXTENSION cl_khr_fp16 : enable\n";

/// What a program that handles these types starts with.
pub open spec fn header_text(dtypes: Seq<DType>) -> Seq<char> {
    if dtypes.contains(DType::F16) {
        FP16_PRAGMA@
    } else {
        ""@
    }
}

/// What a program that handles these types starts with.
pub fn source_header(dtypes: &Vec<DType>) -> (r: &'static str)
    ensures
        r@ == header_text(dtypes@),
{
    for i in 0..dtypes.len()
        invariant
            forall|j: int| 0 <= j < i ==> dtypes@[j] != DType::F16,
    {
        if dtypes[i] == DType::F16 {
            return FP16_PRAGMA;
        }
    }
    ""
}

/// An element of a buffer.
pub open spec fn element_text(buffer: Seq<char>, index: Seq<char>) -> Seq<char> {
    buffer + "["@ + index + "]"@
}

/// An element of a buffer.
fn element(buffer: &str, index: &str) -> (r: String)
    ensures
        r@ == element_text(buffer@, index@),
{
    let mut text = buffer.to_owned();
    text.append("[");
    text.append(index);
    text.append("]");
    text
}

/// A call of a function of one argument.
pub open spec fn call_text(function: Seq<char>, argument: Seq<char>) -> Seq<char> {
    function + "("@ + argument + ")"@
}

/// A call of a function of one argument.
pub(crate) fn call(function: &str, argument: &str) -> (r: String)
    ensures
        r@ == call_text(function@, argument@),
{
    let mut text = function.to_owned();
    text.append("(");
    text.append(argument);
    text.append(")");
    text
}

/// Two operands, each in brackets, with an operator between them.
pub open spec fn infix_text(a: Seq<char>, operator: Seq<char>, b: Seq<char>) -> Seq<char> {
    "("@ + a + ") "@ + operator + " ("@ + b + ")"@
}

/// Two operands, each in brackets, with an operator between them.
pub(crate) fn infix(a: &str, operator: &str, b: &str) -> (r: String)
    ensures
        r@ == infix_text(a@, operator@, b@),
{
    let mut text = "(".to_owned();
    text.append(a);
    text.append(") ");
    text.append(operator);
    text.append(" (");
    text.append(b);
    text.append(")");
    text
}

/// An element as a number to compute with: half precision, integers and truth
/// values are widened to single precision.
pub open spec fn numeric_read_text(
    dtype: DType,
    buffer: Seq<char>,
    index: Seq<char>,
) -> Seq<char> {
    if dtype is F32 {
        element_text(buffer, index)
    } else {
        call_text("convert_float"@, element_text(buffer, index))
    }
}

/// An element as a number to compute with.
pub fn numeric_read(dtype: DType, buffer: &str, index: &str) -> (r: String)
    requires
        storable(dtype),
    ensures
        r@ == numeric_read_text(dtype, buffer@, index@),
{
    let value = element(buffer, index);
    match dtype {
        DType::F32 => value,
        _ => call("convert_float", value.as_str()),
    }
}

/// An element in its own type.
pub fn exact_read(dtype: DType, buffer: &str, index: &str) -> (r: String)
    requires
        storable(dtype),
    ensures
        r@ == element_text(buffer@, index@),
{
    element(buffer, index)
}

/// A computed number in the type that it is stored in.
pub open spec fn numeric_write_text(dtype: DType, value: Seq<char>) -> Seq<char> {
    match dtype {
        DType::F16 => call_text("convert_half"@, value),
        DType::Int => call_text("convert_int_rtz"@, value),
        DType::Bool => "(uchar)(("@ + value + ") != 0)"@,
        _ => value,
    }
}

/// A computed number in the type that it is stored in.
pub fn numeric_write(dtype: DType, value: &str) -> (r: String)
    requires
        storable(dtype),
    ensures
        r@ == numeric_write_text(dtype, value@),
{
    match dtype {
        DType::F16 => call("convert_half", value),
        DType::Int => call("convert_int_rtz", value),
        DType::Bool => {
            let mut text = "(uchar)((".to_owned();
            text.append(value);
            text.append(") != 0)");
            text
        },
        _ => value.to_owned(),
    }
}

/// How a kernel with this result type reads an operand: integer results are
/// computed on the operands' own values, all others in single precision.
pub open spec fn operand_text(
    output: DType,
    dtype: DType,
    buffer: Seq<char>,
    index: Seq<char>,
) -> Seq<char> {
    if output is Int {
        element_text(buffer, index)
    } else {
        numeric_read_text(dtype, buffer, index)
    }
}

/// How a kernel with this result type reads an operand.
pub(crate) fn operand(output: DType, dtype: DType, buffer: &str, index: &str) -> (r: String)
    requires
        storable(dtype),
    ensures
        r@ == operand_text(output, dtype, buffer@, index@),
{
    match output {
        DType::Int => exact_read(dtype, buffer, index),
        _ => numeric_read(dtype, buffer, index),
    }
}

/// How a kernel with this result type reads its two operands `a` and `b`.
pub fn binary_values(
    output_dtype: DType,
    a_dtype: DType,
    b_dtype: DType,
    a_index: &str,
    b_index: &str,
) -> (r: (String, String))
    requires
        storable(a_dtype),
        storable(b_dtype),
    ensures
        r.0@ == operand_text(output_dtype, a_dtype, "a"@, a_index@),
        r.1@ == operand_text(output_dtype, b_dtype, "b"@, b_index@),
{
    (operand(output_dtype, a_dtype, "a", a_index), operand(output_dtype, b_dtype, "b", b_index))
}

/// The value of a converted element.
pub open spec fn cast_value_text(from: DType, to: DType) -> Seq<char> {
    if to is Bool {
        "(uchar)(input[idx] != 0)"@
    } else if from == to {
        "input[idx]"@
    } else if to is F32 {
        "convert_float(input[idx])"@
    } else if to is F16 {
        "convert_half(input[idx])"@
    } else if from is Bool {
        "convert_int(input[idx])"@
    } else {
        "convert_int_rtz(input[idx])"@
    }
}

/// The value of a converted element.
pub fn cast_value(from: DType, to: DType) -> (r: &'static str)
    requires
        storable(from),
        storable(to),
    ensures
        r@ == cast_value_text(from, to),
{
    match (from, to) {
        (_, DType::Bool) => "(uchar)(input[idx] != 0)",
        (DType::Bool, DType::F32) | (DType::Int, DType::F32) | (DType::F16, DType::F32) =>
            "convert_float(input[idx])",
        (DType::Bool, DType::F16) | (DType::Int, DType::F16) | (DType::F32, DType::F16) =>
            "convert_half(input[idx])",
        (DType::Bool, DType::Int) => "convert_int(input[idx])",
        (DType::F32, DType::Int) | (DType::F16, DType::Int) => "convert_int_rtz(input[idx])",
        _ => "input[idx]",
    }
}

/// The number of bytes that OpenCL gives to an element of a type.
pub open spec fn c_bytes(text: Seq<char>) -> nat {
    if text == "float"@ || text == "int"@ {
        4
    } else if text == "half"@ {
        2
    } else if text == "uchar"@ {
        1
    } else {
        0
    }
}

/// The host and the kernels agree on the size of an element: a tensor of a stored
/// type takes as many bytes for each as the kernels' type of its elements has.
pub proof fn law_element_sizes_agree(dtype: DType, r: Result<&'static str, KernelError>)
    requires
        call_ensures(buffer_type, (dtype,), r),
    ensures
        r matches Ok(text) ==> c_bytes(text@) == dtype.width() && c_bytes(text@) > 0,
        r is Err ==> dtype == DType::I8 || dtype == DType::Other,
{
    reveal_strlit("float");
    reveal_strlit("int");
    reveal_strlit("half");
    reveal_strlit("uchar");
    assert("float"@.len() == 5 && "int"@.len() == 3 && "half"@.len() == 4 && "uchar"@.len() == 5);
    assert("float"@[0] == 'f' && "uchar"@[0] == 'u');
}

} // verus!
