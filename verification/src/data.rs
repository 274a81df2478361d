//! Tensor contents on the host.

use vstd::prelude::*;

use crate::bytes::{
    as_word, cast_half_words, cast_words, native_half_words, native_words, word,
};
use crate::dtype::DType;

verus! {

/// The elements of a host tensor in their storage type. Floating-point numbers
/// are given by their bits.
#[derive(Debug, PartialEq, Eq)]
pub enum HostData {
    F32(Vec<u32>),
    F16(Vec<u16>),
    Int(Vec<i32>),
    Bool(Vec<bool>),
    I8(Vec<i8>),
}

/// The byte that stores a truth value.
pub open spec fn bool_byte(value: bool) -> u8 {
    if value {
        1
    } else {
        0
    }
}

/// The byte that stores an 8-bit integer in two's complement.
pub open spec fn i8_byte(value: i8) -> u8 {
    (if value < 0 {
        value + 256
    } else {
        value as int
    }) as u8
}

fn byte_of_i8(value: i8) -> (r: u8)
    ensures
        r == i8_byte(value),
{
    proof {
        assert(value < 0 ==> value as u8 == value + 256) by (bit_vector);
        assert(value >= 0 ==> value as u8 == value) by (bit_vector);
    }
    value as u8
}

impl HostData {
    /// The element type.
    pub open spec fn element_type(self) -> DType {
        match self {
            HostData::F32(_) => DType::F32,
            HostData::F16(_) => DType::F16,
            HostData::Int(_) => DType::Int,
            HostData::Bool(_) => DType::Bool,
            HostData::I8(_) => DType::I8,
        }
    }

    /// The number of elements.
    pub open spec fn count(self) -> nat {
        match self {
            HostData::F32(bits) => bits@.len(),
            HostData::F16(bits) => bits@.len(),
            HostData::Int(values) => values@.len(),
            HostData::Bool(values) => values@.len(),
            HostData::I8(values) => values@.len(),
        }
    }

    /// The bytes that store the elements, in the byte order of the machine.
    pub open spec fn stored(self) -> Seq<u8> {
        match self {
            HostData::F32(bits) => native_words(bits@),
            HostData::F16(bits) => native_half_words(bits@),
            HostData::Int(values) => native_words(values@.map_values(|value: i32| as_word(value))),
            HostData::Bool(values) => values@.map_values(|value: bool| bool_byte(value)),
            HostData::I8(values) => values@.map_values(|value: i8| i8_byte(value)),
        }
    }

    /// The bytes that store the elements, in the byte order of the machine.
    pub fn stored_bytes(&self) -> (r: Vec<u8>)
        ensures
            r@ == self.stored(),
    {
        match self {
            HostData::F32(bits) => cast_words(bits),
            HostData::F16(bits) => cast_half_words(bits),
            HostData::Int(values) => {
                let mut words: Vec<u32> = Vec::new();
                for i in 0..values.len()
                    invariant
                        words@ == values@.take(i as int).map_values(|value: i32| as_word(value)),
                {
                    proof {
                        assert(values@.take(i + 1) == values@.take(i as int).push(
                            values@[i as int],
                        ));
                    }
                    words.push(word(values[i]));
                }
                proof {
                    assert(values@.take(values@.len() as int) == values@);
                }
                cast_words(&words)
            },
            HostData::Bool(values) => {
                let mut bytes: Vec<u8> = Vec::new();
                for i in 0..values.len()
                    invariant
                        bytes@ == values@.take(i as int).map_values(|value: bool| bool_byte(value)),
                {
                    proof {
                        assert(values@.take(i + 1) == values@.take(i as int).push(
                            values@[i as int],
                        ));
                    }
                    bytes.push(if values[i] { 1 } else { 0 });
                }
                proof {
                    assert(values@.take(values@.len() as int) == values@);
                }
                bytes
            },
            HostData::I8(values) => {
                let mut bytes: Vec<u8> = Vec::new();
                for i in 0..values.len()
                    invariant
                        bytes@ == values@.take(i as int).map_values(|value: i8| i8_byte(value)),
                {
                    proof {
                        assert(values@.take(i + 1) == values@.take(i as int).push(
                            values@[i as int],
                        ));
                    }
                    bytes.push(byte_of_i8(values[i]));
                }
                proof {
                    assert(values@.take(values@.len() as int) == values@);
                }
                bytes
            },
        }
    }
}

/// A tensor takes as many bytes as its elements do.
pub proof fn law_stored_size(data: HostData)
    ensures
        data.stored().len() == data.count() * data.element_type().width(),
{
}

/// Every element of one byte is stored as the number that it stands for: truth
/// values as one and zero, and integers in two's complement, so that the byte
/// differs from the integer by a multiple of 256.
pub proof fn law_bytes_are_the_numbers(data: HostData, i: int)
    requires
        0 <= i < data.count(),
    ensures
        data matches HostData::Bool(values) ==> data.stored()[i] == (if values@[i] {
            1int
        } else {
            0
        }),
        data matches HostData::I8(values) ==> (data.stored()[i] - values@[i]) % 256 == 0,
{
}

} // verus!
