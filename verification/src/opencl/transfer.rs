//! Tensor contents as the device stores them.

use vstd::prelude::*;

use crate::bytes::{
    as_signed, as_word, decode_half_words, decode_words, law_half_words_survive_encoding,
    law_words_survive_encoding, native_half_words, native_words, signed,
};
use crate::data::{bool_byte, HostData};
use crate::dtype::DType;
use crate::opencl::dialect::storable;
use crate::opencl::runtime::OpenClRuntime;
use crate::program::OutputError;

verus! {

/// The bytes to upload for a host tensor, or the type that cannot be uploaded.
pub fn reference_bytes(data: &HostData, dtype: DType) -> (r: Result<Vec<u8>, DType>)
    requires
        storable(dtype) ==> data.element_type() == dtype,
    ensures
        match r {
            Ok(bytes) => storable(dtype) && bytes@ == data.stored(),
            Err(unsupported) => !storable(dtype) && unsupported == dtype,
        },
{
    match dtype {
        DType::F32 | DType::F16 | DType::Int | DType::Bool => Ok(data.stored_bytes()),
        unsupported => Err(unsupported),
    }
}

/// Why an output cannot be read.
#[derive(Clone, Copy, PartialEq, Eq, Structural, Debug)]
pub enum ReadError {
    /// There is nothing to read.
    Output(OutputError),
    /// The output has another type than the one asked for.
    WrongType(DType),
    /// Outputs of this type cannot be read.
    Unreadable(DType),
    /// The bytes are no whole number of elements.
    Misaligned,
}

/// Whether `data` holds the elements of type `dtype` that `bytes` store. Every
/// byte but zero stores the truth value true.
pub open spec fn decodes_to(dtype: DType, bytes: Seq<u8>, data: HostData) -> bool {
    &&& data.element_type() == dtype
    &&& match data {
        HostData::Bool(values) => values@ == bytes.map_values(|byte: u8| byte != 0),
        _ => data.stored() == bytes,
    }
}

/// What is wrong with bytes of this type, if anything.
pub open spec fn decode_error(dtype: DType, bytes: Seq<u8>) -> Option<ReadError> {
    if !storable(dtype) {
        Some(ReadError::Unreadable(dtype))
    } else if bytes.len() % dtype.width() != 0 {
        Some(ReadError::Misaligned)
    } else {
        None
    }
}

/// The elements of type `dtype` that `bytes` store.
pub fn decode(dtype: DType, bytes: &Vec<u8>) -> (r: Result<HostData, ReadError>)
    ensures
        match r {
            Ok(data) => decode_error(dtype, bytes@) is None && decodes_to(dtype, bytes@, data),
            Err(error) => decode_error(dtype, bytes@) == Some(error),
        },
{
    match dtype {
        DType::F32 => {
            if bytes.len() % 4 != 0 {
                return Err(ReadError::Misaligned);
            }
            Ok(HostData::F32(decode_words(bytes)))
        },
        DType::F16 => {
            if bytes.len() % 2 != 0 {
                return Err(ReadError::Misaligned);
            }
            Ok(HostData::F16(decode_half_words(bytes)))
        },
        DType::Int => {
            if bytes.len() % 4 != 0 {
                return Err(ReadError::Misaligned);
            }
            let words = decode_words(bytes);
            let mut values: Vec<i32> = Vec::new();
            for i in 0..words.len()
                invariant
                    values@ == words@.take(i as int).map_values(|word: u32| as_signed(word)),
            {
                proof {
                    assert(words@.take(i + 1) == words@.take(i as int).push(words@[i as int]));
                }
                values.push(signed(words[i]));
            }
            proof {
                assert(words@.take(words@.len() as int) == words@);
                assert(values@.map_values(|value: i32| as_word(value)) == words@);
            }
            Ok(HostData::Int(values))
        },
        DType::Bool => {
            let mut values: Vec<bool> = Vec::new();
            for i in 0..bytes.len()
                invariant
                    values@ == bytes@.take(i as int).map_values(|byte: u8| byte != 0),
            {
                proof {
                    assert(bytes@.take(i + 1) == bytes@.take(i as int).push(bytes@[i as int]));
                }
                values.push(bytes[i] != 0);
            }
            proof {
                assert(bytes@.take(bytes@.len() as int) == bytes@);
            }
            Ok(HostData::Bool(values))
        },
        unreadable => Err(ReadError::Unreadable(unreadable)),
    }
}

impl<E, D> OpenClRuntime<E, D> {
    /// Why the output `id`, of which `bytes` were read, cannot be given as
    /// elements of type `asked`, or of its own type where none is asked for.
    pub open spec fn read_error(
        self,
        id: usize,
        bytes: Seq<u8>,
        asked: Option<DType>,
    ) -> Option<ReadError> {
        match self.read_plan(id) {
            Err(error) => Some(ReadError::Output(error)),
            Ok(readback) => match asked {
                Some(dtype) if readback.dtype != dtype => Some(
                    ReadError::WrongType(readback.dtype),
                ),
                _ => decode_error(readback.dtype, bytes),
            },
        }
    }

    /// The elements of an output of any type, given the bytes that were read
    /// for it. Single precision holds each of them as a number.
    pub fn get_f32(&self, id: usize, bytes: &Vec<u8>) -> (r: Result<HostData, ReadError>)
        requires
            self.wf(),
        ensures
            match r {
                Ok(data) => self.read_error(id, bytes@, None) is None && decodes_to(
                    self.read_plan(id)->Ok_0.dtype,
                    bytes@,
                    data,
                ),
                Err(error) => self.read_error(id, bytes@, None) == Some(error),
            },
    {
        match self.read_output(id) {
            Err(error) => Err(ReadError::Output(error)),
            Ok(readback) => decode(readback.dtype, bytes),
        }
    }

    fn get_typed(&self, id: usize, bytes: &Vec<u8>, dtype: DType) -> (r: Result<
        HostData,
        ReadError,
    >)
        requires
            self.wf(),
        ensures
            match r {
                Ok(data) => self.read_error(id, bytes@, Some(dtype)) is None && decodes_to(
                    dtype,
                    bytes@,
                    data,
                ),
                Err(error) => self.read_error(id, bytes@, Some(dtype)) == Some(error),
            },
    {
        match self.read_output(id) {
            Err(error) => Err(ReadError::Output(error)),
            Ok(readback) => {
                if readback.dtype != dtype {
                    return Err(ReadError::WrongType(readback.dtype));
                }
                decode(dtype, bytes)
            },
        }
    }

    /// The bits of a half-precision output, given the bytes that were read for
    /// it.
    pub fn get_f16(&self, id: usize, bytes: &Vec<u8>) -> (r: Result<Vec<u16>, ReadError>)
        requires
            self.wf(),
        ensures
            match r {
                Ok(bits) => self.read_error(id, bytes@, Some(DType::F16)) is None
                    && native_half_words(bits@) == bytes@,
                Err(error) => self.read_error(id, bytes@, Some(DType::F16)) == Some(error),
            },
    {
        match self.get_typed(id, bytes, DType::F16) {
            Ok(HostData::F16(bits)) => Ok(bits),
            Ok(_) => Ok(Vec::new()),
            Err(error) => Err(error),
        }
    }

    /// The elements of an integer output, given the bytes that were read for it.
    pub fn get_i32(&self, id: usize, bytes: &Vec<u8>) -> (r: Result<Vec<i32>, ReadError>)
        requires
            self.wf(),
        ensures
            match r {
                Ok(values) => self.read_error(id, bytes@, Some(DType::Int)) is None
                    && native_words(values@.map_values(|value: i32| as_word(value))) == bytes@,
                Err(error) => self.read_error(id, bytes@, Some(DType::Int)) == Some(error),
            },
    {
        match self.get_typed(id, bytes, DType::Int) {
            Ok(HostData::Int(values)) => Ok(values),
            Ok(_) => Ok(Vec::new()),
            Err(error) => Err(error),
        }
    }

    /// The elements of a Bool output, given the bytes that were read for it.
    pub fn get_bool(&self, id: usize, bytes: &Vec<u8>) -> (r: Result<Vec<bool>, ReadError>)
        requires
            self.wf(),
        ensures
            match r {
                Ok(values) => self.read_error(id, bytes@, Some(DType::Bool)) is None && values@
                    == bytes@.map_values(|byte: u8| byte != 0),
                Err(error) => self.read_error(id, bytes@, Some(DType::Bool)) == Some(error),
            },
    {
        match self.get_typed(id, bytes, DType::Bool) {
            Ok(HostData::Bool(values)) => Ok(values),
            Ok(_) => Ok(Vec::new()),
            Err(error) => Err(error),
        }
    }
}

/// What was uploaded is what is read back: the bytes of a tensor decode to its
/// elements and to nothing else.
pub proof fn law_read_gives_what_was_uploaded(data: HostData, read: HostData)
    requires
        decodes_to(data.element_type(), data.stored(), read),
    ensures
        match (data, read) {
            (HostData::F32(a), HostData::F32(b)) => a@ == b@,
            (HostData::F16(a), HostData::F16(b)) => a@ == b@,
            (HostData::Int(a), HostData::Int(b)) => a@ == b@,
            (HostData::Bool(a), HostData::Bool(b)) => a@ == b@,
            (HostData::I8(a), HostData::I8(b)) => a@ == b@,
            _ => false,
        },
{
    match (data, read) {
        (HostData::F32(a), HostData::F32(b)) => {
            law_words_survive_encoding(a@, b@);
        },
        (HostData::F16(a), HostData::F16(b)) => {
            law_half_words_survive_encoding(a@, b@);
        },
        (HostData::Int(a), HostData::Int(b)) => {
            let words_a = a@.map_values(|value: i32| as_word(value));
            let words_b = b@.map_values(|value: i32| as_word(value));
            law_words_survive_encoding(words_a, words_b);
            assert(a@ =~= b@) by {
                assert(words_a.len() == words_b.len());
                assert forall|i: int| 0 <= i < a@.len() implies a@[i] == b@[i] by {
                    assert(words_a[i] == words_b[i]);
                }
            }
        },
        (HostData::Bool(a), HostData::Bool(b)) => {
            let bytes = a@.map_values(|value: bool| bool_byte(value));
            assert(b@ =~= a@) by {
                assert forall|i: int| 0 <= i < a@.len() implies a@[i] == b@[i] by {
                    assert(bytes[i] == bool_byte(a@[i]));
                }
            }
        },
        (HostData::I8(a), HostData::I8(b)) => {
            let bytes_a = data.stored();
            let bytes_b = read.stored();
            assert(a@ =~= b@) by {
                assert(bytes_a.len() == bytes_b.len());
                assert forall|i: int| 0 <= i < a@.len() implies a@[i] == b@[i] by {
                    assert(bytes_a[i] == bytes_b[i]);
                }
            }
        },
        _ => {},
    }
}

} // verus!
