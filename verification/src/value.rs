//! The value codec: host values to engine values and back.
//!
//! The engine stores five kinds of value. The host runtime has more, and has
//! numbers of two sorts: doubles and integers of any size. Every host value is
//! classified once, by the caller, into a [`HostValue`]; the functions here
//! decide what the engine is given for it and what the host is given back.

use crate::double::{double_of_int, from_i64};
use vstd::prelude::*;

verus! {

/// A value as the engine stores it. A real number is held as the bits of its
/// double.
#[derive(Debug, Clone, PartialEq, Eq)]
pub enum SqlValue {
    Null,
    Integer(i64),
    Real(u64),
    Text(String),
    Blob(Vec<u8>),
}

/// What a [`SqlValue`] holds.
pub enum SqlData {
    Null,
    Integer(i64),
    Real(u64),
    Text(Seq<char>),
    Blob(Seq<u8>),
}

impl View for SqlValue {
    type V = SqlData;

    open spec fn view(&self) -> SqlData {
        match *self {
            SqlValue::Null => SqlData::Null,
            SqlValue::Integer(v) => SqlData::Integer(v),
            SqlValue::Real(bits) => SqlData::Real(bits),
            SqlValue::Text(text) => SqlData::Text(text@),
            SqlValue::Blob(bytes) => SqlData::Blob(bytes@),
        }
    }
}

/// An integer of any size, as the host runtime hands it out: a sign and the
/// 64-bit words of the magnitude, least significant first.
#[derive(Debug, Clone, PartialEq, Eq)]
pub struct BigInt {
    pub negative: bool,
    pub words: Vec<u64>,
}

/// The number that a sequence of 64-bit words stands for, least significant
/// word first.
pub open spec fn words_value(words: Seq<u64>) -> nat
    decreases words.len(),
{
    if words.len() == 0 {
        0
    } else {
        words[0] as nat + 0x1_0000_0000_0000_0000 * words_value(words.drop_first())
    }
}

/// Words that are all zero stand for zero.
pub proof fn lemma_words_value_zero(words: Seq<u64>)
    requires
        forall|i: int| 0 <= i < words.len() ==> words[i] == 0,
    ensures
        words_value(words) == 0,
    decreases words.len(),
{
    if words.len() > 0 {
        lemma_words_value_zero(words.drop_first());
    }
}

/// Words of which one is not zero stand for a positive number.
pub proof fn lemma_words_value_positive(words: Seq<u64>, i: int)
    requires
        0 <= i < words.len(),
        words[i] != 0,
    ensures
        words_value(words) >= 1,
    decreases words.len(),
{
    if i > 0 {
        lemma_words_value_positive(words.drop_first(), i - 1);
    }
}

impl BigInt {
    /// The integer that this value stands for.
    pub open spec fn value(&self) -> int {
        if self.negative {
            -(words_value(self.words@) as int)
        } else {
            words_value(self.words@) as int
        }
    }

    /// The big integer equal to a 64-bit integer.
    pub fn from_i64(v: i64) -> (big: BigInt)
        ensures
            big.value() == v,
            big.negative == (v < 0),
            big.words@.len() == 1,
    {
        let magnitude: u64 = if v == i64::MIN {
            0x8000_0000_0000_0000
        } else if v < 0 {
            (-v) as u64
        } else {
            v as u64
        };
        let mut words: Vec<u64> = Vec::new();
        words.push(magnitude);
        proof {
            assert(words@.drop_first() =~= Seq::<u64>::empty());
            assert(words_value(words@.drop_first()) == 0);
            assert(words_value(words@) == magnitude);
        }
        BigInt { negative: v < 0, words }
    }

    /// The 64-bit integer equal to this one, where there is one.
    pub fn to_i64(&self) -> (small: Option<i64>)
        ensures
            small == (if i64::MIN <= self.value() <= i64::MAX {
                Some(self.value() as i64)
            } else {
                None
            }),
    {
        let len: usize = self.words.len();
        if len == 0 {
            return Some(0);
        }
        let low: u64 = self.words[0];
        let mut i: usize = 1;
        while i < len
            invariant
                1 <= i <= len,
                len == self.words@.len(),
                forall|j: int| 1 <= j < i ==> self.words@[j] == 0,
            decreases len - i,
        {
            if self.words[i] != 0 {
                proof {
                    lemma_words_value_positive(self.words@.drop_first(), i - 1);
                }
                return None;
            }
            i = i + 1;
        }
        proof {
            lemma_words_value_zero(self.words@.drop_first());
        }
        if self.negative {
            if low <= 0x7FFF_FFFF_FFFF_FFFF {
                Some(-(low as i64))
            } else if low == 0x8000_0000_0000_0000 {
                Some(i64::MIN)
            } else {
                None
            }
        } else {
            if low <= 0x7FFF_FFFF_FFFF_FFFF {
                Some(low as i64)
            } else {
                None
            }
        }
    }
}

/// A view of bytes into a buffer of the host: `length` bytes from
/// `byte_offset` on.
#[derive(Debug, Clone, PartialEq, Eq)]
pub struct TypedArray {
    pub buffer: Vec<u8>,
    pub byte_offset: usize,
    pub length: usize,
}

/// A value of the host runtime, classified by kind.
#[derive(Debug, Clone, PartialEq, Eq)]
pub enum HostValue {
    Undefined,
    Null,
    Boolean(bool),
    /// A double, as its bits.
    Number(u64),
    BigInt(BigInt),
    String(String),
    Buffer(Vec<u8>),
    TypedArray(TypedArray),
    /// An object that is neither a buffer nor a typed array.
    Object,
    Symbol,
    Function,
    External,
}

/// What a [`HostValue`] holds.
pub enum HostData {
    Undefined,
    Null,
    Boolean(bool),
    Number(u64),
    BigInt(int),
    String(Seq<char>),
    Buffer(Seq<u8>),
    TypedArray { buffer: Seq<u8>, byte_offset: int, length: int },
    Object,
    Symbol,
    Function,
    External,
}

impl View for HostValue {
    type V = HostData;

    open spec fn view(&self) -> HostData {
        match *self {
            HostValue::Undefined => HostData::Undefined,
            HostValue::Null => HostData::Null,
            HostValue::Boolean(b) => HostData::Boolean(b),
            HostValue::Number(bits) => HostData::Number(bits),
            HostValue::BigInt(big) => HostData::BigInt(big.value()),
            HostValue::String(text) => HostData::String(text@),
            HostValue::Buffer(bytes) => HostData::Buffer(bytes@),
            HostValue::TypedArray(array) => HostData::TypedArray {
                buffer: array.buffer@,
                byte_offset: array.byte_offset as int,
                length: array.length as int,
            },
            HostValue::Object => HostData::Object,
            HostValue::Symbol => HostData::Symbol,
            HostValue::Function => HostData::Function,
            HostValue::External => HostData::External,
        }
    }
}

/// Why a host value cannot be bound to a statement.
#[derive(Debug, Clone, Copy, PartialEq, Eq, Structural)]
pub enum BindError {
    /// A big integer that no signed 64-bit integer equals.
    OutOfRange,
    /// A typed array that reaches beyond its buffer.
    TypedArrayOutOfBounds,
    /// A kind of value that the engine has no place for.
    Unsupported,
}

/// What the engine is given for a host value.
pub open spec fn spec_map_value(value: HostData) -> Result<SqlData, BindError> {
    match value {
        HostData::Undefined | HostData::Null => Ok(SqlData::Null),
        HostData::Boolean(b) => Ok(
            SqlData::Integer(
                if b {
                    1
                } else {
                    0
                },
            ),
        ),
        HostData::Number(bits) => Ok(SqlData::Real(bits)),
        HostData::BigInt(v) => if i64::MIN <= v <= i64::MAX {
            Ok(SqlData::Integer(v as i64))
        } else {
            Err(BindError::OutOfRange)
        },
        HostData::String(text) => Ok(SqlData::Text(text)),
        HostData::Buffer(bytes) => Ok(SqlData::Blob(bytes)),
        HostData::TypedArray { buffer, byte_offset, length } => if byte_offset + length
            <= buffer.len() {
            Ok(SqlData::Blob(buffer.subrange(byte_offset, byte_offset + length)))
        } else {
            Err(BindError::TypedArrayOutOfBounds)
        },
        _ => Err(BindError::Unsupported),
    }
}

/// What the host is given for an engine value. An integer becomes a big
/// integer where `safe_ints` is set, else the nearest double.
pub open spec fn spec_convert_value(value: SqlData, safe_ints: bool) -> HostData {
    match value {
        SqlData::Null => HostData::Null,
        SqlData::Integer(v) => if safe_ints {
            HostData::BigInt(v as int)
        } else {
            HostData::Number(double_of_int(v as int) as u64)
        },
        SqlData::Real(bits) => HostData::Number(bits),
        SqlData::Text(text) => HostData::String(text),
        SqlData::Blob(bytes) => HostData::Buffer(bytes),
    }
}

/// The host values that the engine has a kind of its own for: null, a
/// number, a big integer that a signed 64-bit integer equals, a string and a
/// buffer.
pub open spec fn is_plain(value: HostData) -> bool {
    match value {
        HostData::Null | HostData::Number(_) | HostData::String(_) | HostData::Buffer(_) => true,
        HostData::BigInt(v) => i64::MIN <= v <= i64::MAX,
        _ => false,
    }
}

/// The codec round-trips: a plain host value that is bound and handed out
/// again, with integers as big integers exactly where a big integer went in,
/// is the value that went in.
pub proof fn lemma_codec_round_trip(value: HostData)
    requires
        is_plain(value),
    ensures
        spec_map_value(value) is Ok,
        spec_convert_value(spec_map_value(value)->Ok_0, value is BigInt) == value,
{
}

/// What comes back for the host values that the engine has no kind of its
/// own for: the undefined value comes back as null, a boolean as zero or one,
/// a typed array as the buffer of the bytes that it views.
pub proof fn lemma_codec_normalizes(value: HostData, safe_ints: bool)
    requires
        spec_map_value(value) is Ok,
        !is_plain(value),
    ensures
        spec_convert_value(spec_map_value(value)->Ok_0, safe_ints) == (match value {
            HostData::Boolean(b) => spec_convert_value(
                SqlData::Integer(
                    if b {
                        1
                    } else {
                        0
                    },
                ),
                safe_ints,
            ),
            HostData::TypedArray { buffer, byte_offset, length } => HostData::Buffer(
                buffer.subrange(byte_offset, byte_offset + length),
            ),
            _ => HostData::Null,
        }),
{
}

/// An engine value that is handed out and bound again is the value that was
/// handed out; an integer where it is handed out as a big integer. Handed out
/// as a double, an integer comes back as a real number.
pub proof fn lemma_engine_round_trip(value: SqlData, safe_ints: bool)
    ensures
        value is Integer && !safe_ints ==> spec_map_value(spec_convert_value(value, safe_ints))
            == Ok::<SqlData, BindError>(
            SqlData::Real(double_of_int(value->Integer_0 as int) as u64),
        ),
        !(value is Integer && !safe_ints) ==> spec_map_value(spec_convert_value(value, safe_ints))
            == Ok::<SqlData, BindError>(value),
{
}

/// The view of the outcome of binding one value.
pub open spec fn bound_view(outcome: Result<SqlValue, BindError>) -> Result<SqlData, BindError> {
    match outcome {
        Ok(value) => Ok(value@),
        Err(e) => Err(e),
    }
}

/// Copies the bytes of `source` from `start` up to `end`.
pub fn copy_bytes(source: &Vec<u8>, start: usize, end: usize) -> (copy: Vec<u8>)
    requires
        start <= end <= source@.len(),
    ensures
        copy@ == source@.subrange(start as int, end as int),
{
    let mut copy: Vec<u8> = Vec::new();
    let mut i: usize = start;
    while i < end
        invariant
            start <= i <= end <= source@.len(),
            copy@ == source@.subrange(start as int, i as int),
        decreases end - i,
    {
        copy.push(source[i]);
        i = i + 1;
        assert(copy@ =~= source@.subrange(start as int, i as int));
    }
    copy
}

/// Maps a host value to the engine value that is bound for it.
pub fn map_value(value: &HostValue) -> (bound: Result<SqlValue, BindError>)
    ensures
        bound_view(bound) == spec_map_value(value@),
{
    match value {
        HostValue::Undefined | HostValue::Null => Ok(SqlValue::Null),
        HostValue::Boolean(b) => Ok(
            SqlValue::Integer(
                if *b {
                    1
                } else {
                    0
                },
            ),
        ),
        HostValue::Number(bits) => Ok(SqlValue::Real(*bits)),
        HostValue::BigInt(big) => match big.to_i64() {
            Some(v) => Ok(SqlValue::Integer(v)),
            None => Err(BindError::OutOfRange),
        },
        HostValue::String(text) => Ok(SqlValue::Text(text.clone())),
        HostValue::Buffer(bytes) => {
            let copy = copy_bytes(bytes, 0, bytes.len());
            assert(copy@ =~= bytes@);
            Ok(SqlValue::Blob(copy))
        },
        HostValue::TypedArray(array) => {
            let len: usize = array.buffer.len();
            if array.byte_offset <= len && array.length <= len - array.byte_offset {
                Ok(
                    SqlValue::Blob(
                        copy_bytes(
                            &array.buffer,
                            array.byte_offset,
                            array.byte_offset + array.length,
                        ),
                    ),
                )
            } else {
                Err(BindError::TypedArrayOutOfBounds)
            }
        },
        _ => Err(BindError::Unsupported),
    }
}

/// Converts an engine value to the host value that is handed out for it.
pub fn convert_value_to_js(value: &SqlValue, safe_ints: bool) -> (host: HostValue)
    ensures
        host@ == spec_convert_value(value@, safe_ints),
{
    match value {
        SqlValue::Null => HostValue::Null,
        SqlValue::Integer(v) => if safe_ints {
            HostValue::BigInt(BigInt::from_i64(*v))
        } else {
            HostValue::Number(from_i64(*v))
        },
        SqlValue::Real(bits) => HostValue::Number(*bits),
        SqlValue::Text(text) => HostValue::String(text.clone()),
        SqlValue::Blob(bytes) => {
            let copy = copy_bytes(bytes, 0, bytes.len());
            assert(copy@ =~= bytes@);
            HostValue::Buffer(copy)
        },
    }
}

} // verus!
