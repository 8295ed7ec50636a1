//! The two value models and the encode direction of the codec: the dynamic
//! caller value (null/undefined, boolean, number, big integer, string, byte
//! buffer, typed byte view, ordered list, keyed object, or an unsupported
//! shape) and the engine's typed value (`Null`/`Integer`/`Real`/`Text`/
//! `Blob`). Every caller value is either losslessly projected onto the
//! engine model or rejected with a binding error.
//!
//! Floating-point numbers are carried as the bit pattern of an IEEE-754
//! double, so that the codec itself stays in the integer world.
use vstd::prelude::*;
use vstd::slice::{slice_subrange, slice_to_vec};
use crate::errors::BindError;

verus! {

/// The engine's typed value.
#[derive(Clone, Debug, PartialEq)]
pub enum Value {
    Null,
    Integer(i64),
    /// The bit pattern of a 64-bit IEEE-754 double.
    Real(u64),
    Text(String),
    Blob(Vec<u8>),
}

/// The mathematical model of an engine value.
#[verifier::ext_equal]
pub enum ValueV {
    Null,
    Integer(i64),
    Real(u64),
    Text(Seq<char>),
    Blob(Seq<u8>),
}

impl View for Value {
    type V = ValueV;

    open spec fn view(&self) -> ValueV {
        match self {
            Value::Null => ValueV::Null,
            Value::Integer(i) => ValueV::Integer(*i),
            Value::Real(bits) => ValueV::Real(*bits),
            Value::Text(s) => ValueV::Text(s@),
            Value::Blob(b) => ValueV::Blob(b@),
        }
    }
}

/// The dynamic value supplied by calling code, as classified by its runtime
/// shape.
#[derive(Debug, PartialEq)]
pub enum CallerValue {
    Null,
    Undefined,
    Bool(bool),
    /// A caller number: the bit pattern of a 64-bit IEEE-754 double.
    Number(u64),
    /// A caller big integer, reported as the closest signed 64-bit value
    /// together with whether that representation was lossless.
    BigInt { value: i64, lossless: bool },
    Str(String),
    Buffer(Vec<u8>),
    /// A typed byte view over a backing buffer, with a byte offset and a
    /// byte length into it.
    TypedView { buffer: Vec<u8>, byte_offset: usize, length: usize },
    List(Vec<CallerValue>),
    Obj(Vec<(String, CallerValue)>),
    /// Any other shape (a function, a symbol): never bindable.
    Unsupported,
}

/// The mathematical model of a caller value.
#[verifier::ext_equal]
pub enum CallerValueV {
    Null,
    Undefined,
    Bool(bool),
    Number(u64),
    BigInt { value: i64, lossless: bool },
    Str(Seq<char>),
    Buffer(Seq<u8>),
    TypedView { buffer: Seq<u8>, byte_offset: int, length: int },
    List(Seq<CallerValueV>),
    Obj(Seq<(Seq<char>, CallerValueV)>),
    Unsupported,
}

/// The model of one caller value.
pub open spec fn caller_value_view(v: CallerValue) -> CallerValueV
    decreases v,
{
    match v {
        CallerValue::Null => CallerValueV::Null,
        CallerValue::Undefined => CallerValueV::Undefined,
        CallerValue::Bool(b) => CallerValueV::Bool(b),
        CallerValue::Number(bits) => CallerValueV::Number(bits),
        CallerValue::BigInt { value, lossless } => CallerValueV::BigInt { value, lossless },
        CallerValue::Str(s) => CallerValueV::Str(s@),
        CallerValue::Buffer(b) => CallerValueV::Buffer(b@),
        CallerValue::TypedView { buffer, byte_offset, length } => CallerValueV::TypedView {
            buffer: buffer@,
            byte_offset: byte_offset as int,
            length: length as int,
        },
        CallerValue::List(items) => CallerValueV::List(caller_vec_view(items)),
        CallerValue::Obj(pairs) => CallerValueV::Obj(caller_pair_vec_view(pairs)),
        CallerValue::Unsupported => CallerValueV::Unsupported,
    }
}

/// The models of a vector of caller values, in order.
pub open spec fn caller_vec_view(items: Vec<CallerValue>) -> Seq<CallerValueV>
    decreases items,
{
    caller_seq_view(items@)
}

/// The models of a sequence of caller values, in order.
pub open spec fn caller_seq_view(items: Seq<CallerValue>) -> Seq<CallerValueV>
    decreases items,
{
    Seq::new(
        items.len(),
        |i: int|
            if 0 <= i < items.len() {
                caller_value_view(items[i])
            } else {
                CallerValueV::Unsupported
            },
    )
}

/// The models of a vector of keyed caller values, in order.
pub open spec fn caller_pair_vec_view(pairs: Vec<(String, CallerValue)>) -> Seq<
    (Seq<char>, CallerValueV),
>
    decreases pairs,
{
    caller_pair_seq_view(pairs@)
}

/// The models of a sequence of keyed caller values, in order.
pub open spec fn caller_pair_seq_view(pairs: Seq<(String, CallerValue)>) -> Seq<
    (Seq<char>, CallerValueV),
>
    decreases pairs,
{
    Seq::new(
        pairs.len(),
        |i: int|
            if 0 <= i < pairs.len() {
                caller_pair_view(pairs[i])
            } else {
                (Seq::<char>::empty(), CallerValueV::Unsupported)
            },
    )
}

/// The model of one keyed caller value.
pub open spec fn caller_pair_view(pair: (String, CallerValue)) -> (Seq<char>, CallerValueV)
    decreases pair,
{
    (pair.0@, caller_value_view(pair.1))
}

impl View for CallerValue {
    type V = CallerValueV;

    open spec fn view(&self) -> CallerValueV {
        caller_value_view(*self)
    }
}

/// What encoding a caller value yields: the engine value for every
/// supported shape, and the exact binding error for every other one.
///
/// Booleans map to `Integer` 0/1; numbers always map to `Real`, even for
/// integral values; big integers map to `Integer` only when the 64-bit
/// representation is lossless; a typed view maps to the `Blob` cut out of
/// its backing buffer when its bounds lie inside it.
pub open spec fn encode_spec(v: CallerValueV) -> Result<ValueV, BindError> {
    match v {
        CallerValueV::Null => Ok(ValueV::Null),
        CallerValueV::Undefined => Ok(ValueV::Null),
        CallerValueV::Bool(b) => Ok(ValueV::Integer(if b { 1 } else { 0 })),
        CallerValueV::Number(bits) => Ok(ValueV::Real(bits)),
        CallerValueV::BigInt { value, lossless } => if lossless {
            Ok(ValueV::Integer(value))
        } else {
            Err(BindError::BigIntOutOfRange)
        },
        CallerValueV::Str(s) => Ok(ValueV::Text(s)),
        CallerValueV::Buffer(b) => Ok(ValueV::Blob(b)),
        CallerValueV::TypedView { buffer, byte_offset, length } => if byte_offset + length
            <= buffer.len() {
            Ok(ValueV::Blob(buffer.subrange(byte_offset, byte_offset + length)))
        } else {
            Err(BindError::TypedViewOutOfBounds)
        },
        CallerValueV::List(_) => Err(BindError::Unsupported),
        CallerValueV::Obj(_) => Err(BindError::Unsupported),
        CallerValueV::Unsupported => Err(BindError::Unsupported),
    }
}

/// The model of an encode result.
pub open spec fn encoded_view(r: Result<Value, BindError>) -> Result<ValueV, BindError> {
    match r {
        Ok(v) => Ok(v@),
        Err(e) => Err(e),
    }
}

/// Copies a byte vector.
fn clone_bytes(b: &Vec<u8>) -> (r: Vec<u8>)
    ensures
        r@ == b@,
{
    let mut out: Vec<u8> = Vec::new();
    let mut i: usize = 0;
    while i < b.len()
        invariant
            i <= b@.len(),
            out@ == b@.take(i as int),
        decreases b@.len() - i,
    {
        out.push(b[i]);
        i = i + 1;
        proof {
            assert(out@ =~= b@.take(i as int));
        }
    }
    proof {
        assert(out@ =~= b@);
    }
    out
}

/// Encodes one caller value, read through a reference, as an engine
/// value, or reports exactly why it cannot be bound.
pub fn map_value_ref(v: &CallerValue) -> (r: Result<Value, BindError>)
    ensures
        encoded_view(r) == encode_spec(v@),
{
    match v {
        CallerValue::Null => Ok(Value::Null),
        CallerValue::Undefined => Ok(Value::Null),
        CallerValue::Bool(b) => Ok(Value::Integer(if *b { 1 } else { 0 })),
        CallerValue::Number(bits) => Ok(Value::Real(*bits)),
        CallerValue::BigInt { value, lossless } => if *lossless {
            Ok(Value::Integer(*value))
        } else {
            Err(BindError::BigIntOutOfRange)
        },
        CallerValue::Str(s) => Ok(Value::Text(s.clone())),
        CallerValue::Buffer(b) => Ok(Value::Blob(clone_bytes(b))),
        CallerValue::TypedView { buffer, byte_offset, length } => {
            let buffer_len = buffer.len();
            if let Some(end) = byte_offset.checked_add(*length) {
                if end <= buffer_len {
                    let sl = slice_subrange(buffer.as_slice(), *byte_offset, end);
                    Ok(Value::Blob(slice_to_vec(sl)))
                } else {
                    Err(BindError::TypedViewOutOfBounds)
                }
            } else {
                // The sum overflows usize, so it certainly overruns the buffer.
                Err(BindError::TypedViewOutOfBounds)
            }
        },
        CallerValue::List(_) => Err(BindError::Unsupported),
        CallerValue::Obj(_) => Err(BindError::Unsupported),
        CallerValue::Unsupported => Err(BindError::Unsupported),
    }
}

/// Encodes one caller value as an engine value, or reports exactly why it
/// cannot be bound.
pub fn map_value(v: CallerValue) -> (r: Result<Value, BindError>)
    ensures
        encoded_view(r) == encode_spec(v@),
{
    map_value_ref(&v)
}

/// What decoding an engine value yields under the integer-precision
/// policy: with safe integers enabled an `Integer` comes back as an exact
/// 64-bit integer, otherwise it is widened to the nearest double; the
/// other variants decode to their direct caller counterparts.
pub open spec fn decode_spec(v: ValueV, safe_ints: bool) -> CallerValueV {
    match v {
        ValueV::Null => CallerValueV::Null,
        ValueV::Integer(i) => if safe_ints {
            CallerValueV::BigInt { value: i, lossless: true }
        } else {
            CallerValueV::Number(crate::fbits::f64_bits_of_i64(i))
        },
        ValueV::Real(bits) => CallerValueV::Number(bits),
        ValueV::Text(s) => CallerValueV::Str(s),
        ValueV::Blob(b) => CallerValueV::Buffer(b),
    }
}

/// Decodes one engine value as a caller value under the given
/// integer-precision policy.
pub fn decode_value(v: Value, safe_ints: bool) -> (r: CallerValue)
    ensures
        r@ == decode_spec(v@, safe_ints),
{
    match v {
        Value::Null => CallerValue::Null,
        Value::Integer(i) => if safe_ints {
            CallerValue::BigInt { value: i, lossless: true }
        } else {
            CallerValue::Number(crate::fbits::f64_bits_from_i64(i))
        },
        Value::Real(bits) => CallerValue::Number(bits),
        Value::Text(s) => CallerValue::Str(s),
        Value::Blob(b) => CallerValue::Buffer(b),
    }
}

/// Decodes one engine value, read through a reference, as a caller value
/// under the given integer-precision policy.
pub fn decode_value_ref(v: &Value, safe_ints: bool) -> (r: CallerValue)
    ensures
        r@ == decode_spec(v@, safe_ints),
{
    match v {
        Value::Null => CallerValue::Null,
        Value::Integer(i) => if safe_ints {
            CallerValue::BigInt { value: *i, lossless: true }
        } else {
            CallerValue::Number(crate::fbits::f64_bits_from_i64(*i))
        },
        Value::Real(bits) => CallerValue::Number(*bits),
        Value::Text(s) => CallerValue::Str(s.clone()),
        Value::Blob(b) => CallerValue::Buffer(clone_bytes(b)),
    }
}

/// Round trip of the codec: for every caller value that encodes at all,
/// decoding the encoded value gives back an equal value for null, strings,
/// byte buffers and numbers; a typed view comes back as the byte buffer
/// cut out of its backing buffer; a boolean deliberately does not round
/// trip and comes back as integer 0 or 1; and with safe integers enabled a
/// big integer comes back exactly.
pub proof fn lemma_codec_round_trip(v: CallerValueV, safe_ints: bool)
    requires
        encode_spec(v) is Ok,
    ensures
        ({
            let d = decode_spec(encode_spec(v)->Ok_0, safe_ints);
            &&& v is Null ==> d == CallerValueV::Null
            &&& v is Undefined ==> d == CallerValueV::Null
            &&& v is Str ==> d == v
            &&& v is Buffer ==> d == v
            &&& v is Number ==> d == v
            &&& (v matches CallerValueV::TypedView { buffer, byte_offset, length } ==> d
                == CallerValueV::Buffer(buffer.subrange(byte_offset, byte_offset + length)))
            &&& (v matches CallerValueV::Bool(b) ==> encode_spec(v)->Ok_0 == ValueV::Integer(
                if b {
                    1
                } else {
                    0
                },
            ))
            &&& (v matches CallerValueV::BigInt { value, lossless } ==> (safe_ints ==> d
                == CallerValueV::BigInt { value, lossless: true }))
        }),
{
}

} // verus!
