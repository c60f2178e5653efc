//! Scalar decoders and encoders of the binary backend's payloads.
use vstd::prelude::*;
use vstd::utf8::{decode_utf8, encode_utf8, encode_utf8_decode_utf8, encode_utf8_valid_utf8, valid_utf8};

use crate::deserialize::FromSql;
use crate::error::{dview, DecodeResult, DeserializeError, ErrorView, SpecResult};
use crate::sql_types::{BigInt, Bool, Backend, Integer, Nullable, SqlType, Text};

verus! {

/// The integer that four big-endian bytes encode.
pub open spec fn i32_from_be(b: Seq<u8>) -> i32 {
    (((b[0] as u32) << 24u32) | ((b[1] as u32) << 16u32) | ((b[2] as u32) << 8u32) | (b[3] as u32)) as i32
}

/// The four big-endian bytes of an integer.
pub open spec fn i32_to_be(v: i32) -> Seq<u8> {
    let u = v as u32;
    seq![(u >> 24u32) as u8, (u >> 16u32) as u8, (u >> 8u32) as u8, u as u8]
}

/// The integer that eight big-endian bytes encode.
pub open spec fn i64_from_be(b: Seq<u8>) -> i64 {
    (((b[0] as u64) << 56u64) | ((b[1] as u64) << 48u64) | ((b[2] as u64) << 40u64) | ((b[3] as u64)
        << 32u64) | ((b[4] as u64) << 24u64) | ((b[5] as u64) << 16u64) | ((b[6] as u64) << 8u64) | (
    b[7] as u64)) as i64
}

/// The eight big-endian bytes of an integer.
pub open spec fn i64_to_be(v: i64) -> Seq<u8> {
    let u = v as u64;
    seq![
        (u >> 56u64) as u8,
        (u >> 48u64) as u8,
        (u >> 40u64) as u8,
        (u >> 32u64) as u8,
        (u >> 24u64) as u8,
        (u >> 16u64) as u8,
        (u >> 8u64) as u8,
        u as u8,
    ]
}

/// The one byte of a boolean.
pub open spec fn bool_to_byte(v: bool) -> Seq<u8> {
    seq![if v { 1u8 } else { 0u8 }]
}

/// A payload of the wrong size for a fixed-width type.
pub open spec fn wrong_size() -> Seq<char> {
    "payload has the wrong size for this type"@
}

/// A text payload that is not UTF-8.
pub open spec fn not_utf8() -> Seq<char> {
    "text payload is not valid UTF-8"@
}

fn wrong_size_error() -> (e: DeserializeError)
    ensures
        e@ == ErrorView::ConversionError(wrong_size()),
{
    DeserializeError::ConversionError(String::from_str("payload has the wrong size for this type"))
}

/// Relies on std::str::from_utf8: it succeeds exactly on valid UTF-8, and the
/// string it returns holds the characters that the bytes encode.
#[verifier::external_body]
fn str_from_utf8(bytes: &[u8]) -> (r: Option<&str>)
    ensures
        r is Some <==> valid_utf8(bytes@),
        r matches Some(s) ==> s@ == decode_utf8(bytes@),
{
    std::str::from_utf8(bytes).ok()
}

impl<DB: Backend> FromSql<Integer, DB> for i32 {
    open spec fn spec_from_sql(bytes: Seq<u8>) -> SpecResult<i32> {
        if bytes.len() == 4 {
            Ok(i32_from_be(bytes))
        } else {
            Err(ErrorView::ConversionError(wrong_size()))
        }
    }

    open spec fn spec_from_null() -> SpecResult<i32> {
        Err(ErrorView::UnexpectedNull)
    }

    proof fn lemma_null_handling() {
    }

    fn from_sql(bytes: &[u8]) -> (r: DecodeResult<i32>) {
        if bytes.len() != 4 {
            return Err(wrong_size_error());
        }
        let u: u32 = ((bytes[0] as u32) << 24u32) | ((bytes[1] as u32) << 16u32) | ((bytes[2] as u32)
            << 8u32) | (bytes[3] as u32);
        Ok(u as i32)
    }

    fn from_nullable_sql(bytes: Option<&[u8]>) -> (r: DecodeResult<i32>) {
        match bytes {
            Some(b) => <i32 as FromSql<Integer, DB>>::from_sql(b),
            None => Err(DeserializeError::UnexpectedNull),
        }
    }
}

impl<DB: Backend> FromSql<BigInt, DB> for i64 {
    open spec fn spec_from_sql(bytes: Seq<u8>) -> SpecResult<i64> {
        if bytes.len() == 8 {
            Ok(i64_from_be(bytes))
        } else {
            Err(ErrorView::ConversionError(wrong_size()))
        }
    }

    open spec fn spec_from_null() -> SpecResult<i64> {
        Err(ErrorView::UnexpectedNull)
    }

    proof fn lemma_null_handling() {
    }

    fn from_sql(bytes: &[u8]) -> (r: DecodeResult<i64>) {
        if bytes.len() != 8 {
            return Err(wrong_size_error());
        }
        let u: u64 = ((bytes[0] as u64) << 56u64) | ((bytes[1] as u64) << 48u64) | ((bytes[2] as u64)
            << 40u64) | ((bytes[3] as u64) << 32u64) | ((bytes[4] as u64) << 24u64) | ((bytes[5] as u64)
            << 16u64) | ((bytes[6] as u64) << 8u64) | (bytes[7] as u64);
        Ok(u as i64)
    }

    fn from_nullable_sql(bytes: Option<&[u8]>) -> (r: DecodeResult<i64>) {
        match bytes {
            Some(b) => <i64 as FromSql<BigInt, DB>>::from_sql(b),
            None => Err(DeserializeError::UnexpectedNull),
        }
    }
}

impl<DB: Backend> FromSql<Bool, DB> for bool {
    open spec fn spec_from_sql(bytes: Seq<u8>) -> SpecResult<bool> {
        if bytes.len() == 1 {
            Ok(bytes[0] != 0)
        } else {
            Err(ErrorView::ConversionError(wrong_size()))
        }
    }

    open spec fn spec_from_null() -> SpecResult<bool> {
        Err(ErrorView::UnexpectedNull)
    }

    proof fn lemma_null_handling() {
    }

    fn from_sql(bytes: &[u8]) -> (r: DecodeResult<bool>) {
        if bytes.len() != 1 {
            return Err(wrong_size_error());
        }
        Ok(bytes[0] != 0)
    }

    fn from_nullable_sql(bytes: Option<&[u8]>) -> (r: DecodeResult<bool>) {
        match bytes {
            Some(b) => <bool as FromSql<Bool, DB>>::from_sql(b),
            None => Err(DeserializeError::UnexpectedNull),
        }
    }
}

impl<DB: Backend> FromSql<Text, DB> for String {
    open spec fn spec_from_sql(bytes: Seq<u8>) -> SpecResult<Seq<char>> {
        if valid_utf8(bytes) {
            Ok(decode_utf8(bytes))
        } else {
            Err(ErrorView::ConversionError(not_utf8()))
        }
    }

    open spec fn spec_from_null() -> SpecResult<Seq<char>> {
        Err(ErrorView::UnexpectedNull)
    }

    proof fn lemma_null_handling() {
    }

    fn from_sql(bytes: &[u8]) -> (r: DecodeResult<String>) {
        match str_from_utf8(bytes) {
            Some(s) => Ok(String::from_str(s)),
            None => Err(DeserializeError::ConversionError(String::from_str("text payload is not valid UTF-8"))),
        }
    }

    fn from_nullable_sql(bytes: Option<&[u8]>) -> (r: DecodeResult<String>) {
        match bytes {
            Some(b) => <String as FromSql<Text, DB>>::from_sql(b),
            None => Err(DeserializeError::UnexpectedNull),
        }
    }
}

/// A nullable column decodes null to `None` and a payload as `ST` does.
impl<T, ST, DB> FromSql<Nullable<ST>, DB> for Option<T> where
    T: FromSql<ST, DB>,
    ST: SqlType,
    DB: Backend,
 {
    open spec fn spec_from_sql(bytes: Seq<u8>) -> SpecResult<Option<<T as DeepView>::V>> {
        match T::spec_from_sql(bytes) {
            Ok(v) => Ok(Some(v)),
            Err(e) => Err(e),
        }
    }

    open spec fn spec_from_null() -> SpecResult<Option<<T as DeepView>::V>> {
        Ok(None)
    }

    proof fn lemma_null_handling() {
        T::lemma_null_handling();
    }

    fn from_sql(bytes: &[u8]) -> (r: DecodeResult<Option<T>>) {
        match T::from_sql(bytes) {
            Ok(v) => Ok(Some(v)),
            Err(e) => Err(e),
        }
    }

    fn from_nullable_sql(bytes: Option<&[u8]>) -> (r: DecodeResult<Option<T>>) {
        match bytes {
            Some(b) => <Option<T> as FromSql<Nullable<ST>, DB>>::from_sql(b),
            None => Ok(None),
        }
    }
}

/// Encodes an integer as the binary backend sends it.
pub fn encode_i32(v: i32) -> (r: Vec<u8>)
    ensures
        r@ == i32_to_be(v),
{
    let u = v as u32;
    let r = vec![(u >> 24u32) as u8, (u >> 16u32) as u8, (u >> 8u32) as u8, u as u8];
    assert(r@ =~= i32_to_be(v));
    r
}

/// Encodes a 64-bit integer as the binary backend sends it.
pub fn encode_i64(v: i64) -> (r: Vec<u8>)
    ensures
        r@ == i64_to_be(v),
{
    let u = v as u64;
    let r = vec![
        (u >> 56u64) as u8,
        (u >> 48u64) as u8,
        (u >> 40u64) as u8,
        (u >> 32u64) as u8,
        (u >> 24u64) as u8,
        (u >> 16u64) as u8,
        (u >> 8u64) as u8,
        u as u8,
    ];
    assert(r@ =~= i64_to_be(v));
    r
}

/// Encodes a boolean as the binary backend sends it.
pub fn encode_bool(v: bool) -> (r: Vec<u8>)
    ensures
        r@ == bool_to_byte(v),
{
    let r = vec![if v { 1u8 } else { 0u8 }];
    assert(r@ =~= bool_to_byte(v));
    r
}

/// Encodes text as its UTF-8 bytes.
pub fn encode_text(s: &str) -> (r: Vec<u8>)
    ensures
        r@ == encode_utf8(s@),
{
    let bytes = s.as_bytes();
    let mut r: Vec<u8> = Vec::new();
    let mut i: usize = 0;
    while i < bytes.len()
        invariant
            i <= bytes@.len(),
            bytes@ == encode_utf8(s@),
            r@ == bytes@.subrange(0, i as int),
        decreases bytes@.len() - i,
    {
        r.push(bytes[i]);
        i = i + 1;
        assert(r@ =~= bytes@.subrange(0, i as int));
    }
    assert(r@ =~= bytes@);
    r
}

/// Decoding an encoded integer gives the integer back.
pub proof fn lemma_i32_round_trip<DB: Backend>(v: i32)
    ensures
        <i32 as FromSql<Integer, DB>>::spec_from_sql(i32_to_be(v)) == Ok::<i32, ErrorView>(v),
{
    let u = v as u32;
    assert(((((u >> 24u32) as u8) as u32) << 24u32) | ((((u >> 16u32) as u8) as u32) << 16u32) | ((((u
        >> 8u32) as u8) as u32) << 8u32) | ((u as u8) as u32) == u) by (bit_vector);
    assert(((v as u32) as i32) == v) by (bit_vector);
}

/// Decoding an encoded 64-bit integer gives the integer back.
pub proof fn lemma_i64_round_trip<DB: Backend>(v: i64)
    ensures
        <i64 as FromSql<BigInt, DB>>::spec_from_sql(i64_to_be(v)) == Ok::<i64, ErrorView>(v),
{
    let u = v as u64;
    assert(((((u >> 56u64) as u8) as u64) << 56u64) | ((((u >> 48u64) as u8) as u64) << 48u64) | ((((u
        >> 40u64) as u8) as u64) << 40u64) | ((((u >> 32u64) as u8) as u64) << 32u64) | ((((u
        >> 24u64) as u8) as u64) << 24u64) | ((((u >> 16u64) as u8) as u64) << 16u64) | ((((u
        >> 8u64) as u8) as u64) << 8u64) | ((u as u8) as u64) == u) by (bit_vector);
    assert(((v as u64) as i64) == v) by (bit_vector);
}

/// Decoding an encoded boolean gives the boolean back.
pub proof fn lemma_bool_round_trip<DB: Backend>(v: bool)
    ensures
        <bool as FromSql<Bool, DB>>::spec_from_sql(bool_to_byte(v)) == Ok::<bool, ErrorView>(v),
{
}

/// Decoding encoded text gives the text back.
pub proof fn lemma_text_round_trip<DB: Backend>(s: Seq<char>)
    ensures
        <String as FromSql<Text, DB>>::spec_from_sql(encode_utf8(s)) == Ok::<Seq<char>, ErrorView>(s),
{
    encode_utf8_valid_utf8(s);
    encode_utf8_decode_utf8(s);
}

} // verus!
