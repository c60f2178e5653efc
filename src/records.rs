//! Application records with hand-written adapters: a user row read by
//! position or by name, and an enumeration stored as an integer.
use vstd::prelude::*;

use crate::deserialize::{decode_named, decode_named_spec, FromSql, Queryable, QueryableByName};
use crate::error::{dview, DecodeResult, DeserializeError, ErrorView, SpecResult};
use crate::row::{ColumnView, Row};
use crate::sql_types::{Binary, Integer, Text};

verus! {

/// A row of a users table.
#[derive(Debug, PartialEq, Eq)]
pub struct User {
    pub id: i32,
    pub name: String,
}

impl DeepView for User {
    type V = (i32, Seq<char>);

    open spec fn deep_view(&self) -> (i32, Seq<char>) {
        (self.id, self.name@)
    }
}

impl Queryable<(Integer, Text), Binary> for User {
    type Row = (i32, String);

    open spec fn spec_build(row: (i32, Seq<char>)) -> (i32, Seq<char>) {
        row
    }

    fn build(row: (i32, String)) -> (r: User) {
        User { id: row.0, name: row.1 }
    }
}

impl QueryableByName<Binary> for User {
    open spec fn spec_build(row: Seq<ColumnView>) -> SpecResult<(i32, Seq<char>)> {
        match decode_named_spec::<i32, Integer, Binary>(row, "id"@) {
            Err(e) => Err(e),
            Ok(id) => match decode_named_spec::<String, Text, Binary>(row, "name"@) {
                Err(e) => Err(e),
                Ok(name) => Ok((id, name)),
            },
        }
    }

    proof fn lemma_by_name(a: Seq<ColumnView>, b: Seq<ColumnView>) {
        assert(decode_named_spec::<i32, Integer, Binary>(a, "id"@) == decode_named_spec::<
            i32,
            Integer,
            Binary,
        >(b, "id"@));
        assert(decode_named_spec::<String, Text, Binary>(a, "name"@) == decode_named_spec::<
            String,
            Text,
            Binary,
        >(b, "name"@));
    }

    fn build(row: &Row) -> (r: DecodeResult<User>) {
        let id = match decode_named::<i32, Integer, Binary>(row, "id") {
            Ok(id) => id,
            Err(e) => return Err(e),
        };
        let name = match decode_named::<String, Text, Binary>(row, "name") {
            Ok(name) => name,
            Err(e) => return Err(e),
        };
        Ok(User { id, name })
    }
}

/// A value stored as the integer 1 or 2.
#[derive(Debug, Clone, Copy, PartialEq, Eq, Structural)]
pub enum Variant {
    A,
    B,
}

impl DeepView for Variant {
    type V = Variant;

    open spec fn deep_view(&self) -> Variant {
        *self
    }
}

/// The decimal digit `d`.
pub open spec fn digit_char(d: nat) -> char {
    "0123456789"@[d as int]
}

/// The decimal digits of `n`, without leading zeros.
pub open spec fn nat_text(n: nat) -> Seq<char>
    decreases n,
{
    if n < 10 {
        seq![digit_char(n)]
    } else {
        nat_text(n / 10).push(digit_char(n % 10))
    }
}

/// The decimal text of an integer, with a leading minus sign where it is
/// negative.
pub open spec fn decimal_text(x: int) -> Seq<char> {
    if x < 0 {
        seq!['-'] + nat_text((-x) as nat)
    } else {
        nat_text(x as nat)
    }
}

/// The cause given for an integer that names no variant.
pub open spec fn unrecognized(x: i32) -> Seq<char> {
    "Unrecognized variant "@ + decimal_text(x as int)
}

/// Relies on the `Display` impl of `i32` (through `ToString`): it writes
/// the integer in decimal, with a minus sign where it is negative.
#[verifier::external_body]
fn i32_to_decimal(x: i32) -> (r: String)
    ensures
        r@ == decimal_text(x as int),
{
    x.to_string()
}

impl FromSql<Integer, Binary> for Variant {
    open spec fn spec_from_sql(bytes: Seq<u8>) -> SpecResult<Variant> {
        match <i32 as FromSql<Integer, Binary>>::spec_from_sql(bytes) {
            Err(e) => Err(e),
            Ok(1i32) => Ok(Variant::A),
            Ok(2i32) => Ok(Variant::B),
            Ok(x) => Err(ErrorView::ConversionError(unrecognized(x))),
        }
    }

    open spec fn spec_from_null() -> SpecResult<Variant> {
        Err(ErrorView::UnexpectedNull)
    }

    proof fn lemma_null_handling() {
    }

    fn from_sql(bytes: &[u8]) -> (r: DecodeResult<Variant>) {
        match <i32 as FromSql<Integer, Binary>>::from_sql(bytes) {
            Err(e) => Err(e),
            Ok(1i32) => Ok(Variant::A),
            Ok(2i32) => Ok(Variant::B),
            Ok(x) => {
                let prefix = String::from_str("Unrecognized variant ");
                let digits = i32_to_decimal(x);
                Err(DeserializeError::ConversionError(prefix.concat(digits.as_str())))
            },
        }
    }

    fn from_nullable_sql(bytes: Option<&[u8]>) -> (r: DecodeResult<Variant>) {
        match bytes {
            Some(b) => <Variant as FromSql<Integer, Binary>>::from_sql(b),
            None => Err(DeserializeError::UnexpectedNull),
        }
    }
}

} // verus!
