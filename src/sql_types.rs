use vstd::prelude::*;

verus! {

/// A logical SQL type tag.
pub trait SqlType {
    /// Whether a field of this type may be null.
    spec fn is_nullable() -> bool;

    /// How many fields a row of this type spans.
    spec fn spec_size() -> nat;
}

/// The field-count witness of a statically shaped tag.
pub trait TupleSize: SqlType {
    /// The number of fields, or `usize::MAX` where that many cannot be counted.
    fn size() -> (r: usize)
        ensures
            r as nat == min_nat(Self::spec_size(), usize::MAX as nat),
    ;
}

pub open spec fn min_nat(a: nat, b: nat) -> nat {
    if a <= b {
        a
    } else {
        b
    }
}

/// A tag that stands for exactly one field.
pub trait SingleValue: SqlType {
    /// A single-value tag spans one field.
    proof fn lemma_single()
        ensures
            Self::spec_size() == 1,
    ;
}

/// The encoding dialect a row was produced by.
pub trait Backend {}

/// A backend that sends values in big-endian binary framing.
pub struct Binary;

impl Backend for Binary {}

/// A 32-bit signed integer column.
pub struct Integer;

/// A 64-bit signed integer column.
pub struct BigInt;

/// A boolean column.
pub struct Bool;

/// A UTF-8 text column.
pub struct Text;

/// A column of type `ST` that may be null.
pub struct Nullable<ST>(pub ST);

/// The tag of a row read by column name, whose shape is not known statically.
pub struct Untyped;

impl SqlType for Integer {
    open spec fn is_nullable() -> bool {
        false
    }

    open spec fn spec_size() -> nat {
        1
    }
}

impl SingleValue for Integer {
    proof fn lemma_single() {
    }
}

impl TupleSize for Integer {
    fn size() -> (r: usize) {
        1
    }
}

impl SqlType for BigInt {
    open spec fn is_nullable() -> bool {
        false
    }

    open spec fn spec_size() -> nat {
        1
    }
}

impl SingleValue for BigInt {
    proof fn lemma_single() {
    }
}

impl TupleSize for BigInt {
    fn size() -> (r: usize) {
        1
    }
}

impl SqlType for Bool {
    open spec fn is_nullable() -> bool {
        false
    }

    open spec fn spec_size() -> nat {
        1
    }
}

impl SingleValue for Bool {
    proof fn lemma_single() {
    }
}

impl TupleSize for Bool {
    fn size() -> (r: usize) {
        1
    }
}

impl SqlType for Text {
    open spec fn is_nullable() -> bool {
        false
    }

    open spec fn spec_size() -> nat {
        1
    }
}

impl SingleValue for Text {
    proof fn lemma_single() {
    }
}

impl TupleSize for Text {
    fn size() -> (r: usize) {
        1
    }
}

impl<ST: SqlType> SqlType for Nullable<ST> {
    open spec fn is_nullable() -> bool {
        true
    }

    open spec fn spec_size() -> nat {
        1
    }
}

impl<ST: SqlType> SingleValue for Nullable<ST> {
    proof fn lemma_single() {
    }
}

impl<ST: SqlType> TupleSize for Nullable<ST> {
    fn size() -> (r: usize) {
        1
    }
}

/// A composite tag: one field of `SA` followed by the fields of `SB`.
impl<SA: SingleValue, SB: SqlType> SqlType for (SA, SB) {
    open spec fn is_nullable() -> bool {
        false
    }

    open spec fn spec_size() -> nat {
        1 + SB::spec_size()
    }
}

impl<SA: SingleValue, SB: TupleSize> TupleSize for (SA, SB) {
    fn size() -> (r: usize) {
        let rest = SB::size();
        if rest < usize::MAX {
            rest + 1
        } else {
            usize::MAX
        }
    }
}

} // verus!
