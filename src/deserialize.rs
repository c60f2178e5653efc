use vstd::prelude::*;

use crate::error::{dview, DecodeResult, DeserializeError, ErrorView, SpecResult};
use crate::row::{
    lemma_index_of_name, lemma_lookup_unique, lookup, names_unique, values_of, ColumnView, PartialRow, Row,
};
use crate::sql_types::{min_nat, Backend, SingleValue, SqlType, TupleSize, Untyped};

verus! {

/// Decodes a single field of SQL type `A`.
///
/// Implementors state what they return through `spec_from_sql` and
/// `spec_from_null`, and prove in `lemma_null_handling` that a field is
/// null-tolerant exactly when its tag is nullable.
pub trait FromSql<A: SqlType, DB: Backend>: Sized + DeepView {
    /// The result of decoding a present payload.
    spec fn spec_from_sql(bytes: Seq<u8>) -> SpecResult<<Self as DeepView>::V>;

    /// The result of decoding a null field.
    spec fn spec_from_null() -> SpecResult<<Self as DeepView>::V>;

    /// A nullable tag decodes null to a value; any other tag fails on it with
    /// `UnexpectedNull`. A payload never fails for want of a row position.
    proof fn lemma_null_handling()
        ensures
            A::is_nullable() ==> Self::spec_from_null() is Ok,
            !A::is_nullable() ==> Self::spec_from_null() == Err::<<Self as DeepView>::V, ErrorView>(ErrorView::UnexpectedNull),
            forall|b: Seq<u8>| !(#[trigger] Self::spec_from_sql(b) is Err
                && Self::spec_from_sql(b)->Err_0 is UnexpectedEndOfRow),
    ;

    /// Decodes a present payload.
    fn from_sql(bytes: &[u8]) -> (r: DecodeResult<Self>)
        ensures
            dview(r) == Self::spec_from_sql(bytes@),
    ;

    /// Decodes a field that may be null.
    fn from_nullable_sql(bytes: Option<&[u8]>) -> (r: DecodeResult<Self>)
        ensures
            match bytes {
                Some(b) => dview(r) == Self::spec_from_sql(b@),
                None => dview(r) == Self::spec_from_null(),
            },
    ;
}

/// What a scalar decoder makes of one field.
pub open spec fn decode_field<T: FromSql<A, DB>, A: SqlType, DB: Backend>(
    field: Option<Seq<u8>>,
) -> SpecResult<<T as DeepView>::V> {
    match field {
        Some(b) => T::spec_from_sql(b),
        None => T::spec_from_null(),
    }
}

/// Decodes the field at `start` with a scalar decoder; a row that ends
/// before `start` gives `UnexpectedEndOfRow` at `start`.
pub open spec fn decode_at<T: FromSql<A, DB>, A: SqlType, DB: Backend>(
    row: Seq<Option<Seq<u8>>>,
    start: int,
) -> SpecResult<<T as DeepView>::V> {
    if 0 <= start < row.len() {
        decode_field::<T, A, DB>(row[start])
    } else {
        Err(ErrorView::UnexpectedEndOfRow(start as usize))
    }
}

fn build_single<T: FromSql<A, DB>, A: SqlType, DB: Backend>(row: &PartialRow) -> (r: DecodeResult<T>)
    requires
        row.wf(),
    ensures
        dview(r) == decode_at::<T, A, DB>(values_of(row.row@), row.start as int),
{
    match row.row.get(row.start) {
        Some(field) => T::from_nullable_sql(field.value()),
        None => Err(DeserializeError::UnexpectedEndOfRow(row.start)),
    }
}

/// Decodes the fields of a statically shaped row, from a start position on.
///
/// A builder for tag `ST` reads `ST::spec_size()` fields, left to right, and
/// `lemma_width` states that it reads no others and that a short row fails
/// at its end.
pub trait FromStaticSqlRow<ST: SqlType, DB: Backend>: Sized + DeepView {
    /// The result of building from the payloads `row`, starting at `start`.
    spec fn spec_build(row: Seq<Option<Seq<u8>>>, start: int) -> SpecResult<<Self as DeepView>::V>;

    /// Fields past `start + ST::spec_size()` do not matter; where the row
    /// ends earlier the build fails, and fails for want of a field only at
    /// the row's end.
    proof fn lemma_width(row: Seq<Option<Seq<u8>>>, start: int)
        requires
            0 <= start <= row.len(),
            row.len() <= usize::MAX,
        ensures
            start + ST::spec_size() <= row.len() ==> Self::spec_build(row, start) == Self::spec_build(
                row.subrange(0, start + ST::spec_size()),
                start,
            ),
            start + ST::spec_size() > row.len() ==> Self::spec_build(row, start) is Err,
            start + ST::spec_size() > row.len() ==> (Self::spec_build(row, start)->Err_0 is UnexpectedEndOfRow
                ==> Self::spec_build(row, start)->Err_0->UnexpectedEndOfRow_0 == row.len()),
    ;

    /// Builds a value from `row`, starting at its start position.
    fn build_from_row(row: &PartialRow) -> (r: DecodeResult<Self>)
        requires
            row.wf(),
        ensures
            dview(r) == Self::spec_build(values_of(row.row@), row.start as int),
    ;
}

/// A scalar decoder of a single-value tag reads the one field at the start.
impl<T, ST, DB> FromStaticSqlRow<ST, DB> for T where
    DB: Backend,
    T: FromSql<ST, DB>,
    ST: SingleValue,
 {
    open spec fn spec_build(row: Seq<Option<Seq<u8>>>, start: int) -> SpecResult<<T as DeepView>::V> {
        decode_at::<T, ST, DB>(row, start)
    }

    proof fn lemma_width(row: Seq<Option<Seq<u8>>>, start: int) {
        T::lemma_null_handling();
        ST::lemma_single();
        if start < row.len() {
            assert(row.subrange(0, start + 1)[start] == row[start]);
        }
    }

    fn build_from_row(row: &PartialRow) -> (r: DecodeResult<T>) {
        build_single::<T, ST, DB>(row)
    }
}

/// A composite builds its first slot from the field at the start and its
/// remaining slots from the rest of the row.
impl<A, B, SA, SB, DB> FromStaticSqlRow<(SA, SB), DB> for (A, B) where
    DB: Backend,
    A: FromSql<SA, DB>,
    SA: SingleValue,
    B: FromStaticSqlRow<SB, DB>,
    SB: SqlType,
 {
    open spec fn spec_build(row: Seq<Option<Seq<u8>>>, start: int) -> SpecResult<(A::V, B::V)> {
        match decode_at::<A, SA, DB>(row, start) {
            Err(e) => Err(e),
            Ok(a) => match B::spec_build(row, start + 1) {
                Err(e) => Err(e),
                Ok(b) => Ok((a, b)),
            },
        }
    }

    proof fn lemma_width(row: Seq<Option<Seq<u8>>>, start: int) {
        A::lemma_null_handling();
        let end = start + 1 + SB::spec_size();
        if start < row.len() {
            let short = row.subrange(0, start + 1 + SB::spec_size());
            B::lemma_width(row, start + 1);
            if end <= row.len() {
                assert(short[start] == row[start]);
                assert(short.subrange(0, end) =~= short);
                B::lemma_width(short, start + 1);
            } else {
                if decode_at::<A, SA, DB>(row, start) is Err {
                    if row[start] is Some {
                        assert(A::spec_from_sql(row[start]->Some_0) is Err);
                    }
                }
            }
        }
    }

    fn build_from_row(row: &PartialRow) -> (r: DecodeResult<(A, B)>) {
        let a = match build_single::<A, SA, DB>(row) {
            Ok(a) => a,
            Err(e) => return Err(e),
        };
        let rest = row.skip_one();
        match B::build_from_row(&rest) {
            Ok(b) => Ok((a, b)),
            Err(e) => Err(e),
        }
    }
}

/// Maps the tuple that a static row builder produced into the final value.
pub trait Queryable<ST: SqlType, DB: Backend>: Sized + DeepView {
    /// The intermediate value, typically a tuple of the fields.
    type Row: FromStaticSqlRow<ST, DB>;

    /// The value built from an intermediate row.
    spec fn spec_build(row: <Self::Row as DeepView>::V) -> <Self as DeepView>::V;

    /// Constructs the value.
    fn build(row: Self::Row) -> (r: Self)
        ensures
            r.deep_view() == Self::spec_build(row.deep_view()),
    ;
}

/// Builds a value from a row by looking its columns up by name.
///
/// `lemma_by_name` states that the result depends on the row only through
/// what a lookup by name finds.
pub trait QueryableByName<DB: Backend>: Sized + DeepView {
    /// The result of building from `row`.
    spec fn spec_build(row: Seq<ColumnView>) -> SpecResult<<Self as DeepView>::V>;

    /// Rows on which every lookup by name agrees give the same result.
    proof fn lemma_by_name(a: Seq<ColumnView>, b: Seq<ColumnView>)
        requires
            forall|n: Seq<char>| lookup(a, n) == lookup(b, n),
        ensures
            Self::spec_build(a) == Self::spec_build(b),
    ;

    /// Constructs the value from the row.
    fn build(row: &Row) -> (r: DecodeResult<Self>)
        ensures
            dview(r) == Self::spec_build(row@),
    ;
}

/// Builds a value from a whole row: the entry point of the execution layer.
pub trait FromSqlRow<ST, DB: Backend>: Sized + DeepView {
    /// The result of building from `row`.
    spec fn spec_build_from_row(row: Seq<ColumnView>) -> SpecResult<<Self as DeepView>::V>;

    /// Builds the value.
    fn build_from_row(row: &Row) -> (r: DecodeResult<Self>)
        ensures
            dview(r) == Self::spec_build_from_row(row@),
    ;
}

/// A target that reads a number of fields fixed by its tag.
pub trait StaticallySizedRow<ST, DB: Backend>: FromSqlRow<ST, DB> {
    /// The number of fields the target reads.
    spec fn spec_field_count() -> nat;

    /// That number, or `usize::MAX` where it cannot be counted in a `usize`.
    fn field_count() -> (r: usize)
        ensures
            r as nat == min_nat(Self::spec_field_count(), usize::MAX as nat),
    ;
}

/// What the static path makes of a row: the intermediate row of `T`, built
/// from position zero, then adapted.
pub open spec fn build_static<T: Queryable<ST, DB>, ST: SqlType, DB: Backend>(
    row: Seq<ColumnView>,
) -> SpecResult<<T as DeepView>::V> {
    match T::Row::spec_build(values_of(row), 0) {
        Ok(r) => Ok(T::spec_build(r)),
        Err(e) => Err(e),
    }
}

/// Targets read by name take the untyped path.
impl<DB, T> FromSqlRow<Untyped, DB> for T where DB: Backend, T: QueryableByName<DB> {
    open spec fn spec_build_from_row(row: Seq<ColumnView>) -> SpecResult<<T as DeepView>::V> {
        T::spec_build(row)
    }

    fn build_from_row(row: &Row) -> (r: DecodeResult<T>) {
        T::build(row)
    }
}

/// Targets with an adapter take the static path.
impl<T, ST, DB> FromSqlRow<ST, DB> for T where T: Queryable<ST, DB>, ST: SqlType, DB: Backend {
    open spec fn spec_build_from_row(row: Seq<ColumnView>) -> SpecResult<<T as DeepView>::V> {
        build_static::<T, ST, DB>(row)
    }

    fn build_from_row(row: &Row) -> (r: DecodeResult<T>) {
        let whole = row.partial(0);
        match <T::Row as FromStaticSqlRow<ST, DB>>::build_from_row(&whole) {
            Ok(r) => Ok(T::build(r)),
            Err(e) => Err(e),
        }
    }
}

impl<T, ST, DB> StaticallySizedRow<ST, DB> for T where
    ST: TupleSize,
    T: Queryable<ST, DB>,
    DB: Backend,
 {
    open spec fn spec_field_count() -> nat {
        ST::spec_size()
    }

    fn field_count() -> (r: usize) {
        ST::size()
    }
}

/// What a lookup of `name` makes of a row: `ColumnNotFound` where no column
/// has the name, else the first such column decoded.
pub open spec fn decode_named_spec<T: FromSql<A, DB>, A: SqlType, DB: Backend>(
    row: Seq<ColumnView>,
    name: Seq<char>,
) -> SpecResult<<T as DeepView>::V> {
    match lookup(row, name) {
        Some(field) => decode_field::<T, A, DB>(field),
        None => Err(ErrorView::ColumnNotFound(name)),
    }
}

/// Decodes the column named `name`: the building block of a named-row
/// builder.
pub fn decode_named<T: FromSql<A, DB>, A: SqlType, DB: Backend>(row: &Row, name: &str) -> (r:
    DecodeResult<T>)
    ensures
        dview(r) == decode_named_spec::<T, A, DB>(row@, name@),
{
    proof {
        lemma_index_of_name(row@, name@);
    }
    match row.get_by_name(name) {
        Some(column) => {
            let value = column.value();
            assert(lookup(row@, name@) == Some(column.view_value()));
            T::from_nullable_sql(value)
        },
        None => Err(DeserializeError::ColumnNotFound(String::from_str(name))),
    }
}

/// A null field decodes to a value exactly under a nullable tag; under any
/// other tag it fails with `UnexpectedNull`.
pub proof fn lemma_null_field<T: FromSql<A, DB>, A: SqlType, DB: Backend>()
    ensures
        A::is_nullable() ==> decode_field::<T, A, DB>(None) is Ok,
        !A::is_nullable() ==> decode_field::<T, A, DB>(None) == Err::<<T as DeepView>::V, ErrorView>(
            ErrorView::UnexpectedNull,
        ),
{
    T::lemma_null_handling();
}

/// A row shorter than the tag's width fails, and where it fails for want of
/// a field it does so at the row's end; a row at least that wide is read
/// only up to the width.
pub proof fn lemma_row_width<T: Queryable<ST, DB>, ST: SqlType, DB: Backend>(row: Seq<ColumnView>)
    requires
        row.len() <= usize::MAX,
    ensures
        row.len() < ST::spec_size() ==> build_static::<T, ST, DB>(row) is Err,
        row.len() < ST::spec_size() ==> (build_static::<T, ST, DB>(row)->Err_0 is UnexpectedEndOfRow
            ==> build_static::<T, ST, DB>(row)->Err_0->UnexpectedEndOfRow_0 == row.len()),
        row.len() >= ST::spec_size() ==> build_static::<T, ST, DB>(row) == build_static::<T, ST, DB>(
            row.subrange(0, ST::spec_size() as int),
        ),
{
    T::Row::lemma_width(values_of(row), 0);
    if row.len() >= ST::spec_size() {
        assert(values_of(row.subrange(0, ST::spec_size() as int)) =~= values_of(row).subrange(
            0,
            ST::spec_size() as int,
        ));
    }
}

/// Reordering the columns of a row whose names are unique, keeping each
/// name with its payload, does not change what a named-row builder makes
/// of it.
pub proof fn lemma_named_order_independent<T: QueryableByName<DB>, DB: Backend>(
    a: Seq<ColumnView>,
    b: Seq<ColumnView>,
)
    requires
        names_unique(a),
        names_unique(b),
        forall|c: ColumnView| a.contains(c) <==> b.contains(c),
    ensures
        T::spec_build(a) == T::spec_build(b),
{
    assert forall|n: Seq<char>| lookup(a, n) == lookup(b, n) by {
        lemma_lookup_unique(a, n);
        lemma_lookup_unique(b, n);
        if lookup(a, n) is Some {
            assert(a.contains((n, lookup(a, n)->Some_0)));
        } else if lookup(b, n) is Some {
            assert(b.contains((n, lookup(b, n)->Some_0)));
        }
    }
    T::lemma_by_name(a, b);
}

/// Decoding reads the row and changes nothing: a row decoded twice, or two
/// rows with the same columns, give the same result.
pub proof fn lemma_decode_repeatable<T: FromSqlRow<ST, DB>, ST, DB: Backend>(
    a: Seq<ColumnView>,
    b: Seq<ColumnView>,
)
    requires
        a == b,
    ensures
        T::spec_build_from_row(a) == T::spec_build_from_row(b),
{
}

} // verus!
