use diesel_deserialize::deserialize::{
    decode_named, FromSql, FromSqlRow, FromStaticSqlRow, Queryable, StaticallySizedRow,
};
use diesel_deserialize::error::DeserializeError;
use diesel_deserialize::primitives::{encode_bool, encode_i32, encode_i64, encode_text};
use diesel_deserialize::records::{User, Variant};
use diesel_deserialize::row::{Column, Row};
use diesel_deserialize::sql_types::{BigInt, Binary, Bool, Integer, Nullable, Text, TupleSize, Untyped};

fn col(name: &str, value: Option<Vec<u8>>) -> Column {
    Column { name: name.to_string(), value }
}

fn sean_row() -> Row {
    Row { columns: vec![col("id", Some(encode_i32(1))), col("name", Some(encode_text("Sean")))] }
}

#[test]
fn composite_row_decodes_to_tuple_and_struct() {
    let row = sean_row();
    let tuple = <(i32, String) as FromStaticSqlRow<(Integer, Text), Binary>>::build_from_row(&row.partial(0));
    assert_eq!(tuple, Ok((1, "Sean".to_string())));
    let user = <User as FromSqlRow<(Integer, Text), Binary>>::build_from_row(&row);
    assert_eq!(user, Ok(User { id: 1, name: "Sean".to_string() }));
}

#[test]
fn empty_row_ends_at_position_zero() {
    let row = Row { columns: vec![] };
    let r = <(i32, String) as FromStaticSqlRow<(Integer, Text), Binary>>::build_from_row(&row.partial(0));
    assert_eq!(r, Err(DeserializeError::UnexpectedEndOfRow(0)));
    let user = <User as FromSqlRow<(Integer, Text), Binary>>::build_from_row(&row);
    assert_eq!(user.unwrap_err().end_of_row_position(), Some(0));
}

#[test]
fn short_row_ends_at_first_missing_position() {
    let row = Row { columns: vec![col("id", Some(encode_i32(1)))] };
    let r = <(i32, String) as FromStaticSqlRow<(Integer, Text), Binary>>::build_from_row(&row.partial(0));
    assert_eq!(r, Err(DeserializeError::UnexpectedEndOfRow(1)));
}

#[test]
fn wider_row_uses_only_leading_fields() {
    let mut row = sean_row();
    row.columns.push(col("extra", Some(vec![0xff])));
    let r = <(i32, String) as FromStaticSqlRow<(Integer, Text), Binary>>::build_from_row(&row.partial(0));
    assert_eq!(r, Ok((1, "Sean".to_string())));
}

#[test]
fn null_for_non_nullable_integer_fails() {
    let row = Row { columns: vec![col("id", None)] };
    let r = <i32 as FromStaticSqlRow<Integer, Binary>>::build_from_row(&row.partial(0));
    assert_eq!(r, Err(DeserializeError::UnexpectedNull));
    assert!(r.unwrap_err().is_unexpected_null());
}

#[test]
fn null_for_nullable_integer_is_none() {
    let row = Row { columns: vec![col("id", None)] };
    let r = <Option<i32> as FromStaticSqlRow<Nullable<Integer>, Binary>>::build_from_row(&row.partial(0));
    assert_eq!(r, Ok(None));
    let present = <Option<i32> as FromSql<Nullable<Integer>, Binary>>::from_nullable_sql(Some(&encode_i32(-7)));
    assert_eq!(present, Ok(Some(-7)));
}

#[test]
fn named_row_in_other_order() {
    let row = Row { columns: vec![col("name", Some(encode_text("Sean"))), col("id", Some(encode_i32(1)))] };
    let user = <User as FromSqlRow<Untyped, Binary>>::build_from_row(&row);
    assert_eq!(user, Ok(User { id: 1, name: "Sean".to_string() }));
    let same = <User as FromSqlRow<Untyped, Binary>>::build_from_row(&sean_row());
    assert_eq!(user, same);
}

#[test]
fn named_row_missing_column() {
    let row = Row { columns: vec![col("id", Some(encode_i32(1)))] };
    let user = <User as FromSqlRow<Untyped, Binary>>::build_from_row(&row);
    assert_eq!(user, Err(DeserializeError::ColumnNotFound("name".to_string())));
    assert_eq!(user.unwrap_err().message(), "name");
}

#[test]
fn decoding_twice_gives_equal_results() {
    let row = sean_row();
    let first = <User as FromSqlRow<(Integer, Text), Binary>>::build_from_row(&row);
    let second = <User as FromSqlRow<(Integer, Text), Binary>>::build_from_row(&row);
    assert_eq!(first, second);
}

#[test]
fn custom_enum_decoder() {
    assert_eq!(<Variant as FromSql<Integer, Binary>>::from_sql(&encode_i32(1)), Ok(Variant::A));
    assert_eq!(<Variant as FromSql<Integer, Binary>>::from_sql(&encode_i32(2)), Ok(Variant::B));
    let err = <Variant as FromSql<Integer, Binary>>::from_sql(&encode_i32(3)).unwrap_err();
    match err {
        DeserializeError::ConversionError(m) => assert!(m.contains('3')),
        other => panic!("unexpected error {:?}", other),
    }
}

#[test]
fn integer_round_trip_and_layout() {
    assert_eq!(encode_i32(1), vec![0, 0, 0, 1]);
    assert_eq!(encode_i32(-2), vec![0xff, 0xff, 0xff, 0xfe]);
    for v in [0, 1, -1, 258, i32::MAX, i32::MIN] {
        assert_eq!(<i32 as FromSql<Integer, Binary>>::from_sql(&encode_i32(v)), Ok(v));
    }
    assert_eq!(<i32 as FromSql<Integer, Binary>>::from_sql(&[1, 2, 3, 4]), Ok(0x01020304));
}

#[test]
fn big_integer_round_trip() {
    assert_eq!(encode_i64(256), vec![0, 0, 0, 0, 0, 0, 1, 0]);
    for v in [0i64, 1, -1, 1 << 40, i64::MAX, i64::MIN] {
        assert_eq!(<i64 as FromSql<BigInt, Binary>>::from_sql(&encode_i64(v)), Ok(v));
    }
}

#[test]
fn bool_and_text_round_trip() {
    assert_eq!(<bool as FromSql<Bool, Binary>>::from_sql(&encode_bool(true)), Ok(true));
    assert_eq!(<bool as FromSql<Bool, Binary>>::from_sql(&encode_bool(false)), Ok(false));
    assert_eq!(<bool as FromSql<Bool, Binary>>::from_sql(&[7]), Ok(true));
    assert_eq!(encode_text("h\u{e9}"), vec![0x68, 0xc3, 0xa9]);
    assert_eq!(<String as FromSql<Text, Binary>>::from_sql(&encode_text("h\u{e9}")), Ok("h\u{e9}".to_string()));
}

#[test]
fn malformed_payloads_are_conversion_errors() {
    let short = <i32 as FromSql<Integer, Binary>>::from_sql(&[1, 2]);
    assert!(matches!(short, Err(DeserializeError::ConversionError(_))));
    let long = <i64 as FromSql<BigInt, Binary>>::from_sql(&[0; 9]);
    assert!(matches!(long, Err(DeserializeError::ConversionError(_))));
    let empty_bool = <bool as FromSql<Bool, Binary>>::from_sql(&[]);
    assert!(matches!(empty_bool, Err(DeserializeError::ConversionError(_))));
    let bad_text = <String as FromSql<Text, Binary>>::from_sql(&[0xff, 0xfe]);
    assert!(matches!(bad_text, Err(DeserializeError::ConversionError(_))));
}

#[test]
fn field_count_witness() {
    assert_eq!(<User as StaticallySizedRow<(Integer, Text), Binary>>::field_count(), 2);
    assert_eq!(<(Integer, (Text, BigInt)) as TupleSize>::size(), 3);
    assert_eq!(<Integer as TupleSize>::size(), 1);
}

#[test]
fn three_slot_composite() {
    let row = Row {
        columns: vec![
            col("id", Some(encode_i32(5))),
            col("name", Some(encode_text("Ann"))),
            col("active", Some(encode_bool(true))),
        ],
    };
    let r = <(i32, (String, bool)) as FromStaticSqlRow<(Integer, (Text, Bool)), Binary>>::build_from_row(
        &row.partial(0),
    );
    assert_eq!(r, Ok((5, ("Ann".to_string(), true))));
    let bad = Row { columns: vec![col("id", Some(encode_i32(5))), col("name", None)] };
    let r2 = <(i32, (String, bool)) as FromStaticSqlRow<(Integer, (Text, Bool)), Binary>>::build_from_row(
        &bad.partial(0),
    );
    assert_eq!(r2, Err(DeserializeError::UnexpectedNull));
}

#[test]
fn lookup_by_name_finds_first_column() {
    let row = Row { columns: vec![col("a", Some(vec![1])), col("a", Some(vec![2]))] };
    assert_eq!(row.get_by_name("a").unwrap().value(), Some(&[1u8][..]));
    assert!(row.get_by_name("b").is_none());
    assert_eq!(row.len(), 2);
    assert!(row.get(2).is_none());
}

#[test]
fn unrecognized_variant_message_names_value() {
    let err = <Variant as FromSql<Integer, Binary>>::from_sql(&encode_i32(-42)).unwrap_err();
    assert_eq!(err, DeserializeError::ConversionError("Unrecognized variant -42".to_string()));
    let null = <Variant as FromSql<Integer, Binary>>::from_nullable_sql(None);
    assert_eq!(null, Err(DeserializeError::UnexpectedNull));
}

#[test]
fn adapter_and_named_lookup_helpers() {
    let user = <User as Queryable<(Integer, Text), Binary>>::build((9, "Zed".to_string()));
    assert_eq!(user, User { id: 9, name: "Zed".to_string() });
    let row = Row { columns: vec![col("id", None)] };
    assert_eq!(decode_named::<i32, Integer, Binary>(&row, "id"), Err(DeserializeError::UnexpectedNull));
    assert_eq!(decode_named::<Option<i32>, Nullable<Integer>, Binary>(&row, "id"), Ok(None));
    assert_eq!(
        decode_named::<i32, Integer, Binary>(&row, "nope"),
        Err(DeserializeError::ColumnNotFound("nope".to_string()))
    );
}
