use query_core::column::DataColumn;
use query_core::text::{i128_to_text, str_eq, u64_to_text};
use query_core::types::DataType;
use query_core::value::DataValue;

#[test]
fn naturals_render_in_decimal() {
    assert_eq!(u64_to_text(0), "0");
    assert_eq!(u64_to_text(7), "7");
    assert_eq!(u64_to_text(12345), "12345");
    assert_eq!(u64_to_text(u64::MAX), "18446744073709551615");
}

#[test]
fn signed_numbers_take_a_leading_minus() {
    assert_eq!(i128_to_text(-42), "-42");
    assert_eq!(i128_to_text(42), "42");
    assert_eq!(i128_to_text(0), "0");
    assert_eq!(i128_to_text(i64::MIN as i128), "-9223372036854775808");
}

#[test]
fn scalars_render_canonically() {
    assert_eq!(DataValue::Null.to_text(), "NULL");
    assert_eq!(DataValue::Boolean(true).to_text(), "true");
    assert_eq!(DataValue::Boolean(false).to_text(), "false");
    assert_eq!(DataValue::Int8(-3).to_text(), "-3");
    assert_eq!(DataValue::UInt64(10).to_text(), "10");
    assert_eq!(DataValue::Utf8(String::from("abc")).to_text(), "abc");
}

#[test]
fn text_equality_compares_characters() {
    assert!(str_eq("abc", "abc"));
    assert!(!str_eq("abc", "abd"));
    assert!(!str_eq("abc", "ab"));
    assert!(str_eq("", ""));
}

#[test]
fn columns_report_type_and_rows() {
    let a = DataColumn::Array(vec![DataValue::Int32(1), DataValue::Int32(2)]);
    assert_eq!(a.data_type(), DataType::Int32);
    assert_eq!(a.len(), 2);
    let c = DataColumn::Constant(DataValue::Utf8(String::from("x")), 9);
    assert_eq!(c.data_type(), DataType::Utf8);
    assert_eq!(c.len(), 9);
    let empty = DataColumn::Array(vec![]);
    assert_eq!(empty.data_type(), DataType::Null);
    assert_eq!(empty.len(), 0);
}

#[test]
fn scalars_report_their_type() {
    assert_eq!(DataValue::Null.data_type(), DataType::Null);
    assert_eq!(DataValue::UInt16(1).data_type(), DataType::UInt16);
    assert_eq!(DataValue::Utf8(String::new()).data_type(), DataType::Utf8);
}
