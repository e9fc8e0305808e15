//! Tests of the query-string encoders.

use steam_rs::encode::{
    bool_to_string, i32_to_string, optional_argument, optional_argument_bool,
    optional_argument_i32, optional_argument_u32, u32_to_string, u64_to_string, url_encode,
};

#[test]
fn u64_renders_zero() {
    assert_eq!(u64_to_string(0), "0");
}

#[test]
fn u64_renders_digits_in_order() {
    assert_eq!(u64_to_string(1234567890), "1234567890");
}

#[test]
fn u64_renders_largest_value() {
    assert_eq!(u64_to_string(u64::MAX), "18446744073709551615");
}

#[test]
fn u32_renders_largest_value() {
    assert_eq!(u32_to_string(u32::MAX), "4294967295");
}

#[test]
fn i32_renders_negative_values() {
    assert_eq!(i32_to_string(-5), "-5");
    assert_eq!(i32_to_string(i32::MIN), "-2147483648");
}

#[test]
fn i32_renders_non_negative_values() {
    assert_eq!(i32_to_string(0), "0");
    assert_eq!(i32_to_string(42), "42");
    assert_eq!(i32_to_string(i32::MAX), "2147483647");
}

#[test]
fn bool_renders_textual_form() {
    assert_eq!(bool_to_string(true), "true");
    assert_eq!(bool_to_string(false), "false");
}

#[test]
fn list_encoder_empty_input_renders_empty() {
    let list: Vec<String> = vec![];
    assert_eq!(url_encode("tags", &list), "");
}

#[test]
fn list_encoder_tags_scenario() {
    let list = vec!["a".to_owned(), "b".to_owned()];
    assert_eq!(url_encode("tags", &list), "tags[0]=a&tags[1]=b");
}

#[test]
fn list_encoder_preserves_order_and_duplicates() {
    let list = vec!["x".to_owned(), "x".to_owned(), "y".to_owned()];
    assert_eq!(url_encode("ids", &list), "ids[0]=x&ids[1]=x&ids[2]=y");
}

#[test]
fn list_encoder_single_element_has_no_separator() {
    let list = vec!["only".to_owned()];
    assert_eq!(url_encode("ids", &list), "ids[0]=only");
}

#[test]
fn optional_absent_renders_empty() {
    assert_eq!(optional_argument("lang", &None), "");
    assert_eq!(optional_argument_i32("lang", None), "");
    assert_eq!(optional_argument_u32("rev", None), "");
    assert_eq!(optional_argument_bool("flag", None), "");
}

#[test]
fn optional_lang_scenario() {
    assert_eq!(optional_argument_i32("lang", Some(5)), "&lang=5");
}

#[test]
fn optional_present_renders_single_fragment() {
    assert_eq!(optional_argument("name", &Some("value".to_owned())), "&name=value");
    assert_eq!(optional_argument_u32("rev", Some(7)), "&rev=7");
    assert_eq!(optional_argument_bool("flag", Some(true)), "&flag=true");
    assert_eq!(optional_argument_bool("flag", Some(false)), "&flag=false");
}
