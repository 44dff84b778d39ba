use mcp_rs::json::{set_member, Json};
use mcp_rs::registry::Registry;
use mcp_rs::text::{contains, decimal_text, starts_with, trim};

fn again(text: &str) -> Option<String> {
    Json::parse(text).and_then(|json| json.render())
}

#[test]
fn a_text_is_read_and_written() {
    assert_eq!(
        again(r#" { "b" : [ true , null , -5 , 7 , "x\n" ] , "a" : {} } "#).unwrap(),
        r#"{"b":[true,null,-5,7,"x\n"],"a":{}}"#
    );
    assert_eq!(again("1.5").unwrap(), "1.5");
    assert_eq!(again("1e2").unwrap(), "100.0");
    assert_eq!(again("-0.0").unwrap(), "-0.0");
    assert_eq!(again("18446744073709551615").unwrap(), "18446744073709551615");
    assert_eq!(again("-9223372036854775808").unwrap(), "-9223372036854775808");
    assert_eq!(again("18446744073709551616").unwrap(), "1.8446744073709552e+19");
    assert!(Json::parse("").is_none());
    assert!(Json::parse("{").is_none());
    assert!(Json::parse("1 2").is_none());
    assert!(Json::parse("NaN").is_none());
}

#[test]
fn the_last_of_two_members_of_one_name_counts() {
    let json = Json::parse(r#"{"a":1,"b":2,"a":3}"#).unwrap();
    assert_eq!(json.render().unwrap(), r#"{"a":3,"b":2}"#);
    let twice =
        Json::Object(vec![("a".to_string(), Json::PosInt(1)), ("a".to_string(), Json::PosInt(2))]);
    assert!(matches!(twice.get("a"), Some(Json::PosInt(2))));
}

#[test]
fn values_nest_so_deep_and_no_deeper() {
    let nested = |depth: usize| {
        let mut text = String::new();
        for _ in 0..depth {
            text.push('[');
        }
        for _ in 0..depth {
            text.push(']');
        }
        text
    };
    assert!(Json::parse(&nested(127)).is_some());
    assert!(Json::parse(&nested(128)).is_none());
    assert_eq!(again(&nested(127)).unwrap(), nested(127));
}

#[test]
fn fields_of_a_structure() {
    let object = Json::parse(r#"{"x":1,"y":"t"}"#).unwrap();
    assert!(matches!(object.field("x", 1, 2), Some(Json::PosInt(1))));
    assert_eq!(object.get_str("y"), Some("t"));
    assert_eq!(object.get_str("x"), None);
    let array = Json::parse("[1,2]").unwrap();
    assert!(matches!(array.field("x", 1, 2), Some(Json::PosInt(2))));
    assert!(array.field("x", 1, 3).is_none());
    assert!(array.is_record(2) && !array.is_record(3) && object.is_record(3));
    assert!(!Json::Null.is_record(0));
    let copy = object.clone();
    assert_eq!(copy.render().unwrap(), object.render().unwrap());
}

#[test]
fn a_member_is_set_where_it_stands() {
    let mut members =
        vec![("a".to_string(), Json::PosInt(1)), ("b".to_string(), Json::PosInt(2))];
    set_member(&mut members, "a", Json::Null);
    set_member(&mut members, "c", Json::Bool(true));
    assert_eq!(Json::Object(members).render().unwrap(), r#"{"a":null,"b":2,"c":true}"#);
}

#[test]
fn texts() {
    assert_eq!(decimal_text(0), "0");
    assert_eq!(decimal_text(18446744073709551615), "18446744073709551615");
    assert_eq!(decimal_text(1050), "1050");
    assert_eq!(trim("\u{2003} a b\t\n"), "a b");
    assert_eq!(trim(" \n"), "");
    assert!(contains("abcd", "bc") && contains("abcd", "") && !contains("abcd", "cb"));
    assert!(!contains("a", "ab"));
    assert!(starts_with("hyper::x", "hyper::") && !starts_with("hyper", "hyper::"));
}

#[test]
fn white_space_is_what_unicode_calls_white_space() {
    for code in 0..=0x10ffffu32 {
        if let Some(c) = char::from_u32(code) {
            let text = c.to_string();
            assert_eq!(trim(&text).is_empty(), c.is_whitespace(), "{:x}", code);
        }
    }
}

#[test]
fn a_table_holds_one_value_under_a_name() {
    let mut table: Registry<u8> = Registry::new();
    table.insert("a", 1);
    table.insert("b", 2);
    table.insert("a", 3);
    assert_eq!(table.len(), 2);
    assert_eq!(table.get("a"), Some(&3));
    assert_eq!(*table.value_at(1), 2);
    assert!(table.contains("b") && !table.contains("c"));
    assert!(table.get("c").is_none());
}
