use keetanetwork_anchor_client::json::{no_members, put, Json};
use keetanetwork_anchor_client::table::{order_names, NameOrder, NameTable};
use keetanetwork_anchor_client::text::{decimal, join, same_text};

#[test]
fn a_document_survives_the_value_it_becomes() {
    let text = r#"{"a":[null,true,1,-2,0.5,"s",{"k":[]}],"b":{}}"#;
    let value: serde_json::Value = serde_json::from_slice(text.as_bytes()).unwrap();
    let document = Json::from_value(value.clone());
    assert_eq!(document.get("b"), Some(&Json::Object(no_members())));
    match document.get("a") {
        Some(Json::Array(items)) => {
            assert_eq!(items.len(), 7);
            assert!(items[0].is_null());
            assert_eq!(items[1], Json::Bool(true));
            assert_eq!(items[5].as_str(), Some("s"));
            assert_eq!(items[6].get("k"), Some(&Json::Array(Vec::new())));
        }
        other => panic!("{:?}", other),
    }
    assert_eq!(document.clone(), document);
    assert_eq!(document.into_value(), value);
}

#[test]
fn bytes_are_read_and_written() {
    let document = Json::from_slice(br#" { "z" : 1 , "y" : [ "A" ] } "#).unwrap();
    assert_eq!(document.clone().to_vec().unwrap(), br#"{"y":["A"],"z":1}"#.to_vec());
    assert_eq!(document.to_text().unwrap(), r#"{"y":["A"],"z":1}"#);
}

#[test]
fn bytes_that_are_no_document_are_refused() {
    for bytes in [&b""[..], b"{", b"[1,]", b"1 2", b"\xff"] {
        let reason = serde_json::from_slice::<serde_json::Value>(bytes).unwrap_err().to_string();
        assert_eq!(Json::from_slice(bytes).unwrap_err().to_string(), reason);
    }
}

#[test]
fn members_are_told_apart_from_what_has_none() {
    let members = put(no_members(), "a", Json::Bool(false));
    let members = put(members, "a", Json::Null);
    let object = Json::Object(members);
    assert_eq!(object.get("a"), Some(&Json::Null));
    assert_eq!(object.get("A"), None);
    assert_eq!(Json::Array(vec![Json::Null]).get("a"), None);
    assert_eq!(Json::Bool(true).as_str(), None);
    assert!(!Json::Bool(false).is_null());
}

#[test]
fn a_table_lists_its_names_in_order_and_keeps_the_later_value() {
    let table = NameTable::new()
        .insert("b".to_string(), 1)
        .insert("a".to_string(), 2)
        .insert("\u{e9}".to_string(), 3)
        .insert("b".to_string(), 4)
        .insert("".to_string(), 5)
        .insert("ab".to_string(), 6);
    let expected = vec![
        ("".to_string(), 5),
        ("a".to_string(), 2),
        ("ab".to_string(), 6),
        ("b".to_string(), 4),
        ("\u{e9}".to_string(), 3),
    ];
    let again = NameTable::from_entries(vec![
        ("ab".to_string(), 0),
        ("\u{e9}".to_string(), 3),
        ("".to_string(), 5),
        ("ab".to_string(), 6),
        ("b".to_string(), 4),
        ("a".to_string(), 2),
    ]);
    assert_eq!(table, again);
    assert_eq!(table.into_entries(), expected);
}

#[test]
fn names_are_ordered_as_std_orders_strings() {
    let names = ["", "a", "ab", "b", "Z", "\u{e9}", "\u{10348}", "\u{ffff}"];
    for left in names {
        for right in names {
            match order_names(left, right) {
                NameOrder::Before => assert!(left < right),
                NameOrder::Same => assert!(left == right),
                NameOrder::After => assert!(left > right),
            }
            assert_eq!(same_text(left, right), left == right);
        }
    }
}

#[test]
fn numbers_are_written_in_decimal() {
    for number in [0u32, 7, 10, 99, 100, 65_535, 1_000_000, u32::MAX] {
        assert_eq!(decimal(number), number.to_string());
    }
    assert_eq!(join("ab", "\u{e9}"), "ab\u{e9}");
}

#[test]
fn documents_with_one_content_are_equal() {
    let made = Json::Object(put(put(no_members(), "b", Json::Null), "a", Json::Bool(true)));
    let again = Json::Object(put(put(no_members(), "a", Json::Bool(true)), "b", Json::Null));
    assert_eq!(made, again);
    assert_eq!(made, Json::from_slice(br#"{"b":null,"a":true}"#).unwrap());
}

#[test]
fn a_table_finds_its_values() {
    let table = NameTable::new().insert("b".to_string(), 1).insert("a".to_string(), 2);
    assert_eq!(table.get("a"), Some(&2));
    assert_eq!(table.get("b"), Some(&1));
    assert_eq!(table.get("c"), None);
    assert_eq!(table.entries(), &vec![("a".to_string(), 2), ("b".to_string(), 1)]);
}
