use jsonrpc_lite::{Id, Json, Number, NumberKind, Object, Params};

fn text(value: &str) -> Json {
    Json::String(value.to_string())
}

fn num(value: i64) -> Json {
    Json::Number(Number::from_i64(value))
}

fn fraction(value: &str) -> Json {
    Json::Number(Number::from_text(value).expect("a number"))
}

fn object(members: Vec<(&str, Json)>) -> Json {
    Json::Object(Object::from_members(
        members.into_iter().map(|(key, value)| (key.to_string(), value)).collect(),
    ))
}

#[test]
fn integers_become_numbers_by_their_sign() {
    assert_eq!(Number::from_i64(0).kind(), &NumberKind::PosInt(0));
    assert_eq!(Number::from_i64(5).kind(), &NumberKind::PosInt(5));
    assert_eq!(Number::from_i64(-5).kind(), &NumberKind::NegInt(-5));
    assert_eq!(Number::from_i64(i64::MAX).kind(), &NumberKind::PosInt(9223372036854775807));
    assert_eq!(Number::from_i64(i64::MIN).kind(), &NumberKind::NegInt(i64::MIN));
    assert_eq!(Number::from_u64(u64::MAX).kind(), &NumberKind::PosInt(u64::MAX));
    assert_eq!(Number::from_i64(7), Number::from_u64(7));
}

#[test]
fn a_number_is_made_as_it_should_be() {
    assert_eq!(Number::new(NumberKind::PosInt(3)), Some(Number::from_u64(3)));
    assert_eq!(Number::new(NumberKind::NegInt(-3)), Some(Number::from_i64(-3)));
    assert_eq!(Number::new(NumberKind::NegInt(3)), Some(Number::from_u64(3)));
    assert_eq!(Number::new(NumberKind::NegInt(3)).unwrap().kind(), &NumberKind::PosInt(3));
    assert_eq!(Number::new(NumberKind::NegInt(0)).unwrap().kind(), &NumberKind::PosInt(0));
    assert_eq!(
        Number::new(NumberKind::Float("2.5".to_string())),
        Some(Number::from_text("2.5").unwrap())
    );
    assert_eq!(Number::new(NumberKind::Float("abc".to_string())), None);
    assert_eq!(Json::number(NumberKind::Float("abc".to_string())), Json::Null);
    assert_eq!(Json::number(NumberKind::Float("1e5".to_string())), fraction("1e5"));
    assert_eq!(Json::number(NumberKind::NegInt(5)), num(5));
}

#[test]
fn text_is_a_number_as_json_writes_one_or_not() {
    for text in [
        "0", "-0", "7", "10", "-123", "0.5", "-0.5", "1.0", "12.345", "1e5", "1E5", "1e+5",
        "1e-5", "-1.25e+300", "0e0", "0.0E-0", "1e999", "123456789012345678901234567890",
    ] {
        assert!(jsonrpc_lite::number::is_number(text), "{}", text);
        assert_eq!(
            Number::from_text(text).map(|number| number.kind() == &NumberKind::Float(text.to_string())),
            Some(true),
            "{}",
            text
        );
    }
    for text in [
        "", "-", "+1", "01", "-01", "00", "1.", ".5", "1.e5", "1e", "1e+", "1e-", "e5", "1e5.0",
        "1 ", " 1", "1,0", "0x10", "NaN", "Infinity", "-Infinity", "1_000", "abc", "1.5.5",
        "1ee5", "--1", "1-", "\u{661}", "1\u{e9}",
    ] {
        assert!(!jsonrpc_lite::number::is_number(text), "{:?}", text);
        assert_eq!(Number::from_text(text), None, "{:?}", text);
    }
}

#[test]
fn numbers_are_integers_within_range_or_not() {
    assert_eq!(Number::from_u64(0).as_i64(), Some(0));
    assert_eq!(Number::from_u64(9223372036854775807).as_i64(), Some(i64::MAX));
    assert_eq!(Number::from_u64(9223372036854775808).as_i64(), None);
    assert_eq!(Number::from_u64(u64::MAX).as_i64(), None);
    assert_eq!(Number::from_i64(-1).as_i64(), Some(-1));
    assert_eq!(Number::from_i64(i64::MIN).as_i64(), Some(i64::MIN));
    assert_eq!(Number::from_text("1.0").unwrap().as_i64(), None);
    for value in [0, 1, -1, 42, i64::MAX, i64::MIN] {
        assert_eq!(Number::from_i64(value).as_i64(), Some(value));
    }
}

#[test]
fn numbers_of_different_kinds_differ() {
    assert_ne!(Number::from_u64(1), Number::from_i64(-1));
    assert_ne!(Number::from_u64(1), Number::from_text("1").unwrap());
    assert_ne!(Number::from_text("1.0").unwrap(), Number::from_text("1.00").unwrap());
    assert_eq!(Number::from_text("1.5").unwrap(), Number::from_text("1.5").unwrap().clone());
}

#[test]
fn text_is_read_into_a_document() {
    assert_eq!(
        Json::parse(" {\"b\": [1, -2, 2.5, true, null, \"x\\n\"], \"a\": {}} "),
        Some(object(vec![
            (
                "b",
                Json::Array(vec![
                    Json::Number(Number::from_u64(1)),
                    Json::Number(Number::from_i64(-2)),
                    fraction("2.5"),
                    Json::Bool(true),
                    Json::Null,
                    text("x\n"),
                ])
            ),
            ("a", Json::Object(Object::new())),
        ]))
    );
    assert_eq!(Json::parse("18446744073709551615"), Some(Json::Number(Number::from_u64(u64::MAX))));
    assert_eq!(Json::parse("-9223372036854775808"), Some(Json::Number(Number::from_i64(i64::MIN))));
    assert_eq!(Json::parse("\"{}\""), Some(text("{}")));
}

#[test]
fn text_that_is_no_json_is_not_read() {
    for input in ["", "{", "[1,]", "{\"a\":}", "nul", "1 2", "'a'", "{\"a\":1,}", "\u{feff}1"] {
        assert_eq!(Json::parse(input), None, "{:?}", input);
    }
}

#[test]
fn members_are_read_in_the_order_of_the_text() {
    let document = Json::parse("{\"z\":1,\"a\":2,\"m\":3}").unwrap();
    match document {
        Json::Object(members) => {
            let keys: Vec<&str> =
                members.members().iter().map(|member| member.0.as_str()).collect();
            assert_eq!(keys, vec!["z", "a", "m"]);
        }
        other => panic!("not an object: {:?}", other),
    }
}

#[test]
fn a_document_is_written_as_text() {
    let document = object(vec![
        ("z", Json::Array(vec![num(1), num(-2), fraction("2.5"), Json::Bool(false), Json::Null])),
        ("a", text("q\"uote")),
        ("o", object(vec![])),
    ]);
    assert_eq!(
        document.to_text(),
        Some("{\"z\":[1,-2,2.5,false,null],\"a\":\"q\\\"uote\",\"o\":{}}".to_string())
    );
    assert_eq!(Json::Null.to_text(), Some("null".to_string()));
    assert_eq!(text("").to_text(), Some("\"\"".to_string()));
    assert_eq!(Json::Number(Number::from_u64(u64::MAX)).to_text(), Some("18446744073709551615".to_string()));
}

#[test]
fn a_number_beyond_the_range_of_the_writer_is_written_as_null() {
    assert_eq!(fraction("1e999").to_text(), Some("null".to_string()));
    assert_eq!(fraction("1e99").to_text(), Some("1e+99".to_string()));
    assert_eq!(fraction("5").to_text(), Some("5".to_string()));
}

#[test]
fn what_is_written_is_read_back() {
    let document = object(vec![
        ("list", Json::Array(vec![num(0), num(i64::MIN), fraction("454.54"), fraction("1e+300")])),
        ("name", text("snow\u{2603}man")),
        ("nested", object(vec![("deep", Json::Array(vec![object(vec![("x", Json::Null)])]))])),
    ]);
    let written = document.to_text().unwrap();
    let read = Json::parse(&written).unwrap();
    assert_eq!(read, document);
    assert_eq!(read.to_text().unwrap(), written);
}

#[test]
fn get_finds_the_member_of_that_name() {
    let document = object(vec![("a", num(1)), ("b", num(2)), ("c", num(3))]);
    assert_eq!(document.get("a"), Some(&num(1)));
    assert_eq!(document.get("b"), Some(&num(2)));
    assert_eq!(document.get("c"), Some(&num(3)));
    assert_eq!(document.get("d"), None);
    assert_eq!(document.get(""), None);
    assert_eq!(Json::Array(vec![num(1)]).get("a"), None);
    assert_eq!(text("a").get("a"), None);
}

#[test]
fn arrays_are_equal_in_the_same_order_only() {
    let one = Json::Array(vec![num(1), num(2)]);
    assert_eq!(one, Json::Array(vec![num(1), num(2)]));
    assert_ne!(one, Json::Array(vec![num(2), num(1)]));
    assert_ne!(one, Json::Array(vec![num(1)]));
    assert_ne!(one, Json::Array(vec![num(1), num(2), num(2)]));
    assert_eq!(Json::Array(vec![]), Json::Array(vec![]));
}

#[test]
fn objects_are_equal_in_any_order() {
    let one = object(vec![("a", num(1)), ("b", Json::Array(vec![object(vec![("x", num(1)), ("y", num(2))])]))]);
    let other = object(vec![("b", Json::Array(vec![object(vec![("y", num(2)), ("x", num(1))])])), ("a", num(1))]);
    assert_eq!(one, other);
    assert_eq!(other, one);
    assert_ne!(one, object(vec![("a", num(1))]));
    assert_ne!(one, object(vec![("a", num(1)), ("b", Json::Array(vec![]))]));
    assert_ne!(object(vec![("a", num(1))]), object(vec![("b", num(1))]));
    assert_ne!(object(vec![("a", num(1))]), object(vec![("a", num(2))]));
}

#[test]
fn documents_of_different_kinds_differ() {
    let documents = [
        Json::Null,
        Json::Bool(false),
        num(0),
        text(""),
        Json::Array(vec![]),
        Json::Object(Object::new()),
    ];
    for (i, one) in documents.iter().enumerate() {
        for (j, other) in documents.iter().enumerate() {
            assert_eq!(one == other, i == j);
        }
    }
}

#[test]
fn a_copy_says_the_same() {
    let document = object(vec![("a", Json::Array(vec![num(1), fraction("0.5"), text("x")])), ("b", Json::Null)]);
    let copy = document.clone();
    assert_eq!(copy, document);
    assert_eq!(copy.to_text(), document.to_text());
}

#[test]
fn ids_give_what_they_hold() {
    assert_eq!(Id::Num(5).as_num(), Some(5));
    assert_eq!(Id::Num(5).as_str(), None);
    assert_eq!(Id::Str("5".to_string()).as_num(), None);
    assert_eq!(Id::Str("5".to_string()).as_str(), Some("5".to_string()));
    assert_eq!(Id::Null.as_num(), None);
    assert_eq!(Id::Null.as_str(), None);
}

#[test]
fn ids_are_converted_from_numbers_strings_and_unit() {
    assert_eq!(Id::from(-5), Id::Num(-5));
    assert_eq!(Id::from("abc"), Id::Str("abc".to_string()));
    assert_eq!(Id::from("abc".to_string()), Id::Str("abc".to_string()));
    assert_eq!(Id::from(()), Id::Null);
}

#[test]
fn ids_are_written_and_read() {
    assert_eq!(Id::Num(0).to_json(), num(0));
    assert_eq!(Id::Num(-5).to_json(), Json::Number(Number::from_i64(-5)));
    assert_eq!(Id::Str("abc".to_string()).to_json(), text("abc"));
    assert_eq!(Id::Null.to_json(), Json::Null);
    for id in [Id::Num(0), Id::Num(-5), Id::Num(i64::MAX), Id::Num(i64::MIN), Id::Str("abc".to_string()), Id::Str(String::new()), Id::Null] {
        assert_eq!(Id::from_json(&id.to_json()), Some(id));
    }
    assert_eq!(Id::from_json(&Json::Bool(true)), None);
    assert_eq!(Id::from_json(&fraction("1.0")), None);
    assert_eq!(Id::from_json(&Json::Number(Number::from_u64(u64::MAX))), None);
    assert_eq!(Id::from_json(&Json::Array(vec![])), None);
}

#[test]
fn params_come_from_any_document() {
    assert_eq!(Params::from(Json::Array(vec![num(1)])), Params::Array(vec![num(1)]));
    assert_eq!(
        Params::from(object(vec![("a", num(1))])),
        Params::Object(Object::from_members(vec![("a".to_string(), num(1))]))
    );
    for scalar in [Json::Null, Json::Bool(true), num(5), text("x"), fraction("1.5")] {
        assert_eq!(Params::from(scalar), Params::Null);
    }
    assert_eq!(Params::from(vec![num(1), num(2)]), Params::Array(vec![num(1), num(2)]));
    let slice: &[Json] = &[num(1), num(2)];
    assert_eq!(Params::from(slice), Params::Array(vec![num(1), num(2)]));
    let empty: &[Json] = &[];
    assert_eq!(Params::from(empty), Params::Array(vec![]));
    let mut named = Object::new();
    named.insert("a".to_string(), num(1));
    assert_eq!(Params::from(named.clone()), Params::Object(named));
    assert_eq!(Params::from(()), Params::Null);
}

#[test]
fn params_give_what_they_hold() {
    let list = Params::Array(vec![num(1)]);
    let members = Object::from_members(vec![("a".to_string(), num(1))]);
    let named = Params::Object(members.clone());
    assert_eq!(list.get_array(), Some(&vec![num(1)]));
    assert_eq!(list.get_map(), None);
    assert_eq!(named.get_map(), Some(&members));
    assert_eq!(named.get_array(), None);
    assert_eq!(Params::Null.get_array(), None);
    assert_eq!(Params::Null.get_map(), None);
}

#[test]
fn params_are_read_from_arrays_objects_and_null_only() {
    assert_eq!(Params::from_json(&Json::Array(vec![])), Some(Params::Array(vec![])));
    assert_eq!(Params::from_json(&Json::Object(Object::new())), Some(Params::Object(Object::new())));
    assert_eq!(Params::from_json(&Json::Null), Some(Params::Null));
    assert_eq!(Params::from_json(&num(1)), None);
    assert_eq!(Params::from_json(&text("x")), None);
    assert_eq!(Params::from_json(&Json::Bool(false)), None);
    assert_eq!(Params::Array(vec![num(1)]).to_json(), Json::Array(vec![num(1)]));
    assert_eq!(Params::Null.to_json(), Json::Null);
}

#[test]
fn named_params_are_equal_in_any_order_and_lists_are_not() {
    assert_eq!(
        Params::from(object(vec![("a", num(1)), ("b", num(2))])),
        Params::from(object(vec![("b", num(2)), ("a", num(1))]))
    );
    assert_ne!(Params::Array(vec![num(1), num(2)]), Params::Array(vec![num(2), num(1)]));
    assert_ne!(Params::Array(vec![]), Params::Object(Object::new()));
    assert_ne!(Params::Array(vec![]), Params::Null);
}

#[test]
fn an_object_keeps_its_members_in_order_and_their_names_apart() {
    let mut members = Object::new();
    assert!(members.is_empty());
    assert_eq!(members.insert("z".to_string(), num(1)), None);
    assert_eq!(members.insert("a".to_string(), num(2)), None);
    assert_eq!(members.insert("m".to_string(), num(3)), None);
    assert_eq!(members.len(), 3);
    assert_eq!(members.insert("a".to_string(), num(4)), Some(num(2)));
    assert_eq!(members.len(), 3);
    assert!(!members.is_empty());
    assert_eq!(
        members.members().to_vec(),
        vec![("z".to_string(), num(1)), ("a".to_string(), num(4)), ("m".to_string(), num(3))]
    );
    assert_eq!(members.get("a"), Some(&num(4)));
    assert_eq!(members.get("b"), None);
}

#[test]
fn members_are_collected_one_after_the_other() {
    let collected = Object::from_members(vec![
        ("a".to_string(), num(1)),
        ("b".to_string(), num(2)),
        ("a".to_string(), num(3)),
        ("c".to_string(), num(4)),
        ("b".to_string(), num(5)),
    ]);
    assert_eq!(
        collected.members().to_vec(),
        vec![("a".to_string(), num(3)), ("b".to_string(), num(5)), ("c".to_string(), num(4))]
    );
    assert_eq!(Object::from_members(vec![]).len(), 0);
    assert_eq!(Object::from_members(vec![]), Object::new());
}

#[test]
fn the_later_of_two_members_of_one_name_is_read() {
    assert_eq!(Json::parse("{\"a\":1,\"b\":2,\"a\":3}"), Some(object(vec![("a", num(3)), ("b", num(2))])));
    assert_eq!(
        Json::parse("{\"a\":1,\"b\":2,\"a\":3}").unwrap().to_text().unwrap(),
        "{\"a\":3,\"b\":2}"
    );
}

#[test]
fn an_object_with_many_members_finds_each_by_its_name() {
    let mut members = Object::new();
    for i in 0..500 {
        assert_eq!(members.insert(format!("name{}", i), num(i)), None);
    }
    assert_eq!(members.len(), 500);
    for i in 0..500 {
        assert_eq!(members.get(&format!("name{}", i)), Some(&num(i)));
    }
    assert_eq!(members.get("name500"), None);
    assert_eq!(members.get("name"), None);
    for i in (0..500).step_by(7) {
        assert_eq!(members.insert(format!("name{}", i), num(-i)), Some(num(i)));
    }
    assert_eq!(members.len(), 500);
    for i in 0..500 {
        let expected = if i % 7 == 0 { num(-i) } else { num(i) };
        assert_eq!(members.get(&format!("name{}", i)), Some(&expected));
        assert_eq!(members.members()[i as usize].0, format!("name{}", i));
        assert_eq!(members.members()[i as usize].1, expected);
    }
    let copy = members.clone();
    assert_eq!(copy, members);
    assert_eq!(copy.get("name499"), Some(&num(499)));
    assert_eq!(copy.get("missing"), None);
}

#[test]
fn names_are_told_apart_exactly() {
    let mut members = Object::new();
    members.insert("a".to_string(), num(1));
    members.insert("A".to_string(), num(2));
    members.insert("".to_string(), num(3));
    members.insert("a ".to_string(), num(4));
    members.insert("\u{e9}".to_string(), num(5));
    assert_eq!(members.len(), 5);
    assert_eq!(members.get("a"), Some(&num(1)));
    assert_eq!(members.get("A"), Some(&num(2)));
    assert_eq!(members.get(""), Some(&num(3)));
    assert_eq!(members.get("a "), Some(&num(4)));
    assert_eq!(members.get("\u{e9}"), Some(&num(5)));
    assert_eq!(members.get("e"), None);
}
