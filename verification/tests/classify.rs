use jsonrpc_lite::{Id, Json, JsonRpc, Number, Object, Params, RpcError, VersionError};

fn text(value: &str) -> Json {
    Json::String(value.to_string())
}

fn num(value: i64) -> Json {
    Json::Number(Number::from_i64(value))
}

fn object(members: Vec<(&str, Json)>) -> Json {
    Json::Object(Object::from_members(
        members.into_iter().map(|(key, value)| (key.to_string(), value)).collect(),
    ))
}

fn invalid_request() -> JsonRpc {
    JsonRpc::error((), RpcError::invalid_request())
}

#[test]
fn text_that_is_no_json_is_a_parse_error() {
    let rpc = JsonRpc::from_str("not json at all").expect("a parse error is a message");
    assert_eq!(rpc, JsonRpc::error((), RpcError::parse_error()));
    assert_eq!(rpc.get_id(), Some(Id::Null));
    assert_eq!(rpc.get_error().map(|error| error.code()), Some(-32700));
}

#[test]
fn method_of_wrong_type_is_an_invalid_request() {
    let rpc = JsonRpc::from_str("{\"jsonrpc\":\"2.0\",\"method\":1}")
        .expect("an invalid request is a message");
    assert_eq!(rpc, invalid_request());
    assert_eq!(rpc.get_id(), Some(Id::Null));
    assert_eq!(rpc.get_error().map(|error| error.code()), Some(-32600));
}

#[test]
fn documents_that_are_no_objects_are_invalid_requests() {
    for input in ["1", "\"method\"", "true", "null", "[]", "[{\"jsonrpc\":\"2.0\",\"method\":\"a\"}]", "2.5"] {
        assert_eq!(JsonRpc::from_str(input), Ok(invalid_request()), "{}", input);
    }
    assert_eq!(JsonRpc::from_json(&Json::Null), Ok(invalid_request()));
    assert_eq!(JsonRpc::from_json(&Json::Array(vec![])), Ok(invalid_request()));
}

#[test]
fn objects_without_method_result_or_error_are_invalid_requests() {
    assert_eq!(JsonRpc::from_str("{}"), Ok(invalid_request()));
    assert_eq!(JsonRpc::from_str("{\"jsonrpc\":\"2.0\"}"), Ok(invalid_request()));
    assert_eq!(JsonRpc::from_str("{\"jsonrpc\":\"2.0\",\"id\":1}"), Ok(invalid_request()));
    assert_eq!(JsonRpc::from_str("{\"jsonrpc\":\"1.0\",\"foo\":1}"), Ok(invalid_request()));
    assert_eq!(
        JsonRpc::from_str("{\"jsonrpc\":\"2.0\",\"params\":[1],\"id\":1}"),
        Ok(invalid_request())
    );
}

#[test]
fn a_method_with_an_id_is_a_request() {
    assert_eq!(
        JsonRpc::from_str("{\"jsonrpc\":\"2.0\",\"method\":\"a\",\"id\":7}"),
        Ok(JsonRpc::request(7, "a"))
    );
    assert_eq!(
        JsonRpc::from_str("{\"id\":\"x\",\"method\":\"a\",\"jsonrpc\":\"2.0\"}"),
        Ok(JsonRpc::request("x", "a"))
    );
    assert_eq!(
        JsonRpc::from_str("{\"jsonrpc\":\"2.0\",\"method\":\"a\",\"id\":null}"),
        Ok(JsonRpc::request((), "a"))
    );
}

#[test]
fn a_method_without_an_id_is_a_notification() {
    let rpc = JsonRpc::from_str("{\"jsonrpc\":\"2.0\",\"method\":\"a\"}").unwrap();
    assert_eq!(rpc, JsonRpc::notification("a"));
    assert!(rpc.is_notification());
    assert_eq!(rpc.get_id(), None);
}

#[test]
fn a_method_comes_before_result_and_error() {
    assert_eq!(
        JsonRpc::from_str(
            "{\"jsonrpc\":\"2.0\",\"method\":\"a\",\"result\":1,\"error\":{\"code\":1,\"message\":\"m\"},\"id\":7}"
        ),
        Ok(JsonRpc::request(7, "a"))
    );
    assert_eq!(
        JsonRpc::from_str("{\"jsonrpc\":\"2.0\",\"method\":\"a\",\"result\":1}"),
        Ok(JsonRpc::notification("a"))
    );
    assert_eq!(
        JsonRpc::from_str("{\"jsonrpc\":\"2.0\",\"method\":1,\"result\":1,\"id\":7}"),
        Ok(invalid_request())
    );
}

#[test]
fn a_result_comes_before_an_error() {
    assert_eq!(
        JsonRpc::from_str(
            "{\"jsonrpc\":\"2.0\",\"result\":1,\"error\":{\"code\":1,\"message\":\"m\"},\"id\":7}"
        ),
        Ok(JsonRpc::success(7, &num(1)))
    );
    assert_eq!(
        JsonRpc::from_str("{\"jsonrpc\":\"2.0\",\"error\":5,\"result\":null,\"id\":7}"),
        Ok(JsonRpc::success(7, &Json::Null))
    );
}

#[test]
fn an_answer_needs_an_id() {
    assert_eq!(JsonRpc::from_str("{\"jsonrpc\":\"2.0\",\"result\":1}"), Ok(invalid_request()));
    assert_eq!(
        JsonRpc::from_str("{\"jsonrpc\":\"2.0\",\"error\":{\"code\":1,\"message\":\"m\"}}"),
        Ok(invalid_request())
    );
}

#[test]
fn an_id_of_wrong_type_is_an_invalid_request() {
    for id in ["true", "1.5", "[1]", "{}", "18446744073709551615", "1e3"] {
        let request = format!("{{\"jsonrpc\":\"2.0\",\"method\":\"a\",\"id\":{}}}", id);
        assert_eq!(JsonRpc::from_str(&request), Ok(invalid_request()), "{}", request);
        let success = format!("{{\"jsonrpc\":\"2.0\",\"result\":1,\"id\":{}}}", id);
        assert_eq!(JsonRpc::from_str(&success), Ok(invalid_request()), "{}", success);
    }
}

#[test]
fn ids_at_the_ends_of_the_range() {
    assert_eq!(
        JsonRpc::from_str("{\"jsonrpc\":\"2.0\",\"method\":\"a\",\"id\":9223372036854775807}"),
        Ok(JsonRpc::request(i64::MAX, "a"))
    );
    assert_eq!(
        JsonRpc::from_str("{\"jsonrpc\":\"2.0\",\"method\":\"a\",\"id\":-9223372036854775808}"),
        Ok(JsonRpc::request(i64::MIN, "a"))
    );
    assert_eq!(
        JsonRpc::from_str("{\"jsonrpc\":\"2.0\",\"method\":\"a\",\"id\":9223372036854775808}"),
        Ok(invalid_request())
    );
}

#[test]
fn params_must_be_an_array_an_object_or_null() {
    assert_eq!(
        JsonRpc::from_str("{\"jsonrpc\":\"2.0\",\"method\":\"a\",\"params\":\"bar\"}"),
        Ok(invalid_request())
    );
    assert_eq!(
        JsonRpc::from_str("{\"jsonrpc\":\"2.0\",\"method\":\"a\",\"params\":1,\"id\":1}"),
        Ok(invalid_request())
    );
    assert_eq!(
        JsonRpc::from_str("{\"jsonrpc\":\"2.0\",\"method\":\"a\",\"params\":[]}"),
        Ok(JsonRpc::notification_with_params("a", Vec::<Json>::new()))
    );
    assert_eq!(
        JsonRpc::from_str("{\"jsonrpc\":\"2.0\",\"method\":\"a\",\"params\":{}}"),
        Ok(JsonRpc::notification_with_params("a", Object::new()))
    );
}

#[test]
fn null_params_are_not_missing_params() {
    let with_null = JsonRpc::from_str("{\"jsonrpc\":\"2.0\",\"method\":\"a\",\"params\":null}")
        .unwrap();
    assert_eq!(with_null.get_params(), Some(Params::Null));
    assert_eq!(with_null, JsonRpc::notification_with_params("a", ()));
    let without = JsonRpc::from_str("{\"jsonrpc\":\"2.0\",\"method\":\"a\"}").unwrap();
    assert_eq!(without.get_params(), None);
    assert_ne!(with_null, without);
}

#[test]
fn an_error_object_needs_a_code_and_a_message() {
    for error in [
        "1",
        "\"oops\"",
        "[]",
        "{}",
        "{\"code\":1}",
        "{\"message\":\"m\"}",
        "{\"code\":\"1\",\"message\":\"m\"}",
        "{\"code\":1.5,\"message\":\"m\"}",
        "{\"code\":1,\"message\":2}",
        "{\"code\":9223372036854775808,\"message\":\"m\"}",
    ] {
        let input = format!("{{\"jsonrpc\":\"2.0\",\"error\":{},\"id\":1}}", error);
        assert_eq!(JsonRpc::from_str(&input), Ok(invalid_request()), "{}", input);
    }
}

#[test]
fn error_data_are_kept_as_they_come() {
    let without = JsonRpc::from_str(
        "{\"jsonrpc\":\"2.0\",\"error\":{\"code\":5,\"message\":\"m\"},\"id\":1}",
    )
    .unwrap();
    assert_eq!(without, JsonRpc::error(1, RpcError::custom(5, "m".to_string())));
    assert_eq!(without.get_error().unwrap().data(), None);

    let with_null = JsonRpc::from_str(
        "{\"jsonrpc\":\"2.0\",\"error\":{\"code\":5,\"message\":\"m\",\"data\":null},\"id\":1}",
    )
    .unwrap();
    assert_eq!(with_null.get_error().unwrap().data(), Some(&Json::Null));
    assert_ne!(with_null, without);

    let with_more = JsonRpc::from_str(
        "{\"jsonrpc\":\"2.0\",\"error\":{\"extra\":1,\"data\":[1],\"message\":\"m\",\"code\":-5},\"id\":1}",
    )
    .unwrap();
    assert_eq!(
        with_more,
        JsonRpc::error(
            1,
            RpcError::custom(-5, "m".to_string()).with_data(Json::Array(vec![num(1)]))
        )
    );
}

#[test]
fn unknown_members_are_ignored() {
    assert_eq!(
        JsonRpc::from_str("{\"jsonrpc\":\"2.0\",\"method\":\"a\",\"id\":1,\"extra\":{\"x\":1}}"),
        Ok(JsonRpc::request(1, "a"))
    );
}

#[test]
fn a_missing_version_is_a_version_error() {
    assert_eq!(
        JsonRpc::from_str("{\"method\":\"a\",\"id\":1}"),
        Err(VersionError::MissingVersion)
    );
    assert_eq!(JsonRpc::from_str("{\"result\":1,\"id\":1}"), Err(VersionError::MissingVersion));
    assert_eq!(
        JsonRpc::from_json(&object(vec![("method", text("a"))])),
        Err(VersionError::MissingVersion)
    );
}

#[test]
fn a_version_that_is_no_string_is_a_version_error() {
    assert_eq!(
        JsonRpc::from_str("{\"jsonrpc\":2.0,\"method\":\"a\",\"id\":1}"),
        Err(VersionError::MalformedVersion)
    );
    assert_eq!(
        JsonRpc::from_str("{\"jsonrpc\":null,\"method\":\"a\"}"),
        Err(VersionError::MalformedVersion)
    );
}

#[test]
fn another_version_is_a_version_error_that_carries_it() {
    assert_eq!(
        JsonRpc::from_str("{\"jsonrpc\":\"1.0\",\"method\":\"a\",\"id\":1}"),
        Err(VersionError::InvalidVersionParsed("1.0".to_string()))
    );
    assert_eq!(
        JsonRpc::from_str("{\"jsonrpc\":\"2.00\",\"result\":1,\"id\":1}"),
        Err(VersionError::InvalidVersionParsed("2.00".to_string()))
    );
    assert_eq!(
        JsonRpc::from_str("{\"jsonrpc\":\"\",\"error\":{\"code\":1,\"message\":\"m\"},\"id\":1}"),
        Err(VersionError::InvalidVersionParsed(String::new()))
    );
}

#[test]
fn the_shape_is_held_before_the_version() {
    assert_eq!(JsonRpc::from_str("{\"jsonrpc\":\"1.0\",\"method\":1}"), Ok(invalid_request()));
    assert_eq!(JsonRpc::from_str("{\"method\":\"a\",\"id\":true}"), Ok(invalid_request()));
}

#[test]
fn check_version_tells_the_three_faults_apart() {
    let message = JsonRpc::notification("a");
    assert_eq!(JsonRpc::check_version(Some(&text("2.0")), message.clone()), Ok(message.clone()));
    assert_eq!(
        JsonRpc::check_version(Some(&text("2")), message.clone()),
        Err(VersionError::InvalidVersionParsed("2".to_string()))
    );
    assert_eq!(
        JsonRpc::check_version(Some(&num(2)), message.clone()),
        Err(VersionError::MalformedVersion)
    );
    assert_eq!(JsonRpc::check_version(None, message), Err(VersionError::MissingVersion));
}

#[test]
fn parse_takes_what_was_read() {
    assert_eq!(JsonRpc::parse(None), Ok(JsonRpc::error((), RpcError::parse_error())));
    assert_eq!(JsonRpc::parse(Some(num(1))), Ok(invalid_request()));
    assert_eq!(
        JsonRpc::parse(Some(JsonRpc::request(1, "a").to_json())),
        Ok(JsonRpc::request(1, "a"))
    );
}

#[test]
fn the_later_of_two_members_with_one_name_counts() {
    let document = object(vec![
        ("jsonrpc", text("2.0")),
        ("method", text("first")),
        ("method", text("second")),
    ]);
    assert_eq!(JsonRpc::from_json(&document), Ok(JsonRpc::notification("second")));
    assert_eq!(
        JsonRpc::from_str("{\"jsonrpc\":\"2.0\",\"method\":\"first\",\"method\":\"second\"}"),
        Ok(JsonRpc::notification("second"))
    );
}
