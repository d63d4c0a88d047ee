use jsonrpc_client::codec::{
    parse_incoming, read_id, serialize_method_request, serialize_notification_request, Id, IncomingMessage,
    Output, Version,
};
use jsonrpc_client::decimal::read_decimal_u64;
use jsonrpc_client::error::{Error, RpcError};
use jsonrpc_client::json::{Json, JsonNumber};
use jsonrpc_client::params::{serialize_parameters, Params};

fn num(n: u64) -> Json {
    Json::Number(JsonNumber::PosInt(n))
}

#[test]
fn call_frame_has_the_four_members_in_order() {
    let params = serialize_parameters(Json::Array(vec![num(1), num(2)]));
    let text = serialize_method_request(1, "add".to_string(), &params).unwrap();
    assert_eq!(text, r#"{"jsonrpc":"2.0","method":"add","params":[1,2],"id":1}"#);
}

#[test]
fn call_frame_without_parameters_has_no_params_member() {
    let params = serialize_parameters(Json::Null);
    assert_eq!(params, None);
    let text = serialize_method_request(7, "oops".to_string(), &params).unwrap();
    assert_eq!(text, r#"{"jsonrpc":"2.0","method":"oops","id":7}"#);
}

#[test]
fn notification_frame_has_no_id() {
    let params = Some(Params::Object(vec![("k".to_string(), Json::Bool(true))]));
    let text = serialize_notification_request("tick".to_string(), &params).unwrap();
    assert_eq!(text, r#"{"jsonrpc":"2.0","method":"tick","params":{"k":true}}"#);
}

#[test]
fn scalar_parameter_is_wrapped() {
    let params = serialize_parameters(Json::String("x".to_string()));
    assert_eq!(params, Some(Params::Array(vec![Json::String("x".to_string())])));
    let text = serialize_method_request(2, "echo".to_string(), &params).unwrap();
    assert_eq!(text, r#"{"jsonrpc":"2.0","method":"echo","params":["x"],"id":2}"#);
}

#[test]
fn success_reply_is_read() {
    let msg = parse_incoming(r#"{"jsonrpc":"2.0","id":1,"result":3}"#).unwrap();
    assert_eq!(
        msg,
        IncomingMessage::Response(Output::Success {
            jsonrpc: Some(Version::V2),
            result: num(3),
            id: Id::Num(1),
        })
    );
}

#[test]
fn failure_reply_is_read() {
    let msg = parse_incoming(
        r#"{"jsonrpc":"2.0","id":1,"error":{"code":-32601,"message":"Method not found"}}"#,
    )
    .unwrap();
    assert_eq!(
        msg,
        IncomingMessage::Response(Output::Failure {
            jsonrpc: Some(Version::V2),
            error: RpcError { code: -32601, message: "Method not found".to_string(), data: None },
            id: Id::Num(1),
        })
    );
}

#[test]
fn reply_with_other_version_is_a_reply_without_version() {
    let msg = parse_incoming(r#"{"jsonrpc":"1.0","id":1,"result":0}"#).unwrap();
    match msg {
        IncomingMessage::Response(out) => assert_eq!(out.version(), None),
        other => panic!("not a reply: {:?}", other),
    }
}

#[test]
fn call_frame_reads_back_as_the_request() {
    let params = serialize_parameters(Json::Array(vec![num(1), Json::Number(JsonNumber::NegInt(-2))]));
    let text = serialize_method_request(5, "sum".to_string(), &params).unwrap();
    let expected = jsonrpc_core::Request::Single(jsonrpc_core::Call::MethodCall(
        jsonrpc_core::MethodCall {
            jsonrpc: Some(jsonrpc_core::Version::V2),
            method: "sum".to_string(),
            params: Some(jsonrpc_core::Params::Array(vec![
                serde_json::Value::from(1u64),
                serde_json::Value::from(-2i64),
            ])),
            id: jsonrpc_core::Id::Num(5),
        },
    ));
    assert_eq!(parse_incoming(&text).unwrap(), IncomingMessage::Request(expected));
}

#[test]
fn text_that_is_no_json_is_a_deserialize_error() {
    assert_eq!(parse_incoming("{not json"), Err(Error::DeserializeError));
}

#[test]
fn real_numbers_and_nesting_survive_a_round_trip() {
    let msg = parse_incoming(r#"{"jsonrpc":"2.0","id":"a","result":{"x":[1.5,-3,null,"s",{"y":false}]}}"#)
        .unwrap();
    let expected = Json::Object(vec![(
        "x".to_string(),
        Json::Array(vec![
            Json::Number(JsonNumber::Real("1.5".to_string())),
            Json::Number(JsonNumber::NegInt(-3)),
            Json::Null,
            Json::String("s".to_string()),
            Json::Object(vec![("y".to_string(), Json::Bool(false))]),
        ]),
    )]);
    assert_eq!(
        msg,
        IncomingMessage::Response(Output::Success {
            jsonrpc: Some(Version::V2),
            result: expected.clone(),
            id: Id::Str("a".to_string()),
        })
    );
    let params = serialize_parameters(expected);
    let text = serialize_notification_request("n".to_string(), &params).unwrap();
    assert_eq!(
        text,
        r#"{"jsonrpc":"2.0","method":"n","params":{"x":[1.5,-3,null,"s",{"y":false}]}}"#
    );
}

#[test]
fn notification_frame_reads_back_as_the_notification() {
    let params = serialize_parameters(Json::Object(vec![("k".to_string(), num(1))]));
    let text = serialize_notification_request("note".to_string(), &params).unwrap();
    let mut map = serde_json::Map::new();
    map.insert("k".to_string(), serde_json::Value::from(1u64));
    let expected = jsonrpc_core::Request::Single(jsonrpc_core::Call::Notification(
        jsonrpc_core::Notification {
            jsonrpc: Some(jsonrpc_core::Version::V2),
            method: "note".to_string(),
            params: Some(jsonrpc_core::Params::Map(map)),
        },
    ));
    assert_eq!(parse_incoming(&text).unwrap(), IncomingMessage::Request(expected));
}

#[test]
fn call_frame_without_parameters_reads_back_without_parameters() {
    let text = serialize_method_request(3, "m".to_string(), &None).unwrap();
    let expected = jsonrpc_core::Request::Single(jsonrpc_core::Call::MethodCall(
        jsonrpc_core::MethodCall {
            jsonrpc: Some(jsonrpc_core::Version::V2),
            method: "m".to_string(),
            params: None,
            id: jsonrpc_core::Id::Num(3),
        },
    ));
    assert_eq!(parse_incoming(&text).unwrap(), IncomingMessage::Request(expected));
}

#[test]
fn reply_with_result_and_error_is_a_failure() {
    let msg = parse_incoming(
        r#"{"jsonrpc":"2.0","id":null,"result":1,"error":{"code":5,"message":"m","data":[1]}}"#,
    )
    .unwrap();
    assert_eq!(
        msg,
        IncomingMessage::Response(Output::Failure {
            jsonrpc: Some(Version::V2),
            error: RpcError {
                code: 5,
                message: "m".to_string(),
                data: Some(Json::Array(vec![num(1)])),
            },
            id: Id::Null,
        })
    );
}

#[test]
fn reply_with_a_malformed_error_and_a_result_is_a_success() {
    let msg = parse_incoming(r#"{"jsonrpc":"2.0","id":1,"result":1,"error":{"code":"x"}}"#).unwrap();
    assert_eq!(
        msg,
        IncomingMessage::Response(Output::Success {
            jsonrpc: Some(Version::V2),
            result: num(1),
            id: Id::Num(1),
        })
    );
}

#[test]
fn object_without_a_valid_id_is_no_reply() {
    let text = r#"{"jsonrpc":"2.0","id":1.5,"result":1}"#;
    match parse_incoming(text).unwrap() {
        IncomingMessage::Request(_) => {}
        other => panic!("read as a reply: {:?}", other),
    }
    let text = r#"{"jsonrpc":"2.0","result":1}"#;
    match parse_incoming(text).unwrap() {
        IncomingMessage::Request(_) => {}
        other => panic!("read as a reply: {:?}", other),
    }
}

#[test]
fn error_code_has_to_fit_in_sixty_four_bits_with_sign() {
    let ok = parse_incoming(
        r#"{"jsonrpc":"2.0","id":1,"error":{"code":9223372036854775807,"message":""}}"#,
    )
    .unwrap();
    assert_eq!(
        ok,
        IncomingMessage::Response(Output::Failure {
            jsonrpc: Some(Version::V2),
            error: RpcError { code: i64::MAX, message: String::new(), data: None },
            id: Id::Num(1),
        })
    );
    let too_big = parse_incoming(
        r#"{"jsonrpc":"2.0","id":1,"error":{"code":9223372036854775808,"message":""}}"#,
    )
    .unwrap();
    assert!(matches!(too_big, IncomingMessage::Request(_)));
}

#[test]
fn every_json_text_that_is_no_reply_is_a_request() {
    for text in ["5", "[]", "null", r#"{"foo":1}"#, r#""text""#, r#"[{"method":"a"},7]"#] {
        assert!(matches!(parse_incoming(text), Ok(IncomingMessage::Request(_))), "{}", text);
    }
    for text in ["", "{", "[1,]", "nul", r#"{"a":1} x"#] {
        assert_eq!(parse_incoming(text), Err(Error::DeserializeError), "{}", text);
    }
}

#[test]
fn parameters_with_a_repeated_name_cannot_be_written() {
    let params = Some(Params::Object(vec![
        ("k".to_string(), num(1)),
        ("k".to_string(), num(2)),
    ]));
    assert_eq!(
        serialize_method_request(1, "m".to_string(), &params),
        Err(Error::SerializeError)
    );
    assert_eq!(
        serialize_notification_request("m".to_string(), &params),
        Err(Error::SerializeError)
    );
    // A member of the parameters may be named like a member of the frame.
    let params = Some(Params::Object(vec![("id".to_string(), num(1))]));
    assert_eq!(
        serialize_method_request(1, "m".to_string(), &params).unwrap(),
        r#"{"jsonrpc":"2.0","method":"m","params":{"id":1},"id":1}"#
    );
}

#[test]
fn decimal_text_is_read_as_its_number() {
    assert_eq!(read_decimal_u64("0"), Some(0));
    assert_eq!(read_decimal_u64("7"), Some(7));
    assert_eq!(read_decimal_u64("+7"), Some(7));
    assert_eq!(read_decimal_u64("007"), Some(7));
    assert_eq!(read_decimal_u64("1090"), Some(1090));
    assert_eq!(read_decimal_u64("18446744073709551615"), Some(u64::MAX));
    assert_eq!(read_decimal_u64("00000000000000000000018446744073709551615"), Some(u64::MAX));
    assert_eq!(read_decimal_u64("18446744073709551616"), None);
    assert_eq!(read_decimal_u64("99999999999999999999999"), None);
    assert_eq!(read_decimal_u64(""), None);
    assert_eq!(read_decimal_u64("+"), None);
    assert_eq!(read_decimal_u64("-1"), None);
    assert_eq!(read_decimal_u64("++1"), None);
    assert_eq!(read_decimal_u64("1+"), None);
    assert_eq!(read_decimal_u64("7x"), None);
    assert_eq!(read_decimal_u64(" 7"), None);
    assert_eq!(read_decimal_u64("1.0"), None);
    assert_eq!(read_decimal_u64("\u{ff11}"), None);
    assert_eq!(read_decimal_u64("1\u{e9}"), None);
    // The same texts as the standard library reads them.
    for text in ["0", "+7", "007", "18446744073709551615", "18446744073709551616", "", "+", "-1", "-0", "1_0", "0x1", "\u{ff11}"] {
        assert_eq!(read_decimal_u64(text), text.parse::<u64>().ok(), "{:?}", text);
    }
}

#[test]
fn string_id_of_digits_is_a_number() {
    assert_eq!(read_id(&Json::String("2".to_string())), Some(Id::Num(2)));
    assert_eq!(read_id(&Json::String("2x".to_string())), Some(Id::Str("2x".to_string())));
    assert_eq!(read_id(&Json::String("".to_string())), Some(Id::Str("".to_string())));
    assert_eq!(read_id(&Json::Null), Some(Id::Null));
    assert_eq!(read_id(&num(9)), Some(Id::Num(9)));
    assert_eq!(read_id(&Json::Bool(true)), None);
    assert_eq!(read_id(&Json::Number(JsonNumber::NegInt(-1))), None);
    // As the reader of the wire types has it.
    for text in [r#""2""#, r#""2x""#, "2", "null", r#""+3""#] {
        let ours = match read_id(&Json::parse(text).unwrap()).unwrap() {
            Id::Null => jsonrpc_core::Id::Null,
            Id::Num(n) => jsonrpc_core::Id::Num(n),
            Id::Str(s) => jsonrpc_core::Id::Str(s),
        };
        assert_eq!(ours, serde_json::from_str::<jsonrpc_core::Id>(text).unwrap(), "{}", text);
    }
}
