use nomad_api::json::{Json, Number};
use nomad_api::text::{parse, render, EncodeError};
use nomad_api::wire::DecodeError;

fn s(x: &str) -> String {
    x.to_string()
}

#[test]
fn parse_reads_every_kind_of_value() {
    let tree = parse(r#"{"a":null,"b":true,"c":-3,"d":18446744073709551615,"e":0.5,"f":"x","g":[1,"y"],"h":{}}"#)
        .unwrap();
    let expected = Json::Object(vec![
        (s("a"), Json::Null),
        (s("b"), Json::Bool(true)),
        (s("c"), Json::Number(Number::Int(-3))),
        (s("d"), Json::Number(Number::UInt(18446744073709551615))),
        (s("e"), Json::Number(Number::Float(s("0.5")))),
        (s("f"), Json::Str(s("x"))),
        (s("g"), Json::Array(vec![Json::Number(Number::Int(1)), Json::Str(s("y"))])),
        (s("h"), Json::Object(vec![])),
    ]);
    assert_eq!(tree, expected);
}

#[test]
fn parse_keeps_the_order_of_members() {
    let tree = parse(r#"{"z":1,"a":2,"m":3}"#).unwrap();
    match tree {
        Json::Object(members) => {
            let names: Vec<&str> = members.iter().map(|m| m.0.as_str()).collect();
            assert_eq!(names, vec!["z", "a", "m"]);
        }
        other => panic!("not an object: {:?}", other),
    }
}

#[test]
fn parse_rejects_what_is_not_json() {
    assert_eq!(parse("alloc not found"), Err(DecodeError::Syntax));
    assert_eq!(parse(""), Err(DecodeError::Syntax));
    assert_eq!(parse("{\"a\":1"), Err(DecodeError::Syntax));
    assert_eq!(parse("{} trailing"), Err(DecodeError::Syntax));
}

#[test]
fn render_writes_compact_text_in_order() {
    let tree = Json::Object(vec![
        (s("Payload"), Json::Str(s(""))),
        (s("n"), Json::Number(Number::Int(-7))),
        (s("u"), Json::Number(Number::UInt(9))),
        (s("f"), Json::Number(Number::Float(s("1.25")))),
        (s("list"), Json::Array(vec![Json::Null, Json::Bool(false)])),
    ]);
    assert_eq!(
        render(&tree).unwrap(),
        r#"{"Payload":"","n":-7,"u":9,"f":1.25,"list":[null,false]}"#
    );
}

#[test]
fn render_escapes_strings() {
    let tree = Json::Str(s("a\"b\\c\nd"));
    assert_eq!(render(&tree).unwrap(), r#""a\"b\\c\nd""#);
}

#[test]
fn render_refuses_a_name_given_twice() {
    let tree = Json::Object(vec![(s("a"), Json::Null), (s("b"), Json::Null), (s("a"), Json::Bool(true))]);
    assert_eq!(render(&tree), Err(EncodeError::DuplicateName));
    let nested = Json::Array(vec![tree]);
    assert_eq!(render(&nested), Err(EncodeError::DuplicateName));
}

#[test]
fn render_refuses_a_number_that_is_none() {
    assert_eq!(render(&Json::Number(Number::Float(s("abc")))), Err(EncodeError::BadNumber));
    assert_eq!(render(&Json::Number(Number::Float(s("\"1\"")))), Err(EncodeError::BadNumber));
    assert_eq!(render(&Json::Number(Number::Float(s("")))), Err(EncodeError::BadNumber));
}

#[test]
fn render_reports_the_first_fault_in_order() {
    let tree = Json::Object(vec![
        (s("a"), Json::Number(Number::Float(s("x")))),
        (s("a"), Json::Null),
    ]);
    assert_eq!(render(&tree), Err(EncodeError::BadNumber));
    let tree = Json::Object(vec![
        (s("a"), Json::Null),
        (s("a"), Json::Number(Number::Float(s("x")))),
    ]);
    assert_eq!(render(&tree), Err(EncodeError::DuplicateName));
}

#[test]
fn text_round_trip_of_a_tree() {
    let text = r#"{"Affinities":[{"LTarget":"${node.class}","Weight":50}],"Score":0.6180339887,"Big":12345678901234567890,"Neg":-1}"#;
    let tree = parse(text).unwrap();
    assert_eq!(render(&tree).unwrap(), text);
    assert_eq!(parse(&render(&tree).unwrap()).unwrap(), tree);
}

#[test]
fn numbers_are_read_by_their_kind() {
    let tree = parse("[1,-2,3.5,18446744073709551615,9223372036854775807,9223372036854775808,-0.0]")
        .unwrap();
    assert_eq!(
        tree,
        Json::Array(vec![
            Json::Number(Number::Int(1)),
            Json::Number(Number::Int(-2)),
            Json::Number(Number::Float(s("3.5"))),
            Json::Number(Number::UInt(18446744073709551615)),
            Json::Number(Number::Int(9223372036854775807)),
            Json::Number(Number::UInt(9223372036854775808)),
            Json::Number(Number::Float(s("-0.0"))),
        ])
    );
}

#[test]
fn what_is_written_is_what_serde_json_writes() {
    let tree = Json::Object(vec![
        (s("b"), Json::Array(vec![Json::Number(Number::Int(1)), Json::Number(Number::Float(s("2.50")))])),
        (s("a"), Json::Object(vec![(s("x"), Json::Null)])),
        (s("u"), Json::Number(Number::UInt(7))),
        (s("t"), Json::Str(s("text"))),
        (s("f"), Json::Bool(false)),
    ]);
    let text = render(&tree).unwrap();
    assert_eq!(text, r#"{"b":[1,2.5],"a":{"x":null},"u":7,"t":"text","f":false}"#);
    let value: serde_json::Value = serde_json::from_str(&text).unwrap();
    let names: Vec<&String> = value.as_object().unwrap().keys().collect();
    assert_eq!(names, vec!["b", "a", "u", "t", "f"]);
    assert_eq!(value.to_string(), text);
}

#[test]
fn what_was_read_can_be_written() {
    let texts = [
        "0.1",
        "1e-7",
        "1E400000",
        "-1.7976931348623157e308",
        "5e-324",
        "123456789012345678901234567890",
        "-9223372036854775809",
        "[0.30000000000000004,1e21,1e22,0.000001,1.0]",
        r#"{"":{"":[{}]},"\u0000":"😀"}"#,
    ];
    for text in texts {
        match parse(text) {
            Ok(tree) => {
                let written = render(&tree).unwrap();
                assert_eq!(parse(&written), Ok(tree), "{}", text);
            }
            Err(e) => assert_eq!(e, DecodeError::Syntax, "{}", text),
        }
    }
    assert!(parse("1E400000").is_err());
    assert!(parse("1e-7").is_ok());
}

#[test]
fn errors_say_what_went_wrong() {
    assert_eq!(DecodeError::Syntax.message(), "the body is not JSON");
    assert_eq!(DecodeError::MissingField.message(), "an object lacks a field that must be there");
    assert_eq!(
        DecodeError::TypeMismatch.message(),
        "a value is not of the type or range of its field"
    );
    assert_eq!(EncodeError::BadNumber.message(), "the text of a number is not a JSON number");
    assert_eq!(EncodeError::DuplicateName.message(), "an object or a map holds a name twice");
}
