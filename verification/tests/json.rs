use hubbub::json::{Json, ToJson};

fn obj(text: &str) -> Json {
    Json::parse(text).expect("valid JSON")
}

fn print(json: &Json) -> String {
    json.to_text().expect("printable")
}

#[test]
fn parse_reads_every_kind_of_document() {
    assert!(matches!(Json::parse("null"), Some(Json::Null)));
    assert!(matches!(Json::parse("true"), Some(Json::Bool(true))));
    assert!(matches!(Json::parse("\"hi\""), Some(Json::Text(s)) if s == "hi"));
    assert!(matches!(Json::parse("17"), Some(Json::Number(n)) if n == "17"));
    assert!(matches!(Json::parse("-3"), Some(Json::Number(n)) if n == "-3"));
    assert!(matches!(Json::parse("1.5"), Some(Json::Number(n)) if n == "1.5"));
    assert!(matches!(Json::parse("[1,[2]]"), Some(Json::Array(a)) if a.len() == 2));
    assert!(matches!(Json::parse("{\"b\":1,\"a\":2}"), Some(Json::Object(m)) if m[0].0 == "b" && m[1].0 == "a"));
    assert!(Json::parse("").is_none());
    assert!(Json::parse("{").is_none());
    assert!(Json::parse("nul").is_none());
    assert!(Json::parse("1 2").is_none());
}

#[test]
fn parse_bytes_agrees_with_parse() {
    assert_eq!(print(&Json::parse_bytes(b"{\"a\":[1,2,{\"b\":null}]}").unwrap()), "{\"a\":[1,2,{\"b\":null}]}");
    assert!(Json::parse_bytes(b"\xff").is_none());
}

#[test]
fn printing_keeps_the_order_of_members() {
    let json = Json::object().with("z", Json::number(1)).with("a", Json::text("x")).with("m", Json::Null);
    assert_eq!(print(&json), "{\"z\":1,\"a\":\"x\",\"m\":null}");
    assert_eq!(print(&obj("{\"z\":1,\"a\":[true,false]}")), "{\"z\":1,\"a\":[true,false]}");
}

#[test]
fn printing_escapes_texts() {
    assert_eq!(print(&Json::text("a\"b\\c\n")), "\"a\\\"b\\\\c\\n\"");
}

#[test]
fn numbers_round_trip() {
    for text in ["0", "41250", "18446744073709551615", "-12", "2.5", "1e300"] {
        let json = obj(text);
        let again = obj(&print(&json));
        assert_eq!(print(&json), print(&again));
    }
    assert_eq!(print(&Json::number(0)), "0");
    assert_eq!(print(&Json::number(u64::MAX)), "18446744073709551615");
    assert_eq!(Json::number(327180).as_u64(), Some(327180));
}

#[test]
fn a_number_that_is_no_numeral_prints_as_null() {
    assert_eq!(print(&Json::Number("seven".to_string())), "null");
}

#[test]
fn as_u64_takes_unsigned_integers_only() {
    assert_eq!(obj("0").as_u64(), Some(0));
    assert_eq!(obj("18446744073709551615").as_u64(), Some(u64::MAX));
    assert_eq!(obj("18446744073709551616").as_u64(), None);
    assert_eq!(obj("-1").as_u64(), None);
    assert_eq!(obj("1.0").as_u64(), None);
    assert_eq!(obj("\"1\"").as_u64(), None);
    assert_eq!(obj("null").as_u64(), None);
    assert_eq!(Json::Number("+5".to_string()).as_u64(), Some(5));
    assert_eq!(Json::Number("".to_string()).as_u64(), None);
}

#[test]
fn accessors_tell_the_kinds_apart() {
    assert!(obj("null").is_null());
    assert!(!obj("0").is_null());
    assert_eq!(obj("true").as_bool(), Some(true));
    assert_eq!(obj("false").as_bool(), Some(false));
    assert_eq!(obj("1").as_bool(), None);
    assert_eq!(obj("\"x\"").as_str(), Some("x"));
    assert_eq!(obj("1").as_str(), None);
    assert_eq!(obj("[1,2,3]").as_array().map(|a| a.len()), Some(3));
    assert!(obj("{}").as_array().is_none());
}

#[test]
fn get_finds_the_last_member_with_a_key() {
    let json = Json::Object(vec![
        ("a".to_string(), Json::number(1)),
        ("b".to_string(), Json::number(2)),
        ("a".to_string(), Json::number(3)),
    ]);
    assert_eq!(json.get("a").and_then(|v| v.as_u64()), Some(3));
    assert_eq!(json.get("b").and_then(|v| v.as_u64()), Some(2));
    assert!(json.get("c").is_none());
    assert!(Json::Null.get("a").is_none());
    assert!(obj("[1]").get("0").is_none());
}

#[test]
fn set_replaces_in_place_or_appends() {
    let json = obj("{\"a\":1,\"b\":2}");
    let json = json.set("a", Json::text("x"));
    assert_eq!(print(&json), "{\"a\":\"x\",\"b\":2}");
    let json = json.set("c", Json::Bool(true));
    assert_eq!(print(&json), "{\"a\":\"x\",\"b\":2,\"c\":true}");
    let mut json = json;
    json.put("b", Json::Null);
    json.put("d", Json::array());
    assert_eq!(print(&json), "{\"a\":\"x\",\"b\":null,\"c\":true,\"d\":[]}");
}

#[test]
fn push_appends_to_an_array() {
    let json = Json::array().push(Json::number(1)).push(Json::text("two"));
    assert_eq!(print(&json), "[1,\"two\"]");
}

#[test]
fn items_at_copies_an_array_member() {
    let json = obj("{\"a\":[1,2],\"b\":7}");
    assert_eq!(json.items_at("a").len(), 2);
    assert!(json.items_at("b").is_empty());
    assert!(json.items_at("c").is_empty());
    assert_eq!(print(&Json::array_of(json.items_at("a"))), "[1,2]");
}

#[test]
fn duplicate_copies_the_whole_document() {
    let json = obj("{\"a\":[1,{\"b\":[null,\"x\",2.5]}],\"c\":false}");
    assert_eq!(print(&json.duplicate()), print(&json));
    assert_eq!(print(&json.clone()), print(&json));
}

#[test]
fn plain_values_have_their_documents() {
    assert_eq!(print(&true.to_json()), "true");
    assert_eq!(print(&7u8.to_json()), "7");
    assert_eq!(print(&65535u16.to_json()), "65535");
    assert_eq!(print(&4000000000u32.to_json()), "4000000000");
    assert_eq!(print(&u64::MAX.to_json()), "18446744073709551615");
    assert_eq!(print(&12usize.to_json()), "12");
    assert_eq!(print(&"hi".to_string().to_json()), "\"hi\"");
    assert_eq!(print(&Some(3u8).to_json()), "3");
    assert_eq!(print(&None::<u8>.to_json()), "null");
    assert_eq!(print(&vec![1u8, 2, 3].to_json()), "[1,2,3]");
    assert_eq!(print(&Vec::<u8>::new().to_json()), "[]");
    assert_eq!(print(&Json::number_text_or_null(&Some("2.5".to_string()))), "2.5");
    assert_eq!(print(&Json::number_text_or_null(&None)), "null");
}
