use reddit::json::{Json, JsonObject};
use reddit::objects::listing_data;
use reddit::util::{check_errors, error_list, parse_secrets, request, Method, Vote};


fn object(entries: Vec<(String, Json)>) -> Json {
    Json::Object(JsonObject::from_entries(entries).unwrap())
}

fn s(x: &str) -> String {
    x.to_string()
}

#[test]
fn encoding_is_compact() {
    let v = object(vec![
        (s("a"), Json::List(vec![Json::Null, Json::Boolean(true), Json::Boolean(false)])),
        (s("b"), Json::Number(s("-1.5e3"))),
        (s("c"), object(vec![])),
    ]);
    assert_eq!(v.to_str(), "{\"a\":[null,true,false],\"b\":-1.5e3,\"c\":{}}");
    assert_eq!(Json::List(vec![]).to_str(), "[]");
}

#[test]
fn strings_are_escaped() {
    assert_eq!(Json::Str(s("a")).to_str(), "\"a\"");
    assert_eq!(
        Json::Str(s("q\"b\\s\u{8}f\u{c}n\nr\rt\té")).to_str(),
        "\"q\\\"b\\\\s\\bf\\fn\\nr\\rt\\té\""
    );
    let v = object(vec![(s("k\""), Json::Null)]);
    assert_eq!(v.to_str(), "{\"k\\\"\":null}");
}

#[test]
fn lookups() {
    let v = object(vec![(s("x"), Json::Number(s("1"))), (s("y"), Json::Str(s("z")))]);
    assert_eq!(v.get("x").unwrap().to_str(), "1");
    assert_eq!(v.get("y").unwrap().as_str().unwrap(), "z");
    assert!(v.get("w").is_none());
    assert!(Json::Null.get("x").is_none());
    assert!(v.as_list().is_none());
    assert!(v.as_str().is_none());
    assert_eq!(Json::List(vec![Json::Null]).as_list().unwrap().len(), 1);
}

#[test]
fn error_checks() {
    let ok = object(vec![(s("json"), object(vec![(s("errors"), Json::List(vec![]))]))]);
    assert!(check_errors(&ok).is_ok());
    let bad = object(vec![(
        s("json"),
        object(vec![(s("errors"), Json::List(vec![Json::List(vec![Json::Str(s("RATELIMIT"))]), Json::Null]))]),
    )]);
    assert_eq!(check_errors(&bad).unwrap_err(), "[[\"RATELIMIT\"], null]");
    assert!(error_list(&Json::Null).is_none());
    assert_eq!(error_list(&bad).unwrap().len(), 2);
}

#[test]
fn votes() {
    assert_eq!(Vote::Upvote.as_str(), "1");
    assert_eq!(Vote::Downvote.as_str(), "-1");
    assert_eq!(Vote::RemoveVote.as_str(), "0");
}

#[test]
fn requests() {
    let get = request(s("http://example.com/"), None, None);
    assert_eq!(get.method, Method::Get);
    assert_eq!(get.url, "http://example.com/");
    assert!(get.cookie.is_none());
    assert!(get.body.is_none());
    assert!(get.content_type.is_none());
    assert!(get.content_length.is_none());
    let post = request(s("http://example.com/p"), Some(s("a=ü")), None);
    assert_eq!(post.method, Method::Post);
    assert_eq!(post.body.as_deref(), Some("a=ü"));
    assert_eq!(post.content_length, Some(4));
}

#[test]
fn secrets() {
    assert_eq!(parse_secrets("alice  pw\n"), (s("alice"), s("")));
    assert_eq!(parse_secrets(" bob\tsecret\n"), (s(""), s("bob\tsecret")));
    assert_eq!(parse_secrets("carol s3cr3t\n"), (s("carol"), s("s3cr3t")));
    assert_eq!(parse_secrets("dave x y"), (s("dave"), s("x")));
    assert_eq!(parse_secrets("\u{a0}erin\u{3000} pw\r\n"), (s("erin"), s("pw")));
    assert_eq!(parse_secrets("\u{85}frank\u{180e} pw\u{2029}"), (s("\u{85}frank"), s("pw")));
    assert_eq!(parse_secrets(" "), (s(""), s("")));
}

#[test]
fn listings() {
    let child = |id: &str| object(vec![(s("data"), object(vec![(s("id"), Json::Str(s(id)))])), (s("kind"), Json::Str(s("t3")))]);
    let reply = object(vec![(
        s("data"),
        object(vec![(s("after"), Json::Null), (s("children"), Json::List(vec![child("a"), child("b")]))]),
    )]);
    let data = listing_data(&reply).unwrap();
    assert_eq!(data.len(), 2);
    assert_eq!(data[0].to_str(), "{\"id\":\"a\"}");
    assert_eq!(data[1].get("id").unwrap().as_str().unwrap(), "b");
    let broken = object(vec![(
        s("data"),
        object(vec![(s("children"), Json::List(vec![child("a"), object(vec![(s("kind"), Json::Str(s("t3")))])]))]),
    )]);
    assert!(listing_data(&broken).is_none());
    assert!(listing_data(&Json::List(vec![])).is_none());
    let empty = object(vec![(s("data"), object(vec![(s("children"), Json::List(vec![]))]))]);
    assert_eq!(listing_data(&empty).unwrap().len(), 0);
}

#[test]
fn objects_hold_their_keys_in_order() {
    assert!(JsonObject::from_entries(vec![(s("b"), Json::Null), (s("a"), Json::Null)]).is_none());
    assert!(JsonObject::from_entries(vec![(s("a"), Json::Null), (s("a"), Json::Null)]).is_none());
    assert!(JsonObject::from_entries(vec![(s("ab"), Json::Null), (s("a"), Json::Null)]).is_none());
    let o = JsonObject::from_entries(vec![(s("A"), Json::Null), (s("a"), Json::Null), (s("ab"), Json::Null), (s("é"), Json::Null)]).unwrap();
    assert_eq!(o.entries().len(), 4);
    assert_eq!(Json::Object(o).to_str(), "{\"A\":null,\"a\":null,\"ab\":null,\"é\":null}");
    assert_eq!(Json::Object(JsonObject::new()).to_str(), "{}");
}

#[test]
fn replies_are_parsed() {
    let v = reddit::json::parse_json("{\"b\": 1, \"a\": [true, null, \"x\\ty\"], \"c\": {\"z\": -2.5}}").unwrap();
    assert_eq!(v.to_str(), "{\"a\":[true,null,\"x\\ty\"],\"b\":1,\"c\":{\"z\":-2.5}}");
    assert_eq!(v.get("b").unwrap().to_str(), "1");
    assert!(reddit::json::parse_json("{\"a\": }").is_err());
    assert!(reddit::json::parse_json("").is_err());
}
