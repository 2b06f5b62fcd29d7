use reddit::json::{Json, JsonObject};
use reddit::session::{Session, SessionSettings};
use reddit::util::{parse_secrets, Method, REDDIT};

fn obj(entries: Vec<(&str, Json)>) -> Json {
    Json::Object(JsonObject::from_entries(entries.into_iter().map(|(k, v)| (k.to_string(), v)).collect()).unwrap())
}

fn login_reply(modhash: &str) -> Json {
    obj(vec![(
        "json",
        obj(vec![
            ("data", obj(vec![("cookie", Json::Str("c".to_string())), ("modhash", Json::Str(modhash.to_string()))])),
            ("errors", Json::List(vec![])),
        ]),
    )])
}

fn secrets() -> (String, String) {
    parse_secrets("tester hunter2\n")
}

fn logged_in() -> Session {
    let (user, pass) = secrets();
    let u = Session::new(&user, &pass, SessionSettings::default());
    u.login().unwrap();
    u.finish_login(&login_reply("mh42"), Some("reddit_session=abc".to_string())).unwrap()
}

#[test]
fn test_login() {
    let (user, pass) = secrets();

    let u = Session::new(&user, &pass, SessionSettings::default());
    let req = u.login().unwrap();
    assert_eq!(req.method, Method::Post);
    assert_eq!(req.url, "http://www.reddit.com/api/login/tester");
    assert_eq!(req.body.as_deref(), Some("user=tester&passwd=hunter2&rem=true&api_type=json"));
    let u = u.finish_login(&login_reply("mh42"), Some("reddit_session=abc".to_string())).unwrap();

    assert!(u.cookie.len() > 0);
}

#[test]
fn test_me() {
    let u = logged_in();

    let user_info = u.me();
    assert_eq!(user_info.method, Method::Get);
    assert_eq!(user_info.url, "http://www.reddit.com/api/me.json");
    assert_eq!(user_info.cookie.as_deref(), Some("reddit_session=abc"));

    assert!(user_info.cookie.unwrap().len() > 0);
}

#[test]
fn test_clear() {
    let (_, pass) = secrets();
    let user = logged_in();

    let req = user.clear(&pass, REDDIT);
    assert_eq!(req.url, "http://www.reddit.com/api/clear_sessions");
    assert_eq!(
        req.body.as_deref(),
        Some("dest=http://www.reddit.com/&curpass=hunter2&uh=mh42&api_type=json")
    );
    let reply = obj(vec![("json", obj(vec![("errors", Json::List(vec![]))]))]);
    let cookie = user.finish_clear(&reply, Some("reddit_session=new".to_string())).unwrap().cookie;

    assert!(cookie.len() > 0);
}

#[test]
fn default_session_cannot_log_in() {
    let s = Session::default();
    assert!(s.default);
    assert_eq!(s.login().unwrap_err(), "Cannot login with default session");
}

#[test]
fn new_session_holds_its_user() {
    let s = Session::new("alice", "pw", SessionSettings::new(true, false));
    assert!(!s.default);
    assert_eq!(s.username, "alice");
    assert_eq!(s.password.as_deref(), Some("pw"));
    assert_eq!(s.cookie, "");
    assert_eq!(s.modhash, "");
    assert_eq!(*s.settings, SessionSettings::new(true, false));
    assert_eq!(SessionSettings::default(), SessionSettings::new(false, false));
}

#[test]
fn login_keeps_user_and_takes_cookie_and_modhash() {
    let u = logged_in();
    assert_eq!(u.username, "tester");
    assert_eq!(u.password.as_deref(), Some("hunter2"));
    assert_eq!(u.cookie, "reddit_session=abc");
    assert_eq!(u.modhash, "mh42");
    assert!(!u.default);
}

#[test]
fn login_reports_errors() {
    let (user, pass) = secrets();
    let u = Session::new(&user, &pass, SessionSettings::default());
    let errors = Json::List(vec![
        Json::Str("WRONG_PASSWORD".to_string()),
        Json::Str("wrong password".to_string()),
        Json::Str("passwd".to_string()),
    ]);
    let reply = obj(vec![("json", obj(vec![("errors", Json::List(vec![errors]))]))]);
    let e = u.finish_login(&reply, None).unwrap_err();
    assert_eq!(e, "[[\"WRONG_PASSWORD\",\"wrong password\",\"passwd\"]]");
}

#[test]
fn clear_keeps_modhash_and_takes_cookie() {
    let u = logged_in();
    let reply = obj(vec![("json", obj(vec![("errors", Json::List(vec![]))]))]);
    let v = u.finish_clear(&reply, Some("fresh".to_string())).unwrap();
    assert_eq!(v.cookie, "fresh");
    assert_eq!(v.modhash, "mh42");
    assert_eq!(v.username, "tester");
}

#[test]
fn clear_reports_errors() {
    let u = logged_in();
    let reply = obj(vec![(
        "json",
        obj(vec![("errors", Json::List(vec![Json::Str("A".to_string()), Json::Number("1".to_string())]))]),
    )]);
    assert_eq!(u.finish_clear(&reply, None).unwrap_err(), "[\"A\", 1]");
}

#[test]
fn login_request_headers() {
    let u = Session::new("bob", "é", SessionSettings::default());
    let req = u.login().unwrap();
    assert_eq!(req.user_agent, "github.com/MarkJr94/reddit");
    assert_eq!(req.cookie.as_deref(), Some(""));
    assert_eq!(req.content_type.as_deref(), Some("application/x-www-form-urlencoded"));
    let body = "user=bob&passwd=é&rem=true&api_type=json";
    assert_eq!(req.content_length, Some(body.len()));
    assert_eq!(req.content_length, Some(41));
}
