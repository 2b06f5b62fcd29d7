//! Sessions of a logged-in user: the requests that log in, ask who the user
//! is and end the other sessions, and what their replies do to a session.
use vstd::prelude::*;

use crate::json::Json;
use crate::util::{check_errors, errors_text, is_request, request, spec_errors, Request, REDDIT};

verus! {

/// How a session behaves.
#[derive(Clone, Copy, Debug, PartialEq, Eq, Structural)]
pub struct SessionSettings {
    pub delete_pass: bool,
    pub auto_relogin: bool,
}

impl SessionSettings {
    pub fn new(delete_pass: bool, auto_relogin: bool) -> (r: SessionSettings)
        ensures
            r == (SessionSettings { delete_pass, auto_relogin }),
    {
        SessionSettings { delete_pass, auto_relogin }
    }

    /// Keeps the password and does not log in again by itself.
    pub fn default() -> (r: SessionSettings)
        ensures
            r == (SessionSettings { delete_pass: false, auto_relogin: false }),
    {
        SessionSettings { delete_pass: false, auto_relogin: false }
    }
}

/// A user's session: the anonymous default one, or one of a user, which
/// holds the cookie and the modhash that logging in gives.
#[derive(Clone, Debug)]
pub struct Session {
    /// Whether this is the anonymous session, which cannot log in.
    pub default: bool,
    pub username: String,
    pub password: Option<String>,
    pub cookie: String,
    pub modhash: String,
    pub settings: Box<SessionSettings>,
}

/// The modhash under `json.data.modhash` of a reply, where there is one.
pub open spec fn spec_modhash(reply: Json) -> Option<Seq<char>> {
    match reply.spec_get("json"@) {
        Some(a) => match a.spec_get("data"@) {
            Some(b) => match b.spec_get("modhash"@) {
                Some(Json::Str(m)) => Some(m@),
                _ => None,
            },
            None => None,
        },
        None => None,
    }
}

/// The form that logs `user` in with `password`.
pub open spec fn login_form(user: Seq<char>, password: Seq<char>) -> Seq<char> {
    "user="@ + user + "&passwd="@ + password + "&rem=true&api_type=json"@
}

/// The form that ends the user's other sessions and then leads to `dest`.
pub open spec fn clear_form(dest: Seq<char>, password: Seq<char>, modhash: Seq<char>) -> Seq<char> {
    "dest="@ + dest + "&curpass="@ + password + "&uh="@ + modhash + "&api_type=json"@
}

/// A login reply can be taken up: it has a list of errors, and where that
/// list is empty it comes with a cookie and a modhash.
pub open spec fn login_reply_ok(reply: Json, set_cookie: Option<String>) -> bool {
    &&& spec_errors(reply) is Some
    &&& spec_errors(reply).unwrap().len() == 0 ==> set_cookie is Some && spec_modhash(reply) is Some
}

/// A reply to ending the other sessions can be taken up: it has a list of
/// errors, and where that list is empty it comes with a cookie.
pub open spec fn clear_reply_ok(reply: Json, set_cookie: Option<String>) -> bool {
    &&& spec_errors(reply) is Some
    &&& spec_errors(reply).unwrap().len() == 0 ==> set_cookie is Some
}

impl Session {
    /// A session holds a password unless it is the default one.
    pub open spec fn wf(&self) -> bool {
        !self.default ==> self.password is Some
    }

    /// The anonymous session.
    pub fn default() -> (r: Session)
        ensures
            r.default,
            r.username@ == Seq::<char>::empty(),
            r.password is None,
            r.cookie@ == Seq::<char>::empty(),
            r.modhash@ == Seq::<char>::empty(),
            *r.settings == (SessionSettings { delete_pass: false, auto_relogin: false }),
            r.wf(),
    {
        Session {
            default: true,
            username: String::new(),
            password: None,
            cookie: String::new(),
            modhash: String::new(),
            settings: Box::new(SessionSettings::default()),
        }
    }

    /// A session of `username`, not yet logged in.
    pub fn new(username: &str, pass: &str, settings: SessionSettings) -> (r: Session)
        ensures
            !r.default,
            r.username@ == username@,
            (r.password matches Some(p) && p@ == pass@),
            r.cookie@ == Seq::<char>::empty(),
            r.modhash@ == Seq::<char>::empty(),
            *r.settings == settings,
            r.wf(),
    {
        Session {
            default: false,
            username: String::from_str(username),
            password: Some(String::from_str(pass)),
            cookie: String::new(),
            modhash: String::new(),
            settings: Box::new(settings),
        }
    }

    /// The request that logs the user in: a form with the user's name and
    /// password, posted to `api/login/<user>`. The default session cannot
    /// log in.
    pub fn login(&self) -> (r: Result<Request, String>)
        requires
            self.wf(),
        ensures
            r is Err <==> self.default,
            r matches Err(e) ==> e@ == "Cannot login with default session"@,
            r matches Ok(req) ==> is_request(
                req,
                REDDIT@ + "api/login/"@ + self.username@,
                Some(login_form(self.username@, self.password.unwrap()@)),
                Some(self.cookie@),
            ),
    {
        if self.default {
            return Err(String::from_str("Cannot login with default session"));
        }
        let mut url = String::from_str(REDDIT);
        url.append("api/login/");
        url.append(self.username.as_str());
        let password = self.password.as_ref().unwrap();
        let mut form = String::from_str("user=");
        form.append(self.username.as_str());
        form.append("&passwd=");
        form.append(password.as_str());
        form.append("&rem=true&api_type=json");
        Ok(request(url, Some(form), Some(self)))
    }

    /// Takes up the reply to logging in: where it reports errors, their
    /// text; otherwise the session, with the cookie that the reply set and
    /// the modhash that it sent.
    pub fn finish_login(self, reply: &Json, set_cookie: Option<String>) -> (r: Result<Session, String>)
        requires
            login_reply_ok(*reply, set_cookie),
        ensures
            r is Ok <==> spec_errors(*reply).unwrap().len() == 0,
            r matches Err(e) ==> e@ == errors_text(spec_errors(*reply).unwrap()),
            r matches Ok(s) ==> {
                &&& s.cookie@ == set_cookie.unwrap()@
                &&& s.modhash@ == spec_modhash(*reply).unwrap()
                &&& s.default == self.default
                &&& s.username == self.username
                &&& s.password == self.password
                &&& s.settings == self.settings
            },
    {
        check_errors(reply)?;
        let cookie = set_cookie.unwrap();
        let modhash = reply.get("json").unwrap().get("data").unwrap().get("modhash").unwrap().as_str().unwrap().clone();
        Ok(Session {
            default: self.default,
            username: self.username,
            password: self.password,
            cookie,
            modhash,
            settings: self.settings,
        })
    }

    /// The request that asks who the session's user is.
    pub fn me(&self) -> (r: Request)
        ensures
            is_request(r, REDDIT@ + "api/me.json"@, None, Some(self.cookie@)),
    {
        let mut url = String::from_str(REDDIT);
        url.append("api/me.json");
        request(url, None, Some(self))
    }

    /// The request that ends the user's other sessions, confirmed with the
    /// password `pass`, after which the site leads to `dest`.
    pub fn clear(&self, pass: &str, dest: &str) -> (r: Request)
        ensures
            is_request(
                r,
                REDDIT@ + "api/clear_sessions"@,
                Some(clear_form(dest@, pass@, self.modhash@)),
                Some(self.cookie@),
            ),
    {
        let mut url = String::from_str(REDDIT);
        url.append("api/clear_sessions");
        let mut form = String::from_str("dest=");
        form.append(dest);
        form.append("&curpass=");
        form.append(pass);
        form.append("&uh=");
        form.append(self.modhash.as_str());
        form.append("&api_type=json");
        request(url, Some(form), Some(self))
    }

    /// Takes up the reply to ending the other sessions: where it reports
    /// errors, their text; otherwise the session with the cookie that the
    /// reply set.
    pub fn finish_clear(self, reply: &Json, set_cookie: Option<String>) -> (r: Result<Session, String>)
        requires
            clear_reply_ok(*reply, set_cookie),
        ensures
            r is Ok <==> spec_errors(*reply).unwrap().len() == 0,
            r matches Err(e) ==> e@ == errors_text(spec_errors(*reply).unwrap()),
            r matches Ok(s) ==> {
                &&& s.cookie@ == set_cookie.unwrap()@
                &&& s.modhash == self.modhash
                &&& s.default == self.default
                &&& s.username == self.username
                &&& s.password == self.password
                &&& s.settings == self.settings
            },
    {
        check_errors(reply)?;
        let cookie = set_cookie.unwrap();
        Ok(Session {
            default: self.default,
            username: self.username,
            password: self.password,
            cookie,
            modhash: self.modhash,
            settings: self.settings,
        })
    }
}

/// The login form carries the user and the whole password as given: it
/// reads `user=`, the user, `&passwd=`, the password, then
/// `&rem=true&api_type=json`, whatever their lengths.
pub proof fn lemma_login_form_fields(user: Seq<char>, password: Seq<char>)
    ensures
        ({
            let f = login_form(user, password);
            let u = user.len() as int;
            let p = password.len() as int;
            &&& f.len() == u + p + 36
            &&& f.subrange(0, 5) == "user="@
            &&& f.subrange(5, 5 + u) == user
            &&& f.subrange(5 + u, 13 + u) == "&passwd="@
            &&& f.subrange(13 + u, 13 + u + p) == password
            &&& f.subrange(13 + u + p, f.len() as int) == "&rem=true&api_type=json"@
        }),
{
    reveal_strlit("user=");
    reveal_strlit("&passwd=");
    reveal_strlit("&rem=true&api_type=json");
    let f = login_form(user, password);
    let u = user.len() as int;
    let p = password.len() as int;
    assert(f.subrange(0, 5) =~= "user="@);
    assert(f.subrange(5, 5 + u) =~= user);
    assert(f.subrange(5 + u, 13 + u) =~= "&passwd="@);
    assert(f.subrange(13 + u, 13 + u + p) =~= password);
    assert(f.subrange(13 + u + p, f.len() as int) =~= "&rem=true&api_type=json"@);
}

/// Different users or passwords make different login forms.
pub proof fn lemma_login_form_injective(u1: Seq<char>, p1: Seq<char>, u2: Seq<char>, p2: Seq<char>)
    requires
        login_form(u1, p1) == login_form(u2, p2),
        u1.len() == u2.len(),
    ensures
        u1 == u2,
        p1 == p2,
{
    lemma_login_form_fields(u1, p1);
    lemma_login_form_fields(u2, p2);
}

/// The form that ends the other sessions carries the destination, the
/// password and the modhash as given: it reads `dest=`, the destination,
/// `&curpass=`, the password, `&uh=`, the modhash, then `&api_type=json`.
pub proof fn lemma_clear_form_fields(dest: Seq<char>, password: Seq<char>, modhash: Seq<char>)
    ensures
        ({
            let f = clear_form(dest, password, modhash);
            let d = dest.len() as int;
            let p = password.len() as int;
            let m = modhash.len() as int;
            &&& f.len() == d + p + m + 32
            &&& f.subrange(0, 5) == "dest="@
            &&& f.subrange(5, 5 + d) == dest
            &&& f.subrange(5 + d, 14 + d) == "&curpass="@
            &&& f.subrange(14 + d, 14 + d + p) == password
            &&& f.subrange(14 + d + p, 18 + d + p) == "&uh="@
            &&& f.subrange(18 + d + p, 18 + d + p + m) == modhash
            &&& f.subrange(18 + d + p + m, f.len() as int) == "&api_type=json"@
        }),
{
    reveal_strlit("dest=");
    reveal_strlit("&curpass=");
    reveal_strlit("&uh=");
    reveal_strlit("&api_type=json");
    let f = clear_form(dest, password, modhash);
    let d = dest.len() as int;
    let p = password.len() as int;
    let m = modhash.len() as int;
    assert(f.subrange(0, 5) =~= "dest="@);
    assert(f.subrange(5, 5 + d) =~= dest);
    assert(f.subrange(5 + d, 14 + d) =~= "&curpass="@);
    assert(f.subrange(14 + d, 14 + d + p) =~= password);
    assert(f.subrange(14 + d + p, 18 + d + p) =~= "&uh="@);
    assert(f.subrange(18 + d + p, 18 + d + p + m) =~= modhash);
    assert(f.subrange(18 + d + p + m, f.len() as int) =~= "&api_type=json"@);
}

} // verus!
