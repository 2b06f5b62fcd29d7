use vstd::prelude::*;
use vstd::utf8::encode_utf8;

use crate::json::{join, write_joined, Json};
use crate::session::Session;
use crate::text::{find_space, is_trimmed, lemma_space_from_bounds, lemma_space_from_finds, push_char, space_from, trimmed};

verus! {

/// The site that requests go to.
pub const REDDIT: &'static str = "http://www.reddit.com/";

/// The user agent that requests name.
pub const UASTR: &'static str = "github.com/MarkJr94/reddit";

/// A vote on a thing.
#[derive(Clone, Copy, Debug, PartialEq, Eq)]
pub enum Vote {
    Upvote,
    Downvote,
    RemoveVote,
}

/// The value that the API expects for a vote.
pub open spec fn spec_vote_str(v: Vote) -> Seq<char> {
    match v {
        Vote::Upvote => "1"@,
        Vote::Downvote => "-1"@,
        Vote::RemoveVote => "0"@,
    }
}

impl Vote {
    /// The value that the API expects for this vote.
    pub fn as_str(&self) -> (r: String)
        ensures
            r@ == spec_vote_str(*self),
    {
        match *self {
            Vote::Upvote => String::from_str("1"),
            Vote::Downvote => String::from_str("-1"),
            Vote::RemoveVote => String::from_str("0"),
        }
    }
}


/// The method of a request.
#[derive(Clone, Copy, Debug, PartialEq, Eq, Structural)]
pub enum Method {
    Get,
    Post,
}

/// A request to the API, ready to be sent: what goes on the wire, without
/// the sending.
#[derive(Debug)]
pub struct Request {
    pub method: Method,
    pub url: String,
    pub user_agent: String,
    /// The value of the `Cookie` header, where there is one.
    pub cookie: Option<String>,
    /// The value of the `Content-Type` header, where there is one.
    pub content_type: Option<String>,
    /// The value of the `Content-Length` header, where there is one.
    pub content_length: Option<usize>,
    /// The form that a `POST` sends.
    pub body: Option<String>,
}

/// The content type of a form.
pub open spec fn form_type() -> Seq<char> {
    "application/x-www-form-urlencoded"@
}

/// `r` goes to `url`, with the user agent of this library; it posts `data`
/// as a form where there is some, and is a `GET` otherwise; it carries
/// `cookie` where there is one.
pub open spec fn is_request(r: Request, url: Seq<char>, data: Option<Seq<char>>, cookie: Option<Seq<char>>) -> bool {
    &&& r.url@ == url
    &&& r.user_agent@ == UASTR@
    &&& match cookie {
        Some(c) => r.cookie matches Some(x) && x@ == c,
        None => r.cookie is None,
    }
    &&& match data {
        Some(d) => {
            &&& r.method == Method::Post
            &&& r.body matches Some(b) && b@ == d
            &&& r.content_type matches Some(t) && t@ == form_type()
            &&& r.content_length == Some(encode_utf8(d).len() as usize)
        },
        None => {
            &&& r.method == Method::Get
            &&& r.body is None
            &&& r.content_type is None
            &&& r.content_length is None
        },
    }
}

/// The request that fetches `url`, posting `post_data` as a form where
/// there is some, on behalf of `session` (whose cookie it carries) where
/// there is one.
pub fn request(url: String, post_data: Option<String>, session: Option<&Session>) -> (r: Request)
    ensures
        is_request(
            r,
            url@,
            match post_data {
                Some(d) => Some(d@),
                None => None,
            },
            match session {
                Some(s) => Some(s.cookie@),
                None => None,
            },
        ),
{
    let cookie = match session {
        Some(s) => Some(s.cookie.clone()),
        None => None,
    };
    match post_data {
        Some(data) => {
            let len = data.as_str().len();
            Request {
                method: Method::Post,
                url,
                user_agent: String::from_str(UASTR),
                cookie,
                content_type: Some(String::from_str("application/x-www-form-urlencoded")),
                content_length: Some(len),
                body: Some(data),
            }
        },
        None => Request {
            method: Method::Get,
            url,
            user_agent: String::from_str(UASTR),
            cookie,
            content_type: None,
            content_length: None,
            body: None,
        },
    }
}

/// The list under `json.errors` of a reply, where there is one.
pub open spec fn spec_errors(reply: Json) -> Option<Seq<Json>> {
    match reply.spec_get("json"@) {
        Some(inner) => match inner.spec_get("errors"@) {
            Some(Json::List(items)) => Some(items@),
            _ => None,
        },
        None => None,
    }
}

/// The text of a list of errors: each error encoded, between brackets and
/// separated by a comma and a space.
pub open spec fn errors_text(errors: Seq<Json>) -> Seq<char> {
    seq!['['] + join(errors, ", "@) + seq![']']
}

/// The list under `json.errors` of a reply, or `None` where there is none.
pub fn error_list(reply: &Json) -> (r: Option<&Vec<Json>>)
    ensures
        match r {
            Some(v) => spec_errors(*reply) == Some(v@),
            None => spec_errors(*reply) is None,
        },
{
    match reply.get("json") {
        Some(inner) => match inner.get("errors") {
            Some(e) => e.as_list(),
            None => None,
        },
        None => None,
    }
}

/// Whether a reply reports errors: `Ok` where its list of errors is empty,
/// and the text of the list otherwise.
pub fn check_errors(reply: &Json) -> (r: Result<(), String>)
    requires
        spec_errors(*reply) is Some,
    ensures
        r is Ok <==> spec_errors(*reply).unwrap().len() == 0,
        r matches Err(e) ==> e@ == errors_text(spec_errors(*reply).unwrap()),
{
    let errors = error_list(reply).unwrap();
    if errors.len() != 0 {
        let mut text = String::new();
        push_char(&mut text, '[');
        write_joined(errors, ", ", &mut text);
        push_char(&mut text, ']');
        Err(text)
    } else {
        Ok(())
    }
}


/// The user name and the password that a secrets file holds: the first two
/// of its space-separated fields, each without surrounding white space.
/// The file must hold a space.
pub fn parse_secrets(contents: &str) -> (r: (String, String))
    requires
        contents@.contains(' '),
    ensures
        is_trimmed(contents@.subrange(0, space_from(contents@, 0)), r.0@),
        is_trimmed(
            contents@.subrange(space_from(contents@, 0) + 1, space_from(contents@, space_from(contents@, 0) + 1)),
            r.1@,
        ),
{
    proof {
        lemma_space_from_bounds(contents@, 0);
        lemma_space_from_finds(contents@, 0);
    }
    let i = find_space(contents, 0);
    proof {
        lemma_space_from_bounds(contents@, i + 1);
    }
    let j = find_space(contents, i + 1);
    (trimmed(contents, 0, i), trimmed(contents, i + 1, j))
}

} // verus!
