//! The addresses of subreddits and of their listings of posts.
use vstd::prelude::*;

use crate::post::{check_sort, push_sort_suffix, sort_allowed, sort_error, sort_suffix, AgeSort, PopularitySort};
use crate::util::REDDIT;

verus! {

/// The address of the description of subreddit `sr`.
pub fn about_subreddit_url(sr: &str) -> (r: String)
    ensures
        r@ == REDDIT@ + "r/"@ + sr@ + "/about.json"@,
{
    let mut r = String::from_str(REDDIT);
    r.append("r/");
    r.append(sr);
    r.append("/about.json");
    r
}

/// The address of the front page's listing.
pub fn front_page_url() -> (r: String)
    ensures
        r@ == "http://www.reddit.com/.json"@,
{
    String::from_str("http://www.reddit.com/.json")
}

/// The address of the listing of posts, in the subreddit with title
/// `sub_title` or on the front page, sorted by `pop` over `age`; refused,
/// with its message, for an order that takes no time span.
pub fn sorted_posts_url(sub_title: Option<&str>, pop: PopularitySort, age: AgeSort) -> (r: Result<String, String>)
    ensures
        r is Ok <==> sort_allowed(pop, age),
        r matches Err(e) ==> e@ == sort_error(pop, age),
        r matches Ok(url) ==> url@ == "http://reddit.com/"@ + match sub_title {
            Some(t) => "r/"@ + t@ + "/"@,
            None => Seq::empty(),
        } + sort_suffix(pop, age),
{
    check_sort(pop, age)?;
    let mut url = String::from_str("http://reddit.com/");
    match sub_title {
        Some(t) => {
            url.append("r/");
            url.append(t);
            url.append("/");
        },
        None => {},
    }
    push_sort_suffix(&mut url, pop, age);
    Ok(url)
}

} // verus!
