//! The addresses of users' descriptions and of their listings of comments.
use vstd::prelude::*;

use crate::post::{check_sort, push_sort_suffix, sort_allowed, sort_error, sort_suffix, AgeSort, PopularitySort};
use crate::util::REDDIT;

verus! {

/// The address of the description of the user `username`.
pub fn about_redditor_url(username: &str) -> (r: String)
    ensures
        r@ == REDDIT@ + "user/"@ + username@ + "/about.json"@,
{
    let mut r = String::from_str(REDDIT);
    r.append("user/");
    r.append(username);
    r.append("/about.json");
    r
}

/// The address of the listing of the comments of the user `name`, sorted
/// by `pop` over `age`; refused, with its message, for an order that takes
/// no time span.
pub fn comments_sorted_url(name: &str, pop: PopularitySort, age: AgeSort) -> (r: Result<String, String>)
    ensures
        r is Ok <==> sort_allowed(pop, age),
        r matches Err(e) ==> e@ == sort_error(pop, age),
        r matches Ok(url) ==> url@ == "http://www.reddit.com/user/"@ + name@ + "/comments/"@
            + sort_suffix(pop, age),
{
    check_sort(pop, age)?;
    let mut url = String::from_str("http://www.reddit.com/user/");
    url.append(name);
    url.append("/comments/");
    push_sort_suffix(&mut url, pop, age);
    Ok(url)
}

/// The address of the listing of the comments of the user `name` as the
/// site orders them by default: the newest first.
pub fn comments_url(name: &str) -> (r: String)
    ensures
        r@ == "http://www.reddit.com/user/"@ + name@ + "/comments/"@
            + sort_suffix(PopularitySort::New, AgeSort::DefaultAge),
{
    let mut url = String::from_str("http://www.reddit.com/user/");
    url.append(name);
    url.append("/comments/");
    push_sort_suffix(&mut url, PopularitySort::New, AgeSort::DefaultAge);
    url
}

} // verus!
