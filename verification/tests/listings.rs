use reddit::json::{Json, JsonObject};
use reddit::objects::listing_data;
use reddit::post::{AgeSort, PopularitySort};
use reddit::redditor::{about_redditor_url, comments_url};
use reddit::subreddit::{about_subreddit_url, front_page_url, sorted_posts_url};


fn object(entries: Vec<(String, Json)>) -> Json {
    Json::Object(JsonObject::from_entries(entries).unwrap())
}

fn s(x: &str) -> String {
    x.to_string()
}

fn listing_reply(ids: &[&str]) -> Json {
    let children = ids
        .iter()
        .map(|id| {
            object(vec![
                (s("data"), object(vec![(s("id"), Json::Str(s(id))), (s("title"), Json::Str(s("T")))])),
                (s("kind"), Json::Str(s("t3"))),
            ])
        })
        .collect();
    object(vec![
        (s("data"), object(vec![(s("after"), Json::Null), (s("children"), Json::List(children))])),
        (s("kind"), Json::Str(s("Listing"))),
    ])
}

#[test]
fn redditor_test_about() {
    assert_eq!(about_redditor_url("Axelior"), "http://www.reddit.com/user/Axelior/about.json");
    let reply = object(vec![(s("data"), object(vec![(s("name"), Json::Str(s("Axelior")))]))]);
    assert_eq!(reply.get("data").unwrap().get("name").unwrap().as_str().unwrap(), "Axelior");
}

#[test]
fn test_comments() {
    assert_eq!(comments_url("Axelior"), "http://www.reddit.com/user/Axelior/comments/new.json?sort=new");
    let reply = listing_reply(&["c1", "c2", "c3"]);
    let comments = listing_data(&reply).unwrap();
    assert_eq!(comments.len(), 3);
    assert_eq!(comments[2].get("id").unwrap().as_str().unwrap(), "c3");
}

#[test]
fn subreddit_test_about() {
    assert_eq!(about_subreddit_url("programming"), "http://www.reddit.com/r/programming/about.json");
    let reply = object(vec![(s("data"), object(vec![(s("title"), Json::Str(s("programming")))]))]);
    assert_eq!(reply.get("data").unwrap().get("title").unwrap().as_str().unwrap(), "programming");
}

#[test]
fn test_front_page() {
    assert_eq!(front_page_url(), "http://www.reddit.com/.json");
    let reply = listing_reply(&["p1", "p2"]);
    let front_posts = listing_data(&reply).unwrap();
    assert_eq!(front_posts.len(), 2);
}

#[test]
fn test_sorted() {
    let url = sorted_posts_url(Some("programming"), PopularitySort::Top, AgeSort::AllTime).unwrap();
    assert_eq!(url, "http://reddit.com/r/programming/top.json?sort=top&t=all");
    let reply = listing_reply(&["a", "b", "c", "d", "e", "f"]);
    let posts = listing_data(&reply).unwrap();
    assert_eq!(posts.len(), 6);
    assert_eq!(posts[0].get("id").unwrap().as_str().unwrap(), "a");
}
