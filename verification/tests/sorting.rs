use reddit::post::{full_permalink, AgeSort, PopularitySort};
use reddit::redditor::{about_redditor_url, comments_sorted_url, comments_url};
use reddit::subreddit::{about_subreddit_url, front_page_url, sorted_posts_url};

#[test]
fn popularity_strings() {
    assert_eq!(PopularitySort::DefaultPop.as_str(), "");
    assert_eq!(PopularitySort::Hot.as_str(), "hot");
    assert_eq!(PopularitySort::New.as_str(), "new");
    assert_eq!(PopularitySort::Rising.as_str(), "rising");
    assert_eq!(PopularitySort::Top.as_str(), "top");
    assert_eq!(PopularitySort::Controversial.as_str(), "controversial");
    assert_eq!(PopularitySort::Controversial.to_str(), "Controversial");
    assert_eq!(PopularitySort::DefaultPop.to_str(), "DefaultPop");
}

#[test]
fn age_strings() {
    assert_eq!(AgeSort::DefaultAge.as_str(), "");
    assert_eq!(AgeSort::Hour.as_str(), "hour");
    assert_eq!(AgeSort::Month.as_str(), "month");
    assert_eq!(AgeSort::Year.as_str(), "year");
    assert_eq!(AgeSort::AllTime.as_str(), "all");
    assert_eq!(AgeSort::AllTime.to_str(), "AllTime");
}

#[test]
fn top_of_all_time_in_a_subreddit() {
    assert_eq!(
        sorted_posts_url(Some("programming"), PopularitySort::Top, AgeSort::AllTime).unwrap(),
        "http://reddit.com/r/programming/top.json?sort=top&t=all"
    );
}

#[test]
fn front_page_orders() {
    assert_eq!(
        sorted_posts_url(None, PopularitySort::DefaultPop, AgeSort::DefaultAge).unwrap(),
        "http://reddit.com/.json"
    );
    assert_eq!(
        sorted_posts_url(None, PopularitySort::DefaultPop, AgeSort::Year).unwrap(),
        "http://reddit.com/.json?t=year"
    );
    assert_eq!(
        sorted_posts_url(None, PopularitySort::New, AgeSort::DefaultAge).unwrap(),
        "http://reddit.com/new.json?sort=new"
    );
    assert_eq!(
        sorted_posts_url(None, PopularitySort::Rising, AgeSort::DefaultAge).unwrap(),
        "http://reddit.com/new.json?sort=rising"
    );
    assert_eq!(
        sorted_posts_url(None, PopularitySort::Hot, AgeSort::DefaultAge).unwrap(),
        "http://reddit.com/hot.json?sort=hot"
    );
    assert_eq!(
        sorted_posts_url(None, PopularitySort::Controversial, AgeSort::Hour).unwrap(),
        "http://reddit.com/controversial.json?sort=controversial&t=hour"
    );
}

#[test]
fn spans_refused_for_new_rising_and_hot() {
    assert_eq!(
        sorted_posts_url(Some("rust"), PopularitySort::New, AgeSort::Hour).unwrap_err(),
        "Cannot sort New by Hour"
    );
    assert_eq!(
        sorted_posts_url(None, PopularitySort::Rising, AgeSort::Month).unwrap_err(),
        "Cannot sort Rising by Month"
    );
    assert_eq!(
        comments_sorted_url("Axelior", PopularitySort::Hot, AgeSort::AllTime).unwrap_err(),
        "Cannot sort Hot by AllTime"
    );
}

#[test]
fn comment_listings() {
    assert_eq!(comments_url("Axelior"), "http://www.reddit.com/user/Axelior/comments/new.json?sort=new");
    assert_eq!(
        comments_sorted_url("Axelior", PopularitySort::DefaultPop, AgeSort::DefaultAge).unwrap(),
        "http://www.reddit.com/user/Axelior/comments/.json"
    );
    assert_eq!(
        comments_sorted_url("Axelior", PopularitySort::Top, AgeSort::Month).unwrap(),
        "http://www.reddit.com/user/Axelior/comments/top.json?sort=top&t=month"
    );
}

#[test]
fn descriptions_and_pages() {
    assert_eq!(about_subreddit_url("programming"), "http://www.reddit.com/r/programming/about.json");
    assert_eq!(about_redditor_url("Axelior"), "http://www.reddit.com/user/Axelior/about.json");
    assert_eq!(front_page_url(), "http://www.reddit.com/.json");
    assert_eq!(full_permalink("/r/rust/comments/x/"), "http://reddit.com/r/rust/comments/x/");
}

#[test]
fn accepted_sorts_give_distinct_addresses() {
    let pops = [
        PopularitySort::DefaultPop,
        PopularitySort::Hot,
        PopularitySort::New,
        PopularitySort::Rising,
        PopularitySort::Top,
        PopularitySort::Controversial,
    ];
    let ages = [AgeSort::DefaultAge, AgeSort::Hour, AgeSort::Month, AgeSort::Year, AgeSort::AllTime];
    let mut urls: Vec<String> = Vec::new();
    let mut refused = 0;
    for p in pops.iter() {
        for a in ages.iter() {
            match sorted_posts_url(None, *p, *a) {
                Ok(u) => urls.push(u),
                Err(_) => refused += 1,
            }
        }
    }
    assert_eq!(refused, 12);
    assert_eq!(urls.len(), 18);
    for i in 0..urls.len() {
        for j in 0..i {
            assert_ne!(urls[i], urls[j]);
        }
    }
}

#[test]
fn query_values_are_distinct() {
    let pops = [
        PopularitySort::DefaultPop,
        PopularitySort::Hot,
        PopularitySort::New,
        PopularitySort::Rising,
        PopularitySort::Top,
        PopularitySort::Controversial,
    ];
    for i in 0..pops.len() {
        for j in 0..i {
            assert_ne!(pops[i].as_str(), pops[j].as_str());
        }
    }
    let ages = [AgeSort::DefaultAge, AgeSort::Hour, AgeSort::Month, AgeSort::Year, AgeSort::AllTime];
    for i in 0..ages.len() {
        for j in 0..i {
            assert_ne!(ages[i].as_str(), ages[j].as_str());
        }
    }
}
