//! The orders and time spans that listings of posts and comments are sorted by.
use vstd::prelude::*;

verus! {

/// The order of a listing.
#[derive(Clone, Copy, Debug, PartialEq, Eq, Structural)]
pub enum PopularitySort {
    DefaultPop,
    Hot,
    New,
    Rising,
    Top,
    Controversial,
}

/// The time span that a listing covers.
#[derive(Clone, Copy, Debug, PartialEq, Eq, Structural)]
pub enum AgeSort {
    DefaultAge,
    Hour,
    Month,
    Year,
    AllTime,
}

/// The value of `sort` in a listing's query.
pub open spec fn pop_str(p: PopularitySort) -> Seq<char> {
    match p {
        PopularitySort::DefaultPop => ""@,
        PopularitySort::Hot => "hot"@,
        PopularitySort::New => "new"@,
        PopularitySort::Rising => "rising"@,
        PopularitySort::Top => "top"@,
        PopularitySort::Controversial => "controversial"@,
    }
}

/// The value of `t` in a listing's query.
pub open spec fn age_str(a: AgeSort) -> Seq<char> {
    match a {
        AgeSort::DefaultAge => ""@,
        AgeSort::Hour => "hour"@,
        AgeSort::Month => "month"@,
        AgeSort::Year => "year"@,
        AgeSort::AllTime => "all"@,
    }
}

/// The name of an order, as messages show it.
pub open spec fn pop_name(p: PopularitySort) -> Seq<char> {
    match p {
        PopularitySort::DefaultPop => "DefaultPop"@,
        PopularitySort::Hot => "Hot"@,
        PopularitySort::New => "New"@,
        PopularitySort::Rising => "Rising"@,
        PopularitySort::Top => "Top"@,
        PopularitySort::Controversial => "Controversial"@,
    }
}

/// The name of a time span, as messages show it.
pub open spec fn age_name(a: AgeSort) -> Seq<char> {
    match a {
        AgeSort::DefaultAge => "DefaultAge"@,
        AgeSort::Hour => "Hour"@,
        AgeSort::Month => "Month"@,
        AgeSort::Year => "Year"@,
        AgeSort::AllTime => "AllTime"@,
    }
}

impl PopularitySort {
    /// The value of `sort` in a listing's query; empty for the default order.
    pub fn as_str(&self) -> (r: String)
        ensures
            r@ == pop_str(*self),
    {
        match *self {
            PopularitySort::DefaultPop => String::from_str(""),
            PopularitySort::Hot => String::from_str("hot"),
            PopularitySort::New => String::from_str("new"),
            PopularitySort::Rising => String::from_str("rising"),
            PopularitySort::Top => String::from_str("top"),
            PopularitySort::Controversial => String::from_str("controversial"),
        }
    }

    /// The name of the order.
    pub fn to_str(&self) -> (r: String)
        ensures
            r@ == pop_name(*self),
    {
        match *self {
            PopularitySort::DefaultPop => String::from_str("DefaultPop"),
            PopularitySort::Hot => String::from_str("Hot"),
            PopularitySort::New => String::from_str("New"),
            PopularitySort::Rising => String::from_str("Rising"),
            PopularitySort::Top => String::from_str("Top"),
            PopularitySort::Controversial => String::from_str("Controversial"),
        }
    }
}

impl AgeSort {
    /// The value of `t` in a listing's query; empty for the default span.
    pub fn as_str(&self) -> (r: String)
        ensures
            r@ == age_str(*self),
    {
        match *self {
            AgeSort::DefaultAge => String::from_str(""),
            AgeSort::Hour => String::from_str("hour"),
            AgeSort::Month => String::from_str("month"),
            AgeSort::Year => String::from_str("year"),
            AgeSort::AllTime => String::from_str("all"),
        }
    }

    /// The name of the time span.
    pub fn to_str(&self) -> (r: String)
        ensures
            r@ == age_name(*self),
    {
        match *self {
            AgeSort::DefaultAge => String::from_str("DefaultAge"),
            AgeSort::Hour => String::from_str("Hour"),
            AgeSort::Month => String::from_str("Month"),
            AgeSort::Year => String::from_str("Year"),
            AgeSort::AllTime => String::from_str("AllTime"),
        }
    }
}

/// A time span can be asked for with the default order, `Top` and
/// `Controversial`; the newest, rising and hot listings have none.
pub open spec fn sort_allowed(pop: PopularitySort, age: AgeSort) -> bool {
    age == AgeSort::DefaultAge || !(pop is New || pop is Rising || pop is Hot)
}

/// The message with which a listing sorted by `pop` over `age` is refused.
pub open spec fn sort_error(pop: PopularitySort, age: AgeSort) -> Seq<char> {
    "Cannot sort "@ + pop_name(pop) + " by "@ + age_name(age)
}

/// What follows a listing's path: the `.json` page for the order, and the
/// query that selects the order and the time span.
pub open spec fn sort_suffix(pop: PopularitySort, age: AgeSort) -> Seq<char> {
    let page = if pop == PopularitySort::DefaultPop {
        ".json"@
    } else if pop is New || pop is Rising {
        "new.json?sort="@ + pop_str(pop)
    } else {
        pop_str(pop) + ".json?sort="@ + pop_str(pop)
    };
    let span = if age == AgeSort::DefaultAge {
        Seq::empty()
    } else if pop != PopularitySort::DefaultPop {
        "&t="@ + age_str(age)
    } else {
        "?t="@ + age_str(age)
    };
    page + span
}

/// Refuses a time span for the orders that have none.
pub fn check_sort(pop: PopularitySort, age: AgeSort) -> (r: Result<(), String>)
    ensures
        r is Ok <==> sort_allowed(pop, age),
        r matches Err(e) ==> e@ == sort_error(pop, age),
{
    if age != AgeSort::DefaultAge {
        match pop {
            PopularitySort::New | PopularitySort::Rising | PopularitySort::Hot => {
                let mut e = String::from_str("Cannot sort ");
                let p = pop.to_str();
                e.append(p.as_str());
                e.append(" by ");
                let a = age.to_str();
                e.append(a.as_str());
                return Err(e);
            },
            _ => {},
        }
    }
    Ok(())
}

/// Appends the `.json` page and the query for a listing sorted by `pop`
/// over `age`.
pub fn push_sort_suffix(url: &mut String, pop: PopularitySort, age: AgeSort)
    ensures
        final(url)@ == old(url)@ + sort_suffix(pop, age),
{
    let ghost start = url@;
    let p = pop.as_str();
    if pop != PopularitySort::DefaultPop {
        if pop == PopularitySort::New || pop == PopularitySort::Rising {
            url.append("new.json?sort=");
            url.append(p.as_str());
        } else {
            url.append(p.as_str());
            url.append(".json?sort=");
            url.append(p.as_str());
        }
    } else {
        url.append(".json");
    }
    if age != AgeSort::DefaultAge {
        let a = age.as_str();
        if pop != PopularitySort::DefaultPop {
            url.append("&t=");
        } else {
            url.append("?t=");
        }
        url.append(a.as_str());
    }
    assert(url@ =~= start + sort_suffix(pop, age));
}

/// The address of a post's comment page, from its permalink.
pub fn full_permalink(permalink: &str) -> (r: String)
    ensures
        r@ == "http://reddit.com"@ + permalink@,
{
    let mut r = String::from_str("http://reddit.com");
    r.append(permalink);
    r
}

/// Different orders are asked for with different values of `sort`.
pub proof fn lemma_pop_str_distinct(a: PopularitySort, b: PopularitySort)
    requires
        a != b,
    ensures
        pop_str(a) != pop_str(b),
{
    reveal_strlit("");
    reveal_strlit("hot");
    reveal_strlit("new");
    reveal_strlit("rising");
    reveal_strlit("top");
    reveal_strlit("controversial");
    let sa = pop_str(a);
    let sb = pop_str(b);
    if sa.len() == sb.len() && sa.len() > 0 {
        assert(sa[0] != sb[0] || sa[1] != sb[1]);
    }
}

/// Different time spans are asked for with different values of `t`.
pub proof fn lemma_age_str_distinct(a: AgeSort, b: AgeSort)
    requires
        a != b,
    ensures
        age_str(a) != age_str(b),
{
    reveal_strlit("");
    reveal_strlit("hour");
    reveal_strlit("month");
    reveal_strlit("year");
    reveal_strlit("all");
    let sa = age_str(a);
    let sb = age_str(b);
    if sa.len() == sb.len() && sa.len() > 0 {
        assert(sa[0] != sb[0]);
    }
}

/// Without a time span every order is accepted, and every time span is
/// accepted with the default order, `Top` and `Controversial`.
pub proof fn lemma_sort_allowed(pop: PopularitySort, age: AgeSort)
    ensures
        age == AgeSort::DefaultAge ==> sort_allowed(pop, age),
        (pop == PopularitySort::DefaultPop || pop == PopularitySort::Top
            || pop == PopularitySort::Controversial) ==> sort_allowed(pop, age),
        (age != AgeSort::DefaultAge && (pop == PopularitySort::New || pop == PopularitySort::Rising
            || pop == PopularitySort::Hot)) ==> !sort_allowed(pop, age),
{
}

/// Different accepted choices of order and time span ask for different
/// listings: their pages and queries differ.
pub proof fn lemma_sort_suffix_distinct(p1: PopularitySort, a1: AgeSort, p2: PopularitySort, a2: AgeSort)
    requires
        sort_allowed(p1, a1),
        sort_allowed(p2, a2),
        p1 != p2 || a1 != a2,
    ensures
        sort_suffix(p1, a1) != sort_suffix(p2, a2),
{
    reveal_strlit("");
    reveal_strlit("hot");
    reveal_strlit("new");
    reveal_strlit("rising");
    reveal_strlit("top");
    reveal_strlit("controversial");
    reveal_strlit("hour");
    reveal_strlit("month");
    reveal_strlit("year");
    reveal_strlit("all");
    reveal_strlit(".json");
    reveal_strlit("new.json?sort=");
    reveal_strlit(".json?sort=");
    reveal_strlit("&t=");
    reveal_strlit("?t=");
    let s1 = sort_suffix(p1, a1);
    let s2 = sort_suffix(p2, a2);
    if s1 == s2 {
        assert(s1.len() == s2.len());
        if s1.len() > 40 {
            assert(s1[40] == s2[40]);
        }
        if s1.len() > 20 {
            assert(s1[20] == s2[20]);
        }
        if s1.len() > 8 {
            assert(s1[8] == s2[8]);
        }
        assert(s1[0] == s2[0]);
        assert(false);
    }
}

/// `s` ends with `t`.
pub open spec fn ends_with(s: Seq<char>, t: Seq<char>) -> bool {
    t.len() <= s.len() && s.subrange(s.len() - t.len(), s.len() as int) == t
}

/// The query of a listing's address asks for what was asked for: where a
/// time span is given, the address ends with `&t=` (`?t=` after the
/// default order's bare page) and exactly the span's value; where an order
/// other than the default is given, its value follows `?sort=`, right
/// before the time span or at the very end. The default order over no span
/// is the bare page.
pub proof fn lemma_sort_query(pop: PopularitySort, age: AgeSort)
    requires
        sort_allowed(pop, age),
    ensures
        age != AgeSort::DefaultAge ==> ends_with(
            sort_suffix(pop, age),
            (if pop == PopularitySort::DefaultPop { "?t="@ } else { "&t="@ }) + age_str(age),
        ),
        pop != PopularitySort::DefaultPop ==> ends_with(
            sort_suffix(pop, age),
            "?sort="@ + pop_str(pop) + (if age == AgeSort::DefaultAge { Seq::empty() } else { "&t="@ + age_str(age) }),
        ),
        pop == PopularitySort::DefaultPop ==> sort_suffix(pop, age) == ".json"@ + (if age
            == AgeSort::DefaultAge { Seq::empty() } else { "?t="@ + age_str(age) }),
{
    reveal_strlit("new.json?sort=");
    reveal_strlit(".json?sort=");
    reveal_strlit("?sort=");
    reveal_strlit("new");
    let s = sort_suffix(pop, age);
    let span = if age == AgeSort::DefaultAge {
        Seq::empty()
    } else if pop != PopularitySort::DefaultPop {
        "&t="@ + age_str(age)
    } else {
        "?t="@ + age_str(age)
    };
    if age != AgeSort::DefaultAge {
        assert(s.subrange(s.len() - span.len(), s.len() as int) =~= span);
    }
    if pop != PopularitySort::DefaultPop {
        let t = "?sort="@ + pop_str(pop) + span;
        if pop is New || pop is Rising {
            assert(s =~= "new.json"@ + t) by {
                reveal_strlit("new.json");
            }
        } else {
            assert(s =~= pop_str(pop) + ".json"@ + t) by {
                reveal_strlit(".json");
            }
        }
        assert(s.subrange(s.len() - t.len(), s.len() as int) =~= t);
    }
}

/// A refused sort is refused with a message that names its order and its
/// time span: `Cannot sort `, the order's name, ` by `, the span's name.
pub proof fn lemma_sort_error_names(pop: PopularitySort, age: AgeSort)
    ensures
        ({
            let e = sort_error(pop, age);
            let n = pop_name(pop).len() as int;
            &&& e.len() == 16 + n + age_name(age).len()
            &&& e.subrange(0, 12) == "Cannot sort "@
            &&& e.subrange(12, 12 + n) == pop_name(pop)
            &&& e.subrange(12 + n, 16 + n) == " by "@
            &&& e.subrange(16 + n, e.len() as int) == age_name(age)
        }),
{
    reveal_strlit("Cannot sort ");
    reveal_strlit(" by ");
    let e = sort_error(pop, age);
    let n = pop_name(pop).len() as int;
    assert(e.subrange(0, 12) =~= "Cannot sort "@);
    assert(e.subrange(12, 12 + n) =~= pop_name(pop));
    assert(e.subrange(12 + n, 16 + n) =~= " by "@);
    assert(e.subrange(16 + n, e.len() as int) =~= age_name(age));
}

} // verus!
