//! What the site's objects have in common.
use vstd::prelude::*;

use crate::json::Json;

verus! {

/// An object of the site, known by its kind (such as `t3` for a link) and
/// its id.
pub trait Thing {
    /// The id of the object.
    spec fn spec_id(&self) -> Seq<char>;

    /// The kind of the object.
    spec fn spec_kind(&self) -> Seq<char>;

    fn id(&self) -> (r: &str)
        ensures
            r@ == self.spec_id(),
    ;

    fn kind(&self) -> (r: &str)
        ensures
            r@ == self.spec_kind(),
    ;

    /// The full name of the object: its kind and its id, joined by `_`.
    fn name(&self) -> (r: String)
        ensures
            r@ == self.spec_kind() + "_"@ + self.spec_id(),
    {
        let mut r = String::from_str(self.kind());
        r.append("_");
        r.append(self.id());
        r
    }
}

/// A page of a listing: its objects and the names of the objects before and
/// after it, by which the neighbouring pages are asked for.
pub struct Listing {
    pub before: String,
    pub after: String,
    pub modhash: String,
    pub data: Vec<Box<dyn Thing>>,
}

/// The children of a listing reply, under `data.children`, where there is
/// such a list.
pub open spec fn spec_children(reply: Json) -> Option<Seq<Json>> {
    match reply.spec_get("data"@) {
        Some(d) => match d.spec_get("children"@) {
            Some(Json::List(cs)) => Some(cs@),
            _ => None,
        },
        None => None,
    }
}

/// A listing reply can be read: it has a list of children, and each child
/// has its data.
pub open spec fn listing_ok(reply: Json) -> bool {
    &&& spec_children(reply) is Some
    &&& forall|i: int|
        0 <= i < spec_children(reply).unwrap().len() ==> (#[trigger] spec_children(reply).unwrap()[i]).spec_get("data"@) is Some
}

/// The data of each child of a listing reply, in order; `None` where the
/// reply has no list of children or a child has no data.
pub fn listing_data(reply: &Json) -> (r: Option<Vec<&Json>>)
    ensures
        r is Some <==> listing_ok(*reply),
        r matches Some(v) ==> {
            &&& v@.len() == spec_children(*reply).unwrap().len()
            &&& forall|i: int|
                0 <= i < v@.len() ==> spec_children(*reply).unwrap()[i].spec_get("data"@) == Some(*#[trigger] v@[i])
        },
{
    let data = match reply.get("data") {
        Some(d) => d,
        None => return None,
    };
    let children = match data.get("children") {
        Some(c) => match c.as_list() {
            Some(l) => l,
            None => return None,
        },
        None => return None,
    };
    let ghost cs = children@;
    let n = children.len();
    let mut out: Vec<&Json> = Vec::new();
    let mut i: usize = 0;
    while i < n
        invariant
            n == cs.len(),
            cs == children@,
            spec_children(*reply) == Some(cs),
            i <= n,
            out@.len() == i,
            forall|k: int| 0 <= k < i ==> cs[k].spec_get("data"@) == Some(*#[trigger] out@[k]),
        decreases n - i,
    {
        match children[i].get("data") {
            Some(d) => out.push(d),
            None => {
                assert(!listing_ok(*reply));
                return None;
            },
        }
        i = i + 1;
    }
    assert forall|k: int| 0 <= k < cs.len() implies (#[trigger] spec_children(*reply).unwrap()[k]).spec_get("data"@) is Some by {
        assert(cs[k].spec_get("data"@) == Some(*out@[k]));
    }
    Some(out)
}

/// An object that users vote on.
pub trait Votes {
    /// The number of up votes.
    spec fn spec_ups(&self) -> i32;

    /// The number of down votes.
    spec fn spec_downs(&self) -> i32;

    fn ups(&self) -> (r: i32)
        ensures
            r == self.spec_ups(),
    ;

    fn downs(&self) -> (r: i32)
        ensures
            r == self.spec_downs(),
    ;

    /// The score: the up votes less the down votes.
    fn net(&self) -> (r: i32)
        requires
            i32::MIN <= self.spec_ups() - self.spec_downs() <= i32::MAX,
        ensures
            r == self.spec_ups() - self.spec_downs(),
    {
        self.ups() - self.downs()
    }

    /// The user's own vote: up (`Some(true)`), down (`Some(false)`), or
    /// none.
    spec fn spec_likes(&self) -> Option<bool>;

    fn likes(&self) -> (r: Option<bool>)
        ensures
            r == self.spec_likes(),
    ;
}

} // verus!
