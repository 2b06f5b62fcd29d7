//! JSON values as the API sends them, with lookups and the compact encoding.
use vstd::prelude::*;

use crate::text::push_char;

verus! {

/// A JSON value. A number keeps the text it was written with, so that no
/// precision is lost and no floating point is involved.
#[derive(Debug)]
pub enum Json {
    Null,
    Boolean(bool),
    Number(String),
    Str(String),
    List(Vec<Json>),
    Object(JsonObject),
}

/// The members of a JSON object: a map from keys to values, held as its
/// entries in ascending order of their keys, each key once.
#[derive(Debug)]
pub struct JsonObject {
    entries: Vec<(String, Json)>,
}

/// `a` comes before `b` in the order of their characters' code points,
/// a prefix before every longer text.
pub open spec fn key_lt(a: Seq<char>, b: Seq<char>) -> bool
    decreases a.len(),
{
    if a.len() == 0 {
        b.len() > 0
    } else if b.len() == 0 {
        false
    } else if a[0] != b[0] {
        a[0] < b[0]
    } else {
        key_lt(a.drop_first(), b.drop_first())
    }
}

/// The keys of `entries` ascend strictly, so that each occurs once.
pub open spec fn ascending(entries: Seq<(String, Json)>) -> bool {
    forall|i: int, j: int|
        0 <= i < j < entries.len() ==> key_lt(#[trigger] entries[i].0@, #[trigger] entries[j].0@)
}

/// The order of keys is transitive.
pub proof fn lemma_key_lt_transitive(a: Seq<char>, b: Seq<char>, c: Seq<char>)
    requires
        key_lt(a, b),
        key_lt(b, c),
    ensures
        key_lt(a, c),
    decreases a.len(),
{
    if a.len() > 0 && b.len() > 0 && c.len() > 0 && a[0] == b[0] && b[0] == c[0] {
        lemma_key_lt_transitive(a.drop_first(), b.drop_first(), c.drop_first());
    }
}

/// No key comes before itself.
pub proof fn lemma_key_lt_irreflexive(a: Seq<char>)
    ensures
        !key_lt(a, a),
    decreases a.len(),
{
    if a.len() > 0 {
        lemma_key_lt_irreflexive(a.drop_first());
    }
}

/// Where the first `i` characters of `a` and `b` agree, the order of `a`
/// and `b` is that of what follows.
proof fn lemma_key_lt_skip(a: Seq<char>, b: Seq<char>, i: int)
    requires
        0 <= i <= a.len(),
        i <= b.len(),
        a.take(i) == b.take(i),
    ensures
        key_lt(a, b) == key_lt(a.skip(i), b.skip(i)),
        key_lt(b, a) == key_lt(b.skip(i), a.skip(i)),
    decreases i,
{
    if i > 0 {
        assert(a[0] == a.take(i)[0]);
        assert(b[0] == b.take(i)[0]);
        assert(a.drop_first().take(i - 1) =~= a.take(i).drop_first());
        assert(b.drop_first().take(i - 1) =~= b.take(i).drop_first());
        lemma_key_lt_skip(a.drop_first(), b.drop_first(), i - 1);
        assert(a.drop_first().skip(i - 1) =~= a.skip(i));
        assert(b.drop_first().skip(i - 1) =~= b.skip(i));
    } else {
        assert(a.skip(0) =~= a);
        assert(b.skip(0) =~= b);
    }
}

/// Whether `a` comes before `b`.
pub fn key_less(a: &str, b: &str) -> (r: bool)
    ensures
        r == key_lt(a@, b@),
{
    let n = a.unicode_len();
    let m = b.unicode_len();
    let mut i: usize = 0;
    while i < n && i < m && a.get_char(i) == b.get_char(i)
        invariant
            n == a@.len(),
            m == b@.len(),
            i <= n,
            i <= m,
            a@.take(i as int) == b@.take(i as int),
        decreases n - i,
    {
        assert(a@.take(i + 1) =~= a@.take(i as int).push(a@[i as int]));
        assert(b@.take(i + 1) =~= b@.take(i as int).push(b@[i as int]));
        i = i + 1;
    }
    proof {
        lemma_key_lt_skip(a@, b@, i as int);
    }
    if i == n {
        i < m
    } else if i == m {
        false
    } else {
        proof {
            assert(a@.skip(i as int)[0] == a@[i as int]);
            assert(b@.skip(i as int)[0] == b@[i as int]);
        }
        a.get_char(i) < b.get_char(i)
    }
}

impl View for JsonObject {
    type V = Seq<(String, Json)>;

    /// The entries, in ascending order of their keys.
    closed spec fn view(&self) -> Seq<(String, Json)> {
        self.entries@
    }
}

impl JsonObject {
    #[verifier::type_invariant]
    spec fn keys_ascend(self) -> bool {
        ascending(self.entries@)
    }

    /// The object with no members.
    pub fn new() -> (r: JsonObject)
        ensures
            r@ == Seq::<(String, Json)>::empty(),
    {
        JsonObject { entries: Vec::new() }
    }

    /// The object with the members `entries`, where their keys ascend
    /// strictly; `None` otherwise.
    pub fn from_entries(entries: Vec<(String, Json)>) -> (r: Option<JsonObject>)
        ensures
            r is Some <==> ascending(entries@),
            r matches Some(o) ==> o@ == entries@,
    {
        let n = entries.len();
        let mut i: usize = 1;
        while i < n
            invariant
                n == entries@.len(),
                1 <= i,
                i <= n || n == 0,
                forall|k: int, l: int| 0 <= k < l < i && l < n ==> key_lt(#[trigger] entries@[k].0@, #[trigger] entries@[l].0@),
            decreases n - i,
        {
            if !key_less(entries[i - 1].0.as_str(), entries[i].0.as_str()) {
                assert(!ascending(entries@)) by {
                    assert(!key_lt(entries@[i - 1].0@, entries@[i as int].0@));
                }
                return None;
            }
            assert forall|k: int, l: int| 0 <= k < l < i + 1 && l < n implies key_lt(#[trigger] entries@[k].0@, #[trigger] entries@[l].0@) by {
                if l == i && k < i - 1 {
                    lemma_key_lt_transitive(entries@[k].0@, entries@[i - 1].0@, entries@[i as int].0@);
                }
            }
            i = i + 1;
        }
        Some(JsonObject { entries })
    }

    /// The entries, in ascending order of their keys.
    pub fn entries(&self) -> (r: &Vec<(String, Json)>)
        ensures
            r@ == self@,
            ascending(self@),
    {
        proof {
            use_type_invariant(self);
        }
        &self.entries
    }
}

/// The value of the first entry whose key is `key`.
pub open spec fn lookup(entries: Seq<(String, Json)>, key: Seq<char>) -> Option<Json>
    decreases entries.len(),
{
    if entries.len() == 0 {
        None
    } else if entries[0].0@ == key {
        Some(entries[0].1)
    } else {
        lookup(entries.drop_first(), key)
    }
}

/// How a character stands inside a quoted string.
pub open spec fn escape_char(c: char) -> Seq<char> {
    if c == '"' {
        seq!['\\', '"']
    } else if c == '\\' {
        seq!['\\', '\\']
    } else if c == '\x08' {
        seq!['\\', 'b']
    } else if c == '\x0c' {
        seq!['\\', 'f']
    } else if c == '\n' {
        seq!['\\', 'n']
    } else if c == '\r' {
        seq!['\\', 'r']
    } else if c == '\t' {
        seq!['\\', 't']
    } else {
        seq![c]
    }
}

/// The characters of `s`, each escaped.
pub open spec fn escape(s: Seq<char>) -> Seq<char>
    decreases s.len(),
{
    if s.len() == 0 {
        Seq::empty()
    } else {
        escape(s.drop_last()) + escape_char(s.last())
    }
}

/// A string as JSON writes it: quoted, with its special characters escaped.
pub open spec fn quote(s: Seq<char>) -> Seq<char> {
    seq!['"'] + escape(s) + seq!['"']
}

/// The compact encoding of a value.
pub open spec fn encode(j: Json) -> Seq<char>
    decreases j,
{
    match j {
        Json::Null => "null"@,
        Json::Boolean(b) => if b { "true"@ } else { "false"@ },
        Json::Number(t) => t@,
        Json::Str(s) => quote(s@),
        Json::List(items) => seq!['['] + join(items@, seq![',']) + seq![']'],
        Json::Object(o) => seq!['{'] + join_entries(o@) + seq!['}'],
    }
}

/// The encodings of `items`, with `sep` between each two.
pub open spec fn join(items: Seq<Json>, sep: Seq<char>) -> Seq<char>
    decreases items,
{
    if items.len() == 0 {
        Seq::empty()
    } else if items.len() == 1 {
        encode(items[0])
    } else {
        join(items.drop_last(), sep) + sep + encode(items.last())
    }
}

/// One entry of an object: its quoted key, a colon and its value.
pub open spec fn encode_entry(e: (String, Json)) -> Seq<char>
    decreases e,
{
    quote(e.0@) + seq![':'] + encode(e.1)
}

/// The entries of an object, separated by commas.
pub open spec fn join_entries(entries: Seq<(String, Json)>) -> Seq<char>
    decreases entries,
{
    if entries.len() == 0 {
        Seq::empty()
    } else if entries.len() == 1 {
        encode_entry(entries[0])
    } else {
        join_entries(entries.drop_last()) + seq![','] + encode_entry(entries.last())
    }
}

impl Json {
    /// The member `key` of an object; `None` for a value that is not an
    /// object or has no such member.
    pub open spec fn spec_get(self, key: Seq<char>) -> Option<Json> {
        match self {
            Json::Object(o) => lookup(o@, key),
            _ => None,
        }
    }

    /// The member `key` of an object, or `None` where the value is not an
    /// object or has no member of that name.
    pub fn get(&self, key: &str) -> (r: Option<&Json>)
        ensures
            match r {
                Some(v) => self.spec_get(key@) == Some(*v),
                None => self.spec_get(key@) is None,
            },
    {
        match self {
            Json::Object(o) => {
                let entries = &o.entries;
                let wanted = String::from_str(key);
                let n = entries.len();
                let mut i: usize = 0;
                assert(entries@.skip(0) =~= entries@);
                while i < n
                    invariant
                        n == entries@.len(),
                        i <= n,
                        wanted@ == key@,
                        self.spec_get(key@) == lookup(entries@, key@),
                        lookup(entries@, key@) == lookup(entries@.skip(i as int), key@),
                    decreases n - i,
                {
                    assert(entries@.skip(i as int).drop_first() =~= entries@.skip(i + 1));
                    if entries[i].0 == wanted {
                        assert(entries@.skip(i as int)[0] == entries@[i as int]);
                        return Some(&entries[i].1);
                    }
                    i = i + 1;
                }
                None
            },
            _ => None,
        }
    }

    /// The elements of a list, or `None` for any other value.
    pub fn as_list(&self) -> (r: Option<&Vec<Json>>)
        ensures
            match r {
                Some(v) => *self == Json::List(*v),
                None => !(self is List),
            },
    {
        match self {
            Json::List(items) => Some(items),
            _ => None,
        }
    }

    /// The text of a string, or `None` for any other value.
    pub fn as_str(&self) -> (r: Option<&String>)
        ensures
            match r {
                Some(s) => *self == Json::Str(*s),
                None => !(self is Str),
            },
    {
        match self {
            Json::Str(s) => Some(s),
            _ => None,
        }
    }

    /// The compact encoding of the value.
    pub fn to_str(&self) -> (r: String)
        ensures
            r@ == encode(*self),
    {
        let mut out = String::new();
        write_json(self, &mut out);
        out
    }
}

/// Appends `s` quoted and escaped.
pub fn write_quoted(s: &str, out: &mut String)
    ensures
        final(out)@ == old(out)@ + quote(s@),
{
    let ghost start = out@;
    push_char(out, '"');
    let n = s.unicode_len();
    let mut i: usize = 0;
    while i < n
        invariant
            n == s@.len(),
            i <= n,
            out@ == start + seq!['"'] + escape(s@.take(i as int)),
        decreases n - i,
    {
        let c = s.get_char(i);
        assert(s@.take(i + 1).drop_last() =~= s@.take(i as int));
        if c == '"' {
            out.append("\\\"");
        } else if c == '\\' {
            out.append("\\\\");
        } else if c == '\x08' {
            out.append("\\b");
        } else if c == '\x0c' {
            out.append("\\f");
        } else if c == '\n' {
            out.append("\\n");
        } else if c == '\r' {
            out.append("\\r");
        } else if c == '\t' {
            out.append("\\t");
        } else {
            push_char(out, c);
        }
        proof {
            reveal_strlit("\\\"");
            reveal_strlit("\\\\");
            reveal_strlit("\\b");
            reveal_strlit("\\f");
            reveal_strlit("\\n");
            reveal_strlit("\\r");
            reveal_strlit("\\t");
            assert(out@ =~= start + seq!['"'] + escape(s@.take(i + 1)));
        }
        i = i + 1;
    }
    assert(s@.take(n as int) =~= s@);
    push_char(out, '"');
    assert(out@ =~= start + quote(s@));
}

/// Appends the encodings of `items`, with `sep` between each two.
pub fn write_joined(items: &Vec<Json>, sep: &str, out: &mut String)
    ensures
        final(out)@ == old(out)@ + join(items@, sep@),
    decreases items, 1nat,
{
    let ghost start = out@;
    let n = items.len();
    let mut i: usize = 0;
    while i < n
        invariant
            n == items@.len(),
            i <= n,
            out@ == start + join(items@.take(i as int), sep@),
        decreases n - i,
    {
        assert(items@.take(i + 1).drop_last() =~= items@.take(i as int));
        if i > 0 {
            out.append(sep);
        }
        proof {
            assert(decreases_to!(items => items[i as int]));
        }
        write_json(&items[i], out);
        assert(out@ =~= start + join(items@.take(i + 1), sep@));
        i = i + 1;
    }
    assert(items@.take(n as int) =~= items@);
}

/// Appends the compact encoding of `j`.
pub fn write_json(j: &Json, out: &mut String)
    ensures
        final(out)@ == old(out)@ + encode(*j),
    decreases j, 2nat,
{
    let ghost start = out@;
    match j {
        Json::Null => out.append("null"),
        Json::Boolean(b) => {
            if *b {
                out.append("true")
            } else {
                out.append("false")
            }
        },
        Json::Number(t) => out.append(t.as_str()),
        Json::Str(s) => write_quoted(s.as_str(), out),
        Json::List(items) => {
            push_char(out, '[');
            write_joined(items, ",", out);
            push_char(out, ']');
            proof {
                reveal_strlit(",");
                assert(","@ =~= seq![',']);
            }
            assert(out@ =~= start + encode(*j));
        },
        Json::Object(o) => {
            let entries = &o.entries;
            push_char(out, '{');
            let n = entries.len();
            let mut i: usize = 0;
            while i < n
                invariant
                    n == entries@.len(),
                    i <= n,
                    out@ == start + seq!['{'] + join_entries(entries@.take(i as int)),
                    *j == Json::Object(*o),
                    *entries == o.entries,
                decreases n - i,
            {
                assert(entries@.take(i + 1).drop_last() =~= entries@.take(i as int));
                if i > 0 {
                    push_char(out, ',');
                }
                write_quoted(entries[i].0.as_str(), out);
                push_char(out, ':');
                proof {
                    let ghost e = entries@[i as int];
                    assert(decreases_to!(*j => (*j)->Object_0));
                    assert((*j)->Object_0 == *o);
                    assert(decreases_to!(*o => o.entries));
                    assert(decreases_to!(o.entries => entries@));
                    assert(decreases_to!(entries@ => e));
                    assert(decreases_to!(e => e.1));
                    assert(decreases_to!(*j => e.1));
                }
                write_json(&entries[i].1, out);
                assert(entries@.take(i + 1).last() == entries@[i as int]);
                assert(encode_entry(entries@[i as int]) == quote(entries@[i as int].0@) + seq![':'] + encode(entries@[i as int].1));
                assert(out@ =~= start + seq!['{'] + join_entries(entries@.take(i + 1)));
                i = i + 1;
            }
            assert(entries@.take(n as int) =~= entries@);
            push_char(out, '}');
            assert(out@ =~= start + encode(*j));
        },
    }
}

/// The JSON value that `text` is, or `None` where `text` is no JSON:
/// the result of parsing with serde_json.
pub uninterp spec fn spec_parse_json(text: Seq<char>) -> Option<Json>;

#[verifier::external_type_specification]
#[verifier::external_body]
pub struct ExValue(serde_json::Value);

/// Converts serde_json's value into the library's, variant by variant; a
/// number keeps the text that serde_json writes for it. serde_json's map
/// (built without its `preserve_order` feature) is a `BTreeMap`, which hands
/// out its entries in ascending order of their keys, each key once, so the
/// entries of each object ascend as `JsonObject` holds them.
#[verifier::external_body]
fn json_of_value(v: serde_json::Value) -> Json {
    match v {
        serde_json::Value::Null => Json::Null,
        serde_json::Value::Bool(b) => Json::Boolean(b),
        serde_json::Value::Number(n) => Json::Number(n.to_string()),
        serde_json::Value::String(t) => Json::Str(t),
        serde_json::Value::Array(items) => Json::List(items.into_iter().map(json_of_value).collect()),
        serde_json::Value::Object(m) => Json::Object(JsonObject { entries: m.into_iter().map(|(k, x)| (k, json_of_value(x))).collect() }),
    }
}

/// Parses the text of a reply with `serde_json::from_str` into serde_json's
/// value, and converts that into the library's. The contract claims only
/// that the result is a function of the text: the value it names on
/// success, and on failure that the text names none; the error's message is
/// serde_json's and is not stated.
#[verifier::external_body]
pub fn parse_json(text: &str) -> (r: Result<Json, String>)
    ensures
        match r {
            Ok(j) => spec_parse_json(text@) == Some(j),
            Err(_) => spec_parse_json(text@) is None,
        },
{
    match serde_json::from_str::<serde_json::Value>(text) {
        Ok(v) => Ok(json_of_value(v)),
        Err(e) => Err(e.to_string()),
    }
}

/// The letters that may follow a backslash in a JSON string.
pub open spec fn is_escape_letter(c: char) -> bool {
    c == '"' || c == '\\' || c == '/' || c == 'b' || c == 'f' || c == 'n' || c == 'r' || c == 't'
}

/// The character that a backslash and the letter `c` stand for in a JSON
/// string.
pub open spec fn escaped(c: char) -> char {
    if c == 'b' {
        '\x08'
    } else if c == 'f' {
        '\x0c'
    } else if c == 'n' {
        '\n'
    } else if c == 'r' {
        '\r'
    } else if c == 't' {
        '\t'
    } else {
        c
    }
}

/// The characters that the inside of a JSON string stands for: a backslash
/// with an escape letter stands for one character, every other character
/// for itself.
pub open spec fn unescape(t: Seq<char>) -> Seq<char>
    decreases t.len(),
{
    if t.len() == 0 {
        Seq::empty()
    } else if t[0] == '\\' && t.len() >= 2 && is_escape_letter(t[1]) {
        seq![escaped(t[1])] + unescape(t.skip(2))
    } else {
        seq![t[0]] + unescape(t.skip(1))
    }
}

/// Escaping distributes over concatenation.
pub proof fn lemma_escape_append(a: Seq<char>, b: Seq<char>)
    ensures
        escape(a + b) == escape(a) + escape(b),
    decreases b.len(),
{
    if b.len() == 0 {
        assert(a + b =~= a);
        assert(escape(a) + escape(b) =~= escape(a));
    } else {
        assert((a + b).drop_last() =~= a + b.drop_last());
        assert((a + b).last() == b.last());
        lemma_escape_append(a, b.drop_last());
        assert(escape(a + b) =~= escape(a) + escape(b));
    }
}

/// What one character is written as reads back as that character.
proof fn lemma_unescape_char(c: char, rest: Seq<char>)
    ensures
        unescape(escape_char(c) + rest) == seq![c] + unescape(rest),
{
    let t = escape_char(c) + rest;
    if escape_char(c).len() == 2 {
        assert(t.skip(2) =~= rest);
    } else {
        assert(t.skip(1) =~= rest);
    }
}

/// A string written inside quotes reads back as itself: every character is
/// either written as itself or as a JSON escape that stands for it.
pub proof fn lemma_escape_round_trip(s: Seq<char>)
    ensures
        unescape(escape(s)) == s,
    decreases s.len(),
{
    if s.len() > 0 {
        let head = seq![s[0]];
        let tail = s.drop_first();
        assert(s =~= head + tail);
        lemma_escape_append(head, tail);
        assert(head.drop_last() =~= Seq::<char>::empty());
        assert(escape(head.drop_last()) =~= Seq::<char>::empty());
        assert(head.last() == s[0]);
        assert(escape(head) =~= escape_char(s[0]));
        lemma_unescape_char(s[0], escape(tail));
        lemma_escape_round_trip(tail);
        assert(seq![s[0]] + tail =~= s);
    } else {
        assert(escape(s) =~= Seq::<char>::empty());
    }
}

/// Every character but the quote, the backslash and the control characters
/// is written as itself; a string of such characters is written unchanged.
pub proof fn lemma_escape_plain(s: Seq<char>)
    requires
        forall|i: int| 0 <= i < s.len() ==> #[trigger] s[i] != '"' && s[i] != '\\' && !(s[i] < ' '),
    ensures
        escape(s) == s,
    decreases s.len(),
{
    if s.len() > 0 {
        let c = s.last();
        assert(c == s[s.len() - 1]);
        assert(escape_char(c) == seq![c]);
        lemma_escape_plain(s.drop_last());
        assert(escape(s) =~= s);
    }
}

/// A string value is written between double quotes, and what stands
/// between them reads back as the string.
pub proof fn lemma_encode_str(s: String)
    ensures
        ({
            let e = encode(Json::Str(s));
            &&& e.len() >= 2
            &&& e[0] == '"'
            &&& e.last() == '"'
            &&& unescape(e.subrange(1, e.len() - 1)) == s@
        }),
{
    let e = encode(Json::Str(s));
    assert(e.subrange(1, e.len() - 1) =~= escape(s@));
    lemma_escape_round_trip(s@);
}

/// Among entries whose keys ascend, looking up an entry's key finds that
/// entry's value.
pub proof fn lemma_lookup_finds(entries: Seq<(String, Json)>, i: int)
    requires
        ascending(entries),
        0 <= i < entries.len(),
    ensures
        lookup(entries, entries[i].0@) == Some(entries[i].1),
    decreases i,
{
    if i > 0 {
        assert(key_lt(entries[0].0@, entries[i].0@));
        lemma_key_lt_irreflexive(entries[i].0@);
        let rest = entries.drop_first();
        assert forall|a: int, b: int| 0 <= a < b < rest.len() implies key_lt(#[trigger] rest[a].0@, #[trigger] rest[b].0@) by {
            assert(rest[a] == entries[a + 1]);
            assert(rest[b] == entries[b + 1]);
        }
        assert(rest[i - 1] == entries[i]);
        lemma_lookup_finds(rest, i - 1);
    }
}

/// A lookup finds nothing exactly when no entry has the key.
pub proof fn lemma_lookup_none(entries: Seq<(String, Json)>, key: Seq<char>)
    ensures
        lookup(entries, key) is None <==> forall|i: int| 0 <= i < entries.len() ==> #[trigger] entries[i].0@ != key,
    decreases entries.len(),
{
    if entries.len() > 0 {
        let rest = entries.drop_first();
        lemma_lookup_none(rest, key);
        if entries[0].0@ != key {
            assert forall|i: int| 0 <= i < entries.len() && (forall|j: int| 0 <= j < rest.len() ==> #[trigger] rest[j].0@ != key) implies #[trigger] entries[i].0@ != key by {
                if i > 0 {
                    assert(rest[i - 1] == entries[i]);
                }
            }
            assert((forall|i: int| 0 <= i < entries.len() ==> #[trigger] entries[i].0@ != key) ==> (forall|j: int| 0 <= j < rest.len() ==> #[trigger] rest[j].0@ != key)) by {
                assert forall|j: int| 0 <= j < rest.len() && (forall|i: int| 0 <= i < entries.len() ==> #[trigger] entries[i].0@ != key) implies #[trigger] rest[j].0@ != key by {
                    assert(rest[j] == entries[j + 1]);
                }
            }
        }
    }
}

/// Each member of an object is found under its key, and a key that no
/// member has finds nothing.
pub proof fn lemma_get_members(o: JsonObject, key: Seq<char>)
    requires
        ascending(o@),
    ensures
        forall|i: int| 0 <= i < o@.len() ==> Json::Object(o).spec_get(#[trigger] o@[i].0@) == Some(o@[i].1),
        Json::Object(o).spec_get(key) is None <==> forall|i: int| 0 <= i < o@.len() ==> #[trigger] o@[i].0@ != key,
{
    assert forall|i: int| 0 <= i < o@.len() implies Json::Object(o).spec_get(#[trigger] o@[i].0@) == Some(o@[i].1) by {
        lemma_lookup_finds(o@, i);
    }
    lemma_lookup_none(o@, key);
}

/// Joining two non-empty runs of values is joining each and putting the
/// separator between them: no value is dropped, doubled or moved.
pub proof fn lemma_join_append(a: Seq<Json>, b: Seq<Json>, sep: Seq<char>)
    requires
        a.len() > 0,
        b.len() > 0,
    ensures
        join(a + b, sep) == join(a, sep) + sep + join(b, sep),
    decreases b.len(),
{
    if b.len() == 1 {
        assert((a + b).drop_last() =~= a);
        assert((a + b).last() == b[0]);
    } else {
        assert((a + b).drop_last() =~= a + b.drop_last());
        assert((a + b).last() == b.last());
        lemma_join_append(a, b.drop_last(), sep);
        assert(join(a + b, sep) =~= join(a, sep) + sep + join(b, sep));
    }
}

} // verus!
