//! A JSON document as the library sees it, and the value-path language
//! (`data.items[0].balance`, `infos[currency=CNY].total`) that data-source
//! settings use to point into provider replies.

use vstd::prelude::*;
use crate::decimal::{parse_usize, parse_usize_chars};
use crate::text::{chars_of, seq_eq, slice_chars, trim, trim_chars};

verus! {

/// An `f64` carried through the library unchanged, as its IEEE-754 bit
/// pattern (`f64::to_bits`).
#[derive(Clone, Copy, PartialEq, Eq, Structural, Debug)]
pub struct FloatBits {
    pub bits: u64,
}

/// What Rust's `f64` arithmetic makes of a number: its IEEE-754 bit pattern
/// and `round()` of it converted with `as i64` (saturating; NaN gives 0).
#[derive(Clone, Copy, PartialEq, Eq, Structural, Debug)]
pub struct FloatReading {
    pub bits: u64,
    pub rounded: i64,
}

/// A JSON number through the three readings a JSON number offers:
/// as `i64` and as `u64` where it is such an integer, and as `f64`.
#[derive(Clone, Copy, PartialEq, Eq, Structural, Debug)]
pub struct JsonNumber {
    pub as_i64: Option<i64>,
    pub as_u64: Option<u64>,
    pub as_f64: FloatReading,
}

/// A JSON string, with what `str::parse::<f64>` gives on its text as is and
/// on its text with surrounding whitespace trimmed.
#[derive(Debug)]
pub struct JsonText {
    pub text: String,
    pub reading: Option<FloatReading>,
    pub trimmed_reading: Option<FloatReading>,
}

/// A JSON value. Object members keep the order in which the document's map
/// yields them; member names are distinct.
#[derive(Debug)]
pub enum Json {
    Null,
    Bool(bool),
    Number(JsonNumber),
    Text(JsonText),
    Array(Vec<Json>),
    Object(Vec<(String, Json)>),
}

/// The first member named `key` among `entries`.
pub open spec fn entry_lookup(entries: Seq<(String, Json)>, key: Seq<char>) -> Option<Json>
    decreases entries.len(),
{
    if entries.len() == 0 {
        None
    } else if entries[0].0@ == key {
        Some(entries[0].1)
    } else {
        entry_lookup(entries.drop_first(), key)
    }
}

impl Json {
    /// The member `key` of an object (`Value::get` with a string key).
    pub open spec fn field(self, key: Seq<char>) -> Option<Json> {
        match self {
            Json::Object(entries) => entry_lookup(entries@, key),
            _ => None,
        }
    }

    /// `Value::as_str`.
    pub open spec fn text(self) -> Option<Seq<char>> {
        match self {
            Json::Text(t) => Some(t.text@),
            _ => None,
        }
    }

    /// `Value::as_array`.
    pub open spec fn items(self) -> Option<Seq<Json>> {
        match self {
            Json::Array(items) => Some(items@),
            _ => None,
        }
    }

    /// `Value::as_object`: the members, in order.
    pub open spec fn members(self) -> Option<Seq<(String, Json)>> {
        match self {
            Json::Object(entries) => Some(entries@),
            _ => None,
        }
    }

    /// `Value::as_bool`.
    pub open spec fn boolean(self) -> Option<bool> {
        match self {
            Json::Bool(b) => Some(b),
            _ => None,
        }
    }

    /// `Value::as_i64`.
    pub open spec fn int64(self) -> Option<i64> {
        match self {
            Json::Number(n) => n.as_i64,
            _ => None,
        }
    }

    /// `Value::as_u64`.
    pub open spec fn uint64(self) -> Option<u64> {
        match self {
            Json::Number(n) => n.as_u64,
            _ => None,
        }
    }

    /// `Value::as_f64`.
    pub open spec fn float(self) -> Option<FloatReading> {
        match self {
            Json::Number(n) => Some(n.as_f64),
            _ => None,
        }
    }

    /// A number, or a string whose trimmed text parses as `f64`.
    pub open spec fn numeric(self) -> Option<FloatReading> {
        match self {
            Json::Number(n) => Some(n.as_f64),
            Json::Text(t) => t.trimmed_reading,
            _ => None,
        }
    }

    /// `Value::is_null`.
    pub open spec fn is_null_value(self) -> bool {
        self is Null
    }

    /// The member `key` of an object (`Value::get` with a string key).
    pub fn get<'a>(&'a self, key: &str) -> (r: Option<&'a Json>)
        ensures
            opt_ref(r) == self.field(key@),
    {
        let k = chars_of(key);
        self.get_chars(&k)
    }

    /// The member whose name has the characters `key`.
    pub fn get_chars<'a>(&'a self, key: &[char]) -> (r: Option<&'a Json>)
        ensures
            opt_ref(r) == self.field(key@),
    {
        match self {
            Json::Object(entries) => {
                let mut i: usize = 0;
                assert(entries@.skip(0) =~= entries@);
                while i < entries.len()
                    invariant
                        i <= entries@.len(),
                        self.field(key@) == entry_lookup(entries@, key@),
                        entry_lookup(entries@, key@) == entry_lookup(entries@.skip(i as int), key@),
                    decreases entries@.len() - i,
                {
                    let name = chars_of(entries[i].0.as_str());
                    assert(entries@.skip(i as int).drop_first() =~= entries@.skip(i as int + 1));
                    assert(entries@.skip(i as int)[0] == entries@[i as int]);
                    if seq_eq(&name, key) {
                        return Some(&entries[i].1);
                    }
                    i = i + 1;
                }
                None
            },
            _ => None,
        }
    }

    /// `Value::as_str`.
    pub fn as_str(&self) -> (r: Option<&str>)
        ensures
            opt_str(r) == self.text(),
    {
        match self {
            Json::Text(t) => Some(t.text.as_str()),
            _ => None,
        }
    }

    /// `Value::as_array`.
    pub fn as_array(&self) -> (r: Option<&Vec<Json>>)
        ensures
            match r {
                Some(v) => self.items() == Some(v@),
                None => self.items() is None,
            },
    {
        match self {
            Json::Array(items) => Some(items),
            _ => None,
        }
    }

    /// `Value::as_object`: the members, in order.
    pub fn as_object(&self) -> (r: Option<&Vec<(String, Json)>>)
        ensures
            match r {
                Some(v) => self.members() == Some(v@),
                None => self.members() is None,
            },
    {
        match self {
            Json::Object(entries) => Some(entries),
            _ => None,
        }
    }

    /// `Value::as_bool`.
    pub fn as_bool(&self) -> (r: Option<bool>)
        ensures
            r == self.boolean(),
    {
        match self {
            Json::Bool(b) => Some(*b),
            _ => None,
        }
    }

    /// `Value::as_i64`.
    pub fn as_i64(&self) -> (r: Option<i64>)
        ensures
            r == self.int64(),
    {
        match self {
            Json::Number(n) => n.as_i64,
            _ => None,
        }
    }

    /// `Value::as_u64`.
    pub fn as_u64(&self) -> (r: Option<u64>)
        ensures
            r == self.uint64(),
    {
        match self {
            Json::Number(n) => n.as_u64,
            _ => None,
        }
    }

    /// `Value::as_f64`.
    pub fn as_f64(&self) -> (r: Option<FloatReading>)
        ensures
            r == self.float(),
    {
        match self {
            Json::Number(n) => Some(n.as_f64),
            _ => None,
        }
    }

    /// A number, or a string whose trimmed text parses as `f64`.
    pub fn number_like(&self) -> (r: Option<FloatReading>)
        ensures
            r == self.numeric(),
    {
        match self {
            Json::Number(n) => Some(n.as_f64),
            Json::Text(t) => t.trimmed_reading,
            _ => None,
        }
    }

    /// `Value::is_null`.
    pub fn is_null(&self) -> (r: bool)
        ensures
            r == self.is_null_value(),
    {
        match self {
            Json::Null => true,
            _ => false,
        }
    }
}

/// An optional reference read as an optional value.
pub open spec fn opt_ref(r: Option<&Json>) -> Option<Json> {
    match r {
        Some(x) => Some(*x),
        None => None,
    }
}

/// An optional string slice read as optional characters.
pub open spec fn opt_str(r: Option<&str>) -> Option<Seq<char>> {
    match r {
        Some(s) => Some(s@),
        None => None,
    }
}

// ------------------------------------------------------------------------
// The value-path language
// ------------------------------------------------------------------------

/// `s.split(sep)`: the pieces between separators, empty ones included.
pub open spec fn split_on(s: Seq<char>, sep: char) -> Seq<Seq<char>>
    decreases s.len(),
{
    if s.len() == 0 {
        seq![Seq::<char>::empty()]
    } else {
        let r = split_on(s.drop_last(), sep);
        if s.last() == sep {
            r.push(Seq::<char>::empty())
        } else {
            r.update(r.len() - 1, r.last().push(s.last()))
        }
    }
}

/// The trimmed pieces that are not blank, in order.
pub open spec fn keep_segments(parts: Seq<Seq<char>>) -> Seq<Seq<char>>
    decreases parts.len(),
{
    if parts.len() == 0 {
        Seq::<Seq<char>>::empty()
    } else {
        let rest = keep_segments(parts.drop_last());
        if trim(parts.last()).len() > 0 {
            rest.push(trim(parts.last()))
        } else {
            rest
        }
    }
}

/// The segments of a value path: its `.`-separated pieces, trimmed, blank
/// ones dropped.
pub open spec fn path_segments(path: Seq<char>) -> Seq<Seq<char>> {
    keep_segments(split_on(path, '.'))
}

/// The result of reading a path: a value, nothing, or a segment whose last
/// `]` stands before its first `[` (on which the reader panics).
pub ghost enum PathRead {
    Found(Json),
    Missing,
    Malformed,
}

/// Index of the first `c` in `s`.
pub open spec fn first_index(s: Seq<char>, c: char) -> Option<int>
    decreases s.len(),
{
    if s.len() == 0 {
        None
    } else if s[0] == c {
        Some(0)
    } else {
        match first_index(s.drop_first(), c) {
            Some(i) => Some(i + 1),
            None => None,
        }
    }
}

/// Index of the last `c` in `s`.
pub open spec fn last_index(s: Seq<char>, c: char) -> Option<int>
    decreases s.len(),
{
    if s.len() == 0 {
        None
    } else if s.last() == c {
        Some(s.len() - 1)
    } else {
        last_index(s.drop_last(), c)
    }
}

/// The first item of `items` whose member `key` is the string `value`.
pub open spec fn find_by_member(items: Seq<Json>, key: Seq<char>, value: Seq<char>) -> Option<Json>
    decreases items.len(),
{
    if items.len() == 0 {
        None
    } else if matches_member(items[0], key, value) {
        Some(items[0])
    } else {
        find_by_member(items.drop_first(), key, value)
    }
}

/// Whether `item` has a string member `key` equal to `value`.
pub open spec fn matches_member(item: Json, key: Seq<char>, value: Seq<char>) -> bool {
    match item.field(key) {
        Some(v) => v.text() == Some(value),
        None => false,
    }
}

/// What one segment selects in `v`: `name` is a member; `name[i]` is item
/// `i` of the array `name`; `name[k=x]` is the first item of that array
/// whose member `k` is the string `x`; an empty `name` means `v` itself.
pub open spec fn apply_segment(v: Json, seg: Seq<char>) -> PathRead {
    match first_index(seg, '[') {
        None => match v.field(seg) {
            Some(x) => PathRead::Found(x),
            None => PathRead::Missing,
        },
        Some(open) => match last_index(seg, ']') {
            None => PathRead::Missing,
            Some(close) => if close < open + 1 {
                PathRead::Malformed
            } else {
                let key = seg.take(open);
                let selector = seg.subrange(open + 1, close);
                let selected = if key.len() == 0 {
                    Some(v)
                } else {
                    v.field(key)
                };
                match selected {
                    None => PathRead::Missing,
                    Some(s) => match s.items() {
                        None => PathRead::Missing,
                        Some(items) => match parse_usize(selector) {
                            Some(i) => if i < items.len() {
                                PathRead::Found(items[i as int])
                            } else {
                                PathRead::Missing
                            },
                            None => match first_index(selector, '=') {
                                None => PathRead::Missing,
                                Some(eq) => match find_by_member(
                                    items,
                                    trim(selector.take(eq)),
                                    trim(selector.skip(eq + 1)),
                                ) {
                                    Some(x) => PathRead::Found(x),
                                    None => PathRead::Missing,
                                },
                            },
                        },
                    },
                }
            },
        },
    }
}

/// Reading a sequence of segments one after another, starting at `v`.
pub open spec fn walk(v: Json, segs: Seq<Seq<char>>) -> PathRead
    decreases segs.len(),
{
    if segs.len() == 0 {
        PathRead::Found(v)
    } else {
        match walk(v, segs.drop_last()) {
            PathRead::Found(x) => apply_segment(x, segs.last()),
            other => other,
        }
    }
}

/// What the path `path` reads in `v`.
pub open spec fn read_path(v: Json, path: Seq<char>) -> PathRead {
    walk(v, path_segments(path))
}

/// A path segment whose last `]` stands before its first `[`.
#[derive(Debug)]
pub struct MalformedSegment;

/// An exec path-read result read as a `PathRead`.
pub open spec fn read_view(r: Result<Option<&Json>, MalformedSegment>) -> PathRead {
    match r {
        Ok(Some(x)) => PathRead::Found(*x),
        Ok(None) => PathRead::Missing,
        Err(_) => PathRead::Malformed,
    }
}

/// An optional index moved right by `k`.
pub open spec fn shift(o: Option<int>, k: int) -> Option<int> {
    match o {
        Some(i) => Some(i + k),
        None => None,
    }
}

fn first_index_exec(s: &[char], c: char) -> (r: Option<usize>)
    ensures
        match r {
            Some(i) => first_index(s@, c) == Some(i as int) && i < s@.len(),
            None => first_index(s@, c) is None,
        },
{
    let mut i: usize = 0;
    assert(s@.skip(0) =~= s@);
    while i < s.len()
        invariant
            i <= s@.len(),
            first_index(s@, c) == shift(first_index(s@.skip(i as int), c), i as int),
        decreases s@.len() - i,
    {
        assert(s@.skip(i as int).drop_first() =~= s@.skip(i as int + 1));
        if s[i] == c {
            assert(first_index(s@.skip(i as int), c) == Some(0int));
            return Some(i);
        }
        i = i + 1;
    }
    assert(s@.skip(i as int) =~= Seq::<char>::empty());
    None
}

fn last_index_exec(s: &[char], c: char) -> (r: Option<usize>)
    ensures
        match r {
            Some(i) => last_index(s@, c) == Some(i as int) && i < s@.len(),
            None => last_index(s@, c) is None,
        },
{
    let mut j: usize = s.len();
    assert(s@.take(s@.len() as int) =~= s@);
    while j > 0
        invariant
            j <= s@.len(),
            last_index(s@, c) == last_index(s@.take(j as int), c),
        decreases j,
    {
        assert(s@.take(j as int).drop_last() =~= s@.take(j - 1));
        if s[j - 1] == c {
            return Some(j - 1);
        }
        j = j - 1;
    }
    None
}

fn find_by_member_exec<'a>(items: &'a Vec<Json>, key: &[char], value: &[char]) -> (r: Option<
    &'a Json,
>)
    ensures
        opt_ref(r) == find_by_member(items@, key@, value@),
{
    let mut i: usize = 0;
    assert(items@.skip(0) =~= items@);
    while i < items.len()
        invariant
            i <= items@.len(),
            find_by_member(items@, key@, value@) == find_by_member(
                items@.skip(i as int),
                key@,
                value@,
            ),
        decreases items@.len() - i,
    {
        assert(items@.skip(i as int).drop_first() =~= items@.skip(i as int + 1));
        let item = &items[i];
        let hit = match item.get_chars(key) {
            Some(v) => match v.as_str() {
                Some(t) => {
                    let tc = chars_of(t);
                    seq_eq(&tc, value)
                },
                None => false,
            },
            None => false,
        };
        if hit {
            return Some(item);
        }
        i = i + 1;
    }
    None
}

/// Reads one path segment in `v` (see `apply_segment`).
pub fn read_segment<'a>(v: &'a Json, seg: &[char]) -> (r: Result<Option<&'a Json>, MalformedSegment>)
    ensures
        read_view(r) == apply_segment(*v, seg@),
{
    let open = match first_index_exec(seg, '[') {
        None => {
            return Ok(v.get_chars(seg));
        },
        Some(open) => open,
    };
    let close = match last_index_exec(seg, ']') {
        None => {
            return Ok(None);
        },
        Some(close) => close,
    };
    if close <= open {
        return Err(MalformedSegment);
    }
    let key = slice_chars(seg, 0, open);
    let selector = slice_chars(seg, open + 1, close);
    assert(key@ =~= seg@.take(open as int));
    let selected = if key.len() == 0 {
        v
    } else {
        match v.get_chars(&key) {
            Some(s) => s,
            None => {
                return Ok(None);
            },
        }
    };
    let items = match selected.as_array() {
        Some(items) => items,
        None => {
            return Ok(None);
        },
    };
    if let Some(index) = parse_usize_chars(&selector) {
        if index < items.len() {
            return Ok(Some(&items[index]));
        } else {
            return Ok(None);
        }
    }
    let eq = match first_index_exec(&selector, '=') {
        None => {
            return Ok(None);
        },
        Some(eq) => eq,
    };
    let raw_key = slice_chars(&selector, 0, eq);
    let raw_value = slice_chars(&selector, eq + 1, selector.len());
    assert(raw_key@ =~= selector@.take(eq as int));
    assert(raw_value@ =~= selector@.skip(eq + 1));
    let filter_key = trim_chars(&raw_key);
    let filter_value = trim_chars(&raw_value);
    Ok(find_by_member_exec(items, &filter_key, &filter_value))
}

proof fn lemma_split_nonempty(s: Seq<char>, sep: char)
    ensures
        split_on(s, sep).len() >= 1,
    decreases s.len(),
{
    if s.len() > 0 {
        lemma_split_nonempty(s.drop_last(), sep);
    }
}

/// The segments of a value path, in order.
pub fn path_segments_exec(path: &str) -> (segs: Vec<Vec<char>>)
    ensures
        segs@.len() == path_segments(path@).len(),
        forall|i: int| 0 <= i < segs@.len() ==> #[trigger] segs@[i]@ == path_segments(path@)[i],
{
    let p = chars_of(path);
    let mut done: Vec<Vec<char>> = Vec::new();
    let mut cur: Vec<char> = Vec::new();
    let ghost mut parts: Seq<Seq<char>> = Seq::empty();
    let mut i: usize = 0;
    assert(p@.take(0) =~= Seq::<char>::empty());
    while i < p.len()
        invariant
            p@ == path@,
            i <= p@.len(),
            split_on(p@.take(i as int), '.') == parts.push(cur@),
            done@.len() == keep_segments(parts).len(),
            forall|k: int| 0 <= k < done@.len() ==> #[trigger] done@[k]@ == keep_segments(parts)[k],
        decreases p@.len() - i,
    {
        let c = p[i];
        let ghost pre = p@.take(i as int);
        assert(p@.take(i as int + 1).drop_last() =~= pre);
        assert(p@.take(i as int + 1).last() == c);
        if c == '.' {
            let t = trim_chars(&cur);
            let ghost old_done = done@;
            proof {
                assert(keep_segments(parts.push(cur@)).len() >= 0);
                assert(parts.push(cur@).drop_last() =~= parts);
            }
            if t.len() > 0 {
                done.push(t);
            }
            proof {
                parts = parts.push(cur@);
            }
            cur = Vec::new();
            assert(split_on(p@.take(i as int + 1), '.') =~= parts.push(cur@));
        } else {
            let ghost old_cur = cur@;
            cur.push(c);
            proof {
                lemma_split_nonempty(pre, '.');
            }
            assert(split_on(p@.take(i as int + 1), '.') =~= parts.push(cur@));
        }
        i = i + 1;
    }
    assert(p@.take(p@.len() as int) =~= p@);
    let t = trim_chars(&cur);
    proof {
        assert(parts.push(cur@).drop_last() =~= parts);
    }
    if t.len() > 0 {
        done.push(t);
    }
    done
}

/// Reads `path` in `v`: each segment in turn, starting at `v`; a segment
/// that selects nothing ends the read with nothing.
pub fn value_at_path<'a>(v: &'a Json, path: &str) -> (r: Result<Option<&'a Json>, MalformedSegment>)
    ensures
        read_view(r) == read_path(*v, path@),
{
    let segs = path_segments_exec(path);
    let ghost all = path_segments(path@);
    let mut current: &Json = v;
    let mut i: usize = 0;
    assert(all.take(0) =~= Seq::<Seq<char>>::empty());
    while i < segs.len()
        invariant
            i <= segs@.len(),
            segs@.len() == all.len(),
            all == path_segments(path@),
            forall|k: int| 0 <= k < segs@.len() ==> #[trigger] segs@[k]@ == all[k],
            walk(*v, all.take(i as int)) == PathRead::Found(*current),
        decreases segs@.len() - i,
    {
        assert(all.take(i as int + 1).drop_last() =~= all.take(i as int));
        assert(all.take(i as int + 1).last() == segs@[i as int]@);
        match read_segment(current, &segs[i]) {
            Err(e) => {
                proof {
                    lemma_walk_stops(*v, all, i as int + 1);
                }
                return Err(e);
            },
            Ok(None) => {
                proof {
                    lemma_walk_stops(*v, all, i as int + 1);
                }
                return Ok(None);
            },
            Ok(Some(next)) => {
                current = next;
            },
        }
        i = i + 1;
    }
    assert(all.take(all.len() as int) =~= all);
    Ok(Some(current))
}

proof fn lemma_walk_stops(v: Json, segs: Seq<Seq<char>>, k: int)
    requires
        0 <= k <= segs.len(),
        !(walk(v, segs.take(k)) is Found),
    ensures
        walk(v, segs) == walk(v, segs.take(k)),
    decreases segs.len() - k,
{
    if k < segs.len() {
        assert(segs.take(k + 1).drop_last() =~= segs.take(k));
        lemma_walk_stops(v, segs, k + 1);
    } else {
        assert(segs.take(k) =~= segs);
    }
}

proof fn lemma_split_concat(p: Seq<char>, q: Seq<char>)
    ensures
        split_on(p + seq!['.'] + q, '.') == split_on(p, '.') + split_on(q, '.'),
    decreases q.len(),
{
    let s = p + seq!['.'] + q;
    if q.len() == 0 {
        assert(s.drop_last() =~= p);
        assert(s.last() == '.');
        assert(split_on(q, '.') =~= seq![Seq::<char>::empty()]);
        assert(split_on(p, '.').push(Seq::<char>::empty()) =~= split_on(p, '.') + seq![
            Seq::<char>::empty(),
        ]);
    } else {
        lemma_split_concat(p, q.drop_last());
        assert(s.drop_last() =~= p + seq!['.'] + q.drop_last());
        assert(s.last() == q.last());
        let a = split_on(p, '.');
        let b = split_on(q.drop_last(), '.');
        lemma_split_nonempty(q.drop_last(), '.');
        if q.last() == '.' {
            assert((a + b).push(Seq::<char>::empty()) =~= a + b.push(Seq::<char>::empty()));
        } else {
            let r = a + b;
            assert(r.last() == b.last());
            assert(r.update(r.len() - 1, r.last().push(q.last())) =~= a + b.update(
                b.len() - 1,
                b.last().push(q.last()),
            ));
        }
    }
}

proof fn lemma_keep_concat(a: Seq<Seq<char>>, b: Seq<Seq<char>>)
    ensures
        keep_segments(a + b) == keep_segments(a) + keep_segments(b),
    decreases b.len(),
{
    if b.len() == 0 {
        assert(a + b =~= a);
        assert(keep_segments(a) + keep_segments(b) =~= keep_segments(a));
    } else {
        lemma_keep_concat(a, b.drop_last());
        assert((a + b).drop_last() =~= a + b.drop_last());
        assert((a + b).last() == b.last());
        let x = keep_segments(a);
        let y = keep_segments(b.drop_last());
        if trim(b.last()).len() > 0 {
            assert((x + y).push(trim(b.last())) =~= x + y.push(trim(b.last())));
        }
    }
}

proof fn lemma_walk_concat(v: Json, a: Seq<Seq<char>>, b: Seq<Seq<char>>)
    ensures
        walk(v, a + b) == (match walk(v, a) {
            PathRead::Found(x) => walk(x, b),
            other => other,
        }),
    decreases b.len(),
{
    if b.len() == 0 {
        assert(a + b =~= a);
    } else {
        lemma_walk_concat(v, a, b.drop_last());
        assert((a + b).drop_last() =~= a + b.drop_last());
        assert((a + b).last() == b.last());
    }
}

/// A path `p.q` reads what `q` reads in what `p` reads; where `p` reads
/// nothing or has a malformed segment, so does `p.q`.
pub proof fn law_path_composes(v: Json, p: Seq<char>, q: Seq<char>)
    ensures
        read_path(v, p + seq!['.'] + q) == (match read_path(v, p) {
            PathRead::Found(x) => read_path(x, q),
            other => other,
        }),
{
    lemma_split_concat(p, q);
    lemma_keep_concat(split_on(p, '.'), split_on(q, '.'));
    lemma_walk_concat(v, path_segments(p), path_segments(q));
}

} // verus!
