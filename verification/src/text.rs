//! Character-level string helpers, specified over `Seq<char>`.
//!
//! Rust's `str::trim` removes characters with the Unicode `White_Space`
//! property; `is_space` lists that property's code points.

use vstd::prelude::*;

verus! {

/// Appends one character to a string (`String::push`).
#[verifier::external_body]
pub(crate) fn push_char(s: &mut String, c: char)
    ensures
        final(s)@ == old(s)@.push(c),
{
    s.push(c);
}

/// The characters of a string slice, in order.
pub fn chars_of(s: &str) -> (out: Vec<char>)
    ensures
        out@ == s@,
{
    let mut out: Vec<char> = Vec::new();
    for c in it: s.chars()
        invariant
            out@ == it.seq().take(it.index() as int),
            it.seq() == s@,
    {
        out.push(c);
    }
    out
}

/// The string made of the given characters.
pub fn string_from(chars: &[char]) -> (out: String)
    ensures
        out@ == chars@,
{
    let mut out = String::new();
    let mut i: usize = 0;
    while i < chars.len()
        invariant
            i <= chars@.len(),
            out@ == chars@.take(i as int),
        decreases chars@.len() - i,
    {
        push_char(&mut out, chars[i]);
        assert(chars@.take(i as int + 1) =~= chars@.take(i as int).push(chars@[i as int]));
        i = i + 1;
    }
    assert(chars@.take(chars@.len() as int) =~= chars@);
    out
}

/// `a` followed by `b`, as a new string.
pub fn concat(a: &str, b: &str) -> (out: String)
    ensures
        out@ == a@ + b@,
{
    let mut v = chars_of(a);
    let w = chars_of(b);
    let mut i: usize = 0;
    while i < w.len()
        invariant
            i <= w@.len(),
            v@ == a@ + w@.take(i as int),
            w@ == b@,
        decreases w@.len() - i,
    {
        v.push(w[i]);
        assert(w@.take(i as int + 1) =~= w@.take(i as int).push(w@[i as int]));
        assert(a@ + w@.take(i as int + 1) =~= (a@ + w@.take(i as int)).push(w@[i as int]));
        i = i + 1;
    }
    assert(w@.take(w@.len() as int) =~= w@);
    string_from(&v)
}

/// Whether two strings hold the same characters.
pub fn str_eq(a: &str, b: &str) -> (r: bool)
    ensures
        r == (a@ == b@),
{
    let x = chars_of(a);
    let y = chars_of(b);
    seq_eq(&x, &y)
}

/// Whether two character slices are equal.
pub fn seq_eq(x: &[char], y: &[char]) -> (r: bool)
    ensures
        r == (x@ == y@),
{
    if x.len() != y.len() {
        return false;
    }
    let mut i: usize = 0;
    while i < x.len()
        invariant
            x@.len() == y@.len(),
            i <= x@.len(),
            forall|k: int| 0 <= k < i ==> x@[k] == y@[k],
        decreases x@.len() - i,
    {
        if x[i] != y[i] {
            return false;
        }
        i = i + 1;
    }
    assert(x@ =~= y@);
    true
}

/// The code points with the Unicode `White_Space` property.
pub open spec fn is_space(c: char) -> bool {
    let n = c as u32;
    (0x9 <= n <= 0xd) || n == 0x20 || n == 0x85 || n == 0xa0 || n == 0x1680 || (0x2000 <= n
        <= 0x200a) || n == 0x2028 || n == 0x2029 || n == 0x202f || n == 0x205f || n == 0x3000
}

/// `char::is_whitespace`.
pub fn char_is_space(c: char) -> (r: bool)
    ensures
        r == is_space(c),
{
    let n = c as u32;
    (0x9 <= n && n <= 0xd) || n == 0x20 || n == 0x85 || n == 0xa0 || n == 0x1680 || (0x2000
        <= n && n <= 0x200a) || n == 0x2028 || n == 0x2029 || n == 0x202f || n == 0x205f || n
        == 0x3000
}

/// `s` without leading characters for which `is_space` holds.
pub open spec fn trim_start(s: Seq<char>) -> Seq<char>
    decreases s.len(),
{
    if s.len() > 0 && is_space(s[0]) {
        trim_start(s.drop_first())
    } else {
        s
    }
}

/// `s` without trailing characters for which `is_space` holds.
pub open spec fn trim_end(s: Seq<char>) -> Seq<char>
    decreases s.len(),
{
    if s.len() > 0 && is_space(s.last()) {
        trim_end(s.drop_last())
    } else {
        s
    }
}

/// `str::trim`.
pub open spec fn trim(s: Seq<char>) -> Seq<char> {
    trim_end(trim_start(s))
}

/// `s` without leading copies of `c` (`str::trim_start_matches` with a char).
pub open spec fn strip_start_char(s: Seq<char>, c: char) -> Seq<char>
    decreases s.len(),
{
    if s.len() > 0 && s[0] == c {
        strip_start_char(s.drop_first(), c)
    } else {
        s
    }
}

/// `s` without trailing copies of `c` (`str::trim_end_matches` with a char).
pub open spec fn strip_end_char(s: Seq<char>, c: char) -> Seq<char>
    decreases s.len(),
{
    if s.len() > 0 && s.last() == c {
        strip_end_char(s.drop_last(), c)
    } else {
        s
    }
}

proof fn lemma_trim_start_skip(s: Seq<char>, i: int)
    requires
        0 <= i < s.len(),
        is_space(s[i]),
    ensures
        trim_start(s.skip(i)) == trim_start(s.skip(i + 1)),
{
    assert(s.skip(i).drop_first() =~= s.skip(i + 1));
}

proof fn lemma_trim_end_take(s: Seq<char>, j: int)
    requires
        0 < j <= s.len(),
        is_space(s[j - 1]),
    ensures
        trim_end(s.take(j)) == trim_end(s.take(j - 1)),
{
    assert(s.take(j).drop_last() =~= s.take(j - 1));
}

proof fn lemma_strip_start_skip(s: Seq<char>, c: char, i: int)
    requires
        0 <= i < s.len(),
        s[i] == c,
    ensures
        strip_start_char(s.skip(i), c) == strip_start_char(s.skip(i + 1), c),
{
    assert(s.skip(i).drop_first() =~= s.skip(i + 1));
}

proof fn lemma_strip_end_take(s: Seq<char>, c: char, j: int)
    requires
        0 < j <= s.len(),
        s[j - 1] == c,
    ensures
        strip_end_char(s.take(j), c) == strip_end_char(s.take(j - 1), c),
{
    assert(s.take(j).drop_last() =~= s.take(j - 1));
}

/// The characters of `s` from index `lo` up to (not including) `hi`.
pub fn slice_chars(s: &[char], lo: usize, hi: usize) -> (out: Vec<char>)
    requires
        lo <= hi <= s@.len(),
    ensures
        out@ == s@.subrange(lo as int, hi as int),
{
    let mut out: Vec<char> = Vec::new();
    let mut i = lo;
    while i < hi
        invariant
            lo <= i <= hi <= s@.len(),
            out@ == s@.subrange(lo as int, i as int),
        decreases hi - i,
    {
        out.push(s[i]);
        assert(s@.subrange(lo as int, i as int + 1) =~= s@.subrange(lo as int, i as int).push(
            s@[i as int],
        ));
        i = i + 1;
    }
    out
}

/// `str::trim` on characters.
pub fn trim_chars(s: &[char]) -> (out: Vec<char>)
    ensures
        out@ == trim(s@),
{
    let n = s.len();
    let mut i: usize = 0;
    assert(s@.skip(0) =~= s@);
    while i < n && char_is_space(s[i])
        invariant
            n == s@.len(),
            i <= n,
            trim_start(s@) == trim_start(s@.skip(i as int)),
        decreases n - i,
    {
        proof {
            lemma_trim_start_skip(s@, i as int);
        }
        i = i + 1;
    }
    let ghost t = s@.skip(i as int);
    assert(trim_start(t) == t) by {
        if t.len() > 0 {
            assert(t[0] == s@[i as int]);
        }
    }
    let mut j: usize = n;
    assert(t.take(t.len() as int) =~= t);
    while j > i && char_is_space(s[j - 1])
        invariant
            n == s@.len(),
            i <= j <= n,
            t == s@.skip(i as int),
            trim_end(t) == trim_end(t.take(j - i)),
        decreases j,
    {
        proof {
            assert(t[j - i - 1] == s@[j - 1]);
            lemma_trim_end_take(t, j - i);
        }
        j = j - 1;
    }
    let ghost u = t.take(j - i);
    assert(trim_end(u) == u) by {
        if u.len() > 0 {
            assert(u.last() == s@[j - 1]);
        }
    }
    assert(u =~= s@.subrange(i as int, j as int));
    slice_chars(s, i, j)
}

/// `str::trim_start_matches(c)` on characters.
pub fn strip_start_chars(s: &[char], c: char) -> (out: Vec<char>)
    ensures
        out@ == strip_start_char(s@, c),
{
    let n = s.len();
    let mut i: usize = 0;
    assert(s@.skip(0) =~= s@);
    while i < n && s[i] == c
        invariant
            n == s@.len(),
            i <= n,
            strip_start_char(s@, c) == strip_start_char(s@.skip(i as int), c),
        decreases n - i,
    {
        proof {
            lemma_strip_start_skip(s@, c, i as int);
        }
        i = i + 1;
    }
    let ghost t = s@.skip(i as int);
    assert(strip_start_char(t, c) == t) by {
        if t.len() > 0 {
            assert(t[0] == s@[i as int]);
        }
    }
    assert(t =~= s@.subrange(i as int, n as int));
    slice_chars(s, i, n)
}

/// `str::trim_end_matches(c)` on characters.
pub fn strip_end_chars(s: &[char], c: char) -> (out: Vec<char>)
    ensures
        out@ == strip_end_char(s@, c),
{
    let mut j: usize = s.len();
    assert(s@.take(s@.len() as int) =~= s@);
    while j > 0 && s[j - 1] == c
        invariant
            j <= s@.len(),
            strip_end_char(s@, c) == strip_end_char(s@.take(j as int), c),
        decreases j,
    {
        proof {
            lemma_strip_end_take(s@, c, j as int);
        }
        j = j - 1;
    }
    let ghost u = s@.take(j as int);
    assert(strip_end_char(u, c) == u) by {
        if u.len() > 0 {
            assert(u.last() == s@[j - 1]);
        }
    }
    assert(u =~= s@.subrange(0, j as int));
    slice_chars(s, 0, j)
}

/// Whether `s` begins with `p`.
pub open spec fn starts_with(s: Seq<char>, p: Seq<char>) -> bool {
    p.len() <= s.len() && s.take(p.len() as int) == p
}

/// `str::starts_with` on characters.
pub fn chars_start_with(s: &[char], p: &[char]) -> (r: bool)
    ensures
        r == starts_with(s@, p@),
{
    if p.len() > s.len() {
        return false;
    }
    let mut i: usize = 0;
    while i < p.len()
        invariant
            p@.len() <= s@.len(),
            i <= p@.len(),
            forall|k: int| 0 <= k < i ==> s@[k] == p@[k],
        decreases p@.len() - i,
    {
        if s[i] != p[i] {
            assert(s@.take(p@.len() as int)[i as int] != p@[i as int]);
            return false;
        }
        i = i + 1;
    }
    assert(s@.take(p@.len() as int) =~= p@);
    true
}

/// `str::starts_with` on strings.
pub fn str_starts_with(s: &str, p: &str) -> (r: bool)
    ensures
        r == starts_with(s@, p@),
{
    let x = chars_of(s);
    let y = chars_of(p);
    chars_start_with(&x, &y)
}

/// Whether `n` occurs in `s` at index `i`.
pub open spec fn occurs_at(s: Seq<char>, n: Seq<char>, i: int) -> bool {
    0 <= i && i + n.len() <= s.len() && s.subrange(i, i + n.len()) == n
}

/// `str::contains` with a string pattern.
pub open spec fn contains(s: Seq<char>, n: Seq<char>) -> bool {
    exists|i: int| occurs_at(s, n, i)
}

fn occurs_at_exec(x: &[char], y: &[char], i: usize) -> (r: bool)
    requires
        i + y@.len() <= x@.len(),
    ensures
        r == occurs_at(x@, y@, i as int),
{
    let xl = x.len();
    let mut j: usize = 0;
    while j < y.len()
        invariant
            xl == x@.len(),
            i + y@.len() <= x@.len(),
            j <= y@.len(),
            forall|k: int| 0 <= k < j ==> x@[i + k] == y@[k],
        decreases y@.len() - j,
    {
        if x[i + j] != y[j] {
            assert(x@.subrange(i as int, i + y@.len())[j as int] == x@[i + j]);
            return false;
        }
        j = j + 1;
    }
    assert(x@.subrange(i as int, i + y@.len()) =~= y@);
    true
}

/// `str::contains` on strings.
pub fn str_contains(s: &str, needle: &str) -> (r: bool)
    ensures
        r == contains(s@, needle@),
{
    let x = chars_of(s);
    let y = chars_of(needle);
    if y.len() > x.len() {
        assert forall|i: int| !occurs_at(x@, y@, i) by {}
        return false;
    }
    if y.len() == 0 {
        assert(x@.subrange(0, 0) =~= y@);
        assert(occurs_at(s@, needle@, 0));
        return true;
    }
    let last = x.len() - y.len();
    let mut i: usize = 0;
    let mut found = false;
    while i <= last && !found
        invariant
            last == x@.len() - y@.len(),
            1 <= y@.len() <= x@.len(),
            x.len() == x@.len(),
            i <= last + 1,
            found ==> i <= last && occurs_at(x@, y@, i as int),
            !found ==> forall|k: int| 0 <= k < i ==> !occurs_at(x@, y@, k),
        decreases last + 1 - i + (if found { 0int } else { 1int }),
    {
        if occurs_at_exec(&x, &y, i) {
            found = true;
        } else {
            i = i + 1;
        }
    }
    if found {
        assert(occurs_at(s@, needle@, i as int));
        return true;
    }
    assert forall|k: int| !occurs_at(x@, y@, k) by {
        if 0 <= k && k + y@.len() <= x@.len() {
            assert(k < i);
        }
    }
    false
}

/// ASCII lower-casing of one character (`char::to_ascii_lowercase`).
pub open spec fn lower(c: char) -> char {
    if 'A' <= c <= 'Z' {
        ((c as u32) + 32) as char
    } else {
        c
    }
}

/// `str::to_ascii_lowercase`.
pub open spec fn lowercase(s: Seq<char>) -> Seq<char> {
    s.map_values(|c: char| lower(c))
}

fn char_lower(c: char) -> (r: char)
    ensures
        r == lower(c),
{
    if 'A' <= c && c <= 'Z' {
        let b = (c as u8) + 32;
        b as char
    } else {
        c
    }
}

/// `str::to_ascii_lowercase` on characters.
pub fn lowercase_chars(s: &str) -> (out: Vec<char>)
    ensures
        out@ == lowercase(s@),
{
    let v = chars_of(s);
    let mut out: Vec<char> = Vec::new();
    let mut i: usize = 0;
    while i < v.len()
        invariant
            v@ == s@,
            i <= v@.len(),
            out@ == lowercase(v@.take(i as int)),
        decreases v@.len() - i,
    {
        out.push(char_lower(v[i]));
        assert(lowercase(v@.take(i as int + 1)) =~= lowercase(v@.take(i as int)).push(
            lower(v@[i as int]),
        ));
        i = i + 1;
    }
    assert(v@.take(v@.len() as int) =~= v@);
    out
}

} // verus!

verus! {

/// An owned copy of a string slice.
pub fn owned(s: &str) -> (r: String)
    ensures
        r@ == s@,
{
    String::from_str(s)
}

/// An owned copy of an optional string.
pub fn copy_opt_string(s: &Option<String>) -> (r: Option<String>)
    ensures
        r.deep_view() == s.deep_view(),
{
    match s {
        Some(t) => Some(t.clone()),
        None => None,
    }
}

/// An owned copy of a list of strings.
pub fn copy_strings(v: &Vec<String>) -> (r: Vec<String>)
    ensures
        r.deep_view() == v.deep_view(),
{
    let mut r: Vec<String> = Vec::new();
    let mut i: usize = 0;
    while i < v.len()
        invariant
            i <= v@.len(),
            r@.len() == i,
            forall|k: int| 0 <= k < i ==> #[trigger] r@[k]@ == v@[k]@,
        decreases v@.len() - i,
    {
        r.push(v[i].clone());
        i = i + 1;
    }
    assert(r.deep_view() =~= v.deep_view());
    r
}

/// Whether the characters `v` spell the string `s`.
pub fn chars_are(v: &[char], s: &str) -> (r: bool)
    ensures
        r == (v@ == s@),
{
    let w = chars_of(s);
    seq_eq(v, &w)
}

/// Whether the characters `v` begin with the string `p`.
pub fn chars_begin_with(v: &[char], p: &str) -> (r: bool)
    ensures
        r == starts_with(v@, p@),
{
    let w = chars_of(p);
    chars_start_with(v, &w)
}

} // verus!

verus! {

/// The number of bytes UTF-8 takes for `c`.
pub open spec fn utf8_width(c: char) -> nat {
    if (c as u32) < 0x80 {
        1
    } else if (c as u32) < 0x800 {
        2
    } else if (c as u32) < 0x10000 {
        3
    } else {
        4
    }
}

/// The UTF-8 length of a text in bytes (`str::len`).
pub open spec fn byte_len(s: Seq<char>) -> nat
    decreases s.len(),
{
    if s.len() == 0 {
        0
    } else {
        utf8_width(s[0]) + byte_len(s.drop_first())
    }
}

/// The longest prefix of `s` whose UTF-8 form fits in `n` bytes.
pub open spec fn prefix_within(s: Seq<char>, n: int) -> Seq<char>
    decreases s.len(),
{
    if s.len() == 0 || utf8_width(s[0]) > n {
        Seq::empty()
    } else {
        seq![s[0]] + prefix_within(s.drop_first(), n - utf8_width(s[0]))
    }
}

/// Whether byte `n` of `s` falls on a character boundary or past the end,
/// so that `&s[..n]` is defined.
pub open spec fn cuts_cleanly(s: Seq<char>, n: nat) -> bool {
    byte_len(s) <= n || byte_len(prefix_within(s, n as int)) == n
}

/// A text longer than `n` bytes cut to its first `n` bytes with `...`
/// appended; a shorter one unchanged.
pub open spec fn clipped(s: Seq<char>, n: nat) -> Seq<char> {
    if byte_len(s) > n {
        prefix_within(s, n as int) + "..."@
    } else {
        s
    }
}

fn char_width(c: char) -> (w: usize)
    ensures
        w == utf8_width(c),
{
    let code = c as u32;
    if code < 0x80 {
        1
    } else if code < 0x800 {
        2
    } else if code < 0x10000 {
        3
    } else {
        4
    }
}

proof fn lemma_byte_len_push(s: Seq<char>, c: char)
    ensures
        byte_len(s.push(c)) == byte_len(s) + utf8_width(c),
    decreases s.len(),
{
    if s.len() > 0 {
        assert(s.push(c).drop_first() =~= s.drop_first().push(c));
        assert(s.push(c)[0] == s[0]);
        lemma_byte_len_push(s.drop_first(), c);
    } else {
        assert(s.push(c).drop_first() =~= Seq::<char>::empty());
        assert(s.push(c)[0] == c);
        assert(byte_len(Seq::<char>::empty()) == 0);
    }
}

/// Walks `s` while the bytes taken stay within `n`: returns how many
/// characters fit and how many bytes they take.
fn fit_prefix(s: &[char], n: usize) -> (r: (usize, usize))
    requires
        n <= usize::MAX - 4,
    ensures
        r.0 <= s@.len(),
        r.1 == byte_len(s@.take(r.0 as int)),
        r.1 <= n,
        prefix_within(s@, n as int) == s@.take(r.0 as int),
        (r.0 < s@.len()) == (byte_len(s@) > n),
{
    let mut i: usize = 0;
    let mut used: usize = 0;
    assert(s@.take(0) =~= Seq::<char>::empty());
    assert(s@.skip(0) =~= s@);
    while i < s.len()
        invariant
            i <= s@.len(),
            used <= n,
            n <= usize::MAX - 4,
            used == byte_len(s@.take(i as int)),
            byte_len(s@) == byte_len(s@.take(i as int)) + byte_len(s@.skip(i as int)),
            prefix_within(s@, n as int) == s@.take(i as int) + prefix_within(
                s@.skip(i as int),
                n - used,
            ),
        decreases s@.len() - i,
    {
        let w = char_width(s[i]);
        assert(s@.skip(i as int).drop_first() =~= s@.skip(i as int + 1));
        assert(s@.skip(i as int)[0] == s@[i as int]);
        if w > n - used {
            assert(prefix_within(s@.skip(i as int), n - used) =~= Seq::<char>::empty());
            assert(s@.take(i as int) + Seq::<char>::empty() =~= s@.take(i as int));
            return (i, used);
        }
        proof {
            lemma_byte_len_push(s@.take(i as int), s@[i as int]);
            assert(s@.take(i as int).push(s@[i as int]) =~= s@.take(i as int + 1));
            assert(s@.take(i as int) + (seq![s@[i as int]] + prefix_within(
                s@.skip(i as int + 1),
                n - used - w,
            )) =~= s@.take(i as int + 1) + prefix_within(s@.skip(i as int + 1), n - used - w));
        }
        used = used + w;
        i = i + 1;
    }
    assert(s@.skip(i as int) =~= Seq::<char>::empty());
    assert(s@.take(i as int) =~= s@);
    assert(s@.take(i as int) + Seq::<char>::empty() =~= s@.take(i as int));
    (i, used)
}

/// Whether `&text[..n]` is defined: byte `n` is a character boundary or
/// lies past the end.
pub fn text_cuts_cleanly(text: &str, n: usize) -> (r: bool)
    requires
        n <= usize::MAX - 4,
    ensures
        r == cuts_cleanly(text@, n as nat),
{
    let v = chars_of(text);
    let (count, used) = fit_prefix(&v, n);
    count == v.len() || used == n
}

/// A text longer than `n` bytes cut to its first `n` bytes with `...`
/// appended (`format!("{}...", &text[..n])`); a shorter one unchanged.
pub fn clip_text(text: &str, n: usize) -> (r: String)
    requires
        n <= usize::MAX - 4,
        cuts_cleanly(text@, n as nat),
    ensures
        r@ == clipped(text@, n as nat),
{
    let v = chars_of(text);
    let (count, _used) = fit_prefix(&v, n);
    if count == v.len() {
        owned(text)
    } else {
        let head = slice_chars(&v, 0, count);
        let head_text = string_from(&head);
        assert(head@ =~= v@.take(count as int));
        concat(head_text.as_str(), "...")
    }
}

proof fn lemma_byte_len_concat(a: Seq<char>, b: Seq<char>)
    ensures
        byte_len(a + b) == byte_len(a) + byte_len(b),
    decreases a.len(),
{
    if a.len() == 0 {
        assert(a + b =~= b);
    } else {
        lemma_byte_len_concat(a.drop_first(), b);
        assert((a + b).drop_first() =~= a.drop_first() + b);
        assert((a + b)[0] == a[0]);
    }
}

proof fn lemma_prefix_within_fits(s: Seq<char>, n: int)
    ensures
        byte_len(prefix_within(s, n)) <= (if n >= 0 {
            n
        } else {
            0
        }),
        starts_with(s, prefix_within(s, n)),
    decreases s.len(),
{
    if s.len() == 0 || utf8_width(s[0]) > n {
        assert(prefix_within(s, n) =~= Seq::<char>::empty());
        assert(s.take(0) =~= Seq::<char>::empty());
    } else {
        let rest = prefix_within(s.drop_first(), n - utf8_width(s[0]));
        lemma_prefix_within_fits(s.drop_first(), n - utf8_width(s[0]));
        lemma_byte_len_concat(seq![s[0]], rest);
        assert(seq![s[0]].drop_first() =~= Seq::<char>::empty());
        assert(byte_len(Seq::<char>::empty()) == 0);
        assert(seq![s[0]][0] == s[0]);
        assert(byte_len(seq![s[0]]) == utf8_width(s[0]));
        assert(s.take(1 + rest.len() as int) =~= seq![s[0]] + s.drop_first().take(rest.len() as int));
    }
}

/// A clipped text begins with the text's first bytes and takes at most
/// `n` bytes plus the three bytes of `...`; a text of at most `n` bytes is
/// left as it is.
pub proof fn law_clipped_text_is_bounded(s: Seq<char>, n: nat)
    ensures
        byte_len(clipped(s, n)) <= n + 3,
        byte_len(s) <= n ==> clipped(s, n) == s,
        byte_len(s) > n ==> clipped(s, n) == prefix_within(s, n as int) + "..."@ && starts_with(
            s,
            prefix_within(s, n as int),
        ),
{
    reveal_strlit("...");
    lemma_prefix_within_fits(s, n as int);
    if byte_len(s) > n {
        lemma_byte_len_concat(prefix_within(s, n as int), "..."@);
        let d = "..."@;
        reveal_with_fuel(byte_len, 4);
        assert(d.len() == 3 && d[0] == '.' && d[1] == '.' && d[2] == '.');
        assert(d.drop_first().drop_first().drop_first() =~= Seq::<char>::empty());
        assert(byte_len(d) == 3);
    }
}

} // verus!
