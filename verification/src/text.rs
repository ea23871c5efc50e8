//! Character sequences: the operations on text that the rest of the library is stated in.
//!
//! Every operation is defined on `Seq<char>`, and a function on `Vec<char>` is proved to
//! compute it.

use vstd::prelude::*;

verus! {

/// `String::push` appends one character to the end of the string.
pub assume_specification[ String::push ](s: &mut String, c: char)
    ensures
        final(s)@ == old(s)@.push(c),
;

/// The characters of `s`, in order.
pub fn chars_of(s: &str) -> (v: Vec<char>)
    ensures
        v@ == s@,
{
    let mut v: Vec<char> = Vec::new();
    for c in it: s.chars()
        invariant
            v@ == it.seq().take(it.index() as int),
            it.seq() == s@,
    {
        v.push(c);
    }
    v
}

/// The string made of the characters `v`, in order.
pub fn string_of(v: &Vec<char>) -> (s: String)
    ensures
        s@ == v@,
{
    let mut s = String::new();
    let mut i: usize = 0;
    while i < v.len()
        invariant
            i <= v.len(),
            s@ == v@.take(i as int),
        decreases v.len() - i,
    {
        s.push(v[i]);
        i = i + 1;
    }
    s
}

/// Whether two strings hold the same characters.
pub fn same_text(a: &str, b: &str) -> (r: bool)
    ensures
        r == (a@ == b@),
{
    let x = chars_of(a);
    let y = chars_of(b);
    same_chars(&x, &y)
}

/// Whether two character vectors are equal.
pub fn same_chars(a: &Vec<char>, b: &Vec<char>) -> (r: bool)
    ensures
        r == (a@ == b@),
{
    if a.len() != b.len() {
        return false;
    }
    let mut i: usize = 0;
    while i < a.len()
        invariant
            i <= a.len(),
            a.len() == b.len(),
            a@.take(i as int) == b@.take(i as int),
        decreases a.len() - i,
    {
        if a[i] != b[i] {
            return false;
        }
        assert(a@.take(i + 1) == a@.take(i as int).push(a@[i as int]));
        assert(b@.take(i + 1) == b@.take(i as int).push(b@[i as int]));
        i = i + 1;
    }
    assert(a@.take(a.len() as int) == a@);
    assert(b@.take(b.len() as int) == b@);
    true
}

/// Appends the characters of `more` to `out`.
pub fn append_chars(out: &mut Vec<char>, more: &Vec<char>)
    ensures
        final(out)@ == old(out)@ + more@,
{
    let mut i: usize = 0;
    while i < more.len()
        invariant
            i <= more.len(),
            out@ == old(out)@ + more@.take(i as int),
        decreases more.len() - i,
    {
        out.push(more[i]);
        assert(more@.take(i + 1) == more@.take(i as int).push(more@[i as int]));
        i = i + 1;
    }
    assert(more@.take(more.len() as int) == more@);
}

/// The characters that carry the Unicode property `White_Space`.
pub open spec fn is_whitespace(c: char) -> bool {
    let n = c as u32;
    ||| 0x09 <= n <= 0x0d
    ||| n == 0x20
    ||| n == 0x85
    ||| n == 0xa0
    ||| n == 0x1680
    ||| 0x2000 <= n <= 0x200a
    ||| n == 0x2028
    ||| n == 0x2029
    ||| n == 0x202f
    ||| n == 0x205f
    ||| n == 0x3000
}

/// What separates the runs of a text.
#[derive(Clone, Copy, Debug)]
pub enum Delimiter {
    /// Any whitespace character.
    Whitespace,
    /// The slash that separates the segments of a path.
    Slash,
}

impl Delimiter {
    /// Whether `c` is a delimiter of this kind.
    pub open spec fn delimits(self, c: char) -> bool {
        match self {
            Delimiter::Whitespace => is_whitespace(c),
            Delimiter::Slash => c == '/',
        }
    }

    /// Tests whether `c` is a delimiter of this kind.
    pub fn test(self, c: char) -> (b: bool)
        ensures
            b == self.delimits(c),
    {
        match self {
            Delimiter::Whitespace => {
                let n: u32 = c as u32;
                (0x09 <= n && n <= 0x0d) || n == 0x20 || n == 0x85 || n == 0xa0 || n == 0x1680 || (
                0x2000 <= n && n <= 0x200a) || n == 0x2028 || n == 0x2029 || n == 0x202f || n
                    == 0x205f || n == 0x3000
            },
            Delimiter::Slash => c == '/',
        }
    }
}

/// The views of a sequence of character vectors.
pub open spec fn views(parts: Seq<Vec<char>>) -> Seq<Seq<char>> {
    Seq::new(parts.len(), |i: int| parts[i]@)
}

/// The runs of `s`: its maximal stretches free of delimiters, in order. The definition
/// follows the last character: a delimiter adds nothing, a character after another one of
/// a run lengthens the last run, and any other character starts a new run.
pub open spec fn runs(s: Seq<char>, d: Delimiter) -> Seq<Seq<char>>
    decreases s.len(),
{
    if s.len() == 0 {
        Seq::empty()
    } else {
        let before = runs(s.drop_last(), d);
        let c = s.last();
        if d.delimits(c) {
            before
        } else if s.len() >= 2 && !d.delimits(s[s.len() - 2]) {
            before.drop_last().push(before.last().push(c))
        } else {
            before.push(seq![c])
        }
    }
}

/// Splits `v` into its runs.
pub fn split(v: &Vec<char>, d: Delimiter) -> (parts: Vec<Vec<char>>)
    ensures
        views(parts@) == runs(v@, d),
{
    let mut parts: Vec<Vec<char>> = Vec::new();
    let mut current: Vec<char> = Vec::new();
    let mut open = false;
    let mut i: usize = 0;
    assert(v@.take(0) =~= Seq::<char>::empty());
    while i < v.len()
        invariant
            i <= v.len(),
            open <==> (i > 0 && !d.delimits(v@[i - 1])),
            !open ==> current@.len() == 0,
            runs(v@.take(i as int), d) == if open {
                views(parts@).push(current@)
            } else {
                views(parts@)
            },
        decreases v.len() - i,
    {
        let c = v[i];
        proof {
            let s = v@.take(i + 1);
            assert(s.drop_last() == v@.take(i as int));
            assert(s.last() == c);
            if i > 0 {
                assert(s[s.len() - 2] == v@[i - 1]);
            }
        }
        let ghost done = views(parts@);
        let ghost held = current@;
        if d.test(c) {
            if open {
                parts.push(current);
                current = Vec::new();
                open = false;
                assert(views(parts@) == done.push(held));
            }
        } else {
            current.push(c);
            proof {
                if open {
                    assert(done.push(held).drop_last() == done);
                    assert(done.push(held).last() == held);
                } else {
                    assert(current@ == seq![c]);
                }
            }
            open = true;
        }
        i = i + 1;
    }
    assert(v@.take(v.len() as int) == v@);
    if open {
        let ghost done = views(parts@);
        let ghost held = current@;
        parts.push(current);
        assert(views(parts@) == done.push(held));
    }
    parts
}

/// The parts written one after another with `sep` between each two.
pub open spec fn joined(parts: Seq<Seq<char>>, sep: char) -> Seq<char>
    decreases parts.len(),
{
    if parts.len() == 0 {
        Seq::empty()
    } else if parts.len() == 1 {
        parts[0]
    } else {
        joined(parts.drop_last(), sep).push(sep) + parts.last()
    }
}

/// Writes the parts one after another with `sep` between each two.
pub fn join(parts: &Vec<Vec<char>>, sep: char) -> (out: Vec<char>)
    ensures
        out@ == joined(views(parts@), sep),
{
    let mut out: Vec<char> = Vec::new();
    let mut k: usize = 0;
    assert(views(parts@).take(0) =~= Seq::<Seq<char>>::empty());
    while k < parts.len()
        invariant
            k <= parts.len(),
            out@ == joined(views(parts@).take(k as int), sep),
        decreases parts.len() - k,
    {
        proof {
            let upto = views(parts@).take(k + 1);
            assert(upto.drop_last() == views(parts@).take(k as int));
            assert(upto.last() == parts@[k as int]@);
        }
        if k > 0 {
            out.push(sep);
        }
        append_chars(&mut out, &parts[k]);
        k = k + 1;
    }
    assert(views(parts@).take(parts.len() as int) == views(parts@));
    out
}

/// `s` with each stretch of whitespace turned into one space, and none at either end.
pub open spec fn collapsed(s: Seq<char>) -> Seq<char> {
    joined(runs(s, Delimiter::Whitespace), ' ')
}

/// Collapses the whitespace of `v`.
pub fn collapse(v: &Vec<char>) -> (out: Vec<char>)
    ensures
        out@ == collapsed(v@),
{
    let words = split(v, Delimiter::Whitespace);
    join(&words, ' ')
}

/// `s` without the delimiters it starts with.
pub open spec fn strip_start(s: Seq<char>, d: Delimiter) -> Seq<char>
    decreases s.len(),
{
    if s.len() > 0 && d.delimits(s[0]) {
        strip_start(s.drop_first(), d)
    } else {
        s
    }
}

/// `s` without the delimiters it ends with.
pub open spec fn strip_end(s: Seq<char>, d: Delimiter) -> Seq<char>
    decreases s.len(),
{
    if s.len() > 0 && d.delimits(s.last()) {
        strip_end(s.drop_last(), d)
    } else {
        s
    }
}

/// `s` without the whitespace at either end.
pub open spec fn trimmed(s: Seq<char>) -> Seq<char> {
    strip_end(strip_start(s, Delimiter::Whitespace), Delimiter::Whitespace)
}

/// Copies the characters of `v` from `from` up to `to`.
pub(crate) fn slice_of(v: &Vec<char>, from: usize, to: usize) -> (out: Vec<char>)
    requires
        from <= to <= v.len(),
    ensures
        out@ == v@.subrange(from as int, to as int),
{
    let mut out: Vec<char> = Vec::new();
    let mut i: usize = from;
    while i < to
        invariant
            from <= i <= to,
            to <= v.len(),
            out@ == v@.subrange(from as int, i as int),
        decreases to - i,
    {
        out.push(v[i]);
        assert(v@.subrange(from as int, i + 1) == v@.subrange(from as int, i as int).push(
            v@[i as int],
        ));
        i = i + 1;
    }
    out
}

/// Removes the delimiters at the start and at the end of `v`.
pub fn strip(v: &Vec<char>, d: Delimiter) -> (out: Vec<char>)
    ensures
        out@ == strip_end(strip_start(v@, d), d),
{
    let mut from: usize = 0;
    assert(v@.skip(0) == v@);
    while from < v.len() && d.test(v[from])
        invariant
            from <= v.len(),
            strip_start(v@, d) == strip_start(v@.skip(from as int), d),
        decreases v.len() - from,
    {
        assert(v@.skip(from as int).drop_first() == v@.skip(from + 1));
        from = from + 1;
    }
    let mut to: usize = v.len();
    assert(v@.subrange(from as int, to as int) == v@.skip(from as int));
    while to > from && d.test(v[to - 1])
        invariant
            from <= to <= v.len(),
            strip_start(v@, d) == v@.skip(from as int),
            strip_end(v@.skip(from as int), d) == strip_end(
                v@.subrange(from as int, to as int),
                d,
            ),
        decreases to,
    {
        assert(v@.subrange(from as int, to as int).drop_last() == v@.subrange(
            from as int,
            to - 1,
        ));
        to = to - 1;
    }
    slice_of(v, from, to)
}

/// Removes the delimiters at the end of `v`.
pub fn strip_trailing(v: &Vec<char>, d: Delimiter) -> (out: Vec<char>)
    ensures
        out@ == strip_end(v@, d),
{
    let mut to: usize = v.len();
    assert(v@.subrange(0, to as int) == v@);
    while to > 0 && d.test(v[to - 1])
        invariant
            to <= v.len(),
            strip_end(v@, d) == strip_end(v@.subrange(0, to as int), d),
        decreases to,
    {
        assert(v@.subrange(0, to as int).drop_last() == v@.subrange(0, to - 1));
        to = to - 1;
    }
    slice_of(v, 0, to)
}

/// Whether `needle` stands in `hay` at position `at`.
pub open spec fn occurs_at(hay: Seq<char>, needle: Seq<char>, at: int) -> bool {
    &&& 0 <= at
    &&& at + needle.len() <= hay.len()
    &&& hay.subrange(at, at + needle.len()) == needle
}

/// Whether `needle` stands somewhere in `hay`, character for character.
pub open spec fn contains(hay: Seq<char>, needle: Seq<char>) -> bool {
    exists|at: int| occurs_at(hay, needle, at)
}

/// Tests whether `needle` stands in `hay` at position `at`.
pub(crate) fn matches_at(hay: &Vec<char>, needle: &Vec<char>, at: usize) -> (r: bool)
    requires
        at + needle.len() <= hay.len(),
    ensures
        r == occurs_at(hay@, needle@, at as int),
{
    let mut j: usize = 0;
    while j < needle.len()
        invariant
            j <= needle.len(),
            at + needle.len() <= hay.len(),
            forall|k: int| 0 <= k < j ==> hay@[at + k] == needle@[k],
        decreases needle.len() - j,
    {
        if hay[at + j] != needle[j] {
            assert(hay@.subrange(at as int, at + needle.len())[j as int] != needle@[j as int]);
            return false;
        }
        j = j + 1;
    }
    assert(hay@.subrange(at as int, at + needle.len()) =~= needle@);
    true
}

/// Tests whether `needle` stands somewhere in `hay`.
pub fn has_substring(hay: &Vec<char>, needle: &Vec<char>) -> (r: bool)
    ensures
        r == contains(hay@, needle@),
{
    if needle.len() > hay.len() {
        return false;
    }
    let last: usize = hay.len() - needle.len();
    let mut at: usize = 0;
    while at < last
        invariant
            at <= last,
            last == hay.len() - needle.len(),
            forall|k: int| 0 <= k < at ==> !occurs_at(hay@, needle@, k),
        decreases last - at,
    {
        if matches_at(hay, needle, at) {
            return true;
        }
        at = at + 1;
    }
    matches_at(hay, needle, last)
}

/// The upper-case form of an ASCII letter; any other character unchanged.
pub open spec fn ascii_upper(c: char) -> char {
    if 'a' <= c <= 'z' {
        ((c as u8 - 32) as u8) as char
    } else {
        c
    }
}

/// Computes the upper-case form of an ASCII letter.
pub fn to_ascii_upper(c: char) -> (r: char)
    ensures
        r == ascii_upper(c),
{
    if 'a' <= c && c <= 'z' {
        let n: u8 = c as u8;
        (n - 32) as char
    } else {
        c
    }
}

} // verus!
