//! Searching bytes as they came, before anything reads them as text.

use vstd::prelude::*;

verus! {

/// Whether `needle` stands in `hay` at position `at`.
pub open spec fn found_at(hay: Seq<u8>, needle: Seq<u8>, at: int) -> bool {
    &&& 0 <= at
    &&& at + needle.len() <= hay.len()
    &&& hay.subrange(at, at + needle.len()) == needle
}

/// Whether `needle` stands somewhere in `hay`.
pub open spec fn holds(hay: Seq<u8>, needle: Seq<u8>) -> bool {
    exists|at: int| found_at(hay, needle, at)
}

/// Space, tab, line feed, form feed and carriage return.
pub open spec fn is_blank(byte: u8) -> bool {
    byte == 0x20 || byte == 0x09 || byte == 0x0a || byte == 0x0c || byte == 0x0d
}

/// The first position from `from` on that holds no blank; the length where there is none.
pub open spec fn after_blanks(hay: Seq<u8>, from: int) -> int
    decreases hay.len() - from,
{
    if 0 <= from < hay.len() && is_blank(hay[from]) {
        after_blanks(hay, from + 1)
    } else {
        from
    }
}

/// Whether `name` stands in `hay` at position `at` and an equals sign follows it, with
/// nothing but blanks between the two: the form in which markup gives a value to the
/// attribute `name`.
pub open spec fn assigned_at(hay: Seq<u8>, name: Seq<u8>, at: int) -> bool {
    &&& found_at(hay, name, at)
    &&& after_blanks(hay, at + name.len()) < hay.len()
    &&& hay[after_blanks(hay, at + name.len())] == 0x3d
}

/// A byte of a play time: a digit, a colon, a full stop or a blank.
pub open spec fn is_tame(byte: u8) -> bool {
    (0x30 <= byte <= 0x39) || byte == 0x3a || byte == 0x2e || is_blank(byte)
}

/// The first position from `from` on that holds no byte of a play time; the length where
/// there is none.
pub open spec fn after_tame(hay: Seq<u8>, from: int) -> int
    decreases hay.len() - from,
{
    if 0 <= from < hay.len() && is_tame(hay[from]) {
        after_tame(hay, from + 1)
    } else {
        from
    }
}

/// The most bytes of a play time that are let through: numbers of so few digits are
/// held with room to spare.
pub const MAX_PLAY_TIME_LEN: usize = 15;

/// Whether `/>` stands at `end`: the tag whose name ends there is closed at once.
pub open spec fn closed_at_once(hay: Seq<u8>, end: int) -> bool {
    &&& end + 1 < hay.len()
    &&& hay[end] == 0x2f
    &&& hay[end + 1] == 0x3e
}

/// Whether a text that stops at `stop` stops for good: the bytes end there, or a tag
/// starts there that is neither a comment nor a section of character data nor an
/// instruction, all of which a text runs on across.
pub open spec fn text_stops(hay: Seq<u8>, stop: int) -> bool {
    stop == hay.len() || (stop + 1 < hay.len() && hay[stop] == 0x3c && hay[stop + 1] != 0x21
        && hay[stop + 1] != 0x3f)
}

/// Whether `>` stands at `end`, then a short text of nothing but bytes of a play time,
/// and the text stops for good: the element whose tag ends there has a tame text.
pub open spec fn tame_text_after(hay: Seq<u8>, end: int) -> bool {
    let stop = after_tame(hay, end + 1);
    &&& 0 <= end < hay.len()
    &&& hay[end] == 0x3e
    &&& stop - (end + 1) <= MAX_PLAY_TIME_LEN
    &&& text_stops(hay, stop)
}

/// Whether the name `name` at `at` cannot end the tag of an element with a play time
/// that is not tame: the tag is closed there at once, or it ends there and a tame text
/// follows.
pub open spec fn harmless_at(hay: Seq<u8>, name: Seq<u8>, at: int) -> bool {
    closed_at_once(hay, at + name.len()) || tame_text_after(hay, at + name.len())
}

/// Whether `name` stands in `hay` in harmless places only.
pub open spec fn element_is_tame(hay: Seq<u8>, name: Seq<u8>) -> bool {
    forall|at: int| found_at(hay, name, at) ==> harmless_at(hay, name, at)
}

/// Whether the value given after the name that ends before `end` stands in quotes and is
/// a short text of nothing but bytes of a play time.
pub open spec fn tame_value_after(hay: Seq<u8>, end: int) -> bool {
    let quote = after_blanks(hay, after_blanks(hay, end) + 1);
    let stop = after_tame(hay, quote + 1);
    &&& quote < hay.len()
    &&& (hay[quote] == 0x22 || hay[quote] == 0x27)
    &&& stop - (quote + 1) <= MAX_PLAY_TIME_LEN
    &&& stop < hay.len()
    &&& hay[stop] == hay[quote]
}

/// Whether every value that `hay` gives to `name` is tame.
pub open spec fn attribute_is_tame(hay: Seq<u8>, name: Seq<u8>) -> bool {
    forall|at: int| assigned_at(hay, name, at) ==> tame_value_after(hay, at + name.len())
}

/// Tests whether `hay` holds the byte.
pub fn has_byte(hay: &[u8], byte: u8) -> (r: bool)
    ensures
        r == hay@.contains(byte),
{
    let mut i: usize = 0;
    while i < hay.len()
        invariant
            i <= hay.len(),
            forall|j: int| 0 <= j < i ==> hay@[j] != byte,
        decreases hay.len() - i,
    {
        if hay[i] == byte {
            return true;
        }
        i = i + 1;
    }
    false
}

/// Tests whether `needle` stands in `hay` at position `at`.
fn starts_at(hay: &[u8], needle: &[u8], at: usize) -> (r: bool)
    requires
        at + needle.len() <= hay.len(),
    ensures
        r == found_at(hay@, needle@, at as int),
{
    let mut j: usize = 0;
    while j < needle.len()
        invariant
            j <= needle.len(),
            at + needle.len() <= hay.len(),
            forall|k: int| 0 <= k < j ==> hay@[at + k] == needle@[k],
        decreases needle.len() - j,
    {
        if hay[at + j] != needle[j] {
            assert(hay@.subrange(at as int, at + needle.len())[j as int] != needle@[j as int]);
            return false;
        }
        j = j + 1;
    }
    assert(hay@.subrange(at as int, at + needle.len()) =~= needle@);
    true
}

/// Finds the first position from `from` on that holds no blank.
fn skip_blanks(hay: &[u8], from: usize) -> (next: usize)
    requires
        from <= hay.len(),
    ensures
        next == after_blanks(hay@, from as int),
        from <= next <= hay.len(),
{
    let mut next: usize = from;
    while next < hay.len() && (hay[next] == 0x20 || hay[next] == 0x09 || hay[next] == 0x0a
        || hay[next] == 0x0c || hay[next] == 0x0d)
        invariant
            from <= next <= hay.len(),
            after_blanks(hay@, from as int) == after_blanks(hay@, next as int),
        decreases hay.len() - next,
    {
        next = next + 1;
    }
    next
}

/// Tests whether `name` stands at `at` and an equals sign follows it.
fn assigned_here(hay: &[u8], name: &[u8], at: usize) -> (r: bool)
    requires
        at + name.len() <= hay.len(),
    ensures
        r == assigned_at(hay@, name@, at as int),
{
    if !starts_at(hay, name, at) {
        return false;
    }
    let next = skip_blanks(hay, at + name.len());
    next < hay.len() && hay[next] == 0x3d
}

/// Finds the first position from `from` on that holds no byte of a play time.
fn skip_tame(hay: &[u8], from: usize) -> (next: usize)
    requires
        from <= hay.len(),
    ensures
        next == after_tame(hay@, from as int),
        from <= next <= hay.len(),
{
    let mut next: usize = from;
    while next < hay.len() && ((0x30 <= hay[next] && hay[next] <= 0x39) || hay[next] == 0x3a
        || hay[next] == 0x2e || hay[next] == 0x20 || hay[next] == 0x09 || hay[next] == 0x0a
        || hay[next] == 0x0c || hay[next] == 0x0d)
        invariant
            from <= next <= hay.len(),
            after_tame(hay@, from as int) == after_tame(hay@, next as int),
        decreases hay.len() - next,
    {
        next = next + 1;
    }
    next
}

/// Tests whether the name of the length `len` at `at` stands in a harmless place.
fn harmless(hay: &[u8], at: usize, len: usize) -> (r: bool)
    requires
        at + len <= hay.len(),
    ensures
        r == (closed_at_once(hay@, at + len) || tame_text_after(hay@, at + len)),
{
    let end = at + len;
    if end >= hay.len() {
        return false;
    }
    if hay[end] == 0x2f {
        return end + 1 < hay.len() && hay[end + 1] == 0x3e;
    }
    if hay[end] != 0x3e {
        return false;
    }
    let stop = skip_tame(hay, end + 1);
    stop - (end + 1) <= MAX_PLAY_TIME_LEN && (stop == hay.len() || (stop + 1 < hay.len()
        && hay[stop] == 0x3c && hay[stop + 1] != 0x21 && hay[stop + 1] != 0x3f))
}

/// Tests whether the value given after the name that ends before `end` is tame.
fn tame_value(hay: &[u8], end: usize) -> (r: bool)
    requires
        end <= hay.len(),
        after_blanks(hay@, end as int) < hay@.len(),
    ensures
        r == tame_value_after(hay@, end as int),
{
    let equals = skip_blanks(hay, end);
    let quote = skip_blanks(hay, equals + 1);
    if quote >= hay.len() {
        return false;
    }
    if hay[quote] != 0x22 && hay[quote] != 0x27 {
        return false;
    }
    let stop = skip_tame(hay, quote + 1);
    stop - (quote + 1) <= MAX_PLAY_TIME_LEN && stop < hay.len() && hay[stop] == hay[quote]
}

/// Tests whether `name` stands in `hay` in harmless places only.
pub fn tame_element(hay: &[u8], name: &[u8]) -> (r: bool)
    ensures
        r == element_is_tame(hay@, name@),
{
    if name.len() > hay.len() {
        return true;
    }
    let last: usize = hay.len() - name.len();
    let mut at: usize = 0;
    loop
        invariant
            at <= last,
            last == hay.len() - name.len(),
            forall|k: int|
                0 <= k < at && found_at(hay@, name@, k) ==> harmless_at(hay@, name@, k),
        decreases last - at,
    {
        if starts_at(hay, name, at) && !harmless(hay, at, name.len()) {
            assert(found_at(hay@, name@, at as int) && !harmless_at(hay@, name@, at as int));
            return false;
        }
        if at == last {
            return true;
        }
        at = at + 1;
    }
}

/// Tests whether every value that `hay` gives to `name` is tame.
pub fn tame_attribute(hay: &[u8], name: &[u8]) -> (r: bool)
    ensures
        r == attribute_is_tame(hay@, name@),
{
    if name.len() > hay.len() {
        return true;
    }
    let last: usize = hay.len() - name.len();
    let mut at: usize = 0;
    loop
        invariant
            at <= last,
            last == hay.len() - name.len(),
            forall|k: int|
                0 <= k < at && assigned_at(hay@, name@, k) ==> tame_value_after(
                    hay@,
                    k + name@.len(),
                ),
        decreases last - at,
    {
        if assigned_here(hay, name, at) && !tame_value(hay, at + name.len()) {
            assert(assigned_at(hay@, name@, at as int) && !tame_value_after(
                hay@,
                at + name@.len(),
            ));
            return false;
        }
        if at == last {
            return true;
        }
        at = at + 1;
    }
}

/// Tests whether `needle` stands somewhere in `hay`.
pub fn contains_bytes(hay: &[u8], needle: &[u8]) -> (r: bool)
    ensures
        r == holds(hay@, needle@),
{
    if needle.len() > hay.len() {
        return false;
    }
    let last: usize = hay.len() - needle.len();
    let mut at: usize = 0;
    while at < last
        invariant
            at <= last,
            last == hay.len() - needle.len(),
            forall|k: int| 0 <= k < at ==> !found_at(hay@, needle@, k),
        decreases last - at,
    {
        if starts_at(hay, needle, at) {
            return true;
        }
        at = at + 1;
    }
    starts_at(hay, needle, last)
}

} // verus!
