//! Text as sequences of characters: searching, splitting, trimming and
//! replacing, each stated over `Seq<char>` and computed on slices of `char`.

use vstd::prelude::*;

verus! {

/// `String::push`. Trusted: the character is appended at the end.
pub assume_specification[ String::push ](s: &mut String, c: char)
    ensures
        final(s)@ == old(s)@.push(c),
;

/// `str`'s `==`. Trusted: two string slices are equal exactly when they hold
/// the same characters.
pub assume_specification[ <str as PartialEq>::eq ](a: &str, b: &str) -> (r: bool)
    ensures
        r == (a@ == b@),
;

/// The lower-case form of `text` as `str::to_lowercase` gives it.
pub uninterp spec fn lowercase(text: Seq<char>) -> Seq<char>;

/// `str::to_lowercase`. Trusted: the result is the lower-case form of `text`,
/// which depends on the characters of `text` alone.
#[verifier::external_body]
pub(crate) fn to_lowercase(text: &str) -> (lowered: String)
    ensures
        lowered@ == lowercase(text@),
{
    text.to_lowercase()
}

/// The characters of `s`, in order.
pub fn to_chars(s: &str) -> (v: Vec<char>)
    ensures
        v@ == s@,
{
    let mut v: Vec<char> = Vec::new();
    for c in it: s.chars()
        invariant
            v@ == it.seq().take(it.index() as int),
            it.seq() == s@,
    {
        v.push(c);
    }
    v
}

/// The string made of the characters of `v`, in order.
pub fn from_chars(v: &[char]) -> (s: String)
    ensures
        s@ == v@,
{
    let mut s = String::new();
    let mut i: usize = 0;
    while i < v.len()
        invariant
            i <= v.len(),
            s@ == v@.take(i as int),
        decreases v.len() - i,
    {
        s.push(v[i]);
        i += 1;
    }
    s
}

/// A copy of `text[from..to]`.
pub fn copy_range(text: &[char], from: usize, to: usize) -> (piece: Vec<char>)
    requires
        from <= to <= text.len(),
    ensures
        piece@ == text@.subrange(from as int, to as int),
{
    let mut piece: Vec<char> = Vec::new();
    let mut i: usize = from;
    while i < to
        invariant
            from <= i <= to <= text.len(),
            piece@ == text@.subrange(from as int, i as int),
        decreases to - i,
    {
        piece.push(text[i]);
        i += 1;
    }
    piece
}

/// `c` is white space: a character with the Unicode property `White_Space`.
pub open spec fn is_space(c: char) -> bool {
    let n: u32 = c as u32;
    ||| 0x09 <= n <= 0x0D
    ||| n == 0x20
    ||| n == 0x85
    ||| n == 0xA0
    ||| n == 0x1680
    ||| 0x2000 <= n <= 0x200A
    ||| n == 0x2028
    ||| n == 0x2029
    ||| n == 0x202F
    ||| n == 0x205F
    ||| n == 0x3000
}

/// Whether `c` is white space.
pub fn is_whitespace(c: char) -> (r: bool)
    ensures
        r == is_space(c),
{
    let n: u32 = c as u32;
    (0x09 <= n && n <= 0x0D) || n == 0x20 || n == 0x85 || n == 0xA0 || n == 0x1680 || (0x2000 <= n
        && n <= 0x200A) || n == 0x2028 || n == 0x2029 || n == 0x202F || n == 0x205F || n == 0x3000
}

/// `text` without the white space it begins with.
pub open spec fn trim_start(text: Seq<char>) -> Seq<char>
    decreases text.len(),
{
    if text.len() > 0 && is_space(text.first()) {
        trim_start(text.drop_first())
    } else {
        text
    }
}

/// `text` without the white space it ends with.
pub open spec fn trim_end(text: Seq<char>) -> Seq<char>
    decreases text.len(),
{
    if text.len() > 0 && is_space(text.last()) {
        trim_end(text.drop_last())
    } else {
        text
    }
}

/// `text` without the white space around it.
pub open spec fn trim(text: Seq<char>) -> Seq<char> {
    trim_end(trim_start(text))
}

/// `text` without the white space around it.
pub fn trimmed(text: &[char]) -> (inner: Vec<char>)
    ensures
        inner@ == trim(text@),
{
    let mut from: usize = 0;
    assert(text@.subrange(0, text.len() as int) =~= text@);
    while from < text.len() && is_whitespace(text[from])
        invariant
            from <= text.len(),
            trim_start(text@) == trim_start(text@.subrange(from as int, text.len() as int)),
        decreases text.len() - from,
    {
        assert(text@.subrange(from as int, text.len() as int).drop_first() =~= text@.subrange(
            from + 1,
            text.len() as int,
        ));
        from += 1;
    }
    let mut to: usize = text.len();
    while from < to && is_whitespace(text[to - 1])
        invariant
            from <= to <= text.len(),
            trim(text@) == trim_end(text@.subrange(from as int, to as int)),
        decreases to,
    {
        assert(text@.subrange(from as int, to as int).drop_last() =~= text@.subrange(
            from as int,
            to - 1,
        ));
        to -= 1;
    }
    copy_range(text, from, to)
}

/// `pattern` stands in `text` at index `at`.
pub open spec fn has_at(text: Seq<char>, pattern: Seq<char>, at: int) -> bool {
    &&& 0 <= at
    &&& at + pattern.len() <= text.len()
    &&& text.subrange(at, at + pattern.len()) == pattern
}

/// `pattern` occurs somewhere in `text`.
pub open spec fn contains(text: Seq<char>, pattern: Seq<char>) -> bool {
    exists|at: int| has_at(text, pattern, at)
}

/// Whether `pattern` stands in `text` at index `at`.
pub fn starts_at(text: &[char], pattern: &[char], at: usize) -> (r: bool)
    ensures
        r == has_at(text@, pattern@, at as int),
{
    if pattern.len() > text.len() || at > text.len() - pattern.len() {
        return false;
    }
    let mut k: usize = 0;
    while k < pattern.len()
        invariant
            k <= pattern.len(),
            at + pattern.len() <= text.len(),
            forall|j: int| 0 <= j < k ==> text@[at + j] == pattern@[j],
        decreases pattern.len() - k,
    {
        if text[at + k] != pattern[k] {
            assert(text@.subrange(at as int, at + pattern.len())[k as int] != pattern@[k as int]);
            return false;
        }
        k += 1;
    }
    assert(text@.subrange(at as int, at + pattern.len()) =~= pattern@);
    true
}

/// Whether `pattern` occurs somewhere in `text`.
pub fn has_pattern(text: &[char], pattern: &[char]) -> (r: bool)
    ensures
        r == contains(text@, pattern@),
{
    if pattern.len() > text.len() {
        return false;
    }
    let last: usize = text.len() - pattern.len();
    let mut at: usize = 0;
    loop
        invariant
            at <= last,
            last == text.len() - pattern.len(),
            forall|j: int| 0 <= j < at ==> !has_at(text@, pattern@, j),
        decreases last - at,
    {
        if starts_at(text, pattern, at) {
            return true;
        }
        if at == last {
            return false;
        }
        at += 1;
    }
}

/// The pieces of `text[start..]` between the occurrences of `separator`,
/// found from left to right without overlap, where no piece can begin before
/// `start` and no occurrence before `at`.
pub open spec fn split_scan(text: Seq<char>, separator: Seq<char>, start: int, at: int) -> Seq<
    Seq<char>,
>
    decreases text.len() - at,
{
    if separator.len() == 0 || at < 0 || at + separator.len() > text.len() {
        seq![text.subrange(start, text.len() as int)]
    } else if has_at(text, separator, at) {
        seq![text.subrange(start, at)] + split_scan(
            text,
            separator,
            at + separator.len(),
            at + separator.len(),
        )
    } else {
        split_scan(text, separator, start, at + 1)
    }
}

/// The pieces of `text` between the occurrences of `separator`, found from
/// left to right without overlap. A text without the separator is one piece,
/// and an empty separator parts nothing.
pub open spec fn split(text: Seq<char>, separator: Seq<char>) -> Seq<Seq<char>> {
    split_scan(text, separator, 0, 0)
}

/// What the rows hold.
pub open spec fn rows(pieces: Seq<Vec<char>>) -> Seq<Seq<char>> {
    Seq::new(pieces.len(), |i: int| pieces[i]@)
}

/// The pieces of `text` between the occurrences of `separator`; the whole
/// text as one piece where the separator is empty.
pub fn split_on(text: &[char], separator: &[char]) -> (pieces: Vec<Vec<char>>)
    ensures
        rows(pieces@) == split(text@, separator@),
        pieces.len() >= 1,
{
    let mut pieces: Vec<Vec<char>> = Vec::new();
    if separator.len() == 0 {
        let whole = copy_range(text, 0, text.len());
        pieces.push(whole);
        assert(rows(pieces@) =~= seq![whole@]);
        return pieces;
    }
    let mut start: usize = 0;
    let mut at: usize = 0;
    assert(rows(pieces@) =~= Seq::<Seq<char>>::empty());
    while separator.len() <= text.len() && at <= text.len() - separator.len()
        invariant
            separator.len() > 0,
            start <= at <= text.len(),
            rows(pieces@) + split_scan(text@, separator@, start as int, at as int) == split(
                text@,
                separator@,
            ),
        decreases text.len() - at,
    {
        if starts_at(text, separator, at) {
            let piece = copy_range(text, start, at);
            proof {
                assert(rows(pieces@.push(piece)) =~= rows(pieces@) + seq![piece@]);
            }
            pieces.push(piece);
            at += separator.len();
            start = at;
        } else {
            at += 1;
        }
    }
    let piece = copy_range(text, start, text.len());
    proof {
        assert(rows(pieces@.push(piece)) =~= rows(pieces@) + seq![piece@]);
    }
    pieces.push(piece);
    pieces
}

/// `text[at..]` with each occurrence of `from`, found from left to right
/// without overlap, replaced by `to`.
pub open spec fn replace_scan(text: Seq<char>, from: Seq<char>, to: Seq<char>, at: int) -> Seq<
    char,
>
    decreases text.len() - at,
{
    if from.len() == 0 || at < 0 || at + from.len() > text.len() {
        text.subrange(at, text.len() as int)
    } else if has_at(text, from, at) {
        to + replace_scan(text, from, to, at + from.len())
    } else {
        seq![text[at]] + replace_scan(text, from, to, at + 1)
    }
}

/// `text` with each occurrence of `from`, found from left to right without
/// overlap, replaced by `to`. An empty `from` occurs nowhere.
pub open spec fn replace(text: Seq<char>, from: Seq<char>, to: Seq<char>) -> Seq<char> {
    replace_scan(text, from, to, 0)
}

/// `text` with each occurrence of `from` replaced by `to`; the text as it is
/// where `from` is empty.
pub fn replace_all(text: &[char], from: &[char], to: &[char]) -> (out: Vec<char>)
    ensures
        out@ == replace(text@, from@, to@),
{
    if from.len() == 0 {
        return copy_range(text, 0, text.len());
    }
    let mut out: Vec<char> = Vec::new();
    let mut at: usize = 0;
    while from.len() <= text.len() && at <= text.len() - from.len()
        invariant
            from.len() > 0,
            at <= text.len(),
            out@ + replace_scan(text@, from@, to@, at as int) == replace(text@, from@, to@),
        decreases text.len() - at,
    {
        if starts_at(text, from, at) {
            let ghost before = out@;
            append_chars(&mut out, to);
            assert(before + (to@ + replace_scan(text@, from@, to@, at + from.len())) =~= (before
                + to@) + replace_scan(text@, from@, to@, at + from.len()));
            at += from.len();
        } else {
            let ghost before = out@;
            out.push(text[at]);
            assert(before + (seq![text@[at as int]] + replace_scan(text@, from@, to@, at + 1))
                =~= before.push(text@[at as int]) + replace_scan(text@, from@, to@, at + 1));
            at += 1;
        }
    }
    let rest = copy_range(text, at, text.len());
    append_chars(&mut out, rest.as_slice());
    out
}

/// Appends the characters of `more` to `out`.
pub fn append_chars(out: &mut Vec<char>, more: &[char])
    ensures
        final(out)@ == old(out)@ + more@,
{
    let mut i: usize = 0;
    while i < more.len()
        invariant
            i <= more.len(),
            out@ == old(out)@ + more@.take(i as int),
        decreases more.len() - i,
    {
        out.push(more[i]);
        assert(more@.take(i + 1) =~= more@.take(i as int).push(more@[i as int]));
        i += 1;
    }
    assert(more@.take(i as int) =~= more@);
}

} // verus!
