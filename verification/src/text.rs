//! Character-level helpers shared by the rest of the crate: conversion between
//! strings and character vectors, whitespace, searching and trimming.

use vstd::prelude::*;

verus! {

/// `String::push` appends exactly one character.
pub assume_specification[ String::push ](s: &mut String, ch: char)
    ensures
        final(s)@ == old(s)@.push(ch),
;

/// The characters of a string, in order.
pub fn chars_of(s: &str) -> (out: Vec<char>)
    ensures
        out@ == s@,
{
    let mut out: Vec<char> = Vec::new();
    for c in it: s.chars()
        invariant
            it.seq() == s@,
            out@ == s@.take(it.index()),
    {
        out.push(c);
    }
    out
}

/// The string made of the given characters, in order.
pub fn string_of(v: &Vec<char>) -> (out: String)
    ensures
        out@ == v@,
{
    let mut out = String::new();
    let mut i: usize = 0;
    while i < v.len()
        invariant
            i <= v.len(),
            out@ == v@.take(i as int),
        decreases v.len() - i,
    {
        out.push(v[i]);
        i += 1;
    }
    out
}

/// Appends all of `tail` to `out`.
pub fn extend_chars(out: &mut Vec<char>, tail: &Vec<char>)
    ensures
        final(out)@ == old(out)@ + tail@,
{
    let mut i: usize = 0;
    while i < tail.len()
        invariant
            i <= tail.len(),
            out@ == old(out)@ + tail@.take(i as int),
        decreases tail.len() - i,
    {
        out.push(tail[i]);
        i += 1;
    }
}

/// Appends the characters of a string slice to `out`.
pub fn extend_str(out: &mut Vec<char>, tail: &str)
    ensures
        final(out)@ == old(out)@ + tail@,
{
    let t = chars_of(tail);
    extend_chars(out, &t);
}

/// Unicode white space: the characters with the `White_Space` property.
pub open spec fn spec_is_space(c: char) -> bool {
    let n = c as u32;
    ||| 0x09 <= n <= 0x0D
    ||| n == 0x20
    ||| n == 0x85
    ||| n == 0xA0
    ||| n == 0x1680
    ||| 0x2000 <= n <= 0x200A
    ||| n == 0x2028
    ||| n == 0x2029
    ||| n == 0x202F
    ||| n == 0x205F
    ||| n == 0x3000
}

/// Whether a character is Unicode white space.
#[verifier::when_used_as_spec(spec_is_space)]
pub fn is_space(c: char) -> (b: bool)
    ensures
        b == spec_is_space(c),
{
    let n: u32 = c as u32;
    (0x09 <= n && n <= 0x0D) || n == 0x20 || n == 0x85 || n == 0xA0 || n == 0x1680 || (0x2000 <= n
        && n <= 0x200A) || n == 0x2028 || n == 0x2029 || n == 0x202F || n == 0x205F || n == 0x3000
}

/// The first index at or after `i` that holds no white space (`s.len()` if
/// every character from `i` on is white space).
pub open spec fn spec_skip_spaces(s: Seq<char>, i: int) -> int
    decreases s.len() - i,
{
    if 0 <= i < s.len() && is_space(s[i]) {
        spec_skip_spaces(s, i + 1)
    } else {
        i
    }
}

/// Where skipping white space ends: behind white space only, and at a
/// character that is none or at the end.
pub proof fn lemma_skip_spaces(s: Seq<char>, i: int)
    requires
        0 <= i <= s.len(),
    ensures
        i <= spec_skip_spaces(s, i) <= s.len(),
        forall|k: int| i <= k < spec_skip_spaces(s, i) ==> is_space(#[trigger] s[k]),
        spec_skip_spaces(s, i) < s.len() ==> !is_space(s[spec_skip_spaces(s, i)]),
    decreases s.len() - i,
{
    if i < s.len() && is_space(s[i]) {
        lemma_skip_spaces(s, i + 1);
    }
}

/// The first index at or after `i` that holds no white space.
pub fn skip_spaces(s: &Vec<char>, i: usize) -> (j: usize)
    ensures
        j == spec_skip_spaces(s@, i as int),
        i <= j,
        i <= s.len() ==> j <= s.len(),
{
    let mut j: usize = i;
    while j < s.len() && is_space(s[j])
        invariant
            i <= j,
            i <= s.len() ==> j <= s.len(),
            spec_skip_spaces(s@, i as int) == spec_skip_spaces(s@, j as int),
        decreases s.len() - j,
    {
        j += 1;
    }
    j
}

/// The first index at or after `i` that holds `c` (`s.len()` if there is none).
pub open spec fn spec_find_char(s: Seq<char>, i: int, c: char) -> int
    decreases s.len() - i,
{
    if 0 <= i < s.len() && s[i] != c {
        spec_find_char(s, i + 1, c)
    } else {
        i
    }
}

/// Where a search ends: behind other characters only, and at the
/// character or at the end.
pub proof fn lemma_find_char(s: Seq<char>, i: int, c: char)
    requires
        0 <= i <= s.len(),
    ensures
        i <= spec_find_char(s, i, c) <= s.len(),
        forall|k: int| i <= k < spec_find_char(s, i, c) ==> #[trigger] s[k] != c,
        spec_find_char(s, i, c) < s.len() ==> s[spec_find_char(s, i, c)] == c,
    decreases s.len() - i,
{
    if i < s.len() && s[i] != c {
        lemma_find_char(s, i + 1, c);
    }
}

/// Any index that holds `c` with none before it (from `i` on) is the first.
pub proof fn lemma_find_char_unique(s: Seq<char>, i: int, c: char, j: int)
    requires
        0 <= i <= j <= s.len(),
        forall|k: int| i <= k < j ==> #[trigger] s[k] != c,
        j < s.len() ==> s[j] == c,
    ensures
        spec_find_char(s, i, c) == j,
    decreases j - i,
{
    if i < j {
        lemma_find_char_unique(s, i + 1, c, j);
    }
}

/// The first index at or after `i` that holds `c`.
pub fn find_char(s: &Vec<char>, i: usize, c: char) -> (j: usize)
    ensures
        j == spec_find_char(s@, i as int, c),
        i <= j,
        i <= s.len() ==> j <= s.len(),
{
    let mut j: usize = i;
    while j < s.len() && s[j] != c
        invariant
            i <= j,
            i <= s.len() ==> j <= s.len(),
            spec_find_char(s@, i as int, c) == spec_find_char(s@, j as int, c),
        decreases s.len() - j,
    {
        j += 1;
    }
    j
}

/// A search for one character that remembers its last answer, so that
/// searches from indices that only grow look at no character twice.
pub(crate) struct Finder {
    c: char,
    from: usize,
    at: usize,
}

impl Finder {
    /// The character that is searched for.
    pub(crate) closed spec fn target(&self) -> char {
        self.c
    }

    /// Whether the finder remembers a true answer about `s`.
    pub(crate) closed spec fn valid_for(&self, s: Seq<char>) -> bool {
        &&& self.from <= self.at <= s.len()
        &&& self.at == spec_find_char(s, self.from as int, self.c)
    }

    /// A finder for `c` in `s`.
    pub(crate) fn new(s: &Vec<char>, c: char) -> (finder: Self)
        ensures
            finder.valid_for(s@),
            finder.target() == c,
    {
        Finder { c, from: 0, at: find_char(s, 0, c) }
    }

    /// The first index at or after `i` that holds the character.
    pub(crate) fn find(&mut self, s: &Vec<char>, i: usize) -> (j: usize)
        requires
            i <= s.len(),
            old(self).valid_for(s@),
        ensures
            final(self).valid_for(s@),
            final(self).target() == old(self).target(),
            j == spec_find_char(s@, i as int, old(self).target()),
            i <= j <= s.len(),
    {
        if self.from <= i && i <= self.at {
            proof {
                lemma_find_char(s@, self.from as int, self.c);
                lemma_find_char_unique(s@, i as int, self.c, self.at as int);
            }
            self.from = i;
        } else {
            self.from = i;
            self.at = find_char(s, i, self.c);
        }
        self.at
    }
}

/// Whether `w` stands in `s` at index `i`.
pub open spec fn spec_has_word(s: Seq<char>, i: int, w: Seq<char>) -> bool {
    &&& 0 <= i
    &&& i + w.len() <= s.len()
    &&& s.subrange(i, i + w.len()) == w
}

/// Whether `w` stands in `s` at index `i`.
pub fn has_word(s: &Vec<char>, i: usize, w: &Vec<char>) -> (b: bool)
    ensures
        b == spec_has_word(s@, i as int, w@),
{
    if i > s.len() || w.len() > s.len() - i {
        return false;
    }
    let mut k: usize = 0;
    while k < w.len()
        invariant
            i + w.len() <= s.len(),
            k <= w.len(),
            s@.subrange(i as int, i + k) == w@.take(k as int),
        decreases w.len() - k,
    {
        if s[i + k] != w[k] {
            return false;
        }
        k += 1;
    }
    assert(w@.take(w.len() as int) == w@);
    true
}

/// The characters of `s` from `from` up to, not including, `to`.
pub(crate) fn slice_chars(s: &Vec<char>, from: usize, to: usize) -> (out: Vec<char>)
    requires
        from <= to <= s.len(),
    ensures
        out@ == s@.subrange(from as int, to as int),
{
    let mut out: Vec<char> = Vec::new();
    let mut k: usize = from;
    while k < to
        invariant
            from <= k <= to <= s.len(),
            out@ == s@.subrange(from as int, k as int),
        decreases to - k,
    {
        out.push(s[k]);
        k += 1;
    }
    out
}

/// The end of `s` once trailing white space is dropped: the least `j` such
/// that everything from `j` on is white space.
pub open spec fn spec_trim_end(s: Seq<char>, j: int) -> int
    decreases j,
{
    if 0 < j <= s.len() && is_space(s[j - 1]) {
        spec_trim_end(s, j - 1)
    } else {
        j
    }
}

/// `s` without its leading and trailing white space.
pub open spec fn spec_trim(s: Seq<char>) -> Seq<char> {
    let a = spec_skip_spaces(s, 0);
    let b = spec_trim_end(s, s.len() as int);
    if a < b {
        s.subrange(a, b)
    } else {
        Seq::empty()
    }
}

/// `s` without its leading and trailing white space.
pub fn trim(s: &Vec<char>) -> (out: Vec<char>)
    ensures
        out@ == spec_trim(s@),
{
    let a = skip_spaces(s, 0);
    let mut b: usize = s.len();
    while b > 0 && is_space(s[b - 1])
        invariant
            b <= s.len(),
            spec_trim_end(s@, s.len() as int) == spec_trim_end(s@, b as int),
        decreases b,
    {
        b -= 1;
    }
    if a < b {
        slice_chars(s, a, b)
    } else {
        Vec::new()
    }
}


/// The characters of an optional string.
pub open spec fn opt_text(o: Option<String>) -> Option<Seq<char>> {
    match o {
        Some(s) => Some(s@),
        None => None,
    }
}

/// The characters of each string of a sequence.
pub open spec fn texts(v: Seq<String>) -> Seq<Seq<char>> {
    v.map_values(|s: String| s@)
}

/// The two strings, one after the other.
pub fn concat2(a: &str, b: &str) -> (out: String)
    ensures
        out@ == a@ + b@,
{
    let mut chars = chars_of(a);
    extend_str(&mut chars, b);
    string_of(&chars)
}

/// The three strings, one after the other.
pub fn concat3(a: &str, b: &str, c: &str) -> (out: String)
    ensures
        out@ == a@ + b@ + c@,
{
    let mut chars = chars_of(a);
    extend_str(&mut chars, b);
    extend_str(&mut chars, c);
    string_of(&chars)
}


/// Whether two strings hold the same characters.
pub fn same_text(a: &str, b: &str) -> (same: bool)
    ensures
        same == (a@ == b@),
{
    let x = chars_of(a);
    let y = chars_of(b);
    if x.len() != y.len() {
        return false;
    }
    let mut i: usize = 0;
    while i < x.len()
        invariant
            i <= x.len(),
            x.len() == y.len(),
            x@ == a@,
            y@ == b@,
            forall|k: int| 0 <= k < i ==> x@[k] == y@[k],
        decreases x.len() - i,
    {
        if x[i] != y[i] {
            return false;
        }
        i += 1;
    }
    assert(x@ =~= y@);
    true
}


/// Whether two optional strings are both absent or hold the same
/// characters.
pub fn same_opt_text(a: &Option<String>, b: &Option<String>) -> (same: bool)
    ensures
        same == (opt_text(*a) == opt_text(*b)),
{
    match (a, b) {
        (Some(x), Some(y)) => same_text(x.as_str(), y.as_str()),
        (None, None) => true,
        _ => false,
    }
}

} // verus!
