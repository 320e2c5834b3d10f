//! Rewriting feed HTML into chat markup.
//!
//! Content is rewritten in passes. Each pass looks for one kind of tag from
//! left to right; where a tag starts it is replaced and the scan goes on
//! behind it, otherwise the character is kept. Anchors become links
//! before the last pass drops every tag that is left.

use crate::text::{
    chars_of, extend_chars, has_word, lemma_find_char, lemma_find_char_unique,
    lemma_skip_spaces, skip_spaces, slice_chars, spec_find_char, spec_has_word,
    spec_skip_spaces, string_of, Finder,
};
use vstd::prelude::*;

verus! {

/// The kinds of tag that a pass can replace.
#[derive(Clone, Copy, PartialEq, Eq, Debug)]
pub enum Tag {
    /// `<p>` and `</p>`, which become a line break.
    Paragraph,
    /// `<br>` and `<br/>`, which become a line break.
    LineBreak,
    /// `<strong>` and `</strong>`, which become `**`.
    Strong,
    /// `<var>`, `<small>` and their closing forms, which are dropped.
    Silent,
    /// Anything of the shape `<...>` with at least one character between
    /// the brackets, none of them `>`; it is dropped.
    Other,
}

/// Where the tag `name` that starts at `i` ends, if one starts there.
///
/// The tag is `<`, then `/` if `closing` allows it, white space, the name,
/// white space, then `/` and more white space if `self_closing` allows it,
/// and `>`.
pub open spec fn named_tag_end(
    s: Seq<char>,
    i: int,
    name: Seq<char>,
    closing: bool,
    self_closing: bool,
) -> Option<int> {
    if 0 <= i < s.len() && s[i] == '<' {
        let a = if closing && i + 1 < s.len() && s[i + 1] == '/' {
            i + 2
        } else {
            i + 1
        };
        let b = spec_skip_spaces(s, a);
        if spec_has_word(s, b, name) {
            let c = spec_skip_spaces(s, b + name.len());
            let d = if self_closing && c < s.len() && s[c] == '/' {
                spec_skip_spaces(s, c + 1)
            } else {
                c
            };
            if d < s.len() && s[d] == '>' {
                Some(d + 1)
            } else {
                None
            }
        } else {
            None
        }
    } else {
        None
    }
}

/// Where a tag of any name that starts at `i` ends, if one starts there.
pub open spec fn any_tag_end(s: Seq<char>, i: int) -> Option<int> {
    if 0 <= i < s.len() && s[i] == '<' {
        let g = spec_find_char(s, i + 1, '>');
        if i + 1 < g < s.len() {
            Some(g + 1)
        } else {
            None
        }
    } else {
        None
    }
}

/// Where a tag of the given kind that starts at `i` ends, if one starts there.
pub open spec fn tag_end(kind: Tag, s: Seq<char>, i: int) -> Option<int> {
    match kind {
        Tag::Paragraph => named_tag_end(s, i, seq!['p'], true, false),
        Tag::LineBreak => named_tag_end(s, i, seq!['b', 'r'], false, true),
        Tag::Strong => named_tag_end(s, i, seq!['s', 't', 'r', 'o', 'n', 'g'], true, false),
        Tag::Silent => {
            let var = named_tag_end(s, i, seq!['v', 'a', 'r'], true, false);
            if var is Some {
                var
            } else {
                named_tag_end(s, i, seq!['s', 'm', 'a', 'l', 'l'], true, false)
            }
        },
        Tag::Other => any_tag_end(s, i),
    }
}

/// What a tag of the given kind is replaced with.
pub open spec fn tag_text(kind: Tag) -> Seq<char> {
    match kind {
        Tag::Paragraph => seq!['\n'],
        Tag::LineBreak => seq!['\n'],
        Tag::Strong => seq!['*', '*'],
        Tag::Silent => Seq::empty(),
        Tag::Other => Seq::empty(),
    }
}

/// The rewriting of `s` from index `i` on, for one kind of tag.
pub open spec fn replace_tags_from(kind: Tag, s: Seq<char>, i: int) -> Seq<char>
    decreases s.len() - i,
{
    if 0 <= i < s.len() {
        let end = tag_end(kind, s, i);
        if end is Some && i < end->0 <= s.len() {
            tag_text(kind) + replace_tags_from(kind, s, end->0)
        } else {
            seq![s[i]] + replace_tags_from(kind, s, i + 1)
        }
    } else {
        Seq::empty()
    }
}

/// One pass over the whole of `s`.
pub open spec fn replace_tags(kind: Tag, s: Seq<char>) -> Seq<char> {
    replace_tags_from(kind, s, 0)
}

/// A tag that starts at `i` ends behind `i`, within `s`.
pub proof fn lemma_tag_end_bounds(kind: Tag, s: Seq<char>, i: int)
    ensures
        tag_end(kind, s, i) matches Some(j) ==> 0 <= i && i + 2 < j <= s.len(),
{
    match kind {
        Tag::Other => {
            if 0 <= i < s.len() {
                lemma_find_char(s, i + 1, '>');
            }
        },
        Tag::Paragraph => lemma_named_tag_end(s, i, seq!['p'], true, false),
        Tag::LineBreak => lemma_named_tag_end(s, i, seq!['b', 'r'], false, true),
        Tag::Strong => lemma_named_tag_end(s, i, seq!['s', 't', 'r', 'o', 'n', 'g'], true, false),
        Tag::Silent => {
            lemma_named_tag_end(s, i, seq!['v', 'a', 'r'], true, false);
            lemma_named_tag_end(s, i, seq!['s', 'm', 'a', 'l', 'l'], true, false);
        },
    }
}

/// A named tag is a tag of any name, with the same end, when neither its
/// name nor white space holds a `>`.
pub proof fn lemma_named_tag_end(
    s: Seq<char>,
    i: int,
    name: Seq<char>,
    closing: bool,
    self_closing: bool,
)
    requires
        name.len() > 0,
        forall|k: int| 0 <= k < name.len() ==> #[trigger] name[k] != '>',
    ensures
        named_tag_end(s, i, name, closing, self_closing) matches Some(j) ==> {
            &&& 0 <= i
            &&& i + 2 < j <= s.len()
            &&& any_tag_end(s, i) == Some(j)
        },
{
    if named_tag_end(s, i, name, closing, self_closing) is Some {
        let a = if closing && i + 1 < s.len() && s[i + 1] == '/' {
            i + 2
        } else {
            i + 1
        };
        lemma_skip_spaces(s, a);
        let b = spec_skip_spaces(s, a);
        lemma_skip_spaces(s, b + name.len());
        let c = spec_skip_spaces(s, b + name.len());
        if self_closing && c < s.len() && s[c] == '/' {
            lemma_skip_spaces(s, c + 1);
        }
        let d = if self_closing && c < s.len() && s[c] == '/' {
            spec_skip_spaces(s, c + 1)
        } else {
            c
        };
        assert forall|k: int| i + 1 <= k < d implies #[trigger] s[k] != '>' by {
            if b <= k < b + name.len() {
                assert(s.subrange(b, b + name.len())[k - b] == name[k - b]);
            }
        }
        lemma_find_char_unique(s, i + 1, '>', d);
    }
}

fn named_tag_at(s: &Vec<char>, i: usize, name: &Vec<char>, closing: bool, self_closing: bool) -> (end:
    Option<usize>)
    requires
        i < s.len(),
    ensures
        match end {
            Some(j) => named_tag_end(s@, i as int, name@, closing, self_closing) == Some(j as int),
            None => named_tag_end(s@, i as int, name@, closing, self_closing) is None,
        },
{
    if s[i] != '<' {
        return None;
    }
    let a: usize = if closing && i + 1 < s.len() && s[i + 1] == '/' {
        i + 2
    } else {
        i + 1
    };
    let b = skip_spaces(s, a);
    if !has_word(s, b, name) {
        return None;
    }
    let c = skip_spaces(s, b + name.len());
    let d: usize = if self_closing && c < s.len() && s[c] == '/' {
        skip_spaces(s, c + 1)
    } else {
        c
    };
    if d < s.len() && s[d] == '>' {
        Some(d + 1)
    } else {
        None
    }
}

fn any_tag_at(s: &Vec<char>, i: usize, brackets: &mut Finder) -> (end: Option<usize>)
    requires
        i < s.len(),
        old(brackets).valid_for(s@),
        old(brackets).target() == '>',
    ensures
        final(brackets).valid_for(s@),
        final(brackets).target() == '>',
        match end {
            Some(j) => any_tag_end(s@, i as int) == Some(j as int),
            None => any_tag_end(s@, i as int) is None,
        },
{
    if s[i] != '<' {
        return None;
    }
    let g = brackets.find(s, i + 1);
    if i + 1 < g && g < s.len() {
        Some(g + 1)
    } else {
        None
    }
}

/// Whether `first` and `second` are the names that a pass for `kind` looks
/// for. Only the kinds with a name say anything of them.
pub open spec fn names_of(kind: Tag, first: Seq<char>, second: Seq<char>) -> bool {
    match kind {
        Tag::Paragraph => first == seq!['p'],
        Tag::LineBreak => first == seq!['b', 'r'],
        Tag::Strong => first == seq!['s', 't', 'r', 'o', 'n', 'g'],
        Tag::Silent => first == seq!['v', 'a', 'r'] && second == seq!['s', 'm', 'a', 'l', 'l'],
        Tag::Other => true,
    }
}

fn tag_names(kind: Tag) -> (names: (Vec<char>, Vec<char>))
    ensures
        names_of(kind, names.0@, names.1@),
{
    proof {
        reveal_strlit("p");
        reveal_strlit("br");
        reveal_strlit("strong");
        reveal_strlit("var");
        reveal_strlit("small");
    }
    let (first, second) = match kind {
        Tag::Paragraph => ("p", ""),
        Tag::LineBreak => ("br", ""),
        Tag::Strong => ("strong", ""),
        Tag::Silent => ("var", "small"),
        Tag::Other => ("", ""),
    };
    let names = (chars_of(first), chars_of(second));
    match kind {
        Tag::Paragraph => assert(first@ =~= seq!['p']),
        Tag::LineBreak => assert(first@ =~= seq!['b', 'r']),
        Tag::Strong => assert(first@ =~= seq!['s', 't', 'r', 'o', 'n', 'g']),
        Tag::Silent => {
            assert(first@ =~= seq!['v', 'a', 'r']);
            assert(second@ =~= seq!['s', 'm', 'a', 'l', 'l']);
        },
        Tag::Other => {},
    }
    names
}

fn tag_at(
    kind: Tag,
    s: &Vec<char>,
    i: usize,
    names: &(Vec<char>, Vec<char>),
    brackets: &mut Finder,
) -> (end: Option<usize>)
    requires
        i < s.len(),
        names_of(kind, names.0@, names.1@),
        old(brackets).valid_for(s@),
        old(brackets).target() == '>',
    ensures
        final(brackets).valid_for(s@),
        final(brackets).target() == '>',
        match end {
            Some(j) => tag_end(kind, s@, i as int) == Some(j as int) && i < j <= s.len(),
            None => tag_end(kind, s@, i as int) is None,
        },
{
    proof {
        lemma_tag_end_bounds(kind, s@, i as int);
    }
    match kind {
        Tag::Paragraph => named_tag_at(s, i, &names.0, true, false),
        Tag::LineBreak => named_tag_at(s, i, &names.0, false, true),
        Tag::Strong => named_tag_at(s, i, &names.0, true, false),
        Tag::Silent => {
            let var = named_tag_at(s, i, &names.0, true, false);
            if var.is_some() {
                var
            } else {
                named_tag_at(s, i, &names.1, true, false)
            }
        },
        Tag::Other => any_tag_at(s, i, brackets),
    }
}

/// Runs one pass over `s`.
pub fn replace_tags_in(kind: Tag, s: &Vec<char>) -> (out: Vec<char>)
    ensures
        out@ == replace_tags(kind, s@),
{
    let names = tag_names(kind);
    let mut brackets = Finder::new(s, '>');
    let mut out: Vec<char> = Vec::new();
    let mut i: usize = 0;
    while i < s.len()
        invariant
            i <= s.len(),
            out@ + replace_tags_from(kind, s@, i as int) == replace_tags(kind, s@),
            names_of(kind, names.0@, names.1@),
            brackets.valid_for(s@),
            brackets.target() == '>',
        decreases s.len() - i,
    {
        match tag_at(kind, s, i, &names, &mut brackets) {
            Some(j) => {
                match kind {
                    Tag::Paragraph | Tag::LineBreak => out.push('\n'),
                    Tag::Strong => {
                        out.push('*');
                        out.push('*');
                    },
                    Tag::Silent | Tag::Other => {},
                }
                i = j;
            },
            None => {
                out.push(s[i]);
                i += 1;
            },
        }
    }
    out
}

/// The parts of an anchor `<a href="url">text</a>` found in some text.
pub struct Anchor {
    /// Where the address starts.
    pub url_from: int,
    /// Where the address ends: at the first `"` behind its start.
    pub url_to: int,
    /// Where the link text starts.
    pub text_from: int,
    /// Where the link text ends: at the first `<` behind its start.
    pub text_to: int,
    /// Where the whole anchor ends.
    pub end: int,
}

/// The opening of an anchor up to its address: `<a href="`.
pub open spec fn anchor_open() -> Seq<char> {
    seq!['<', 'a', ' ', 'h', 'r', 'e', 'f', '=', '"']
}

/// The closing tag of an anchor: `</a>`.
pub open spec fn anchor_close() -> Seq<char> {
    seq!['<', '/', 'a', '>']
}

/// The anchor that starts at `i`, if one starts there: `<a href="`, an
/// address of at least one character without `"`, then `">`, a text of at
/// least one character without `<`, and `</a>`.
pub open spec fn anchor_at(s: Seq<char>, i: int) -> Option<Anchor> {
    if spec_has_word(s, i, anchor_open()) {
        let url_from = i + anchor_open().len();
        let url_to = spec_find_char(s, url_from, '"');
        if url_from < url_to && url_to + 1 < s.len() && s[url_to + 1] == '>' {
            let text_from = url_to + 2;
            let text_to = spec_find_char(s, text_from, '<');
            if text_from < text_to && spec_has_word(s, text_to, anchor_close()) {
                Some(
                    Anchor {
                        url_from,
                        url_to,
                        text_from,
                        text_to,
                        end: text_to + anchor_close().len(),
                    },
                )
            } else {
                None
            }
        } else {
            None
        }
    } else {
        None
    }
}

/// The chat markup for an anchor: `[text](url)`.
pub open spec fn anchor_markup(s: Seq<char>, a: Anchor) -> Seq<char> {
    seq!['['] + s.subrange(a.text_from, a.text_to) + seq![']', '('] + s.subrange(
        a.url_from,
        a.url_to,
    ) + seq![')']
}

/// The rewriting of the anchors of `s` from index `i` on.
pub open spec fn link_anchors_from(s: Seq<char>, i: int) -> Seq<char>
    decreases s.len() - i,
{
    if 0 <= i < s.len() {
        let found = anchor_at(s, i);
        if found is Some && i < found->0.end <= s.len() {
            anchor_markup(s, found->0) + link_anchors_from(s, found->0.end)
        } else {
            seq![s[i]] + link_anchors_from(s, i + 1)
        }
    } else {
        Seq::empty()
    }
}

/// `s` with every anchor, found from left to right, turned into `[text](url)`.
pub open spec fn href_to_discord(s: Seq<char>) -> Seq<char> {
    link_anchors_from(s, 0)
}

/// The parts of an anchor lie in order inside the text, and an anchor is a
/// tag of any name at its start.
pub proof fn lemma_anchor_at(s: Seq<char>, i: int)
    ensures
        anchor_at(s, i) matches Some(a) ==> {
            &&& 0 <= i < a.url_from < a.url_to < a.text_from < a.text_to < a.end <= s.len()
            &&& any_tag_end(s, i) is Some
        },
{
    if anchor_at(s, i) is Some {
        let a = anchor_at(s, i)->0;
        lemma_find_char(s, a.url_from, '"');
        lemma_find_char(s, a.text_from, '<');
        lemma_find_char(s, i + 1, '>');
        // The `>` behind the address is a `>` behind the start.
        if spec_find_char(s, i + 1, '>') >= s.len() {
            assert(s[a.url_to + 1] != '>');
        }
    }
}

struct AnchorAt {
    url_from: usize,
    url_to: usize,
    text_from: usize,
    text_to: usize,
    end: usize,
}

impl AnchorAt {
    spec fn view(&self) -> Anchor {
        Anchor {
            url_from: self.url_from as int,
            url_to: self.url_to as int,
            text_from: self.text_from as int,
            text_to: self.text_to as int,
            end: self.end as int,
        }
    }
}

fn find_anchor(
    s: &Vec<char>,
    i: usize,
    open: &Vec<char>,
    close: &Vec<char>,
    quotes: &mut Finder,
    brackets: &mut Finder,
) -> (found: Option<AnchorAt>)
    requires
        i < s.len(),
        open@ == anchor_open(),
        close@ == anchor_close(),
        old(quotes).valid_for(s@),
        old(quotes).target() == '"',
        old(brackets).valid_for(s@),
        old(brackets).target() == '<',
    ensures
        final(quotes).valid_for(s@),
        final(quotes).target() == '"',
        final(brackets).valid_for(s@),
        final(brackets).target() == '<',
        match found {
            Some(a) => anchor_at(s@, i as int) == Some(a@),
            None => anchor_at(s@, i as int) is None,
        },
{
    if !has_word(s, i, open) {
        return None;
    }
    let url_from: usize = i + open.len();
    let url_to = quotes.find(s, url_from);
    if !(url_from < url_to && url_to < s.len() - 1 && s[url_to + 1] == '>') {
        return None;
    }
    let text_from: usize = url_to + 2;
    let text_to = brackets.find(s, text_from);
    if !(text_from < text_to && has_word(s, text_to, close)) {
        return None;
    }
    Some(AnchorAt { url_from, url_to, text_from, text_to, end: text_to + close.len() })
}

/// Rewrites every anchor of `s`, found from left to right, as `[text](url)`.
pub fn link_anchors(s: &Vec<char>) -> (out: Vec<char>)
    ensures
        out@ == href_to_discord(s@),
{
    proof {
        reveal_strlit("<a href=\"");
        reveal_strlit("</a>");
    }
    let open = chars_of("<a href=\"");
    let close = chars_of("</a>");
    let mut quotes = Finder::new(s, '"');
    let mut brackets = Finder::new(s, '<');
    let mut out: Vec<char> = Vec::new();
    let mut i: usize = 0;
    while i < s.len()
        invariant
            i <= s.len(),
            open@ == anchor_open(),
            close@ == anchor_close(),
            quotes.valid_for(s@),
            quotes.target() == '"',
            brackets.valid_for(s@),
            brackets.target() == '<',
            out@ + link_anchors_from(s@, i as int) == href_to_discord(s@),
        decreases s.len() - i,
    {
        proof {
            lemma_anchor_at(s@, i as int);
        }
        match find_anchor(s, i, &open, &close, &mut quotes, &mut brackets) {
            Some(a) => {
                let text = slice_chars(s, a.text_from, a.text_to);
                let url = slice_chars(s, a.url_from, a.url_to);
                out.push('[');
                extend_chars(&mut out, &text);
                out.push(']');
                out.push('(');
                extend_chars(&mut out, &url);
                out.push(')');
                i = a.end;
            },
            None => {
                out.push(s[i]);
                i += 1;
            },
        }
    }
    out
}

/// Rewrites every `<a href="url">text</a>` of `input` as `[text](url)` and
/// leaves the rest as it is.
pub fn format_href_to_discord(input: &str) -> (out: String)
    ensures
        out@ == href_to_discord(input@),
{
    let chars = chars_of(input);
    let linked = link_anchors(&chars);
    string_of(&linked)
}

/// The passes for the tags that have a name: paragraphs and line breaks
/// become new lines, `strong` becomes `**`, `var` and `small` are dropped.
pub open spec fn named_passes(s: Seq<char>) -> Seq<char> {
    replace_tags(
        Tag::Silent,
        replace_tags(Tag::Strong, replace_tags(Tag::LineBreak, replace_tags(Tag::Paragraph, s))),
    )
}

/// Feed HTML as chat markup: paragraphs and line breaks become new lines,
/// `strong` becomes `**`, `var` and `small` are dropped, then the anchors
/// are rewritten as links, and last every tag that is left is dropped.
pub open spec fn html_to_discord(s: Seq<char>) -> Seq<char> {
    replace_tags(Tag::Other, href_to_discord(named_passes(s)))
}

/// Turns the HTML of a feed entry into chat markup.
pub fn format_html_to_discord(input: String) -> (out: String)
    ensures
        out@ == html_to_discord(input@),
{
    let chars = chars_of(input.as_str());
    let a = replace_tags_in(Tag::Paragraph, &chars);
    let b = replace_tags_in(Tag::LineBreak, &a);
    let c = replace_tags_in(Tag::Strong, &b);
    let d = replace_tags_in(Tag::Silent, &c);
    let e = link_anchors(&d);
    let f = replace_tags_in(Tag::Other, &e);
    string_of(&f)
}

/// Text in which no tag of any name starts: every `<` stands directly
/// before a `>` or has no `>` behind it at all.
pub open spec fn tag_free(s: Seq<char>) -> bool {
    forall|i: int| (#[trigger] any_tag_end(s, i)) is None
}

/// A tag of any kind is also a tag of any name.
pub proof fn lemma_tag_is_any_tag(kind: Tag, s: Seq<char>, i: int)
    ensures
        tag_end(kind, s, i) is Some ==> any_tag_end(s, i) is Some,
{
    match kind {
        Tag::Other => {},
        Tag::Paragraph => lemma_named_tag_end(s, i, seq!['p'], true, false),
        Tag::LineBreak => lemma_named_tag_end(s, i, seq!['b', 'r'], false, true),
        Tag::Strong => lemma_named_tag_end(s, i, seq!['s', 't', 'r', 'o', 'n', 'g'], true, false),
        Tag::Silent => {
            lemma_named_tag_end(s, i, seq!['v', 'a', 'r'], true, false);
            lemma_named_tag_end(s, i, seq!['s', 'm', 'a', 'l', 'l'], true, false);
        },
    }
}

/// A pass leaves tag-free text as it is.
pub proof fn lemma_replace_tags_keeps_tag_free(kind: Tag, s: Seq<char>, i: int)
    requires
        tag_free(s),
        0 <= i <= s.len(),
    ensures
        replace_tags_from(kind, s, i) == s.subrange(i, s.len() as int),
    decreases s.len() - i,
{
    if i < s.len() {
        lemma_tag_is_any_tag(kind, s, i);
        lemma_replace_tags_keeps_tag_free(kind, s, i + 1);
    }
}

/// Tag-free text holds no anchor to rewrite.
pub proof fn lemma_link_anchors_keeps_tag_free(s: Seq<char>, i: int)
    requires
        tag_free(s),
        0 <= i <= s.len(),
    ensures
        link_anchors_from(s, i) == s.subrange(i, s.len() as int),
    decreases s.len() - i,
{
    if i < s.len() {
        lemma_anchor_at(s, i);
        lemma_link_anchors_keeps_tag_free(s, i + 1);
    }
}

/// Searching behind a first character is searching in the rest.
proof fn lemma_find_char_shift(c: char, t: Seq<char>, m: int, x: char)
    requires
        0 <= m <= t.len(),
    ensures
        spec_find_char(seq![c] + t, m + 1, x) == spec_find_char(t, m, x) + 1,
    decreases t.len() - m,
{
    if m < t.len() {
        if t[m] != x {
            lemma_find_char_shift(c, t, m + 1, x);
        }
    }
}

/// Where no `>` follows, the pass that drops every tag changes nothing.
proof fn lemma_no_bracket_no_tag(s: Seq<char>, i: int)
    requires
        0 <= i <= s.len(),
        spec_find_char(s, i, '>') >= s.len(),
    ensures
        replace_tags_from(Tag::Other, s, i) == s.subrange(i, s.len() as int),
    decreases s.len() - i,
{
    if i < s.len() {
        lemma_find_char(s, i, '>');
        lemma_find_char(s, i + 1, '>');
        lemma_no_bracket_no_tag(s, i + 1);
    }
}

/// A character put before tag-free text leaves it tag-free, unless it
/// opens a tag there.
proof fn lemma_tag_free_behind(c: char, t: Seq<char>)
    requires
        tag_free(t),
        any_tag_end(seq![c] + t, 0) is None,
    ensures
        tag_free(seq![c] + t),
{
    let s = seq![c] + t;
    assert forall|k: int| (#[trigger] any_tag_end(s, k)) is None by {
        if 1 <= k < s.len() {
            lemma_find_char_shift(c, t, k, '>');
            assert(any_tag_end(t, k - 1) is None);
        }
    }
}

/// What the pass that drops every tag leaves is tag-free.
pub proof fn lemma_other_pass_is_tag_free(s: Seq<char>, i: int)
    requires
        0 <= i <= s.len(),
    ensures
        tag_free(replace_tags_from(Tag::Other, s, i)),
    decreases s.len() - i,
{
    if i < s.len() {
        lemma_tag_end_bounds(Tag::Other, s, i);
        let end = any_tag_end(s, i);
        if end is Some {
            lemma_other_pass_is_tag_free(s, end->0);
        } else {
            let t = replace_tags_from(Tag::Other, s, i + 1);
            lemma_other_pass_is_tag_free(s, i + 1);
            if s[i] == '<' {
                // The `<` opens no tag: either a `>` follows at once, and "<>"
                // stays as it is, or no `>` follows in `s`, and then none
                // follows in what is left of it.
                lemma_find_char(s, i + 1, '>');
                if spec_find_char(s, i + 1, '>') >= s.len() {
                    lemma_no_bracket_no_tag(s, i + 1);
                    lemma_find_char_shift(s[i], t, 0, '>');
                    assert forall|k: int| 0 <= k < t.len() implies #[trigger] t[k] != '>' by {}
                    lemma_find_char_unique(t, 0, '>', t.len() as int);
                }
            }
            lemma_tag_free_behind(s[i], t);
        }
    } else {
        assert forall|k: int| (#[trigger] any_tag_end(Seq::<char>::empty(), k)) is None by {}
    }
}

/// Rewritten content holds no tag.
pub proof fn lemma_html_to_discord_is_tag_free(s: Seq<char>)
    ensures
        tag_free(html_to_discord(s)),
{
    lemma_other_pass_is_tag_free(href_to_discord(named_passes(s)), 0);
}

/// Rewriting is idempotent: content that was rewritten once comes out of a
/// second rewriting unchanged.
pub proof fn lemma_html_to_discord_idempotent(s: Seq<char>)
    ensures
        html_to_discord(html_to_discord(s)) == html_to_discord(s),
{
    let h = html_to_discord(s);
    lemma_html_to_discord_is_tag_free(s);
    assert(h.subrange(0, h.len() as int) =~= h);
    lemma_replace_tags_keeps_tag_free(Tag::Paragraph, h, 0);
    lemma_replace_tags_keeps_tag_free(Tag::LineBreak, h, 0);
    lemma_replace_tags_keeps_tag_free(Tag::Strong, h, 0);
    lemma_replace_tags_keeps_tag_free(Tag::Silent, h, 0);
    lemma_link_anchors_keeps_tag_free(h, 0);
    lemma_replace_tags_keeps_tag_free(Tag::Other, h, 0);
}

} // verus!
