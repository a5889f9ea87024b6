//! Character-level helpers shared by every reply: decimal numbers, markdown
//! escaping, truncation and link formatting.

use vstd::prelude::*;
use vstd::std_specs::iter::IteratorSpec;

verus! {

/// `String::push` appends one character to the end of the string.
pub assume_specification[ std::string::String::push ](s: &mut std::string::String, c: char)
    ensures
        final(s)@ == old(s)@.push(c),
;

/// `str` equality compares the two slices character by character.
pub assume_specification[ <str as PartialEq>::eq ](a: &str, b: &str) -> (r: bool)
    ensures
        r == (a@ == b@),
;

/// The characters of `s`, in order.
pub fn chars_of(s: &str) -> (v: Vec<char>)
    ensures
        v@ == s@,
{
    broadcast use vstd::string::group_string_axioms;

    let mut v: Vec<char> = Vec::new();
    let mut it = s.chars();
    loop
        invariant
            it.obeys_prophetic_iter_laws(),
            v.len() <= s@.len(),
            v@ == s@.take(v.len() as int),
            it.remaining() == s@.skip(v.len() as int),
        ensures
            v@ == s@,
        decreases s@.len() - v.len(),
    {
        match it.next() {
            Some(c) => {
                v.push(c);
            },
            None => {
                break ;
            },
        }
    }
    v
}

/// The string made of the characters of `v`, in order.
pub fn string_of(v: &Vec<char>) -> (s: String)
    ensures
        s@ == v@,
{
    let mut s = String::new();
    let mut i: usize = 0;
    while i < v.len()
        invariant
            i <= v.len(),
            s@ == v@.take(i as int),
        decreases v.len() - i,
    {
        s.push(v[i]);
        i = i + 1;
    }
    s
}

/// Whether two string slices hold the same characters.
pub fn same_text(a: &str, b: &str) -> (r: bool)
    ensures
        r == (a@ == b@),
{
    *a == *b
}

/// The decimal digit that stands for `d`; `'0'` for anything above nine.
pub open spec fn digit(d: nat) -> char {
    if d == 1 {
        '1'
    } else if d == 2 {
        '2'
    } else if d == 3 {
        '3'
    } else if d == 4 {
        '4'
    } else if d == 5 {
        '5'
    } else if d == 6 {
        '6'
    } else if d == 7 {
        '7'
    } else if d == 8 {
        '8'
    } else if d == 9 {
        '9'
    } else {
        '0'
    }
}

/// `n` written in base ten, most significant digit first, with no leading
/// zero and no sign.
pub open spec fn decimal(n: nat) -> Seq<char>
    decreases n,
{
    if n < 10 {
        seq![digit(n)]
    } else {
        decimal(n / 10).push(digit(n % 10))
    }
}

/// The character for one decimal digit.
pub(crate) fn digit_char(d: u128) -> (c: char)
    requires
        d < 10,
    ensures
        c == digit(d as nat),
{
    if d == 1 {
        '1'
    } else if d == 2 {
        '2'
    } else if d == 3 {
        '3'
    } else if d == 4 {
        '4'
    } else if d == 5 {
        '5'
    } else if d == 6 {
        '6'
    } else if d == 7 {
        '7'
    } else if d == 8 {
        '8'
    } else if d == 9 {
        '9'
    } else {
        '0'
    }
}

/// Appends `n` in base ten to `out`.
pub fn push_decimal(out: &mut String, n: u128)
    ensures
        final(out)@ == old(out)@ + decimal(n as nat),
    decreases n,
{
    if n >= 10 {
        push_decimal(out, n / 10);
    }
    out.push(digit_char(n % 10));
}

/// `n` in base ten.
pub fn decimal_string(n: u128) -> (s: String)
    ensures
        s@ == decimal(n as nat),
{
    let mut s = String::new();
    push_decimal(&mut s, n);
    s
}

/// The characters that chat markdown gives a meaning to.
pub open spec fn is_md_character(c: char) -> bool {
    c == '_' || c == '*' || c == '~' || c == '`' || c == '>' || c == '<' || c == '[' || c == ']'
}

/// `s` with a backslash put before every markdown character.
pub open spec fn md_escaped(s: Seq<char>) -> Seq<char>
    decreases s.len(),
{
    if s.len() == 0 {
        Seq::empty()
    } else if is_md_character(s.last()) {
        md_escaped(s.drop_last()).push('\\').push(s.last())
    } else {
        md_escaped(s.drop_last()).push(s.last())
    }
}

fn check_md_character(c: char) -> (r: bool)
    ensures
        r == is_md_character(c),
{
    c == '_' || c == '*' || c == '~' || c == '`' || c == '>' || c == '<' || c == '[' || c == ']'
}

/// Escapes `s` so that the chat client shows it literally.
pub fn remove_md_characters(s: &str) -> (r: String)
    ensures
        r@ == md_escaped(s@),
{
    let chars = chars_of(s);
    let mut out = String::new();
    let mut i: usize = 0;
    while i < chars.len()
        invariant
            i <= chars.len(),
            chars@ == s@,
            out@ == md_escaped(s@.take(i as int)),
        decreases chars.len() - i,
    {
        let c = chars[i];
        proof {
            assert(s@.take(i + 1).drop_last() == s@.take(i as int));
            assert(s@.take(i + 1).last() == c);
        }
        if check_md_character(c) {
            out.push('\\');
        }
        out.push(c);
        i = i + 1;
    }
    proof {
        assert(s@.take(i as int) == s@);
    }
    out
}

/// Escaping never shortens a text, and at most doubles it.
pub proof fn lemma_md_escaped_len(s: Seq<char>)
    ensures
        s.len() <= md_escaped(s).len() <= 2 * s.len(),
    decreases s.len(),
{
    if s.len() > 0 {
        lemma_md_escaped_len(s.drop_last());
    }
}

/// A text without markdown characters is left as it is.
pub proof fn lemma_md_escaped_plain(s: Seq<char>)
    requires
        forall|i: int| 0 <= i < s.len() ==> !is_md_character(#[trigger] s[i]),
    ensures
        md_escaped(s) == s,
    decreases s.len(),
{
    if s.len() > 0 {
        lemma_md_escaped_plain(s.drop_last());
        assert(s.drop_last().push(s.last()) == s);
    }
}

/// The first `max` characters of `s` followed by an ellipsis, or all of `s`
/// when it has no more than `max` characters.
pub open spec fn truncated(s: Seq<char>, max: nat) -> Seq<char> {
    if s.len() <= max {
        s
    } else {
        s.take(max as int) + "..."@
    }
}

/// Cuts `text` to at most `max_chars` characters, counted as characters and
/// not as bytes, and marks the cut with an ellipsis.
pub fn truncate_unicode(text: &str, max_chars: usize) -> (r: String)
    ensures
        r@ == truncated(text@, max_chars as nat),
{
    let chars = chars_of(text);
    if chars.len() <= max_chars {
        return String::from_str(text);
    }
    let mut out = String::new();
    let mut i: usize = 0;
    while i < max_chars
        invariant
            i <= max_chars < chars.len(),
            chars@ == text@,
            out@ == text@.take(i as int),
        decreases max_chars - i,
    {
        out.push(chars[i]);
        i = i + 1;
    }
    out.append("...");
    out
}

/// A markdown link from `title` to `url`, or the bare title without one.
pub open spec fn linked(title: Seq<char>, url: Option<Seq<char>>) -> Seq<char> {
    match url {
        Some(link) => "["@ + title + "]("@ + link + ")"@,
        None => title,
    }
}

/// Turns a title into a markdown link where its address is known.
pub fn format_with_url(title: String, url: Option<&String>) -> (r: String)
    ensures
        r@ == linked(
            title@,
            match url {
                Some(link) => Some(link@),
                None => None,
            },
        ),
{
    match url {
        Some(link) => {
            let mut out = String::from_str("[");
            out.append(title.as_str());
            out.append("](");
            out.append(link.as_str());
            out.append(")");
            out
        },
        None => title,
    }
}

/// Whether `needle` occurs in `hay` at position `at`.
pub open spec fn occurs_at(hay: Seq<char>, needle: Seq<char>, at: int) -> bool {
    0 <= at && at + needle.len() <= hay.len() && hay.subrange(at, at + needle.len()) == needle
}

/// Whether `needle` occurs anywhere in `hay`.
pub open spec fn contains_text(hay: Seq<char>, needle: Seq<char>) -> bool {
    exists|at: int| occurs_at(hay, needle, at)
}

fn matches_at(hay: &Vec<char>, needle: &Vec<char>, at: usize) -> (r: bool)
    requires
        at + needle.len() <= hay.len(),
    ensures
        r == occurs_at(hay@, needle@, at as int),
{
    let mut j: usize = 0;
    while j < needle.len()
        invariant
            j <= needle.len(),
            at + needle.len() <= hay.len(),
            forall|k: int| 0 <= k < j ==> hay@[at + k] == needle@[k],
        decreases needle.len() - j,
    {
        if hay[at + j] != needle[j] {
            proof {
                assert(hay@.subrange(at as int, at + needle.len())[j as int] == hay@[at + j]);
            }
            return false;
        }
        j = j + 1;
    }
    proof {
        assert(hay@.subrange(at as int, at + needle.len()) =~= needle@);
    }
    true
}

/// Searches `hay` for `needle`.
pub fn contains(hay: &str, needle: &str) -> (r: bool)
    ensures
        r == contains_text(hay@, needle@),
{
    let h = chars_of(hay);
    let n = chars_of(needle);
    if n.len() > h.len() {
        return false;
    }
    let last: usize = h.len() - n.len();
    let mut at: usize = 0;
    loop
        invariant
            at <= last,
            last == h.len() - n.len(),
            n.len() <= h.len(),
            h@ == hay@,
            n@ == needle@,
            forall|k: int| 0 <= k < at ==> !occurs_at(hay@, needle@, k),
        decreases last - at,
    {
        if matches_at(&h, &n, at) {
            return true;
        }
        if at == last {
            return false;
        }
        at = at + 1;
    }
}

} // verus!
