//! Reading the text that git prints: whitespace, lines and fields.
use vstd::prelude::*;

verus! {

/// ASCII whitespace, which separates the fields of git's output.
pub open spec fn is_space(c: char) -> bool {
    c == ' ' || c == '\t' || c == '\n' || c == '\r' || c == '\x0b' || c == '\x0c'
}

/// The first index at or after `i` that holds no whitespace, or the length.
pub open spec fn skip_spaces(s: Seq<char>, i: nat) -> nat
    decreases s.len() - i,
{
    if i >= s.len() {
        s.len()
    } else if is_space(s[i as int]) {
        skip_spaces(s, i + 1)
    } else {
        i
    }
}

/// The first index at or after `i` that holds whitespace, or the length.
pub open spec fn skip_word(s: Seq<char>, i: nat) -> nat
    decreases s.len() - i,
{
    if i >= s.len() {
        s.len()
    } else if !is_space(s[i as int]) {
        skip_word(s, i + 1)
    } else {
        i
    }
}

/// The first index at or after `i` that holds a line feed, or the length.
pub open spec fn line_end(s: Seq<char>, i: nat) -> nat
    decreases s.len() - i,
{
    if i >= s.len() {
        s.len()
    } else if s[i as int] != '\n' {
        line_end(s, i + 1)
    } else {
        i
    }
}

/// The end of `s.subrange(0, j)` once trailing whitespace is dropped.
pub open spec fn trim_end(s: Seq<char>, j: nat) -> nat
    decreases j,
{
    if j == 0 || j > s.len() {
        0
    } else if is_space(s[j - 1]) {
        trim_end(s, (j - 1) as nat)
    } else {
        j
    }
}

/// `s` without leading and trailing whitespace.
pub open spec fn trimmed(s: Seq<char>) -> Seq<char> {
    let a = skip_spaces(s, 0);
    let b = trim_end(s, s.len());
    if a < b {
        s.subrange(a as int, b as int)
    } else {
        Seq::empty()
    }
}

/// The first line of `s`, without its line feed.
pub open spec fn first_line(s: Seq<char>) -> Seq<char> {
    s.subrange(0, line_end(s, 0) as int)
}

/// The second whitespace-separated field of `line`, if it has one.
pub open spec fn second_field(line: Seq<char>) -> Option<Seq<char>> {
    let a = skip_spaces(line, 0);
    let b = skip_word(line, a);
    let c = skip_spaces(line, b);
    let d = skip_word(line, c);
    if c < d {
        Some(line.subrange(c as int, d as int))
    } else {
        None
    }
}

/// Whether `c` is ASCII whitespace.
pub fn is_space_char(c: char) -> (r: bool)
    ensures
        r == is_space(c),
{
    c == ' ' || c == '\t' || c == '\n' || c == '\r' || c == '\x0b' || c == '\x0c'
}

/// The first index at or after `i` that holds no whitespace, or the length.
pub fn skip_spaces_from(s: &str, n: usize, i: usize) -> (r: usize)
    requires
        n == s@.len(),
        i <= n,
    ensures
        r as nat == skip_spaces(s@, i as nat),
        i <= r <= n,
{
    let mut j = i;
    while j < n && is_space_char(s.get_char(j))
        invariant
            n == s@.len(),
            i <= j <= n,
            skip_spaces(s@, j as nat) == skip_spaces(s@, i as nat),
        decreases n - j,
    {
        j = j + 1;
    }
    j
}

/// The first index at or after `i` that holds whitespace, or the length.
pub fn skip_word_from(s: &str, n: usize, i: usize) -> (r: usize)
    requires
        n == s@.len(),
        i <= n,
    ensures
        r as nat == skip_word(s@, i as nat),
        i <= r <= n,
{
    let mut j = i;
    while j < n && !is_space_char(s.get_char(j))
        invariant
            n == s@.len(),
            i <= j <= n,
            skip_word(s@, j as nat) == skip_word(s@, i as nat),
        decreases n - j,
    {
        j = j + 1;
    }
    j
}

/// The index of the first line feed of `s`, or its length.
pub fn first_line_end(s: &str, n: usize) -> (r: usize)
    requires
        n == s@.len(),
    ensures
        r as nat == line_end(s@, 0),
        r <= n,
{
    let mut j: usize = 0;
    while j < n && s.get_char(j) != '\n'
        invariant
            n == s@.len(),
            j <= n,
            line_end(s@, j as nat) == line_end(s@, 0),
        decreases n - j,
    {
        j = j + 1;
    }
    j
}

/// `s` without leading and trailing whitespace.
pub fn trim(s: &str) -> (r: String)
    ensures
        r@ == trimmed(s@),
{
    let n = s.unicode_len();
    let a = skip_spaces_from(s, n, 0);
    let mut b = n;
    while b > 0 && is_space_char(s.get_char(b - 1))
        invariant
            n == s@.len(),
            b <= n,
            trim_end(s@, b as nat) == trim_end(s@, n as nat),
        decreases b,
    {
        b = b - 1;
    }
    if a < b {
        String::from_str(s.substring_char(a, b))
    } else {
        String::new()
    }
}

/// The second whitespace-separated field of the first line of `s`.
pub fn second_field_of_first_line(s: &str) -> (r: Option<String>)
    ensures
        r.deep_view() == second_field(first_line(s@)),
{
    let n = s.unicode_len();
    let e = first_line_end(s, n);
    let line = s.substring_char(0, e);
    let a = skip_spaces_from(line, e, 0);
    let b = skip_word_from(line, e, a);
    let c = skip_spaces_from(line, e, b);
    let d = skip_word_from(line, e, c);
    if c < d {
        Some(String::from_str(line.substring_char(c, d)))
    } else {
        None
    }
}

} // verus!
