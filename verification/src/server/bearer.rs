//! The `Authorization` header of a request: the word `bearer` and the token
//! that follows it.

use vstd::prelude::*;
use vstd::string::StrSliceExecFns;

verus! {

/// The characters of a string, one by one.
pub fn chars_of(s: &str) -> (r: Vec<char>)
    ensures
        r@ == s@,
{
    let mut out: Vec<char> = Vec::new();
    for c in it: s.chars()
        invariant
            out@ == it.seq().take(it.index() as int),
            it.seq() == s@,
    {
        out.push(c);
    }
    out
}

/// Whether a character is white space.
pub open spec fn is_space(c: char) -> bool {
    let n = c as u32;
    ||| 0x09 <= n <= 0x0d
    ||| n == 0x20
    ||| n == 0x85
    ||| n == 0xa0
    ||| n == 0x1680
    ||| 0x2000 <= n <= 0x200a
    ||| n == 0x2028
    ||| n == 0x2029
    ||| n == 0x202f
    ||| n == 0x205f
    ||| n == 0x3000
}

/// Whether a character is white space.
pub fn space(c: char) -> (r: bool)
    ensures
        r == is_space(c),
{
    let n = c as u32;
    (0x09 <= n && n <= 0x0d) || n == 0x20 || n == 0x85 || n == 0xa0 || n == 0x1680 || (0x2000 <= n
        && n <= 0x200a) || n == 0x2028 || n == 0x2029 || n == 0x202f || n == 0x205f || n == 0x3000
}

/// The first place at or after `from` that holds no white space; the length
/// where there is none.
pub open spec fn skip_spaces(s: Seq<char>, from: int) -> int
    decreases s.len() - from,
{
    if 0 <= from < s.len() && is_space(s[from]) {
        skip_spaces(s, from + 1)
    } else {
        from
    }
}

/// The first place at or after `from` that holds white space; the length
/// where there is none.
pub open spec fn word_end(s: Seq<char>, from: int) -> int
    decreases s.len() - from,
{
    if 0 <= from < s.len() && !is_space(s[from]) {
        word_end(s, from + 1)
    } else {
        from
    }
}

/// Whether a word is `bearer`, in capitals or small letters.
pub open spec fn is_bearer(word: Seq<char>) -> bool {
    &&& word.len() == 6
    &&& (word[0] == 'b' || word[0] == 'B')
    &&& (word[1] == 'e' || word[1] == 'E')
    &&& (word[2] == 'a' || word[2] == 'A')
    &&& (word[3] == 'r' || word[3] == 'R')
    &&& (word[4] == 'e' || word[4] == 'E')
    &&& (word[5] == 'r' || word[5] == 'R')
}

/// The token that an `Authorization` header presents: the second word, where
/// the first is `bearer` in capitals or small letters. White space before,
/// between and after the words does not count, nor does anything after the
/// second word.
pub open spec fn bearer_token(header: Seq<char>) -> Option<Seq<char>> {
    let a = skip_spaces(header, 0);
    let b = word_end(header, a);
    let c = skip_spaces(header, b);
    let d = word_end(header, c);
    if is_bearer(header.subrange(a, b)) && c < d {
        Some(header.subrange(c, d))
    } else {
        None
    }
}

/// The first place at or after `from` that holds no white space.
fn scan_spaces(s: &Vec<char>, from: usize) -> (r: usize)
    requires
        from <= s.len(),
    ensures
        r == skip_spaces(s@, from as int),
        from <= r <= s.len(),
{
    let mut i = from;
    while i < s.len() && space(s[i])
        invariant
            from <= i <= s.len(),
            skip_spaces(s@, from as int) == skip_spaces(s@, i as int),
        decreases s.len() - i,
    {
        i = i + 1;
    }
    i
}

/// The first place at or after `from` that holds white space.
fn scan_word(s: &Vec<char>, from: usize) -> (r: usize)
    requires
        from <= s.len(),
    ensures
        r == word_end(s@, from as int),
        from <= r <= s.len(),
{
    let mut i = from;
    while i < s.len() && !space(s[i])
        invariant
            from <= i <= s.len(),
            word_end(s@, from as int) == word_end(s@, i as int),
        decreases s.len() - i,
    {
        i = i + 1;
    }
    i
}

/// The token that an `Authorization` header presents: the second word, where
/// the first is `bearer` in capitals or small letters.
pub fn read_bearer(header: &str) -> (r: Option<&str>)
    ensures
        match r {
            Some(token) => bearer_token(header@) == Some(token@),
            None => bearer_token(header@) is None,
        },
{
    let s = chars_of(header);
    let a = scan_spaces(&s, 0);
    let b = scan_word(&s, a);
    let c = scan_spaces(&s, b);
    let d = scan_word(&s, c);
    if b - a == 6 && (s[a] == 'b' || s[a] == 'B') && (s[a + 1] == 'e' || s[a + 1] == 'E') && (s[a
        + 2] == 'a' || s[a + 2] == 'A') && (s[a + 3] == 'r' || s[a + 3] == 'R') && (s[a + 4] == 'e'
        || s[a + 4] == 'E') && (s[a + 5] == 'r' || s[a + 5] == 'R') && c < d {
        Some(header.substring_char(c, d))
    } else {
        None
    }
}

/// Where a text ends once the white space at its end is left off.
pub open spec fn content_end(s: Seq<char>) -> int
    decreases s.len(),
{
    if s.len() > 0 && is_space(s.last()) {
        content_end(s.drop_last())
    } else {
        s.len() as int
    }
}

/// A text without the white space at its start and at its end.
pub open spec fn trimmed(s: Seq<char>) -> Seq<char> {
    let a = skip_spaces(s, 0);
    let b = content_end(s);
    if a < b {
        s.subrange(a, b)
    } else {
        Seq::empty()
    }
}

/// A text without the white space at its start and at its end.
pub fn trim(text: &str) -> (r: &str)
    ensures
        r@ == trimmed(text@),
{
    let s = chars_of(text);
    let a = scan_spaces(&s, 0);
    let mut b = s.len();
    assert(s@.take(b as int) =~= s@);
    while b > 0 && space(s[b - 1])
        invariant
            b <= s.len(),
            content_end(s@) == content_end(s@.take(b as int)),
        decreases b,
    {
        assert(s@.take(b as int).drop_last() =~= s@.take(b - 1));
        b = b - 1;
    }
    if a < b {
        text.substring_char(a, b)
    } else {
        text.substring_char(0, 0)
    }
}

} // verus!
