//! Text as sequences of characters: whitespace, trimming, lines, joining and
//! decimal numbers.

use vstd::prelude::*;

verus! {

/// Whether `c` has the Unicode property White_Space.
pub open spec fn is_whitespace(c: char) -> bool {
    let u = c as u32;
    ||| 0x09 <= u <= 0x0D
    ||| u == 0x20
    ||| u == 0x85
    ||| u == 0xA0
    ||| u == 0x1680
    ||| 0x2000 <= u <= 0x200A
    ||| u == 0x2028
    ||| u == 0x2029
    ||| u == 0x202F
    ||| u == 0x205F
    ||| u == 0x3000
}

/// Whether `c` is whitespace.
pub fn whitespace(c: char) -> (b: bool)
    ensures
        b == is_whitespace(c),
{
    let u: u32 = c as u32;
    (0x09 <= u && u <= 0x0D) || u == 0x20 || u == 0x85 || u == 0xA0 || u == 0x1680 || (0x2000
        <= u && u <= 0x200A) || u == 0x2028 || u == 0x2029 || u == 0x202F || u == 0x205F || u
        == 0x3000
}

/// The characters of `s`, one by one.
pub fn chars_of(s: &str) -> (v: Vec<char>)
    ensures
        v@ == s@,
{
    let mut v: Vec<char> = Vec::new();
    for c in it: s.chars()
        invariant
            it.seq() == s@,
            v@ == it.seq().take(it.index()),
    {
        v.push(c);
    }
    v
}

/// Calls `String::push`, which appends one character to the string.
#[verifier::external_body]
fn push_char(s: &mut String, c: char)
    ensures
        final(s)@ == old(s)@.push(c),
{
    s.push(c)
}

/// The string made of the characters of `chars` from index `lo` up to `hi`.
fn string_of(chars: &Vec<char>, lo: usize, hi: usize) -> (s: String)
    requires
        lo <= hi <= chars.len(),
    ensures
        s@ == chars@.subrange(lo as int, hi as int),
{
    let mut s = String::new();
    let mut i: usize = lo;
    while i < hi
        invariant
            lo <= i <= hi <= chars.len(),
            s@ == chars@.subrange(lo as int, i as int),
        decreases hi - i,
    {
        push_char(&mut s, chars[i]);
        i = i + 1;
    }
    s
}

/// `s` without the whitespace at its start.
pub open spec fn trim_start(s: Seq<char>) -> Seq<char>
    decreases s.len(),
{
    if s.len() > 0 && is_whitespace(s.first()) {
        trim_start(s.drop_first())
    } else {
        s
    }
}

/// `s` without the whitespace at its end.
pub open spec fn trim_end(s: Seq<char>) -> Seq<char>
    decreases s.len(),
{
    if s.len() > 0 && is_whitespace(s.last()) {
        trim_end(s.drop_last())
    } else {
        s
    }
}

/// `s` without the whitespace at its start and at its end.
pub open spec fn trimmed(s: Seq<char>) -> Seq<char> {
    trim_end(trim_start(s))
}

/// Whether `s` holds nothing but whitespace.
pub open spec fn is_blank(s: Seq<char>) -> bool {
    trimmed(s).len() == 0
}

/// Where the trimmed text starts and ends in `chars`.
fn trim_bounds(chars: &Vec<char>) -> (bounds: (usize, usize))
    ensures
        bounds.0 <= bounds.1 <= chars.len(),
        chars@.subrange(bounds.0 as int, bounds.1 as int) == trimmed(chars@),
{
    let len = chars.len();
    let mut lo: usize = 0;
    assert(chars@.skip(0) == chars@);
    while lo < len && whitespace(chars[lo])
        invariant
            len == chars.len(),
            lo <= len,
            trim_start(chars@) == trim_start(chars@.skip(lo as int)),
        decreases len - lo,
    {
        assert(chars@.skip(lo as int).drop_first() == chars@.skip(lo + 1));
        lo = lo + 1;
    }
    let mut hi: usize = len;
    while hi > lo && whitespace(chars[hi - 1])
        invariant
            len == chars.len(),
            lo <= hi <= len,
            trimmed(chars@) == trim_end(chars@.subrange(lo as int, hi as int)),
        decreases hi - lo,
    {
        assert(chars@.subrange(lo as int, hi as int).drop_last() == chars@.subrange(
            lo as int,
            hi - 1,
        ));
        hi = hi - 1;
    }
    (lo, hi)
}

/// `s` without the whitespace at its start and at its end.
pub fn trim(s: &str) -> (t: String)
    ensures
        t@ == trimmed(s@),
{
    let chars = chars_of(s);
    let (lo, hi) = trim_bounds(&chars);
    string_of(&chars, lo, hi)
}

/// Whether `s` holds nothing but whitespace.
pub fn blank(s: &str) -> (b: bool)
    ensures
        b == is_blank(s@),
{
    let chars = chars_of(s);
    let (lo, hi) = trim_bounds(&chars);
    lo == hi
}

/// The texts of a list of strings.
pub open spec fn texts(v: Seq<String>) -> Seq<Seq<char>> {
    Seq::new(v.len(), |i: int| v[i]@)
}

/// The index of the first line feed in `s`; the length of `s` where it holds
/// none.
pub open spec fn first_line_feed(s: Seq<char>) -> nat
    decreases s.len(),
{
    if s.len() == 0 || s.first() == '\n' {
        0
    } else {
        (1 + first_line_feed(s.drop_first())) as nat
    }
}

/// `line` without the carriage return at its end, if it has one.
pub open spec fn without_carriage_return(line: Seq<char>) -> Seq<char> {
    if line.len() > 0 && line.last() == '\r' {
        line.drop_last()
    } else {
        line
    }
}

/// The lines of `s`. A line ends with a line feed, or with a carriage return
/// and a line feed; neither belongs to the line. What follows the last line
/// feed is a line too, unless it is empty.
pub open spec fn lines_of(s: Seq<char>) -> Seq<Seq<char>>
    decreases s.len(),
{
    let k = first_line_feed(s);
    if s.len() == 0 {
        Seq::empty()
    } else if k >= s.len() {
        seq![s]
    } else {
        seq![without_carriage_return(s.take(k as int))] + lines_of(s.skip(k as int + 1))
    }
}

/// The first line feed is where a line feed stands with none before it.
pub proof fn lemma_first_line_feed(s: Seq<char>, k: int)
    requires
        0 <= k <= s.len(),
        forall|j: int| 0 <= j < k ==> s[j] != '\n',
        k < s.len() ==> s[k] == '\n',
    ensures
        first_line_feed(s) == k,
    decreases k,
{
    if k > 0 {
        lemma_first_line_feed(s.drop_first(), k - 1);
    }
}

/// Splits `s` into its lines.
pub fn lines(s: &str) -> (v: Vec<String>)
    ensures
        texts(v@) == lines_of(s@),
{
    let chars = chars_of(s);
    let len = chars.len();
    let mut v: Vec<String> = Vec::new();
    let mut start: usize = 0;
    let mut i: usize = 0;
    assert(chars@.skip(0) == chars@);
    while i < len
        invariant
            len == chars.len(),
            start <= i <= len,
            forall|j: int| start <= j < i ==> chars@[j] != '\n',
            lines_of(chars@) == texts(v@) + lines_of(chars@.skip(start as int)),
        decreases len - i,
    {
        if chars[i] == '\n' {
            let ghost rest = chars@.skip(start as int);
            proof {
                lemma_first_line_feed(rest, i - start);
                assert(rest.take(i - start) == chars@.subrange(start as int, i as int));
                assert(rest.skip(i - start + 1) == chars@.skip(i + 1));
            }
            let mut end: usize = i;
            if end > start && chars[end - 1] == '\r' {
                end = end - 1;
            }
            let line = string_of(&chars, start, end);
            assert(line@ == without_carriage_return(chars@.subrange(start as int, i as int)));
            v.push(line);
            start = i + 1;
        }
        i = i + 1;
    }
    if start < len {
        let ghost rest = chars@.skip(start as int);
        proof {
            lemma_first_line_feed(rest, len - start);
        }
        let line = string_of(&chars, start, len);
        v.push(line);
    }
    v
}

/// The texts of `parts` in order, with `sep` between each two.
pub open spec fn joined(parts: Seq<Seq<char>>, sep: Seq<char>) -> Seq<char>
    decreases parts.len(),
{
    if parts.len() == 0 {
        Seq::empty()
    } else if parts.len() == 1 {
        parts[0]
    } else {
        joined(parts.drop_last(), sep) + sep + parts.last()
    }
}

/// Joins `parts` with `sep` between each two.
pub fn join(parts: &Vec<String>, sep: &str) -> (s: String)
    ensures
        s@ == joined(texts(parts@), sep@),
{
    let mut s = String::new();
    let mut i: usize = 0;
    while i < parts.len()
        invariant
            i <= parts.len(),
            s@ == joined(texts(parts@).take(i as int), sep@),
        decreases parts.len() - i,
    {
        if i > 0 {
            s.append(sep);
        }
        s.append(parts[i].as_str());
        proof {
            let next = texts(parts@).take(i + 1);
            assert(next.drop_last() == texts(parts@).take(i as int));
        }
        i = i + 1;
    }
    assert(texts(parts@).take(parts.len() as int) == texts(parts@));
    s
}

/// The character for the digit `d`.
pub open spec fn digit_of(d: nat) -> char {
    if d == 0 {
        '0'
    } else if d == 1 {
        '1'
    } else if d == 2 {
        '2'
    } else if d == 3 {
        '3'
    } else if d == 4 {
        '4'
    } else if d == 5 {
        '5'
    } else if d == 6 {
        '6'
    } else if d == 7 {
        '7'
    } else if d == 8 {
        '8'
    } else {
        '9'
    }
}

/// `n` written in decimal, without leading zeros.
pub open spec fn decimal_of(n: nat) -> Seq<char>
    decreases n,
{
    if n < 10 {
        seq![digit_of(n)]
    } else {
        decimal_of(n / 10).push(digit_of(n % 10))
    }
}

fn digit(d: usize) -> (c: char)
    requires
        d < 10,
    ensures
        c == digit_of(d as nat),
{
    if d == 0 {
        '0'
    } else if d == 1 {
        '1'
    } else if d == 2 {
        '2'
    } else if d == 3 {
        '3'
    } else if d == 4 {
        '4'
    } else if d == 5 {
        '5'
    } else if d == 6 {
        '6'
    } else if d == 7 {
        '7'
    } else if d == 8 {
        '8'
    } else {
        '9'
    }
}

/// Writes `n` in decimal.
pub fn decimal(n: usize) -> (s: String)
    ensures
        s@ == decimal_of(n as nat),
    decreases n,
{
    if n < 10 {
        let mut s = String::new();
        push_char(&mut s, digit(n));
        s
    } else {
        let mut s = decimal(n / 10);
        push_char(&mut s, digit(n % 10));
        s
    }
}

} // verus!
