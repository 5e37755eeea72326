//! Text form of a packed mask: `0xXXXXXXXX` words, eight to a line, each
//! line opened by the shader comment marker `//!  `.

use vstd::prelude::*;

verus! {

/// Words per line of the dump.
pub const WORDS_PER_LINE: usize = 8;

/// Upper-case hexadecimal digit of `d`, for `d < 16`.
pub open spec fn hex_digit(d: u32) -> char {
    if d < 10 {
        (48 + d) as char
    } else {
        (55 + d) as char
    }
}

/// Digit `k` (0 the most significant) of the eight hex digits of `v`.
pub open spec fn nibble(v: u32, k: int) -> u32 {
    (v >> ((28 - 4 * k) as u32)) & 15
}

/// `v` written as `0x` and eight upper-case hex digits.
pub open spec fn hex_word_text(v: u32) -> Seq<char> {
    seq!['0', 'x'] + Seq::new(8, |k: int| hex_digit(nibble(v, k)))
}

/// The text of one word in a line: the first is followed by a space, every
/// later one also preceded by one.
pub open spec fn word_cell(v: u32, first: bool) -> Seq<char> {
    if first {
        hex_word_text(v) + seq![' ']
    } else {
        seq![' '] + hex_word_text(v) + seq![' ']
    }
}

/// The words of `ws` as they follow each other on one line.
pub open spec fn words_text(ws: Seq<u32>) -> Seq<char>
    decreases ws.len(),
{
    if ws.len() == 0 {
        Seq::empty()
    } else {
        words_text(ws.drop_last()) + word_cell(ws.last(), ws.len() == 1)
    }
}

/// Line `l` of the dump of `words`.
pub open spec fn dump_line(words: Seq<u32>, l: int) -> Seq<char> {
    let start = l * 8;
    let end = if start + 8 < words.len() {
        start + 8
    } else {
        words.len() as int
    };
    seq!['/', '/', '!', ' ', ' '] + words_text(words.subrange(start, end))
}

/// Number of lines the dump of `n` words takes.
pub open spec fn line_count(n: nat) -> nat {
    (n + 7) / 8
}

proof fn lemma_nibble_small(v: u32, shift: u32)
    ensures
        (v >> shift) & 15 < 16,
{
    assert((v >> shift) & 15 < 16) by (bit_vector);
}

/// The hexadecimal digit of `d`, for `d < 16`.
fn hex_digit_char(d: u32) -> (c: char)
    requires
        d < 16,
    ensures
        c == hex_digit(d),
{
    if d < 10 {
        (48 + d as u8) as char
    } else {
        (55 + d as u8) as char
    }
}

/// Writes `v` as `0x` followed by eight upper-case hex digits.
pub fn hex_word(v: u32) -> (s: Vec<char>)
    ensures
        s@ == hex_word_text(v),
{
    let mut s: Vec<char> = Vec::with_capacity(10);
    s.push('0');
    s.push('x');
    let mut k: u32 = 0;
    while k < 8
        invariant
            k <= 8,
            s@.len() == 2 + k,
            s@.subrange(0, 2) == seq!['0', 'x'],
            forall|j: int| 0 <= j < k ==> s@[2 + j] == hex_digit(nibble(v, j)),
        decreases 8 - k,
    {
        let shift: u32 = 28 - 4 * k;
        let d = (v >> shift) & 15;
        proof {
            lemma_nibble_small(v, shift);
        }
        s.push(hex_digit_char(d));
        k += 1;
    }
    assert(s@ =~= hex_word_text(v));
    s
}

/// Writes line `line` of the dump: the comment marker, then words
/// `8 * line` up to the next multiple of eight, each followed by a space and
/// the later ones also preceded by one.
pub fn dump_line_text(words: &Vec<u32>, line: usize) -> (s: Vec<char>)
    requires
        line < line_count(words@.len()),
    ensures
        s@ == dump_line(words@, line as int),
{
    let n = words.len();
    proof {
        let (li, ni) = (line as int, n as int);
        assert(li * 8 < ni) by (nonlinear_arith)
            requires
                li < (ni + 7) / 8,
                0 <= li,
        ;
    }
    let start = line * WORDS_PER_LINE;
    let end = if words.len() - start > WORDS_PER_LINE {
        start + WORDS_PER_LINE
    } else {
        words.len()
    };
    let mut s: Vec<char> = Vec::new();
    s.push('/');
    s.push('/');
    s.push('!');
    s.push(' ');
    s.push(' ');
    let ghost head = s@;
    let mut k: usize = start;
    while k < end
        invariant
            start <= k <= end <= words@.len(),
            s@ == head + words_text(words@.subrange(start as int, k as int)),
        decreases end - k,
    {
        let ghost prefix = words@.subrange(start as int, k as int);
        let ghost next = words@.subrange(start as int, k as int + 1);
        assert(next.drop_last() =~= prefix);
        if k > start {
            s.push(' ');
        }
        let h = hex_word(words[k]);
        let mut j: usize = 0;
        let ghost before = s@;
        while j < h.len()
            invariant
                j <= h@.len(),
                s@ == before + h@.subrange(0, j as int),
            decreases h@.len() - j,
        {
            s.push(h[j]);
            j += 1;
            assert(s@ =~= before + h@.subrange(0, j as int));
        }
        s.push(' ');
        assert(s@ =~= head + words_text(next));
        k += 1;
    }
    assert(s@ =~= dump_line(words@, line as int));
    s
}

/// Writes the whole dump, one entry per line.
pub fn dump_lines(words: &Vec<u32>) -> (lines: Vec<Vec<char>>)
    ensures
        lines@.len() == line_count(words@.len()),
        forall|l: int| 0 <= l < lines@.len() ==> (#[trigger] lines@[l])@ == dump_line(words@, l),
{
    let n = words.len() / WORDS_PER_LINE + if words.len() % WORDS_PER_LINE == 0 {
        0
    } else {
        1
    };
    let mut lines: Vec<Vec<char>> = Vec::new();
    let mut l: usize = 0;
    while l < n
        invariant
            n == line_count(words@.len()),
            l <= n,
            lines@.len() == l,
            forall|i: int| 0 <= i < l ==> (#[trigger] lines@[i])@ == dump_line(words@, i),
        decreases n - l,
    {
        lines.push(dump_line_text(words, l));
        l += 1;
    }
    lines
}

} // verus!
