//! Input lines: their white space, and which of them carry nothing.

use vstd::prelude::*;

verus! {

/// Whether `c` is a white-space character: the characters that Unicode gives
/// the property `White_Space`.
pub open spec fn is_space(c: char) -> bool {
    let n = c as u32;
    ||| 0x09 <= n <= 0x0D
    ||| n == 0x20
    ||| n == 0x85
    ||| n == 0xA0
    ||| n == 0x1680
    ||| 0x2000 <= n <= 0x200A
    ||| n == 0x2028
    ||| n == 0x2029
    ||| n == 0x202F
    ||| n == 0x205F
    ||| n == 0x3000
}

/// Whether a line is empty or holds white space only.
pub open spec fn blank(line: Seq<char>) -> bool {
    forall|i: int| 0 <= i < line.len() ==> is_space(#[trigger] line[i])
}

/// Tells whether `c` is a white-space character.
pub fn is_space_char(c: char) -> (b: bool)
    ensures
        b == is_space(c),
{
    let n: u32 = c as u32;
    (0x09 <= n && n <= 0x0D) || n == 0x20 || n == 0x85 || n == 0xA0 || n == 0x1680 || (0x2000 <= n
        && n <= 0x200A) || n == 0x2028 || n == 0x2029 || n == 0x202F || n == 0x205F || n == 0x3000
}

/// Tells whether a line is empty or holds white space only. Such a line is
/// skipped by the command loop.
pub fn is_blank(line: &str) -> (b: bool)
    ensures
        b == blank(line@),
{
    let mut all: bool = true;
    for c in it: line.chars()
        invariant
            it.seq() == line@,
            all == (forall|i: int| 0 <= i < it.index() ==> is_space(#[trigger] line@[i])),
    {
        all = all && is_space_char(c);
    }
    all
}

/// Whether `start` and `end` bound what is left of `line` once the white
/// space at its two ends is taken away.
pub open spec fn trims_to(line: Seq<char>, start: int, end: int) -> bool {
    &&& 0 <= start <= end <= line.len()
    &&& forall|i: int| 0 <= i < start ==> is_space(#[trigger] line[i])
    &&& forall|i: int| end <= i < line.len() ==> is_space(#[trigger] line[i])
    &&& start < end ==> !is_space(line[start]) && !is_space(line[end - 1])
}

/// Whether `text` is `line` without the white space at its two ends.
pub open spec fn is_trimmed(text: Seq<char>, line: Seq<char>) -> bool {
    exists|start: int, end: int| #[trigger]
        trims_to(line, start, end) && text == line.subrange(start, end)
}

/// Takes the white space at the two ends of a line away.
pub fn trimmed(line: &str) -> (text: &str)
    ensures
        is_trimmed(text@, line@),
{
    let n: usize = line.unicode_len();
    let mut start: usize = 0;
    let mut end: usize = 0;
    let mut i: usize = 0;
    for c in it: line.chars()
        invariant
            it.seq() == line@,
            n == line@.len(),
            i == it.index(),
            start <= end <= i <= n,
            start == end ==> start == 0,
            forall|j: int| 0 <= j < start ==> is_space(#[trigger] line@[j]),
            forall|j: int| end <= j < i ==> is_space(#[trigger] line@[j]),
            start < end ==> !is_space(line@[start as int]) && !is_space(line@[end - 1]),
    {
        if !is_space_char(c) {
            if start == end {
                start = i;
            }
            end = i + 1;
        }
        i = i + 1;
    }
    assert(trims_to(line@, start as int, end as int));
    line.substring_char(start, end)
}

/// A line has one trimmed form only.
pub proof fn trimmed_form_is_unique(line: Seq<char>, a: Seq<char>, b: Seq<char>)
    requires
        is_trimmed(a, line),
        is_trimmed(b, line),
    ensures
        a == b,
{
    let (sa, ea) = choose|s: int, e: int| #[trigger] trims_to(line, s, e) && a == line.subrange(s, e);
    let (sb, eb) = choose|s: int, e: int| #[trigger] trims_to(line, s, e) && b == line.subrange(s, e);
    if sa < ea && sb < eb {
        assert(sa == sb) by {
            if sa < sb {
                assert(is_space(line[sa]));
            }
            if sb < sa {
                assert(is_space(line[sb]));
            }
        }
        assert(ea == eb) by {
            if ea < eb {
                assert(is_space(line[eb - 1]));
            }
            if eb < ea {
                assert(is_space(line[ea - 1]));
            }
        }
    } else if sa < ea {
        assert(is_space(line[sa]));
    } else if sb < eb {
        assert(is_space(line[sb]));
    } else {
        assert(a =~= b);
    }
}

/// A line is blank exactly where nothing is left of it once it is trimmed.
pub proof fn blank_lines_trim_to_nothing(line: Seq<char>, text: Seq<char>)
    requires
        is_trimmed(text, line),
    ensures
        blank(line) <==> text.len() == 0,
{
    let (s, e) = choose|s: int, e: int| #[trigger] trims_to(line, s, e) && text == line.subrange(s, e);
    if s < e {
        assert(!is_space(line[s]));
    }
}

} // verus!
