//! Lines of a text: where they start and end, which line an offset is on,
//! and the offset of a (line, column) position. A line break is `'\n'`;
//! offsets count characters.

use vstd::prelude::*;

verus! {

/// The character that ends a line.
pub const LINE_BREAK: char = '\n';

/// The offset at which the line holding offset `i` starts: the nearest
/// position at or before `i` that is 0 or follows a line break.
pub open spec fn line_start(t: Seq<char>, i: int) -> int
    decreases i,
{
    if i <= 0 {
        0
    } else if t[i - 1] == LINE_BREAK {
        i
    } else {
        line_start(t, i - 1)
    }
}

/// The offset at which the line holding offset `i` ends: the nearest
/// position at or after `i` that is the end of the text or holds a line
/// break.
pub open spec fn line_end(t: Seq<char>, i: int) -> int
    decreases t.len() - i,
{
    if i >= t.len() {
        t.len() as int
    } else if t[i] == LINE_BREAK {
        i
    } else {
        line_end(t, i + 1)
    }
}

/// The number of line breaks before offset `i`, which is the zero-based
/// index of the line that holds `i`.
pub open spec fn line_index(t: Seq<char>, i: int) -> nat
    decreases i,
{
    if i <= 0 {
        0
    } else if t[i - 1] == LINE_BREAK {
        line_index(t, i - 1) + 1
    } else {
        line_index(t, i - 1)
    }
}

/// The zero-based column of offset `i`: its distance from the start of its
/// line.
pub open spec fn column_of(t: Seq<char>, i: int) -> int {
    i - line_start(t, i)
}

/// The number of line breaks at offsets `a <= k < b`.
pub open spec fn breaks_between(t: Seq<char>, a: int, b: int) -> int {
    line_index(t, b) - line_index(t, a)
}

/// The offset of column `column` on the `line`-th line counted from the
/// line that starts at `from`. A column past the end of the line lands on
/// the end of that line; a line past the last one lands on the end of the
/// text.
pub open spec fn offset_from(t: Seq<char>, from: int, line: nat, column: nat) -> int
    decreases line,
{
    let end = line_end(t, from);
    if line == 0 {
        if from + column <= end {
            from + column
        } else {
            end
        }
    } else if end >= t.len() {
        t.len() as int
    } else {
        offset_from(t, end + 1, (line - 1) as nat, column)
    }
}

/// The offset of the zero-based position (`line`, `column`) in `t`.
pub open spec fn offset_of(t: Seq<char>, line: nat, column: nat) -> int {
    offset_from(t, 0, line, column)
}

/// A line starts at or before each of its offsets.
pub proof fn lemma_line_start_bounds(t: Seq<char>, i: int)
    requires
        0 <= i,
    ensures
        0 <= line_start(t, i) <= i,
    decreases i,
{
    if i > 0 && t[i - 1] != LINE_BREAK {
        lemma_line_start_bounds(t, i - 1);
    }
}

/// A line ends at or after each of its offsets, within the text.
pub proof fn lemma_line_end_bounds(t: Seq<char>, i: int)
    requires
        0 <= i <= t.len(),
    ensures
        i <= line_end(t, i) <= t.len(),
    decreases t.len() - i,
{
    if i < t.len() && t[i] != LINE_BREAK {
        lemma_line_end_bounds(t, i + 1);
    }
}

/// A position lands between the line start it is counted from and the end
/// of the text.
pub proof fn lemma_offset_from_bounds(t: Seq<char>, from: int, line: nat, column: nat)
    requires
        0 <= from <= t.len(),
    ensures
        from <= offset_from(t, from, line, column) <= t.len(),
    decreases line,
{
    lemma_line_end_bounds(t, from);
    let end = line_end(t, from);
    if line > 0 && end < t.len() {
        lemma_offset_from_bounds(t, end + 1, (line - 1) as nat, column);
    }
}

/// Finds where the line holding offset `i` starts.
pub(crate) fn find_line_start(t: &Vec<char>, i: usize) -> (start: usize)
    requires
        i <= t.len(),
    ensures
        start == line_start(t@, i as int),
        start <= i,
{
    let mut j: usize = i;
    while j > 0 && t[j - 1] != LINE_BREAK
        invariant
            j <= i <= t.len(),
            line_start(t@, j as int) == line_start(t@, i as int),
        decreases j,
    {
        j = j - 1;
    }
    proof {
        lemma_line_start_bounds(t@, i as int);
    }
    j
}

/// Finds where the line holding offset `i` ends.
pub(crate) fn find_line_end(t: &Vec<char>, i: usize) -> (end: usize)
    requires
        i <= t.len(),
    ensures
        end == line_end(t@, i as int),
        i <= end <= t.len(),
{
    let mut j: usize = i;
    while j < t.len() && t[j] != LINE_BREAK
        invariant
            i <= j <= t.len(),
            line_end(t@, j as int) == line_end(t@, i as int),
        decreases t.len() - j,
    {
        j = j + 1;
    }
    proof {
        lemma_line_end_bounds(t@, i as int);
    }
    j
}

/// Counts the line breaks at offsets `a <= k < b`.
pub(crate) fn count_breaks(t: &Vec<char>, a: usize, b: usize) -> (n: usize)
    requires
        a <= b <= t.len(),
    ensures
        n == breaks_between(t@, a as int, b as int),
        n <= b - a,
{
    let mut n: usize = 0;
    let mut k: usize = a;
    while k < b
        invariant
            a <= k <= b <= t.len(),
            n == breaks_between(t@, a as int, k as int),
            n <= k - a,
        decreases b - k,
    {
        if t[k] == LINE_BREAK {
            n = n + 1;
        }
        k = k + 1;
    }
    n
}

/// Finds the offset of the zero-based position (`line`, `column`), landing
/// on the end of the line or of the text where the position lies past it.
pub fn find_offset(t: &Vec<char>, line: usize, column: usize) -> (offset: usize)
    ensures
        offset == offset_of(t@, line as nat, column as nat),
        offset <= t.len(),
{
    let mut from: usize = 0;
    let mut left: usize = line;
    loop
        invariant
            from <= t.len(),
            left <= line,
            offset_from(t@, from as int, left as nat, column as nat) == offset_of(
                t@,
                line as nat,
                column as nat,
            ),
        decreases left,
    {
        let end: usize = find_line_end(t, from);
        if left == 0 {
            if column <= end - from {
                return from + column;
            } else {
                return end;
            }
        }
        if end >= t.len() {
            return t.len();
        }
        from = end + 1;
        left = left - 1;
    }
}

} // verus!
