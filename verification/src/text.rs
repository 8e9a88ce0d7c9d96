//! Splitting a title into lines.

use vstd::prelude::*;
use vstd::slice::slice_subrange;

verus! {

/// How a line of text is placed relative to its anchor.
#[derive(Clone, Copy, Debug, PartialEq, Eq, Structural)]
pub enum HorizontalAlignment {
    /// The line starts at the anchor.
    Left,
    /// The line is centred on the anchor.
    Middle,
}

/// `line` is the line of `chars` that begins at `start`: the longest run of
/// characters from `start` on that holds no line break.
pub open spec fn is_line_at(chars: Seq<char>, start: int, line: Seq<char>) -> bool {
    &&& 0 <= start <= start + line.len() <= chars.len()
    &&& line == chars.subrange(start, start + line.len())
    &&& forall|i: int| 0 <= i < line.len() ==> line[i] != '\n'
    &&& (start + line.len() == chars.len() || chars[start + line.len()] == '\n')
}

/// No two different runs are the line at the same place.
pub proof fn lemma_line_is_unique(chars: Seq<char>, start: int, a: Seq<char>, b: Seq<char>)
    requires
        is_line_at(chars, start, a),
        is_line_at(chars, start, b),
    ensures
        a == b,
{
    if a.len() < b.len() {
        assert(b[a.len() as int] == chars[start + a.len()]);
    } else if b.len() < a.len() {
        assert(a[b.len() as int] == chars[start + b.len()]);
    }
    assert(a =~= b);
}

/// Returns the line that begins at `start`, without its line break.
///
/// The line after it, if there is one, begins at `start + line.len() + 1`.
pub fn next_line(chars: &[char], start: usize) -> (line: &[char])
    requires
        start <= chars@.len(),
    ensures
        is_line_at(chars@, start as int, line@),
{
    let mut end: usize = start;
    while end < chars.len() && chars[end] != '\n'
        invariant
            start <= end <= chars@.len(),
            forall|i: int| start <= i < end ==> chars@[i] != '\n',
        decreases chars@.len() - end,
    {
        end = end + 1;
    }
    slice_subrange(chars, start, end)
}

} // verus!
