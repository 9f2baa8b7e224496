//! Word boundaries inside one line of text.

use vstd::prelude::*;

verus! {

/// Whether `c` has the Unicode `White_Space` property, as the standard library
/// reports it.
pub uninterp spec fn white_space(c: char) -> bool;

/// `char::is_whitespace` of the standard library. Taken on trust: the call
/// answers with the `White_Space` property of its argument, which this crate
/// names `white_space`.
pub assume_specification[ char::is_whitespace ](c: char) -> (b: bool)
    ensures
        b == white_space(c),
;

/// For each position of `line`, whether the character there is white space.
pub open spec fn space_mask(line: Seq<char>) -> Seq<bool> {
    Seq::new(line.len(), |i: int| white_space(line[i]))
}

/// Classifies every character of `line` as white space or not.
pub fn whitespace_mask(line: &str) -> (mask: Vec<bool>)
    ensures
        mask@ == space_mask(line@),
{
    let mut mask: Vec<bool> = Vec::new();
    for c in it: line.chars()
        invariant
            it.seq() == line@,
            mask@ == space_mask(line@.take(it.index() as int)),
    {
        mask.push(c.is_whitespace());
    }
    mask
}

/// Whether a word begins at position `i`: a character that is not white space
/// and stands at the head of the line or right after white space.
pub open spec fn is_word_start(spaces: Seq<bool>, i: int) -> bool {
    &&& 0 <= i < spaces.len()
    &&& !spaces[i]
    &&& (i == 0 || spaces[i - 1])
}

/// The first word start at or after `from`, or the line's length where no
/// word begins there.
pub open spec fn word_start_from(spaces: Seq<bool>, from: int) -> int
    decreases spaces.len() - from,
{
    if from >= spaces.len() {
        spaces.len() as int
    } else if is_word_start(spaces, from) {
        from
    } else {
        word_start_from(spaces, from + 1)
    }
}

/// Where a forward word motion from column `col` lands: on the first word
/// start after `col`, or at the end of the line where no further word begins.
pub open spec fn next_word_start(spaces: Seq<bool>, col: int) -> int {
    word_start_from(spaces, col + 1)
}

/// Where a backward word motion from column `col` lands: on the last word
/// start before `col`, or at the head of the line where no word begins before.
pub open spec fn prev_word_start(spaces: Seq<bool>, col: int) -> int
    decreases col,
{
    if col <= 0 {
        0
    } else if is_word_start(spaces, col - 1) {
        col - 1
    } else {
        prev_word_start(spaces, col - 1)
    }
}

/// `word_start_from` finds the least word start that is not before `from`.
pub proof fn lemma_word_start_from(spaces: Seq<bool>, from: int)
    requires
        0 <= from <= spaces.len(),
    ensures
        from <= word_start_from(spaces, from) <= spaces.len(),
        word_start_from(spaces, from) < spaces.len() ==> is_word_start(
            spaces,
            word_start_from(spaces, from),
        ),
        forall|k: int| from <= k < word_start_from(spaces, from) ==> !is_word_start(spaces, k),
    decreases spaces.len() - from,
{
    if from < spaces.len() && !is_word_start(spaces, from) {
        lemma_word_start_from(spaces, from + 1);
    }
}

/// A forward word motion moves right unless the cursor is at the end of the
/// line, lands on a word start or on the end of the line, and passes no word
/// start on its way.
pub proof fn lemma_next_word_start(spaces: Seq<bool>, col: int)
    requires
        0 <= col <= spaces.len(),
    ensures
        col <= next_word_start(spaces, col) <= spaces.len(),
        col < spaces.len() ==> col < next_word_start(spaces, col),
        next_word_start(spaces, col) < spaces.len() ==> is_word_start(
            spaces,
            next_word_start(spaces, col),
        ),
        forall|k: int| col < k < next_word_start(spaces, col) ==> !is_word_start(spaces, k),
{
    if col < spaces.len() {
        lemma_word_start_from(spaces, col + 1);
    }
}

/// A backward word motion moves left unless the cursor is at the head of the
/// line, lands on a word start or on the head of the line, and passes no word
/// start on its way.
pub proof fn lemma_prev_word_start(spaces: Seq<bool>, col: int)
    requires
        0 <= col,
    ensures
        0 <= prev_word_start(spaces, col) <= col,
        0 < col ==> prev_word_start(spaces, col) < col,
        0 < prev_word_start(spaces, col) ==> is_word_start(spaces, prev_word_start(spaces, col)),
        forall|k: int| prev_word_start(spaces, col) < k < col ==> !is_word_start(spaces, k),
    decreases col,
{
    if col > 0 && !is_word_start(spaces, col - 1) {
        lemma_prev_word_start(spaces, col - 1);
    }
}

/// Beyond the end of the line no word begins, so a backward motion from there
/// lands where one from the end of the line does.
proof fn lemma_prev_word_start_beyond(spaces: Seq<bool>, col: int)
    requires
        spaces.len() <= col,
    ensures
        prev_word_start(spaces, col) == prev_word_start(spaces, spaces.len() as int),
    decreases col,
{
    if col > spaces.len() {
        lemma_prev_word_start_beyond(spaces, col - 1);
    }
}

/// The column that a forward word motion from `col` reaches on a line whose
/// white space is given by `spaces`.
pub fn word_forward(spaces: &Vec<bool>, col: usize) -> (target: usize)
    ensures
        target == next_word_start(spaces@, col as int),
{
    let len = spaces.len();
    if col >= len {
        return len;
    }
    let mut i: usize = col + 1;
    while i < len
        invariant
            col < i <= len,
            len == spaces@.len(),
            next_word_start(spaces@, col as int) == word_start_from(spaces@, i as int),
        decreases len - i,
    {
        if !spaces[i] && spaces[i - 1] {
            return i;
        }
        i += 1;
    }
    len
}

/// The column that a backward word motion from `col` reaches on a line whose
/// white space is given by `spaces`.
pub fn word_back(spaces: &Vec<bool>, col: usize) -> (target: usize)
    ensures
        target == prev_word_start(spaces@, col as int),
{
    let len = spaces.len();
    let mut i: usize = if col < len {
        col
    } else {
        len
    };
    proof {
        if col >= len {
            lemma_prev_word_start_beyond(spaces@, col as int);
        }
    }
    while i > 0
        invariant
            i <= len,
            len == spaces@.len(),
            prev_word_start(spaces@, col as int) == prev_word_start(spaces@, i as int),
        decreases i,
    {
        let j: usize = i - 1;
        if !spaces[j] && (j == 0 || spaces[j - 1]) {
            return j;
        }
        i = j;
    }
    0
}

} // verus!
