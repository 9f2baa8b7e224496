//! The line buffer: the text of one file, split into lines once and only read
//! thereafter.

use vstd::prelude::*;

verus! {

/// `String::push` of the standard library. Taken on trust: the call appends
/// `c` to the end of the string and changes nothing else of it.
pub assume_specification[ String::push ](s: &mut String, c: char)
    ensures
        final(s)@ == old(s)@.push(c),
;

/// The text that `bytes` hold in UTF-8, or `None` where they are not UTF-8: what
/// `std::str::from_utf8` makes of them.
pub uninterp spec fn utf8_text(bytes: Seq<u8>) -> Option<Seq<char>>;

/// `std::str::from_utf8` of the standard library. Taken on trust: the call
/// depends on the bytes alone, and hands back either the text that they hold
/// or, where they are not UTF-8, an error. This crate names that outcome
/// `utf8_text`.
#[verifier::external_body]
fn decode(bytes: &[u8]) -> (text: Option<&str>)
    ensures
        match text {
            Some(text) => utf8_text(bytes@) == Some(text@),
            None => utf8_text(bytes@).is_none(),
        },
{
    match std::str::from_utf8(bytes) {
        Ok(text) => Some(text),
        Err(_) => None,
    }
}

/// Why a file's contents could not be made into lines.
#[derive(Clone, Copy, Debug, PartialEq, Eq)]
pub enum LoadError {
    /// The contents are not text in UTF-8.
    InvalidUtf8,
}

/// The position of the first line feed of `text` at or after `from`, or the
/// length of `text` where there is none.
pub open spec fn line_end(text: Seq<char>, from: int) -> int
    decreases text.len() - from,
{
    if from >= text.len() {
        text.len() as int
    } else if text[from] == '\n' {
        from
    } else {
        line_end(text, from + 1)
    }
}

/// `line_end` stays inside the text, stops on a line feed or at the end, and
/// passes no line feed on its way.
pub proof fn lemma_line_end(text: Seq<char>, from: int)
    requires
        0 <= from <= text.len(),
    ensures
        from <= line_end(text, from) <= text.len(),
        line_end(text, from) < text.len() ==> text[line_end(text, from)] == '\n',
        forall|k: int| from <= k < line_end(text, from) ==> text[k] != '\n',
    decreases text.len() - from,
{
    if from < text.len() && text[from] != '\n' {
        lemma_line_end(text, from + 1);
    }
}

/// Where no line feed stands between `from` and `to`, the line that holds
/// `from` ends where the one that holds `to` ends.
proof fn lemma_line_end_skip(text: Seq<char>, from: int, to: int)
    requires
        0 <= from <= to <= text.len(),
        forall|k: int| from <= k < to ==> text[k] != '\n',
    ensures
        line_end(text, from) == line_end(text, to),
    decreases to - from,
{
    if from < to {
        lemma_line_end_skip(text, from + 1, to);
    }
}

/// The lines of `text` that begin at or after position `from`, which is the
/// head of a line: each runs up to the next line feed or to the end of the
/// text, and the line feed belongs to no line.
pub open spec fn lines_from(text: Seq<char>, from: int) -> Seq<Seq<char>>
    decreases text.len() - from,
    via lines_from_decreases
{
    if from < 0 || from >= text.len() {
        Seq::empty()
    } else {
        let end = line_end(text, from);
        if end >= text.len() {
            seq![text.subrange(from, end)]
        } else {
            seq![text.subrange(from, end)] + lines_from(text, end + 1)
        }
    }
}

#[via_fn]
proof fn lines_from_decreases(text: Seq<char>, from: int) {
    if 0 <= from < text.len() {
        lemma_line_end(text, from);
    }
}

/// The lines of `text`. Lines are parted by line feeds alone and kept as they
/// stand; a line feed at the very end of the text opens no further line, and
/// an empty text has no line.
pub open spec fn split_lines(text: Seq<char>) -> Seq<Seq<char>> {
    lines_from(text, 0)
}

/// The text whose lines are `lines`: each line, closed by a line feed.
pub open spec fn join_lines(lines: Seq<Seq<char>>) -> Seq<char>
    decreases lines.len(),
{
    if lines.len() == 0 {
        Seq::empty()
    } else {
        lines[0] + seq!['\n'] + join_lines(lines.drop_first())
    }
}

/// The lines from a line's head on, each closed by a line feed, are the text
/// from there on, with a line feed added where the text does not end in one.
proof fn lemma_lines_from_rejoin(text: Seq<char>, from: int)
    requires
        0 <= from <= text.len(),
    ensures
        join_lines(lines_from(text, from)) == if from == text.len() || text.last() == '\n' {
            text.subrange(from, text.len() as int)
        } else {
            text.subrange(from, text.len() as int).push('\n')
        },
    decreases text.len() - from,
{
    let len = text.len() as int;
    if from < len {
        let end = line_end(text, from);
        lemma_line_end(text, from);
        let first = text.subrange(from, end);
        if end >= len {
            assert(lines_from(text, from) =~= seq![first]);
            assert(seq![first].drop_first() =~= Seq::<Seq<char>>::empty());
            assert(join_lines(seq![first].drop_first()) =~= Seq::<char>::empty());
            assert(join_lines(seq![first]) =~= first + seq!['\n']);
            assert(first + seq!['\n'] =~= text.subrange(from, len).push('\n'));
        } else {
            let rest = lines_from(text, end + 1);
            lemma_lines_from_rejoin(text, end + 1);
            assert((seq![first] + rest).drop_first() =~= rest);
            assert(join_lines(seq![first] + rest) =~= first + seq!['\n'] + join_lines(rest));
            assert(first + seq!['\n'] =~= text.subrange(from, end + 1));
            assert(text.subrange(from, end + 1) + text.subrange(end + 1, len) =~= text.subrange(
                from,
                len,
            ));
            assert(text.subrange(from, end + 1) + text.subrange(end + 1, len).push('\n')
                =~= text.subrange(from, len).push('\n'));
        }
    } else {
        assert(text.subrange(from, len) =~= Seq::<char>::empty());
    }
}

/// Splitting loses nothing: the lines of a text, each closed by a line feed,
/// are the text again, with a line feed added where the text does not end in
/// one.
pub proof fn lemma_split_lines_rejoin(text: Seq<char>)
    ensures
        join_lines(split_lines(text)) == if text.len() == 0 || text.last() == '\n' {
            text
        } else {
            text.push('\n')
        },
{
    lemma_lines_from_rejoin(text, 0);
    assert(text.subrange(0, text.len() as int) =~= text);
}

/// No line that begins at or after `from` holds a line feed.
proof fn lemma_lines_from_hold_no_line_feed(text: Seq<char>, from: int)
    requires
        0 <= from <= text.len(),
    ensures
        forall|i: int, k: int|
            0 <= i < lines_from(text, from).len() && 0 <= k < lines_from(text, from)[i].len()
                ==> lines_from(text, from)[i][k] != '\n',
    decreases text.len() - from,
{
    if from < text.len() {
        let end = line_end(text, from);
        lemma_line_end(text, from);
        let lines = lines_from(text, from);
        if end < text.len() {
            lemma_lines_from_hold_no_line_feed(text, end + 1);
        }
        assert forall|i: int, k: int|
            0 <= i < lines.len() && 0 <= k < lines[i].len() implies lines[i][k] != '\n' by {
            if i == 0 {
                assert(lines[0][k] == text[from + k]);
            } else {
                assert(lines[i] == lines_from(text, end + 1)[i - 1]);
            }
        }
    }
}

/// No line of a text holds a line feed.
pub proof fn lemma_split_lines_hold_no_line_feed(text: Seq<char>)
    ensures
        forall|i: int, k: int|
            0 <= i < split_lines(text).len() && 0 <= k < split_lines(text)[i].len()
                ==> split_lines(text)[i][k] != '\n',
{
    lemma_lines_from_hold_no_line_feed(text, 0);
}

/// The characters of each string of `lines`.
pub open spec fn texts(lines: Seq<String>) -> Seq<Seq<char>> {
    Seq::new(lines.len(), |i: int| lines[i]@)
}

/// The text of line `row`, or the empty text where the buffer has no such line.
pub open spec fn line_text(lines: Seq<Seq<char>>, row: int) -> Seq<char> {
    if 0 <= row < lines.len() {
        lines[row]
    } else {
        Seq::empty()
    }
}

/// The number of characters of line `row`; 0 where the buffer has no such line.
pub open spec fn line_len(lines: Seq<Seq<char>>, row: int) -> int {
    line_text(lines, row).len() as int
}

/// The lines of a file, in order and indexed from 0. Nothing changes them
/// once the buffer is made.
pub struct LineBuffer {
    lines: Vec<String>,
}

impl View for LineBuffer {
    type V = Seq<Seq<char>>;

    closed spec fn view(&self) -> Seq<Seq<char>> {
        texts(self.lines@)
    }
}

impl LineBuffer {
    /// A buffer that holds the given lines as they are.
    pub fn from_lines(lines: Vec<String>) -> (buffer: LineBuffer)
        ensures
            buffer@ == texts(lines@),
    {
        LineBuffer { lines }
    }

    /// The number of lines.
    pub fn len(&self) -> (count: usize)
        ensures
            count == self@.len(),
    {
        self.lines.len()
    }

    /// Whether the buffer has no line at all.
    pub fn is_empty(&self) -> (empty: bool)
        ensures
            empty == (self@.len() == 0),
    {
        self.lines.len() == 0
    }

    /// Line `row`, or `None` where the buffer has no such line.
    pub fn line_at(&self, row: usize) -> (line: Option<&str>)
        ensures
            match line {
                Some(text) => row < self@.len() && text@ == self@[row as int],
                None => row >= self@.len(),
            },
    {
        if row < self.lines.len() {
            Some(self.lines[row].as_str())
        } else {
            None
        }
    }

    /// The number of characters of line `row`; 0 where the buffer has no such
    /// line.
    pub fn line_len(&self, row: usize) -> (count: usize)
        ensures
            count == line_len(self@, row as int),
    {
        if row < self.lines.len() {
            self.lines[row].as_str().unicode_len()
        } else {
            0
        }
    }

    /// Reads the contents of a file as UTF-8 and splits them into lines.
    /// Contents that are not UTF-8 are refused as a whole.
    pub fn load(source: &[u8]) -> (loaded: Result<LineBuffer, LoadError>)
        ensures
            match loaded {
                Ok(buffer) => utf8_text(source@).is_some() && buffer@ == split_lines(
                    utf8_text(source@).unwrap(),
                ),
                Err(error) => utf8_text(source@).is_none() && error == LoadError::InvalidUtf8,
            },
    {
        match decode(source) {
            Some(text) => Ok(LineBuffer::from_text(text)),
            None => Err(LoadError::InvalidUtf8),
        }
    }

    /// Splits a text into its lines.
    pub fn from_text(text: &str) -> (buffer: LineBuffer)
        ensures
            buffer@ == split_lines(text@),
    {
        let mut lines: Vec<String> = Vec::new();
        let mut current = String::new();
        let ghost mut start: int = 0;
        for c in it: text.chars()
            invariant
                it.seq() == text@,
                0 <= start <= it.index(),
                current@ == text@.subrange(start, it.index() as int),
                forall|k: int| start <= k < it.index() ==> text@[k] != '\n',
                split_lines(text@) == texts(lines@) + lines_from(text@, start),
        {
            let ghost at: int = it.index() as int;
            proof {
                lemma_line_end_skip(text@, start, at);
            }
            if c == '\n' {
                let ghost done = texts(lines@);
                lines.push(current);
                current = String::new();
                proof {
                    assert(texts(lines@) + lines_from(text@, at + 1) =~= done + lines_from(
                        text@,
                        start,
                    ));
                    start = at + 1;
                }
            } else {
                current.push(c);
                assert(current@ =~= text@.subrange(start, at + 1));
            }
        }
        let ghost done = texts(lines@);
        proof {
            lemma_line_end_skip(text@, start, text@.len() as int);
        }
        if !current.as_str().is_empty() {
            lines.push(current);
            assert(texts(lines@) =~= done + lines_from(text@, start));
        } else {
            assert(texts(lines@) =~= done + lines_from(text@, start));
        }
        LineBuffer { lines }
    }
}

} // verus!
