//! The plain-text file format: one stored line per newline-terminated record.

use vstd::prelude::*;
use crate::chars::{append_char, to_vec, views};

verus! {

/// No character of the line is a line feed.
pub open spec fn single_line(line: Seq<char>) -> bool {
    forall|j: int| 0 <= j < line.len() ==> line[j] != '\n'
}

/// Every line of the sequence is free of line feeds.
pub open spec fn all_single_lines(lines: Seq<Seq<char>>) -> bool {
    forall|i: int| 0 <= i < lines.len() ==> single_line(#[trigger] lines[i])
}

/// Index of the first line feed in `text`, or `text.len()` if it has none.
pub open spec fn first_newline(text: Seq<char>) -> int
    decreases text.len(),
{
    if text.len() == 0 {
        0
    } else if text[0] == '\n' {
        0
    } else {
        1 + first_newline(text.skip(1))
    }
}

/// A record without the carriage return that may precede its line feed.
pub open spec fn strip_cr(record: Seq<char>) -> Seq<char> {
    if record.len() > 0 && record.last() == '\r' {
        record.drop_last()
    } else {
        record
    }
}

/// The records of a text. A record ends at a line feed, which is not part of
/// it, and neither is a carriage return directly before that line feed. Text
/// after the last line feed is a final record, taken as it is; if there is no
/// such text, there is no final record.
pub open spec fn records(text: Seq<char>) -> Seq<Seq<char>>
    decreases text.len(),
{
    if text.len() == 0 {
        Seq::empty()
    } else {
        let k = first_newline(text);
        if k >= text.len() {
            seq![text]
        } else {
            proof {
                lemma_first_newline_bounds(text);
            }
            seq![strip_cr(text.take(k))] + records(text.skip(k + 1))
        }
    }
}

/// The lines of a document read from `text`: its records, or one empty line
/// if it has none.
pub open spec fn document_lines(text: Seq<char>) -> Seq<Seq<char>> {
    if records(text).len() == 0 {
        seq![Seq::<char>::empty()]
    } else {
        records(text)
    }
}

/// The lines one after the other, each followed by `end`.
pub open spec fn joined(lines: Seq<Seq<char>>, end: Seq<char>) -> Seq<char>
    decreases lines.len(),
{
    if lines.len() == 0 {
        Seq::empty()
    } else {
        lines[0] + end + joined(lines.skip(1), end)
    }
}

/// The text that stores `lines`: each line followed by a line feed.
pub open spec fn document_text(lines: Seq<Seq<char>>) -> Seq<char> {
    joined(lines, seq!['\n'])
}

/// The first line feed of a text lies inside the text or at its end, a line
/// feed stands there unless it is the end, and none stands before it.
pub proof fn lemma_first_newline_bounds(text: Seq<char>)
    ensures
        0 <= first_newline(text) <= text.len(),
        first_newline(text) < text.len() ==> text[first_newline(text)] == '\n',
        single_line(text.take(first_newline(text))),
    decreases text.len(),
{
    if text.len() != 0 && text[0] != '\n' {
        let rest = text.skip(1);
        lemma_first_newline_bounds(rest);
        let k = first_newline(rest);
        let head = text.take(k + 1);
        assert forall|j: int| 0 <= j < head.len() implies head[j] != '\n' by {
            if j > 0 {
                assert(rest.take(k)[j - 1] == head[j]);
            }
        }
    }
}

/// The first line feed of a text is found at `k` when nothing before `k` is
/// a line feed and either `k` is the end or a line feed stands at `k`.
pub proof fn lemma_first_newline_at(text: Seq<char>, k: int)
    requires
        0 <= k <= text.len(),
        single_line(text.take(k)),
        k < text.len() ==> text[k] == '\n',
    ensures
        first_newline(text) == k,
    decreases text.len(),
{
    if text.len() != 0 && k != 0 {
        assert(text.take(k)[0] == text[0]);
        let rest = text.skip(1);
        let head = rest.take(k - 1);
        assert forall|j: int| 0 <= j < head.len() implies head[j] != '\n' by {
            assert(text.take(k)[j + 1] == head[j]);
        }
        lemma_first_newline_at(rest, k - 1);
    }
}

/// Every record of a text is free of line feeds.
pub proof fn lemma_records_single_lines(text: Seq<char>)
    ensures
        all_single_lines(records(text)),
        all_single_lines(document_lines(text)),
    decreases text.len(),
{
    if text.len() != 0 {
        lemma_first_newline_bounds(text);
        let k = first_newline(text);
        if k >= text.len() {
            assert(text.take(k) =~= text);
        } else {
            lemma_records_single_lines(text.skip(k + 1));
        }
    }
}

/// The line does not end in a carriage return.
pub open spec fn keeps_last_char(line: Seq<char>) -> bool {
    line.len() == 0 || line.last() != '\r'
}

/// The lines, each without a carriage return at its end.
pub open spec fn stripped(lines: Seq<Seq<char>>) -> Seq<Seq<char>> {
    lines.map_values(|line: Seq<char>| strip_cr(line))
}

/// Reading back the text that stores `lines` yields the lines again, each
/// without a carriage return at its end, provided that no line holds a
/// line feed.
pub proof fn lemma_records_of_text(lines: Seq<Seq<char>>)
    requires
        all_single_lines(lines),
    ensures
        records(document_text(lines)) == stripped(lines),
    decreases lines.len(),
{
    if lines.len() > 0 {
        let text = document_text(lines);
        let first = lines[0];
        let rest = lines.skip(1);
        assert(text.take(first.len() as int) =~= first);
        lemma_first_newline_at(text, first.len() as int);
        assert(text.skip(first.len() as int + 1) =~= document_text(rest));
        lemma_records_of_text(rest);
    }
}

/// Splits the text of a file into the lines of a document.
pub fn split_lines(text: &str) -> (lines: Vec<Vec<char>>)
    ensures
        views(lines@) == document_lines(text@),
{
    let chars = to_vec(text);
    let mut lines: Vec<Vec<char>> = Vec::new();
    let mut current: Vec<char> = Vec::new();
    let mut start: usize = 0;
    let mut i: usize = 0;
    proof {
        assert(chars@.skip(0) =~= chars@);
    }
    while i < chars.len()
        invariant
            chars@ == text@,
            start <= i <= chars@.len(),
            current@ == chars@.subrange(start as int, i as int),
            single_line(current@),
            records(chars@) == views(lines@) + records(chars@.skip(start as int)),
        decreases chars.len() - i,
    {
        let c = chars[i];
        if c == '\n' {
            let ghost tail = chars@.skip(start as int);
            proof {
                assert(tail.take(i - start) =~= current@);
                lemma_first_newline_at(tail, i - start);
                assert(tail.skip(i - start + 1) =~= chars@.skip(i + 1));
            }
            let n = current.len();
            if n > 0 && current[n - 1] == '\r' {
                current.pop();
            }
            lines.push(current);
            current = Vec::new();
            start = i + 1;
            i = i + 1;
        } else {
            current.push(c);
            i = i + 1;
        }
    }
    let ghost tail = chars@.skip(start as int);
    if current.len() > 0 {
        proof {
            lemma_first_newline_at(tail, tail.len() as int);
        }
        lines.push(current);
    }
    if lines.len() == 0 {
        lines.push(Vec::new());
    }
    lines
}

/// Writes the lines one after the other, each followed by `end`.
pub fn join_lines(lines: &Vec<Vec<char>>, end: &str) -> (text: String)
    ensures
        text@ == joined(views(lines@), end@),
{
    let mut text = String::new();
    let mut i: usize = 0;
    proof {
        assert(views(lines@).skip(0) =~= views(lines@));
    }
    while i < lines.len()
        invariant
            i <= lines.len(),
            joined(views(lines@), end@) == text@ + joined(views(lines@).skip(i as int), end@),
        decreases lines.len() - i,
    {
        let line = &lines[i];
        let ghost before = text@;
        let ghost rest = views(lines@).skip(i as int);
        let mut j: usize = 0;
        while j < line.len()
            invariant
                j <= line.len(),
                text@ == before + line@.take(j as int),
            decreases line.len() - j,
        {
            append_char(&mut text, line[j]);
            j = j + 1;
        }
        text.append(end);
        i = i + 1;
        proof {
            assert(rest.skip(1) =~= views(lines@).skip(i as int));
        }
    }
    text
}

} // verus!
