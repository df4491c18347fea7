use vstd::prelude::*;
use vstd::utf8::encode_utf8;
use crate::escape::{move_to, push_move_to};
use crate::types::lines_view;

verus! {

/// Index of the first line feed of `s` at or after `from`, or the length of
/// `s` where there is none.
pub open spec fn line_end(s: Seq<char>, from: int) -> int
    decreases s.len() - from,
{
    if from < 0 || from >= s.len() || s[from] == '\n' {
        from
    } else {
        line_end(s, from + 1)
    }
}

/// `line` without the carriage return that belongs to its line ending: a
/// trailing one is dropped where a line feed ended the line.
pub open spec fn strip_return(line: Seq<char>, terminated: bool) -> Seq<char> {
    if terminated && line.len() > 0 && line.last() == '\r' {
        line.drop_last()
    } else {
        line
    }
}

/// The lines of `s`. A line ends at a line feed, or at a carriage return
/// directly followed by one; the ending is not part of the line. The last line
/// needs no ending, and nothing follows a final ending.
pub open spec fn split_lines(s: Seq<char>) -> Seq<Seq<char>>
    decreases s.len(),
{
    if s.len() == 0 {
        Seq::empty()
    } else {
        let end = line_end(s, 0);
        if 0 <= end < s.len() {
            seq![strip_return(s.subrange(0, end), true)] + split_lines(
                s.subrange(end + 1, s.len() as int),
            )
        } else {
            seq![s]
        }
    }
}

proof fn lemma_line_end(s: Seq<char>, from: int, end: int)
    requires
        0 <= from <= end <= s.len(),
        forall|k: int| from <= k < end ==> s[k] != '\n',
        end < s.len() ==> s[end] == '\n',
    ensures
        line_end(s, from) == end,
    decreases end - from,
{
    if from < end {
        lemma_line_end(s, from + 1, end);
    }
}

/// Splits `text` into its lines.
pub fn lines(text: &str) -> (out: Vec<String>)
    ensures
        lines_view(out@) == split_lines(text@),
{
    broadcast use vstd::string::group_string_axioms;

    let total: usize = text.unicode_len();
    let mut out: Vec<String> = Vec::new();
    let mut start: usize = 0;
    let mut at: usize = 0;
    let mut after_return: bool = false;
    let chars = text.chars();
    proof {
        assert(text@.subrange(0, total as int) =~= text@);
        assert(lines_view(out@) + split_lines(text@) =~= split_lines(text@));
    }
    for c in it: chars
        invariant
            total == text@.len(),
            it.seq() == text@,
            at == it.index(),
            start <= at <= total,
            forall|k: int| start <= k < at ==> text@[k] != '\n',
            after_return <==> at > start && text@[at - 1] == '\r',
            split_lines(text@) == lines_view(out@) + split_lines(
                text@.subrange(start as int, total as int),
            ),
    {
        if c == '\n' {
            let end: usize = if after_return { at - 1 } else { at };
            let line = text.substring_char(start, end).to_owned();
            proof {
                let rest = text@.subrange(start as int, total as int);
                lemma_line_end(rest, 0, at - start);
                assert(rest.subrange(0, at - start) =~= text@.subrange(start as int, at as int));
                assert(rest.subrange(at - start + 1, rest.len() as int) =~= text@.subrange(
                    at + 1,
                    total as int,
                ));
                assert(line@ =~= strip_return(text@.subrange(start as int, at as int), true));
                assert(lines_view(out@.push(line)) =~= lines_view(out@) + seq![line@]);
            }
            out.push(line);
            start = at + 1;
            after_return = false;
        } else {
            after_return = c == '\r';
        }
        at += 1;
    }
    if start < total {
        let line = text.substring_char(start, total).to_owned();
        proof {
            let rest = text@.subrange(start as int, total as int);
            lemma_line_end(rest, 0, rest.len() as int);
            assert(lines_view(out@.push(line)) =~= lines_view(out@) + seq![line@]);
        }
        out.push(line);
    } else {
        assert(text@.subrange(start as int, total as int) =~= Seq::<char>::empty());
        assert(lines_view(out@) + Seq::<Seq<char>>::empty() =~= lines_view(out@));
    }
    out
}

/// Blank cells between a frame and the text beside it.
pub const SPACES_BETWEEN_ANIM_AND_FRAME: usize = 1;

/// The length of the longest of `lines`, in bytes of UTF-8; zero where there
/// is no line.
pub open spec fn longest_line(lines: Seq<Seq<char>>) -> nat
    decreases lines.len(),
{
    if lines.len() == 0 {
        0
    } else {
        let rest = longest_line(lines.drop_last());
        let last = encode_utf8(lines.last()).len();
        if last > rest {
            last
        } else {
            rest
        }
    }
}

/// Finds the length in bytes of the longest of `lines`.
pub fn longest(lines: &Vec<String>) -> (len: usize)
    ensures
        len == longest_line(lines_view(lines@)),
{
    let mut len: usize = 0;
    let mut i: usize = 0;
    while i < lines.len()
        invariant
            i <= lines@.len(),
            len == longest_line(lines_view(lines@).subrange(0, i as int)),
        decreases lines@.len() - i,
    {
        let bytes = lines[i].as_str().as_bytes();
        let this: usize = bytes.len();
        proof {
            let upto = lines_view(lines@).subrange(0, i + 1);
            assert(upto.drop_last() =~= lines_view(lines@).subrange(0, i as int));
            assert(upto.last() == lines@[i as int]@);
        }
        if this > len {
            len = this;
        }
        i += 1;
    }
    assert(lines_view(lines@).subrange(0, i as int) =~= lines_view(lines@));
    len
}

/// The first `n` of `lines`, each behind the cursor move that puts it in its
/// row, in the column one blank cell to the right of a frame that is
/// `frame_width` cells wide. `offset` is the column and row of the frame's
/// top-left cell, counted from one.
pub open spec fn placed_first(
    lines: Seq<Seq<char>>,
    offset: (usize, usize),
    frame_width: usize,
    n: nat,
) -> Seq<char>
    decreases n,
{
    if n == 0 {
        Seq::empty()
    } else {
        placed_first(lines, offset, frame_width, (n - 1) as nat) + move_to(
            (offset.1 + (n - 1)) as nat,
            (offset.0 + SPACES_BETWEEN_ANIM_AND_FRAME + frame_width) as nat,
        ) + lines[n - 1]
    }
}

/// The text that writes `lines` beside a frame at `offset`.
pub open spec fn placed(lines: Seq<Seq<char>>, offset: (usize, usize), frame_width: usize) -> Seq<
    char,
> {
    placed_first(lines, offset, frame_width, lines.len())
}

/// Builds the text that writes `lines` beside a frame of `frame_width` cells
/// whose top-left cell is at `offset`.
pub fn place(lines: &Vec<String>, offset: &(usize, usize), frame_width: usize) -> (out: String)
    ensures
        out@ == placed(lines_view(lines@), *offset, frame_width),
{
    let column_pos: u128 = offset.0 as u128 + SPACES_BETWEEN_ANIM_AND_FRAME as u128
        + frame_width as u128;
    let mut out = String::new();
    let mut line_idx: usize = 0;
    while line_idx < lines.len()
        invariant
            line_idx <= lines@.len(),
            column_pos == offset.0 + SPACES_BETWEEN_ANIM_AND_FRAME + frame_width,
            out@ == placed_first(lines_view(lines@), *offset, frame_width, line_idx as nat),
        decreases lines@.len() - line_idx,
    {
        let ghost before = out@;
        push_move_to(&mut out, offset.1 as u128 + line_idx as u128, column_pos);
        out.append(lines[line_idx].as_str());
        assert(out@ =~= before + move_to((offset.1 + line_idx) as nat, column_pos as nat)
            + lines_view(lines@)[line_idx as int]);
        line_idx += 1;
    }
    out
}

} // verus!
