//! Preparing exported parameter tables for reading: the exporter ends the
//! header line with a comma that the reader would take for an extra column.
use vstd::prelude::*;

use crate::text::{chars_of, push_char};

verus! {

/// The index of the first newline of `s`, or its length when it has none.
pub open spec fn newline_pos(s: Seq<char>) -> int
    decreases s.len(),
{
    if s.len() == 0 {
        0
    } else if s[0] == '\n' {
        0
    } else {
        1 + newline_pos(s.drop_first())
    }
}

pub proof fn lemma_newline_pos(s: Seq<char>)
    ensures
        0 <= newline_pos(s) <= s.len(),
        forall|j: int| 0 <= j < newline_pos(s) ==> s[j] != '\n',
        newline_pos(s) < s.len() ==> s[newline_pos(s)] == '\n',
    decreases s.len(),
{
    if s.len() > 0 && s[0] != '\n' {
        lemma_newline_pos(s.drop_first());
        assert forall|j: int| 0 <= j < newline_pos(s) implies s[j] != '\n' by {
            if j > 0 {
                assert(s[j] == s.drop_first()[j - 1]);
            }
        }
    }
}

/// A line without the carriage return that ended it.
pub open spec fn strip_cr(line: Seq<char>) -> Seq<char> {
    if line.len() > 0 && line.last() == '\r' {
        line.drop_last()
    } else {
        line
    }
}

/// The lines of a text as `str::lines` gives them: split at each `\n`, a `\r`
/// right before the `\n` dropped, and no empty line after a final `\n`.
pub open spec fn text_lines(s: Seq<char>) -> Seq<Seq<char>>
    decreases s.len(),
{
    if s.len() == 0 {
        Seq::empty()
    } else {
        let k = newline_pos(s);
        proof {
            lemma_newline_pos(s);
        }
        if k == s.len() {
            seq![s]
        } else {
            seq![strip_cr(s.take(k))] + text_lines(s.skip(k + 1))
        }
    }
}

/// A header line without one trailing comma.
pub open spec fn strip_comma(line: Seq<char>) -> Seq<char> {
    if line.len() > 0 && line.last() == ',' {
        line.drop_last()
    } else {
        line
    }
}

/// Each line preceded by a newline.
pub open spec fn newline_joined(lines: Seq<Seq<char>>) -> Seq<char>
    decreases lines.len(),
{
    if lines.len() == 0 {
        Seq::empty()
    } else {
        newline_joined(lines.drop_last()) + seq!['\n'] + lines.last()
    }
}

/// Lines joined with newlines, the first without its trailing comma.
pub open spec fn joined_with_header(lines: Seq<Seq<char>>) -> Seq<char> {
    if lines.len() == 0 {
        Seq::empty()
    } else {
        strip_comma(lines[0]) + newline_joined(lines.drop_first())
    }
}

/// An exported table made ready for reading: its lines, the header without a
/// trailing comma, joined with `\n` and no final newline.
pub open spec fn cleaned_csv(source: Seq<char>) -> Seq<char> {
    joined_with_header(text_lines(source))
}

proof fn lemma_joined_push(lines: Seq<Seq<char>>, line: Seq<char>)
    ensures
        joined_with_header(lines.push(line)) == joined_with_header(lines) + if lines.len() == 0 {
            strip_comma(line)
        } else {
            seq!['\n'] + line
        },
{
    if lines.len() == 0 {
        assert(lines.push(line).drop_first() =~= Seq::<Seq<char>>::empty());
        assert(joined_with_header(lines.push(line)) =~= strip_comma(line));
        assert(joined_with_header(lines) =~= Seq::<char>::empty());
    } else {
        assert(lines.push(line).drop_first() =~= lines.drop_first().push(line));
        assert(lines.drop_first().push(line).drop_last() =~= lines.drop_first());
        assert(joined_with_header(lines.push(line)) =~= joined_with_header(lines) + (seq!['\n'] + line));
    }
}

fn push_range(out: &mut String, chars: &Vec<char>, from: usize, to: usize)
    requires
        from <= to <= chars@.len(),
    ensures
        final(out)@ == old(out)@ + chars@.subrange(from as int, to as int),
{
    let mut i = from;
    while i < to
        invariant
            from <= i <= to <= chars@.len(),
            out@ == old(out)@ + chars@.subrange(from as int, i as int),
        decreases to - i,
    {
        push_char(out, chars[i]);
        i = i + 1;
        assert(out@ =~= old(out)@ + chars@.subrange(from as int, i as int));
    }
}

/// The line of `chars` that starts at `pos` and ends at `end` (a newline or the
/// end of the text), without the carriage return before a newline.
pub open spec fn line_at(chars: Seq<char>, pos: int, end: int) -> Seq<char> {
    if end < chars.len() {
        strip_cr(chars.subrange(pos, end))
    } else {
        chars.subrange(pos, end)
    }
}

proof fn lemma_text_lines_step(chars: Seq<char>, pos: int, end: int)
    requires
        0 <= pos < chars.len(),
        end - pos == newline_pos(chars.skip(pos)),
    ensures
        pos <= end <= chars.len(),
        end < chars.len() ==> text_lines(chars.skip(pos)) == seq![line_at(chars, pos, end)] + text_lines(chars.skip(end + 1)),
        end == chars.len() ==> text_lines(chars.skip(pos)) == seq![line_at(chars, pos, end)],
{
    let rest = chars.skip(pos);
    lemma_newline_pos(rest);
    assert(rest.take(end - pos) =~= chars.subrange(pos, end));
    if end < chars.len() {
        assert(chars.skip(end + 1) =~= rest.skip(end - pos + 1));
    } else {
        assert(rest =~= chars.subrange(pos, end));
    }
}

/// The end of the line that starts at `pos`: the index of the next newline, or the length.
fn line_end(chars: &Vec<char>, pos: usize) -> (end: usize)
    requires
        pos < chars@.len(),
    ensures
        end - pos == newline_pos(chars@.skip(pos as int)),
{
    let n = chars.len();
    let mut end = pos;
    while end < n && chars[end] != '\n'
        invariant
            pos <= end <= n,
            n == chars@.len(),
            forall|j: int| pos <= j < end ==> chars@[j] != '\n',
        decreases n - end,
    {
        end = end + 1;
    }
    proof {
        let rest = chars@.skip(pos as int);
        lemma_newline_pos(rest);
        let k = newline_pos(rest);
        if k < end - pos {
            assert(rest[k] == chars@[pos + k]);
        }
        if k > end - pos {
            assert(rest[end - pos] == chars@[end as int]);
        }
    }
    end
}

/// Appends the line from `pos` to `end`, without a carriage return before a
/// newline and, for the first line, without a trailing comma.
fn push_line(out: &mut String, chars: &Vec<char>, pos: usize, end: usize, first: bool)
    requires
        pos <= end <= chars@.len(),
    ensures
        final(out)@ == old(out)@ + if first {
            strip_comma(line_at(chars@, pos as int, end as int))
        } else {
            line_at(chars@, pos as int, end as int)
        },
{
    let mut stop = end;
    if end < chars.len() && stop > pos && chars[stop - 1] == '\r' {
        stop = stop - 1;
    }
    assert(chars@.subrange(pos as int, stop as int) =~= line_at(chars@, pos as int, end as int));
    let line_stop = stop;
    if first && stop > pos && chars[stop - 1] == ',' {
        stop = stop - 1;
    }
    assert(chars@.subrange(pos as int, stop as int) =~= if first {
        strip_comma(line_at(chars@, pos as int, end as int))
    } else {
        line_at(chars@, pos as int, end as int)
    }) by {
        assert(chars@.subrange(pos as int, line_stop as int) == line_at(chars@, pos as int, end as int));
    }
    push_range(out, chars, pos, stop);
}

/// The text of an exported table made ready for reading: its lines joined with
/// `\n`, with one trailing comma taken off the header line.
pub fn clean_exported_csv(source: &str) -> (cleaned: String)
    ensures
        cleaned@ == cleaned_csv(source@),
{
    let chars = chars_of(source);
    let n = chars.len();
    let mut out = String::new();
    let mut pos: usize = 0;
    let ghost mut lines: Seq<Seq<char>> = Seq::empty();
    assert(chars@.skip(0) =~= chars@);
    assert(out@ =~= joined_with_header(lines));
    while pos < n
        invariant
            n == chars@.len(),
            chars@ == source@,
            pos <= n,
            (pos == 0) == (lines.len() == 0),
            text_lines(chars@) == lines + text_lines(chars@.skip(pos as int)),
            out@ == joined_with_header(lines),
        decreases n - pos,
    {
        let end = line_end(&chars, pos);
        let ghost line = line_at(chars@, pos as int, end as int);
        proof {
            lemma_text_lines_step(chars@, pos as int, end as int);
            lemma_joined_push(lines, line);
        }
        let first = pos == 0;
        if !first {
            push_char(&mut out, '\n');
        }
        push_line(&mut out, &chars, pos, end, first);
        assert(out@ =~= joined_with_header(lines.push(line)));
        proof {
            lines = lines.push(line);
        }
        if end < n {
            pos = end + 1;
            assert(text_lines(chars@) =~= lines + text_lines(chars@.skip(pos as int)));
        } else {
            pos = n;
            assert(chars@.skip(n as int) =~= Seq::<char>::empty());
            assert(text_lines(chars@) =~= lines + text_lines(chars@.skip(pos as int)));
        }
    }
    assert(chars@.skip(n as int) =~= Seq::<char>::empty());
    assert(lines =~= text_lines(chars@));
    out
}


/// Lines joined with newlines.
pub open spec fn joined(lines: Seq<Seq<char>>) -> Seq<char> {
    if lines.len() == 0 {
        Seq::empty()
    } else {
        lines[0] + newline_joined(lines.drop_first())
    }
}

proof fn lemma_newline_joined_front(lines: Seq<Seq<char>>)
    requires
        lines.len() >= 1,
    ensures
        newline_joined(lines) == seq!['\n'] + lines[0] + newline_joined(lines.drop_first()),
    decreases lines.len(),
{
    if lines.len() == 1 {
        assert(lines.drop_last() =~= Seq::<Seq<char>>::empty());
        assert(lines.drop_first() =~= Seq::<Seq<char>>::empty());
        assert(newline_joined(Seq::<Seq<char>>::empty()) == Seq::<char>::empty());
        assert(newline_joined(lines) =~= seq!['\n'] + lines[0] + newline_joined(lines.drop_first()));
    } else {
        lemma_newline_joined_front(lines.drop_last());
        assert(lines.drop_last().drop_first() =~= lines.drop_first().drop_last());
        assert(lines.drop_first().last() == lines.last());
        assert(newline_joined(lines) =~= seq!['\n'] + lines[0] + newline_joined(lines.drop_first()));
    }
}

/// `s` has no carriage return right before a newline and does not end with a newline.
pub open spec fn plain_lines(s: Seq<char>) -> bool {
    &&& forall|i: int| 0 < i < s.len() && #[trigger] s[i] == '\n' ==> s[i - 1] != '\r'
    &&& (s.len() == 0 || s.last() != '\n')
}

proof fn lemma_joined_lines(s: Seq<char>)
    requires
        plain_lines(s),
    ensures
        joined(text_lines(s)) == s,
    decreases s.len(),
{
    if s.len() > 0 {
        lemma_newline_pos(s);
        let k = newline_pos(s);
        if k < s.len() {
            let rest = s.skip(k + 1);
            assert(rest.len() > 0);
            assert forall|i: int| 0 < i < rest.len() && #[trigger] rest[i] == '\n' implies rest[i - 1] != '\r' by {
                assert(rest[i] == s[k + 1 + i]);
                assert(rest[i - 1] == s[k + i]);
            }
            assert(rest.last() == s.last());
            lemma_joined_lines(rest);
            let line = s.take(k);
            assert(strip_cr(line) == line) by {
                if k > 0 {
                    assert(line.last() == s[k - 1]);
                }
            }
            let lines = text_lines(s);
            assert(lines == seq![line] + text_lines(rest));
            let tail = text_lines(rest);
            assert(lines.drop_first() =~= tail);
            assert(tail.len() >= 1) by {
                lemma_newline_pos(rest);
            }
            lemma_newline_joined_front(tail);
            assert(s =~= line + seq!['\n'] + rest);
            assert(joined(lines) =~= s);
        } else {
            assert(text_lines(s) == seq![s]);
            assert(seq![s].drop_first() =~= Seq::<Seq<char>>::empty());
            assert(joined(text_lines(s)) =~= s);
        }
    }
}

/// Law: a table that is already clean (its header line has no trailing comma,
/// no line ends with a carriage return, and there is no final newline) is left
/// unchanged.
pub proof fn law_clean_text_is_unchanged(source: Seq<char>)
    requires
        plain_lines(source),
        newline_pos(source) == 0 || source[newline_pos(source) - 1] != ',',
    ensures
        cleaned_csv(source) == source,
{
    lemma_joined_lines(source);
    lemma_newline_pos(source);
    let lines = text_lines(source);
    if lines.len() > 0 {
        assert(lines[0].len() == 0 || lines[0].last() != ',') by {
            let k = newline_pos(source);
            if k < source.len() {
                assert(lines[0] == strip_cr(source.take(k)));
                assert(strip_cr(source.take(k)) == source.take(k)) by {
                    if k > 0 {
                        assert(source.take(k).last() == source[k - 1]);
                    }
                }
            } else {
                assert(lines[0] == source);
            }
        }
        assert(strip_comma(lines[0]) == lines[0]);
    }
}


/// Law: cleaning changes the header line only. The cleaned text is the first
/// line of the input (as `str::lines` gives it), less one trailing comma when
/// it ends with one, then each later line of the input after a newline,
/// unchanged and in order; an input with no lines gives an empty text.
pub proof fn law_cleaning_keeps_data_lines(source: Seq<char>)
    ensures
        text_lines(source).len() == 0 ==> cleaned_csv(source).len() == 0,
        text_lines(source).len() > 0 ==> {
            let lines = text_lines(source);
            let header = lines[0];
            let kept = if header.len() > 0 && header.last() == ',' { header.drop_last() } else { header };
            cleaned_csv(source) == kept + newline_joined(lines.drop_first())
        },
{
}

}
