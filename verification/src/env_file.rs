//! The flat environment file: one `KEY=VALUE` pair per line.
//!
//! Lines end at a line feed. A line is read after trimming, so a carriage
//! return before the line feed does not count; blank lines and lines whose
//! first character is `#` are passed over, and so is a line without `=`.
//! What stands before the first `=` is the key, what stands after it the
//! value; both are trimmed, and one pair of matching quotes round the value
//! is taken away. Nothing else is read into a line: a `#` further on is
//! part of the value, and a key may occur more than once.

use crate::text::{
    chars_of, find_char, is_space, lemma_position_of, lemma_position_of_bounds, lemma_trim,
    position_of, string_of, trim, trim_bounds,
};
use vstd::prelude::*;

verus! {

/// A key and its value, as sequences of characters.
pub type Entry = (Seq<char>, Seq<char>);

/// `value` without one pair of surrounding quotes: the first and the last
/// character are dropped when they are the same quote character, `"` or `'`.
pub open spec fn unquote(value: Seq<char>) -> Seq<char> {
    if value.len() >= 2 && value[0] == value.last() && (value[0] == '"' || value[0] == '\'') {
        value.subrange(1, value.len() - 1)
    } else {
        value
    }
}

/// What one line of the file contributes: nothing for a blank line, a
/// comment or a line without `=`, else the key and the value.
pub open spec fn parse_line(line: Seq<char>) -> Option<Entry> {
    let body = trim(line);
    let at = position_of(body, '=');
    if body.len() == 0 || body[0] == '#' || at == body.len() {
        None
    } else {
        Some((trim(body.subrange(0, at)), unquote(trim(body.subrange(at + 1, body.len() as int)))))
    }
}

/// The lines of `text`: the pieces between line feeds. A line feed at the
/// very end closes the last line and opens no further one.
pub open spec fn lines(text: Seq<char>) -> Seq<Seq<char>>
    decreases text.len(),
{
    if text.len() == 0 {
        Seq::empty()
    } else {
        let end = position_of(text, '\n');
        if end < text.len() {
            proof {
                lemma_position_of_bounds(text, '\n');
            }
            seq![text.subrange(0, end)] + lines(text.subrange(end + 1, text.len() as int))
        } else {
            seq![text]
        }
    }
}

/// The entries that a sequence of lines yields, in the order of the lines.
pub open spec fn entries_of(lines: Seq<Seq<char>>) -> Seq<Entry>
    decreases lines.len(),
{
    if lines.len() == 0 {
        Seq::empty()
    } else {
        let earlier = entries_of(lines.drop_last());
        match parse_line(lines.last()) {
            Some(entry) => earlier.push(entry),
            None => earlier,
        }
    }
}

/// The entries of a whole file, in file order; a repeated key is kept each
/// time it occurs.
pub open spec fn env_entries(text: Seq<char>) -> Seq<Entry> {
    entries_of(lines(text))
}

/// An empty file has no entries.
pub proof fn lemma_empty_file_has_no_entries()
    ensures
        env_entries(Seq::empty()) == Seq::<Entry>::empty(),
{
}

/// A line without `=` contributes nothing.
pub proof fn lemma_line_without_separator(line: Seq<char>)
    requires
        !line.contains('='),
    ensures
        parse_line(line) is None,
{
    let body = trim(line);
    lemma_trim(line);
    lemma_position_of_bounds(body, '=');
}

/// A blank line, and a line whose first character after trimming is `#`,
/// contribute nothing.
pub proof fn lemma_blank_or_comment_line(line: Seq<char>)
    requires
        trim(line).len() == 0 || trim(line)[0] == '#',
    ensures
        parse_line(line) is None,
{
}

/// The split is at the first `=`: the key holds none, and neither the key
/// nor the value begins or ends with whitespace left over from the line.
pub proof fn lemma_entry_shape(line: Seq<char>)
    requires
        parse_line(line) is Some,
    ensures
        ({
            let (key, value) = parse_line(line)->0;
            &&& !key.contains('=')
            &&& key.len() > 0 ==> !is_space(key[0]) && !is_space(key.last())
            &&& key.len() + value.len() < line.len()
        }),
{
    let body = trim(line);
    let at = position_of(body, '=');
    lemma_trim(line);
    lemma_position_of_bounds(body, '=');
    let before = body.subrange(0, at);
    let after = body.subrange(at + 1, body.len() as int);
    lemma_trim(before);
    lemma_trim(after);
    if trim(before).contains('=') {
        assert(before.contains('='));
        let i = choose|i: int| 0 <= i < before.len() && before[i] == '=';
        assert(body[i] == '=');
    }
    assert(unquote(trim(after)).len() <= after.len());
}

/// No line holds a line feed.
pub proof fn lemma_lines_hold_no_line_feed(text: Seq<char>)
    ensures
        forall|i: int| 0 <= i < lines(text).len() ==> !(#[trigger] lines(text)[i]).contains('\n'),
    decreases text.len(),
{
    if text.len() > 0 {
        let end = position_of(text, '\n');
        lemma_position_of_bounds(text, '\n');
        if end < text.len() {
            let first = text.subrange(0, end);
            let rest = text.subrange(end + 1, text.len() as int);
            lemma_lines_hold_no_line_feed(rest);
            assert forall|i: int| 0 <= i < lines(text).len() implies !(
            #[trigger] lines(text)[i]).contains('\n') by {
                if i == 0 {
                    if first.contains('\n') {
                        let k = choose|k: int| 0 <= k < first.len() && first[k] == '\n';
                        assert(text[k] == '\n');
                    }
                } else {
                    assert(lines(text)[i] == lines(rest)[i - 1]);
                }
            }
        }
    }
}

/// The lines of a text that is cut after a line feed are the lines of the
/// first part followed by the lines of the second.
pub proof fn lemma_lines_concat(head: Seq<char>, tail: Seq<char>)
    requires
        head.len() == 0 || head.last() == '\n',
    ensures
        lines(head + tail) == lines(head) + lines(tail),
    decreases head.len(),
{
    if head.len() == 0 {
        assert(head + tail =~= tail);
        assert(lines(head) + lines(tail) =~= lines(tail));
    } else {
        let whole = head + tail;
        let end = position_of(head, '\n');
        lemma_position_of_bounds(head, '\n');
        assert(head.contains('\n')) by {
            assert(head[head.len() - 1] == '\n');
        }
        assert forall|k: int| 0 <= k < end implies whole[k] != '\n' by {
            assert(whole[k] == head[k]);
        }
        assert(whole[end] == head[end]);
        lemma_position_of(whole, '\n', end);
        let head_rest = head.subrange(end + 1, head.len() as int);
        assert(whole.subrange(0, end) =~= head.subrange(0, end));
        assert(whole.subrange(end + 1, whole.len() as int) =~= head_rest + tail);
        if head_rest.len() > 0 {
            assert(head_rest.last() == head.last());
        }
        lemma_lines_concat(head_rest, tail);
        assert(lines(whole) =~= lines(head) + lines(tail));
    }
}

/// The entries of two runs of lines, one after the other, are the entries of
/// the first followed by the entries of the second.
pub proof fn lemma_entries_concat(first: Seq<Seq<char>>, second: Seq<Seq<char>>)
    ensures
        entries_of(first + second) == entries_of(first) + entries_of(second),
    decreases second.len(),
{
    if second.len() == 0 {
        assert(first + second =~= first);
        assert(entries_of(first) + entries_of(second) =~= entries_of(first));
    } else {
        assert((first + second).drop_last() =~= first + second.drop_last());
        assert((first + second).last() == second.last());
        lemma_entries_concat(first, second.drop_last());
        assert(entries_of(first + second) =~= entries_of(first) + entries_of(second));
    }
}

/// Entries come in file order and none is merged with another: a file cut
/// after a line feed yields the entries of its first part followed by those
/// of its second, whether or not a key occurs in both.
pub proof fn lemma_entries_in_file_order(head: Seq<char>, tail: Seq<char>)
    requires
        head.len() == 0 || head.last() == '\n',
    ensures
        env_entries(head + tail) == env_entries(head) + env_entries(tail),
{
    lemma_lines_concat(head, tail);
    lemma_entries_concat(lines(head), lines(tail));
}

/// A line without `=` is passed over wherever it stands: the file yields
/// what it would yield without that line.
pub proof fn lemma_line_without_separator_is_skipped(
    head: Seq<char>,
    line: Seq<char>,
    tail: Seq<char>,
)
    requires
        head.len() == 0 || head.last() == '\n',
        !line.contains('='),
        !line.contains('\n'),
    ensures
        env_entries(head + line.push('\n') + tail) == env_entries(head + tail),
{
    let closed = line.push('\n');
    lemma_line_without_separator(line);
    assert(lines(closed) =~= seq![line]) by {
        lemma_position_of_bounds(line, '\n');
        assert forall|k: int| 0 <= k < line.len() implies closed[k] != '\n' by {
            assert(closed[k] == line[k]);
            assert(line.contains(line[k]));
        }
        lemma_position_of(closed, '\n', line.len() as int);
        assert(closed.subrange(0, line.len() as int) =~= line);
        let after = closed.subrange(line.len() as int + 1, closed.len() as int);
        assert(after =~= Seq::<char>::empty());
        assert(lines(after) =~= Seq::<Seq<char>>::empty());
        assert(seq![line] + lines(after) =~= seq![line]);
    }
    assert(entries_of(seq![line]) =~= Seq::<Entry>::empty()) by {
        let earlier = seq![line].drop_last();
        assert(earlier =~= Seq::<Seq<char>>::empty());
        assert(entries_of(earlier) =~= Seq::<Entry>::empty());
        assert(seq![line].last() == line);
    }
    lemma_entries_in_file_order(closed, tail);
    assert(env_entries(closed + tail) =~= env_entries(tail));
    assert(head + closed + tail =~= head + (closed + tail));
    lemma_entries_in_file_order(head, closed + tail);
    lemma_entries_in_file_order(head, tail);
}

/// Takes one pair of surrounding quotes off `chars[from..to]`: returns the
/// bounds, as indices into `chars`, of what is left.
fn unquote_bounds(chars: &Vec<char>, from: usize, to: usize) -> (bounds: (usize, usize))
    requires
        from <= to <= chars@.len(),
    ensures
        from <= bounds.0 <= bounds.1 <= to,
        chars@.subrange(bounds.0 as int, bounds.1 as int) == unquote(
            chars@.subrange(from as int, to as int),
        ),
{
    if to - from >= 2 && chars[from] == chars[to - 1] && (chars[from] == '"' || chars[from]
        == '\'') {
        assert(chars@.subrange(from as int, to as int).subrange(1, to - from - 1)
            =~= chars@.subrange(from + 1, to - 1));
        (from + 1, to - 1)
    } else {
        (from, to)
    }
}

/// Reads the line that stands at `chars[from..to]`.
fn parse_line_at(chars: &Vec<char>, from: usize, to: usize) -> (entry: Option<(String, String)>)
    requires
        from <= to <= chars@.len(),
    ensures
        entry.deep_view() == parse_line(chars@.subrange(from as int, to as int)),
{
    let (low, high) = trim_bounds(chars, from, to);
    if low == high || chars[low] == '#' {
        return None;
    }
    let at = find_char(chars, low, high, '=');
    if at == high {
        return None;
    }
    let ghost body = chars@.subrange(low as int, high as int);
    assert(body.subrange(0, at - low) =~= chars@.subrange(low as int, at as int));
    assert(body.subrange(at - low + 1, body.len() as int) =~= chars@.subrange(
        at + 1,
        high as int,
    ));
    let (key_low, key_high) = trim_bounds(chars, low, at);
    let (value_low, value_high) = trim_bounds(chars, at + 1, high);
    let (inner_low, inner_high) = unquote_bounds(chars, value_low, value_high);
    let key = string_of(chars, key_low, key_high);
    let value = string_of(chars, inner_low, inner_high);
    Some((key, value))
}

/// Reads one line: `None` for a blank line, a comment or a line without
/// `=`, else the key and the value.
pub fn parse_env_line(line: &str) -> (entry: Option<(String, String)>)
    ensures
        entry.deep_view() == parse_line(line@),
{
    let chars = chars_of(line);
    assert(chars@.subrange(0, chars@.len() as int) =~= chars@);
    parse_line_at(&chars, 0, chars.len())
}

/// Reads a whole file: the entries of its lines, in file order.
pub fn parse_env_file(content: &str) -> (entries: Vec<(String, String)>)
    ensures
        entries.deep_view() == env_entries(content@),
{
    let chars = chars_of(content);
    let len = chars.len();
    let mut entries: Vec<(String, String)> = Vec::new();
    let mut start: usize = 0;
    let ghost mut done: Seq<Seq<char>> = Seq::empty();
    assert(chars@.subrange(0, len as int) =~= chars@);
    assert(entries.deep_view() =~= entries_of(done));
    while start < len
        invariant
            start <= len == chars@.len(),
            lines(chars@) == done + lines(chars@.subrange(start as int, len as int)),
            entries.deep_view() == entries_of(done),
        decreases len - start,
    {
        let end = find_char(&chars, start, len, '\n');
        let entry = parse_line_at(&chars, start, end);
        let ghost rest = chars@.subrange(start as int, len as int);
        let ghost line = chars@.subrange(start as int, end as int);
        let next: usize = if end < len {
            end + 1
        } else {
            len
        };
        proof {
            assert(rest.subrange(0, end - start) =~= line);
            if end < len {
                assert(rest.subrange(end - start + 1, rest.len() as int) =~= chars@.subrange(
                    next as int,
                    len as int,
                ));
            } else {
                assert(rest =~= line);
                assert(chars@.subrange(next as int, len as int) =~= Seq::<char>::empty());
            }
            assert(lines(rest) =~= seq![line] + lines(chars@.subrange(next as int, len as int)));
            assert(done + lines(rest) =~= done.push(line) + lines(
                chars@.subrange(next as int, len as int),
            ));
            assert(done.push(line).drop_last() =~= done);
        }
        let ghost before = entries.deep_view();
        match entry {
            Some(pair) => {
                entries.push(pair);
                assert(entries.deep_view() =~= before.push(pair.deep_view()));
            },
            None => {},
        }
        proof {
            done = done.push(line);
        }
        start = next;
    }
    assert(lines(chars@.subrange(start as int, len as int)) =~= Seq::<Seq<char>>::empty());
    assert(done + Seq::<Seq<char>>::empty() =~= done);
    entries
}

} // verus!
