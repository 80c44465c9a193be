//! Line-oriented text handling: splitting a text into lines, joining lines
//! back together and testing a line for a prefix.
//!
//! Texts are modelled as `Seq<char>` and lists of lines as `Seq<Seq<char>>`.

use vstd::prelude::*;
use vstd::std_specs::iter::IteratorSpec;
use vstd::string::StringExecFns;

verus! {

/// The character that terminates a line.
pub const LINE_FEED: char = '\n';

/// The character that may precede a line feed as part of the terminator.
pub const CARRIAGE_RETURN: char = '\r';

/// Position of the first line feed in `text`, or `text.len()` when `text`
/// holds none.
pub open spec fn first_line_feed(text: Seq<char>) -> int
    decreases text.len(),
{
    if text.len() == 0 || text[0] == LINE_FEED {
        0
    } else {
        1 + first_line_feed(text.skip(1))
    }
}

/// `line` without one trailing carriage return, if it ends in one.
pub open spec fn without_carriage_return(line: Seq<char>) -> Seq<char> {
    if line.len() > 0 && line.last() == CARRIAGE_RETURN {
        line.drop_last()
    } else {
        line
    }
}

/// The lines of `text`.
///
/// A line ends at a line feed, or at a carriage return directly followed by
/// a line feed; the terminator is not part of the line. The last line needs
/// no terminator, and what follows the last line feed is a line only when it
/// is not empty. A carriage return that no line feed follows stays in its
/// line.
pub open spec fn lines_of(text: Seq<char>) -> Seq<Seq<char>>
    decreases text.len(),
{
    let end = first_line_feed(text);
    if text.len() == 0 {
        Seq::empty()
    } else if 0 <= end < text.len() {
        seq![without_carriage_return(text.take(end))] + lines_of(text.skip(end + 1))
    } else {
        seq![text]
    }
}

/// The lines put together with one line feed between each two neighbours.
pub open spec fn joined(lines: Seq<Seq<char>>) -> Seq<char>
    decreases lines.len(),
{
    if lines.len() == 0 {
        Seq::empty()
    } else if lines.len() == 1 {
        lines[0]
    } else {
        joined(lines.drop_last()) + seq![LINE_FEED] + lines.last()
    }
}

/// `first_line_feed` is in range, points at a line feed unless it is the
/// length of the text, and no line feed stands before it.
pub proof fn lemma_first_line_feed(text: Seq<char>)
    ensures
        0 <= first_line_feed(text) <= text.len(),
        first_line_feed(text) < text.len() ==> text[first_line_feed(text)] == LINE_FEED,
        forall|j: int| 0 <= j < first_line_feed(text) ==> text[j] != LINE_FEED,
    decreases text.len(),
{
    if text.len() == 0 || text[0] == LINE_FEED {
    } else {
        let rest = text.skip(1);
        lemma_first_line_feed(rest);
        assert forall|j: int| 0 <= j < first_line_feed(text) implies text[j] != LINE_FEED by {
            if j > 0 {
                assert(text[j] == rest[j - 1]);
            }
        }
    }
}

/// A position with no line feed before it, which is the end of the text or
/// holds a line feed, is the first line feed.
pub proof fn lemma_first_line_feed_is(text: Seq<char>, end: int)
    requires
        0 <= end <= text.len(),
        forall|j: int| 0 <= j < end ==> text[j] != LINE_FEED,
        end < text.len() ==> text[end] == LINE_FEED,
    ensures
        first_line_feed(text) == end,
    decreases text.len(),
{
    if text.len() == 0 || text[0] == LINE_FEED {
    } else {
        let rest = text.skip(1);
        assert forall|j: int| 0 <= j < end - 1 implies rest[j] != LINE_FEED by {
            assert(rest[j] == text[j + 1]);
        }
        lemma_first_line_feed_is(rest, end - 1);
    }
}

/// No line holds a line feed.
pub proof fn lemma_lines_hold_no_line_feed(text: Seq<char>)
    ensures
        forall|i: int, j: int|
            0 <= i < lines_of(text).len() && 0 <= j < lines_of(text)[i].len()
                ==> lines_of(text)[i][j] != LINE_FEED,
    decreases text.len(),
{
    let end = first_line_feed(text);
    lemma_first_line_feed(text);
    if text.len() == 0 {
    } else if end < text.len() {
        let head = without_carriage_return(text.take(end));
        let tail = lines_of(text.skip(end + 1));
        lemma_lines_hold_no_line_feed(text.skip(end + 1));
        assert forall|i: int, j: int|
            0 <= i < lines_of(text).len() && 0 <= j < lines_of(text)[i].len()
            implies lines_of(text)[i][j] != LINE_FEED by {
            if i == 0 {
                assert(lines_of(text)[0] == head);
                assert(head[j] == text[j]);
            } else {
                assert(lines_of(text)[i] == tail[i - 1]);
            }
        }
    } else {
        assert(lines_of(text) == seq![text]);
    }
}

/// The lines of a text without carriage returns end cleanly.
pub proof fn lemma_lines_without_carriage_return(text: Seq<char>)
    requires
        forall|j: int| 0 <= j < text.len() ==> text[j] != CARRIAGE_RETURN,
    ensures
        lines_end_cleanly(text),
    decreases text.len(),
{
    let end = first_line_feed(text);
    lemma_first_line_feed(text);
    if text.len() == 0 {
    } else if end < text.len() {
        let head = text.take(end);
        let rest = text.skip(end + 1);
        assert forall|j: int| 0 <= j < rest.len() implies rest[j] != CARRIAGE_RETURN by {
            assert(rest[j] == text[j + end + 1]);
        }
        lemma_lines_without_carriage_return(rest);
        if head.len() > 0 {
            assert(head.last() == text[end - 1]);
        }
        assert(without_carriage_return(head) == head);
        assert forall|i: int| 0 <= i < lines_of(text).len() implies !ends_in_carriage_return(
            #[trigger] lines_of(text)[i],
        ) by {
            if i == 0 {
                assert(lines_of(text)[0] == head);
            } else {
                assert(lines_of(text)[i] == lines_of(rest)[i - 1]);
            }
        }
    } else {
        assert(lines_of(text) == seq![text]);
        assert(text.last() == text[text.len() - 1]);
    }
}

/// Joining a list with one more line appends a line feed and that line,
/// unless the list was empty.
pub proof fn lemma_joined_push(lines: Seq<Seq<char>>, line: Seq<char>)
    ensures
        joined(lines.push(line)) == if lines.len() == 0 {
            line
        } else {
            joined(lines) + seq![LINE_FEED] + line
        },
{
    let all = lines.push(line);
    assert(all.last() == line);
    assert(all.drop_last() =~= lines);
    if lines.len() == 0 {
        assert(all[0] == line);
    }
}

/// Whether a line ends in a carriage return.
pub open spec fn ends_in_carriage_return(line: Seq<char>) -> bool {
    line.len() > 0 && line.last() == CARRIAGE_RETURN
}

/// Whether `line` can be written into a text and read back as the same
/// line: it holds no line feed and does not end in a carriage return.
pub open spec fn is_plain_line(line: Seq<char>) -> bool {
    &&& forall|j: int| 0 <= j < line.len() ==> line[j] != LINE_FEED
    &&& !ends_in_carriage_return(line)
}

/// Whether no line of `text` ends in a carriage return.
pub open spec fn lines_end_cleanly(text: Seq<char>) -> bool {
    forall|i: int|
        0 <= i < lines_of(text).len() ==> !ends_in_carriage_return(#[trigger] lines_of(text)[i])
}

/// Whether every line of the list is plain.
pub open spec fn all_plain(lines: Seq<Seq<char>>) -> bool {
    forall|i: int| 0 <= i < lines.len() ==> is_plain_line(#[trigger] lines[i])
}

/// Where a text ends with a line feed, the lines of what is appended to it
/// follow its own lines.
pub proof fn lemma_lines_of_concat(head: Seq<char>, tail: Seq<char>)
    requires
        head.len() == 0 || head.last() == LINE_FEED,
    ensures
        lines_of(head + tail) == lines_of(head) + lines_of(tail),
    decreases head.len(),
{
    let whole = head + tail;
    if head.len() == 0 {
        assert(whole == tail);
        assert(lines_of(head) + lines_of(tail) == lines_of(tail));
    } else {
        lemma_first_line_feed(head);
        let end = first_line_feed(head);
        assert(end < head.len()) by {
            if end == head.len() {
                assert(head[head.len() - 1] != LINE_FEED);
            }
        }
        assert forall|j: int| 0 <= j < end implies whole[j] != LINE_FEED by {
            assert(whole[j] == head[j]);
        }
        assert(whole[end] == head[end]);
        lemma_first_line_feed_is(whole, end);
        let rest = head.skip(end + 1);
        assert(whole.take(end) == head.take(end));
        assert(whole.skip(end + 1) == rest + tail);
        if rest.len() > 0 {
            assert(rest.last() == head.last());
        }
        lemma_lines_of_concat(rest, tail);
        let first = seq![without_carriage_return(head.take(end))];
        assert(lines_of(whole) == first + (lines_of(rest) + lines_of(tail)));
        assert(lines_of(head) == first + lines_of(rest));
        assert(first + (lines_of(rest) + lines_of(tail)) == (first + lines_of(rest)) + lines_of(
            tail,
        ));
    }
}

/// A plain line followed by a line feed is read as that line.
pub proof fn lemma_lines_of_terminated_line(line: Seq<char>)
    requires
        is_plain_line(line),
    ensures
        lines_of(line.push(LINE_FEED)) == seq![line],
{
    let text = line.push(LINE_FEED);
    assert forall|j: int| 0 <= j < line.len() implies text[j] != LINE_FEED by {
        assert(text[j] == line[j]);
    }
    let end = line.len() as int;
    lemma_first_line_feed_is(text, end);
    assert(text.take(end) == line);
    assert(text.skip(end + 1).len() == 0);
    assert(lines_of(text.skip(end + 1)) == Seq::<Seq<char>>::empty());
    assert(seq![line] + Seq::<Seq<char>>::empty() == seq![line]);
}

/// A text that is not empty and holds no line feed is one line.
pub proof fn lemma_lines_of_single_line(line: Seq<char>)
    requires
        line.len() > 0,
        forall|j: int| 0 <= j < line.len() ==> line[j] != LINE_FEED,
    ensures
        lines_of(line) == seq![line],
{
    lemma_first_line_feed_is(line, line.len() as int);
}

/// Plain lines that are joined and closed by a line feed are read back as
/// they were.
pub proof fn lemma_lines_of_joined_terminated(lines: Seq<Seq<char>>)
    requires
        lines.len() > 0,
        all_plain(lines),
    ensures
        lines_of(joined(lines).push(LINE_FEED)) == lines,
    decreases lines.len(),
{
    if lines.len() == 1 {
        lemma_lines_of_terminated_line(lines[0]);
        assert(seq![lines[0]] == lines);
    } else {
        let before = lines.drop_last();
        let last = lines.last();
        assert(all_plain(before)) by {
            assert forall|i: int| 0 <= i < before.len() implies is_plain_line(
                #[trigger] before[i],
            ) by {
                assert(before[i] == lines[i]);
            }
        }
        lemma_lines_of_joined_terminated(before);
        lemma_lines_of_terminated_line(last);
        let head = joined(before).push(LINE_FEED);
        assert(joined(lines).push(LINE_FEED) == head + last.push(LINE_FEED));
        lemma_lines_of_concat(head, last.push(LINE_FEED));
        assert(before + seq![last] == lines);
    }
}

/// Joining and splitting are inverse on plain lines: a list of plain lines
/// whose last line is not empty is read back from its joined text as it
/// was.
pub proof fn lemma_lines_of_joined(lines: Seq<Seq<char>>)
    requires
        all_plain(lines),
        lines.len() > 0 ==> lines.last().len() > 0,
    ensures
        lines_of(joined(lines)) == lines,
{
    if lines.len() == 0 {
    } else if lines.len() == 1 {
        lemma_lines_of_single_line(lines[0]);
        assert(seq![lines[0]] == lines);
    } else {
        let before = lines.drop_last();
        let last = lines.last();
        assert(all_plain(before)) by {
            assert forall|i: int| 0 <= i < before.len() implies is_plain_line(
                #[trigger] before[i],
            ) by {
                assert(before[i] == lines[i]);
            }
        }
        lemma_lines_of_joined_terminated(before);
        lemma_lines_of_single_line(last);
        let head = joined(before).push(LINE_FEED);
        assert(joined(lines) == head + last);
        lemma_lines_of_concat(head, last);
        assert(before + seq![last] == lines);
    }
}

/// `String::push`: appends one character to the end of the string.
#[verifier::external_body]
fn push_char(text: &mut String, c: char)
    ensures
        final(text)@ == old(text)@.push(c),
{
    text.push(c);
}

/// The text made of `chars`, in order.
pub fn text_of(chars: &Vec<char>) -> (text: String)
    ensures
        text@ == chars@,
{
    let mut text = String::new();
    let mut i: usize = 0;
    while i < chars.len()
        invariant
            0 <= i <= chars.len(),
            text@ == chars@.take(i as int),
        decreases chars.len() - i,
    {
        push_char(&mut text, chars[i]);
        i += 1;
    }
    text
}

/// Tells whether `text` begins with `prefix`.
pub fn starts_with(text: &str, prefix: &str) -> (found: bool)
    ensures
        found == prefix@.is_prefix_of(text@),
{
    let mut rest = text.chars();
    for wanted in it: prefix.chars()
        invariant
            it.seq() == prefix@,
            it.index() <= text@.len(),
            rest.remaining() == text@.skip(it.index() as int),
            prefix@.take(it.index() as int) == text@.take(it.index() as int),
    {
        match rest.next() {
            Some(got) => {
                if got != wanted {
                    assert(prefix@[it.index() as int] != text@[it.index() as int]);
                    return false;
                }
            },
            None => {
                return false;
            },
        }
    }
    true
}

/// Splits `text` into its lines.
pub fn split_lines(text: &str) -> (lines: Vec<String>)
    ensures
        lines.deep_view() == lines_of(text@),
{
    let mut lines: Vec<String> = Vec::new();
    let mut current: Vec<char> = Vec::new();
    let ghost mut start: int = 0;
    proof {
        assert(text@.skip(0) == text@);
        assert(lines.deep_view() + lines_of(text@) == lines_of(text@));
    }
    for c in it: text.chars()
        invariant
            it.seq() == text@,
            0 <= start <= it.index(),
            current@ == text@.subrange(start, it.index() as int),
            forall|j: int| 0 <= j < current@.len() ==> current@[j] != LINE_FEED,
            lines_of(text@) == lines.deep_view() + lines_of(text@.skip(start)),
    {
        if c == LINE_FEED {
            let ghost rest = text@.skip(start);
            let ghost end = it.index() - start;
            proof {
                assert forall|j: int| 0 <= j < end implies rest[j] != LINE_FEED by {
                    assert(rest[j] == current@[j]);
                }
                lemma_first_line_feed_is(rest, end);
                assert(rest.take(end) == current@);
                assert(rest.skip(end + 1) == text@.skip(it.index() + 1));
            }
            let n: usize = current.len();
            if n > 0 && current[n - 1] == CARRIAGE_RETURN {
                current.pop();
            }
            let line = text_of(&current);
            let ghost before = lines.deep_view();
            let ghost added = line@;
            lines.push(line);
            proof {
                assert(added == without_carriage_return(rest.take(end)));
                assert(lines.deep_view() == before.push(added));
            }
            current = Vec::new();
            proof {
                start = it.index() + 1;
            }
        } else {
            current.push(c);
        }
    }
    proof {
        let rest = text@.skip(start);
        assert(rest == current@);
        lemma_first_line_feed_is(rest, rest.len() as int);
    }
    if current.len() > 0 {
        let line = text_of(&current);
        let ghost before = lines.deep_view();
        let ghost added = line@;
        lines.push(line);
        proof {
            assert(lines.deep_view() == before.push(added));
        }
    }
    lines
}

/// Joins `lines` with one line feed between each two neighbours.
pub fn join_lines(lines: &Vec<String>) -> (text: String)
    ensures
        text@ == joined(lines.deep_view()),
{
    let mut text = String::new();
    let mut i: usize = 0;
    while i < lines.len()
        invariant
            0 <= i <= lines.len(),
            text@ == joined(lines.deep_view().take(i as int)),
        decreases lines.len() - i,
    {
        proof {
            reveal_strlit("\n");
            let done = lines.deep_view().take(i as int);
            lemma_joined_push(done, lines[i as int]@);
            assert(lines.deep_view().take(i + 1) == done.push(lines[i as int]@));
            assert("\n"@ == seq![LINE_FEED]);
        }
        if i > 0 {
            text.append("\n");
        }
        text.append(lines[i].as_str());
        i += 1;
    }
    proof {
        assert(lines.deep_view().take(lines.len() as int) == lines.deep_view());
    }
    text
}

} // verus!
