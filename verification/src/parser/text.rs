use vstd::prelude::*;
use vstd::std_specs::iter::IteratorSpec;

verus! {

/// `String::push` appends one character.
pub assume_specification[ String::push ](s: &mut String, c: char)
    ensures
        final(s)@ == old(s)@.push(c),
;

/// A line without the carriage return that stood before its line feed.
pub open spec fn strip_cr(line: Seq<char>) -> Seq<char> {
    if line.len() > 0 && line.last() == '\r' {
        line.drop_last()
    } else {
        line
    }
}

/// The characters of `s` that follow its last line feed.
pub open spec fn line_tail(s: Seq<char>) -> Seq<char>
    decreases s.len(),
{
    if s.len() == 0 || s.last() == '\n' {
        seq![]
    } else {
        line_tail(s.drop_last()).push(s.last())
    }
}

/// The lines of `s` that a line feed closes, each without its line ending.
pub open spec fn closed_lines(s: Seq<char>) -> Seq<Seq<char>>
    decreases s.len(),
{
    if s.len() == 0 {
        seq![]
    } else if s.last() == '\n' {
        closed_lines(s.drop_last()).push(strip_cr(line_tail(s.drop_last())))
    } else {
        closed_lines(s.drop_last())
    }
}

/// The lines of a text. A line ends at a line feed, or at a carriage return
/// directly followed by one; the last line needs no line ending, and a text
/// that ends with a line ending has no empty line after it.
pub open spec fn text_lines(s: Seq<char>) -> Seq<Seq<char>> {
    if line_tail(s).len() == 0 {
        closed_lines(s)
    } else {
        closed_lines(s).push(line_tail(s))
    }
}

/// No line feed stands behind the last line feed.
pub proof fn line_tail_holds_no_line_feed(s: Seq<char>)
    ensures
        forall|k: int| 0 <= k < line_tail(s).len() ==> (#[trigger] line_tail(s)[k]) != '\n',
    decreases s.len(),
{
    if s.len() > 0 && s.last() != '\n' {
        line_tail_holds_no_line_feed(s.drop_last());
        let before = line_tail(s.drop_last());
        let tail = line_tail(s);
        assert forall|k: int| 0 <= k < tail.len() implies (#[trigger] tail[k]) != '\n' by {
            if k < before.len() {
                assert(tail[k] == before[k]);
            }
        }
    }
}

/// No closed line holds a line feed.
pub proof fn closed_lines_hold_no_line_feed(s: Seq<char>)
    ensures
        forall|i: int, k: int|
            0 <= i < closed_lines(s).len() && 0 <= k < closed_lines(s)[i].len() ==> (
            #[trigger] closed_lines(s)[i][k]) != '\n',
    decreases s.len(),
{
    if s.len() > 0 {
        closed_lines_hold_no_line_feed(s.drop_last());
        line_tail_holds_no_line_feed(s.drop_last());
        let before = closed_lines(s.drop_last());
        let tail = line_tail(s.drop_last());
        let all = closed_lines(s);
        assert forall|i: int, k: int| 0 <= i < all.len() && 0 <= k < all[i].len() implies (
        #[trigger] all[i][k]) != '\n' by {
            if i < before.len() {
                assert(all[i] == before[i]);
                assert(all[i][k] == before[i][k]);
            } else {
                assert(s.last() == '\n');
                assert(all[i] == strip_cr(tail));
                assert(all[i][k] == tail[k]);
            }
        }
    }
}

/// No line of a text holds a line feed: what is found on a line never
/// reaches into the next.
pub proof fn lines_hold_no_line_feed(s: Seq<char>)
    ensures
        forall|i: int, k: int|
            0 <= i < text_lines(s).len() && 0 <= k < text_lines(s)[i].len() ==> (
            #[trigger] text_lines(s)[i][k]) != '\n',
{
    closed_lines_hold_no_line_feed(s);
    line_tail_holds_no_line_feed(s);
    let closed = closed_lines(s);
    let all = text_lines(s);
    assert forall|i: int, k: int| 0 <= i < all.len() && 0 <= k < all[i].len() implies (
    #[trigger] all[i][k]) != '\n' by {
        if i < closed.len() {
            assert(all[i] == closed[i]);
        } else {
            assert(all[i] == line_tail(s));
        }
    }
}

/// Whether `text` begins with `prefix`.
pub open spec fn starts_with(text: Seq<char>, prefix: Seq<char>) -> bool {
    prefix.len() <= text.len() && text.subrange(0, prefix.len() as int) == prefix
}

/// Whether `text` ends with `suffix`.
pub open spec fn ends_with(text: Seq<char>, suffix: Seq<char>) -> bool {
    suffix.len() <= text.len() && text.subrange(text.len() - suffix.len(), text.len() as int) == suffix
}

/// Whether `part` stands in `text` from column `column` on; the first
/// character of a text has column 1.
pub open spec fn stands_at(text: Seq<char>, column: nat, part: Seq<char>) -> bool {
    &&& column >= 1
    &&& column - 1 + part.len() <= text.len()
    &&& text.subrange(column as int - 1, column as int - 1 + part.len() as int) == part
}

/// What follows a prefix stands at the column behind the prefix.
pub proof fn part_behind_prefix_stands_at(text: Seq<char>, before: Seq<char>, part: Seq<char>)
    requires
        starts_with(text, before + part),
    ensures
        stands_at(text, before.len() + 1, part),
{
    let whole = before + part;
    let from = before.len() as int;
    let to = whole.len() as int;
    assert(text.subrange(from, to) =~= text.subrange(0, to).subrange(from, to));
    assert(whole.subrange(from, to) =~= part);
}

/// Appends characters.
pub fn push_chars(out: &mut Vec<char>, more: &Vec<char>)
    ensures
        final(out)@ == old(out)@ + more@,
{
    let mut i: usize = 0;
    assert(out@ =~= old(out)@ + more@.take(0));
    while i < more.len()
        invariant
            i <= more.len(),
            out@ == old(out)@ + more@.take(i as int),
        decreases more.len() - i,
    {
        out.push(more[i]);
        assert(out@ =~= old(out)@ + more@.take(i as int + 1));
        i += 1;
    }
    assert(more@.take(more.len() as int) == more@);
}

/// Tells whether `text` begins with `prefix`.
pub fn begins_with(text: &Vec<char>, prefix: &Vec<char>) -> (yes: bool)
    ensures
        yes == starts_with(text@, prefix@),
{
    if prefix.len() > text.len() {
        return false;
    }
    let mut i: usize = 0;
    while i < prefix.len()
        invariant
            i <= prefix.len(),
            prefix.len() <= text.len(),
            forall|k: int| 0 <= k < i ==> text@[k] == prefix@[k],
        decreases prefix.len() - i,
    {
        if text[i] != prefix[i] {
            assert(text@.subrange(0, prefix.len() as int)[i as int] != prefix@[i as int]);
            return false;
        }
        i += 1;
    }
    assert(text@.subrange(0, prefix.len() as int) =~= prefix@);
    true
}

/// Tells whether `text` ends with `suffix`.
pub fn finishes_with(text: &Vec<char>, suffix: &Vec<char>) -> (yes: bool)
    ensures
        yes == ends_with(text@, suffix@),
{
    if suffix.len() > text.len() {
        return false;
    }
    let from = text.len() - suffix.len();
    let mut i: usize = 0;
    while i < suffix.len()
        invariant
            i <= suffix.len(),
            suffix.len() <= text.len(),
            from == text.len() - suffix.len(),
            forall|k: int| 0 <= k < i ==> text@[from + k] == suffix@[k],
        decreases suffix.len() - i,
    {
        if text[from + i] != suffix[i] {
            assert(text@.subrange(from as int, text.len() as int)[i as int] != suffix@[i as int]);
            return false;
        }
        i += 1;
    }
    assert(text@.subrange(from as int, text.len() as int) =~= suffix@);
    true
}

/// The string that holds the given characters.
pub fn string_of(chars: &Vec<char>) -> (s: String)
    ensures
        s@ == chars@,
{
    let mut s = String::new();
    let mut i: usize = 0;
    while i < chars.len()
        invariant
            i <= chars.len(),
            s@ == chars@.take(i as int),
        decreases chars.len() - i,
    {
        s.push(chars[i]);
        assert(chars@.take(i as int + 1) == chars@.take(i as int).push(chars@[i as int]));
        i += 1;
    }
    assert(chars@.take(chars.len() as int) == chars@);
    s
}

/// The characters of a string.
pub fn chars_of(s: &str) -> (chars: Vec<char>)
    ensures
        chars@ == s@,
{
    let mut chars: Vec<char> = Vec::new();
    let mut it = s.chars();
    let ghost mut seen: int = 0;
    loop
        invariant
            0 <= seen <= s@.len(),
            chars@ == s@.take(seen),
            it.remaining() == s@.skip(seen),
            it.obeys_prophetic_iter_laws(),
        decreases s@.len() - seen,
    {
        let ghost before = it;
        match it.next() {
            Some(c) => {
                proof {
                    assert(before.remaining().len() > 0);
                    assert(c == s@[seen]);
                    assert(s@.take(seen + 1) == s@.take(seen).push(c));
                    assert(s@.skip(seen).drop_first() == s@.skip(seen + 1));
                    seen = seen + 1;
                }
                chars.push(c);
            },
            None => {
                proof {
                    assert(before.remaining().len() == 0);
                    assert(s@.take(seen) == s@);
                }
                return chars;
            },
        }
    }
}

/// Splits a text into its lines.
pub fn split_lines(content: &str) -> (lines: Vec<String>)
    ensures
        lines.deep_view() == text_lines(content@),
{
    let chars = chars_of(content);
    let mut lines: Vec<String> = Vec::new();
    let mut current: Vec<char> = Vec::new();
    let mut i: usize = 0;
    assert(lines.deep_view() =~= closed_lines(chars@.take(0)));
    while i < chars.len()
        invariant
            i <= chars.len(),
            lines.deep_view() == closed_lines(chars@.take(i as int)),
            current@ == line_tail(chars@.take(i as int)),
        decreases chars.len() - i,
    {
        let c = chars[i];
        let ghost prefix = chars@.take(i as int);
        let ghost next = chars@.take(i as int + 1);
        assert(next.drop_last() == prefix);
        assert(next.last() == c);
        if c == '\n' {
            let n = current.len();
            if n > 0 && current[n - 1] == '\r' {
                current.pop();
            }
            assert(current@ == strip_cr(line_tail(prefix)));
            let line = string_of(&current);
            let ghost old_lines = lines.deep_view();
            lines.push(line);
            assert(lines.deep_view() =~= old_lines.push(line@));
            current = Vec::new();
            assert(current@ =~= line_tail(next));
        } else {
            current.push(c);
        }
        i += 1;
    }
    assert(chars@.take(chars.len() as int) == chars@);
    if current.len() > 0 {
        let line = string_of(&current);
        let ghost old_lines = lines.deep_view();
        lines.push(line);
        assert(lines.deep_view() =~= old_lines.push(line@));
    }
    lines
}

} // verus!
