use crate::parser::models::{Label, LabelModel};
use crate::parser::pattern::{
    captures_in, compile, regex_captures, regex_compiles, regex_source, Capture, CaptureModel,
};
use crate::parser::text::{
    begins_with, chars_of, ends_with, finishes_with, part_behind_prefix_stands_at, push_chars, split_lines,
    stands_at, starts_with, string_of, text_lines,
};
use vstd::prelude::*;

verus! {

/// The pattern of a label that is written out: `<name>`.
pub const LABEL_PATTERN: &'static str = r"<([a-zA-Z0-9_:.-]+)>";

/// The pattern of a heading line: equals signs, white space, the heading.
pub const HEADING_PATTERN: &'static str = r"^(=+)\s+(.+)$";

/// What `str::to_lowercase` makes of a text.
pub uninterp spec fn lowercase_of(text: Seq<char>) -> Seq<char>;

/// Whether `char::is_alphanumeric` holds of a character.
pub uninterp spec fn is_alphanumeric(c: char) -> bool;

/// `str::to_lowercase` gives the lowercase form of a text, which depends on
/// the text alone.
pub assume_specification[ str::to_lowercase ](s: &str) -> (lowered: String)
    ensures
        lowered@ == lowercase_of(s@),
;

/// `char::is_alphanumeric` tells whether a character is a letter or a digit,
/// which depends on the character alone.
pub assume_specification[ char::is_alphanumeric ](c: char) -> (b: bool)
    ensures
        b == is_alphanumeric(c),
;

/// A character of a label name stays as it is where it is a letter, a digit,
/// `-` or `_`; any other character becomes `-`.
pub open spec fn name_char(c: char) -> char {
    if is_alphanumeric(c) || c == '-' || c == '_' {
        c
    } else {
        '-'
    }
}

/// The pieces of `s` between its `-` characters, empty ones included.
pub open spec fn dash_split(s: Seq<char>) -> Seq<Seq<char>>
    decreases s.len(),
{
    if s.len() == 0 {
        seq![seq![]]
    } else {
        let rest = dash_split(s.drop_last());
        if s.last() == '-' {
            rest.push(seq![])
        } else {
            rest.drop_last().push(rest.last().push(s.last()))
        }
    }
}

/// The pieces that are not empty, in order.
pub open spec fn nonempty_parts(parts: Seq<Seq<char>>) -> Seq<Seq<char>>
    decreases parts.len(),
{
    if parts.len() == 0 {
        seq![]
    } else if parts.last().len() == 0 {
        nonempty_parts(parts.drop_last())
    } else {
        nonempty_parts(parts.drop_last()).push(parts.last())
    }
}

/// The pieces with one `-` between each two neighbours.
pub open spec fn dash_join(parts: Seq<Seq<char>>) -> Seq<char>
    decreases parts.len(),
{
    if parts.len() == 0 {
        seq![]
    } else if parts.len() == 1 {
        parts[0]
    } else {
        dash_join(parts.drop_last()) + seq!['-'] + parts.last()
    }
}

/// The label name of a heading: the heading in lowercase, every character
/// but letters, digits, `-` and `_` replaced by `-`, then split at `-` and
/// the pieces that are not empty joined by `-` again.
pub open spec fn heading_label_name(heading: Seq<char>) -> Seq<char> {
    dash_join(nonempty_parts(dash_split(lowercase_of(heading).map_values(|c: char| name_char(c)))))
}

/// Whether a character can stand in the name of a label that is written
/// out: an ASCII letter or digit, `_`, `:`, `.` or `-`.
pub open spec fn label_char(c: char) -> bool {
    ||| 'a' <= c <= 'z'
    ||| 'A' <= c <= 'Z'
    ||| '0' <= c <= '9'
    ||| c == '_'
    ||| c == ':'
    ||| c == '.'
    ||| c == '-'
}

/// Whether a text can be the name of a label that is written out: it is not
/// empty and holds only characters that such a name can hold.
pub open spec fn valid_label_name(name: Seq<char>) -> bool {
    &&& name.len() > 0
    &&& forall|k: int| 0 <= k < name.len() ==> label_char(#[trigger] name[k])
}

/// A label as it is written out: `<name>`.
pub open spec fn written_label(name: Seq<char>) -> Seq<char> {
    seq!['<'] + name + seq!['>']
}

/// Whether a match is one of a label in the text of a line: it has the two
/// groups of the pattern, the name is there and valid, the whole match is
/// the written form of the name, and the line begins with what stands
/// before the match and the match itself.
pub open spec fn label_match(cap: CaptureModel, line_text: Seq<char>) -> bool {
    &&& cap.groups.len() == 2
    &&& cap.groups[1] is Some
    &&& valid_label_name(cap.groups[1]->0)
    &&& cap.groups[0] == Some(written_label(cap.groups[1]->0))
    &&& starts_with(line_text, cap.before + cap.groups[0]->0)
}

/// The label that one match of the label pattern on line `line` stands for:
/// group 1 is the name, and the column is one more than the number of
/// characters before the match. There is none where the match is not one of
/// a label in the text of the line, or where the column is beyond the
/// largest `usize`.
pub open spec fn explicit_label_of(cap: CaptureModel, line_text: Seq<char>, line: nat) -> Option<
    LabelModel,
> {
    if label_match(cap, line_text) && cap.before.len() < usize::MAX {
        Some(
            LabelModel {
                name: cap.groups[1]->0,
                line: line,
                column: cap.before.len() + 1,
                is_implicit: false,
            },
        )
    } else {
        None
    }
}

/// The labels of the matches of the label pattern on one line, in order.
pub open spec fn explicit_labels_of(caps: Seq<CaptureModel>, line_text: Seq<char>, line: nat) -> Seq<
    LabelModel,
>
    decreases caps.len(),
{
    if caps.len() == 0 {
        seq![]
    } else {
        let rest = explicit_labels_of(caps.drop_last(), line_text, line);
        match explicit_label_of(caps.last(), line_text, line) {
            Some(label) => rest.push(label),
            None => rest,
        }
    }
}

/// Whether a text is made of equals signs, at least one.
pub open spec fn heading_marks(marks: Seq<char>) -> bool {
    &&& marks.len() > 0
    &&& forall|k: int| 0 <= k < marks.len() ==> (#[trigger] marks[k]) == '='
}

/// Whether a match is one of a heading in the text of a line: it has the
/// three groups of the pattern, it is the whole line, group 1 is made of
/// equals signs and begins the line, group 2, the heading, is not empty
/// and ends the line, and something stands between the two.
pub open spec fn heading_match(cap: CaptureModel, line_text: Seq<char>) -> bool {
    &&& cap.groups.len() == 3
    &&& cap.before.len() == 0
    &&& cap.groups[0] == Some(line_text)
    &&& cap.groups[1] is Some
    &&& cap.groups[2] is Some
    &&& heading_marks(cap.groups[1]->0)
    &&& cap.groups[2]->0.len() > 0
    &&& cap.groups[1]->0.len() + cap.groups[2]->0.len() < line_text.len()
    &&& starts_with(line_text, cap.groups[1]->0)
    &&& ends_with(line_text, cap.groups[2]->0)
}

/// Whether a line begins with `marks` equals signs, and `name` is the label
/// name of what the line holds from the place `from` on, which lies behind
/// the equals signs and something more.
pub open spec fn heading_at(line_text: Seq<char>, marks: int, from: int, name: Seq<char>) -> bool {
    &&& 1 <= marks < from < line_text.len()
    &&& forall|k: int| 0 <= k < marks ==> (#[trigger] line_text[k]) == '='
    &&& name == heading_label_name(line_text.subrange(from, line_text.len() as int))
}

/// Whether a line is a heading line of which `name` is the label name.
pub open spec fn heading_with_name(line_text: Seq<char>, name: Seq<char>) -> bool {
    exists|marks: int, from: int| #[trigger] heading_at(line_text, marks, from, name)
}

/// The label of a heading line, from the matches of the heading pattern on
/// it: group 2 of the first match is the heading. There is none where the
/// first match is not one of a heading in the text of the line, or where
/// the heading's label name is empty (so for a heading of white space
/// only).
pub open spec fn heading_label_of(caps: Seq<CaptureModel>, line_text: Seq<char>, line: nat) -> Option<
    LabelModel,
> {
    if caps.len() > 0 && heading_match(caps[0], line_text) && heading_label_name(
        caps[0].groups[2]->0,
    ).len() > 0 {
        Some(
            LabelModel {
                name: heading_label_name(caps[0].groups[2]->0),
                line: line,
                column: 1,
                is_implicit: true,
            },
        )
    } else {
        None
    }
}

/// The labels of one line: those written out, from left to right, then the
/// one of the heading.
pub open spec fn labels_of_line(line_text: Seq<char>, line: nat) -> Seq<LabelModel> {
    let explicit = explicit_labels_of(regex_captures(LABEL_PATTERN@, line_text), line_text, line);
    match heading_label_of(regex_captures(HEADING_PATTERN@, line_text), line_text, line) {
        Some(label) => explicit.push(label),
        None => explicit,
    }
}

/// The labels of the given lines, line by line; the first line has number 1.
pub open spec fn labels_of_lines(lines: Seq<Seq<char>>) -> Seq<LabelModel>
    decreases lines.len(),
{
    if lines.len() == 0 {
        seq![]
    } else {
        labels_of_lines(lines.drop_last()) + labels_of_line(lines.last(), lines.len())
    }
}

/// The labels of a text, in the order in which they stand in it.
pub open spec fn labels_in(content: Seq<char>) -> Seq<LabelModel> {
    labels_of_lines(text_lines(content))
}

/// Every label of the matches of the label pattern on a line has the
/// number of that line and a column from 1 on, is marked as written out,
/// has a valid name, and stands in the text of the line at its column in
/// its written form.
pub proof fn explicit_labels_stand_on_the_line(caps: Seq<CaptureModel>, line_text: Seq<char>, line: nat)
    ensures
        forall|i: int|
            0 <= i < explicit_labels_of(caps, line_text, line).len() ==> {
                let l = #[trigger] explicit_labels_of(caps, line_text, line)[i];
                &&& l.line == line
                &&& l.column >= 1
                &&& !l.is_implicit
                &&& valid_label_name(l.name)
                &&& stands_at(line_text, l.column, written_label(l.name))
            },
    decreases caps.len(),
{
    if caps.len() > 0 {
        explicit_labels_stand_on_the_line(caps.drop_last(), line_text, line);
        let rest = explicit_labels_of(caps.drop_last(), line_text, line);
        let all = explicit_labels_of(caps, line_text, line);
        let cap = caps.last();
        if explicit_label_of(cap, line_text, line) is Some {
            part_behind_prefix_stands_at(line_text, cap.before, cap.groups[0]->0);
        }
        assert forall|i: int| 0 <= i < all.len() implies {
            let l = #[trigger] all[i];
            &&& l.line == line
            &&& l.column >= 1
            &&& !l.is_implicit
            &&& valid_label_name(l.name)
            &&& stands_at(line_text, l.column, written_label(l.name))
        } by {
            if i < rest.len() {
                assert(all[i] == rest[i]);
            }
        }
    }
}

/// Whether a label is as one that is found in a text: its line and column
/// count from 1; where it is written out, its name is valid; where it is
/// derived from a heading, it stands at column 1 and its name is not empty
/// and clean.
pub open spec fn valid_label(l: LabelModel) -> bool {
    &&& l.line >= 1
    &&& l.column >= 1
    &&& !l.is_implicit ==> valid_label_name(l.name)
    &&& l.is_implicit ==> l.column == 1 && l.name.len() > 0 && clean_name(l.name)
}

/// The labels of some lines are valid and have line numbers from 1 to the
/// number of the lines, in ascending order; each that is written out stands
/// in its line at its column.
pub proof fn labels_of_lines_are_in_order(lines: Seq<Seq<char>>)
    ensures
        forall|i: int|
            0 <= i < labels_of_lines(lines).len() ==> {
                let l = #[trigger] labels_of_lines(lines)[i];
                &&& l.line <= lines.len()
                &&& valid_label(l)
                &&& (!l.is_implicit ==> stands_at(lines[l.line - 1], l.column, written_label(l.name)))
                &&& (l.is_implicit ==> heading_with_name(lines[l.line - 1], l.name))
            },
        forall|i: int, j: int|
            0 <= i <= j < labels_of_lines(lines).len() ==> (#[trigger] labels_of_lines(lines)[i]).line <= (
            #[trigger] labels_of_lines(lines)[j]).line,
    decreases lines.len(),
{
    if lines.len() > 0 {
        labels_of_lines_are_in_order(lines.drop_last());
        explicit_labels_stand_on_the_line(
            regex_captures(LABEL_PATTERN@, lines.last()),
            lines.last(),
            lines.len(),
        );
        let before = labels_of_lines(lines.drop_last());
        let here = labels_of_line(lines.last(), lines.len());
        let explicit = explicit_labels_of(
            regex_captures(LABEL_PATTERN@, lines.last()),
            lines.last(),
            lines.len(),
        );
        let all = labels_of_lines(lines);
        assert(all == before + here);
        let headings = regex_captures(HEADING_PATTERN@, lines.last());
        if heading_label_of(headings, lines.last(), lines.len()) is Some {
            let marks = headings[0].groups[1]->0;
            let heading = headings[0].groups[2]->0;
            let line_text = lines.last();
            heading_label_name_is_clean(heading);
            assert forall|k: int| 0 <= k < marks.len() implies (#[trigger] line_text[k]) == '=' by {
                assert(line_text.subrange(0, marks.len() as int)[k] == marks[k]);
            }
            assert(heading_at(
                line_text,
                marks.len() as int,
                line_text.len() - heading.len(),
                heading_label_name(heading),
            ));
        }
        assert forall|k: int| 0 <= k < here.len() implies {
            let l = #[trigger] here[k];
            &&& l.line == lines.len()
            &&& valid_label(l)
            &&& (!l.is_implicit ==> stands_at(lines.last(), l.column, written_label(l.name)))
            &&& (l.is_implicit ==> heading_with_name(lines.last(), l.name))
        } by {
            if k < explicit.len() {
                assert(here[k] == explicit[k]);
            }
        }
        assert forall|i: int| 0 <= i < all.len() implies {
            let l = #[trigger] all[i];
            &&& l.line <= lines.len()
            &&& valid_label(l)
            &&& (!l.is_implicit ==> stands_at(lines[l.line - 1], l.column, written_label(l.name)))
            &&& (l.is_implicit ==> heading_with_name(lines[l.line - 1], l.name))
        } by {
            if i < before.len() {
                assert(all[i] == before[i]);
                assert(lines.drop_last()[all[i].line - 1] == lines[all[i].line - 1]);
            } else {
                assert(all[i] == here[i - before.len()]);
            }
        }
        assert forall|i: int, j: int| 0 <= i <= j < all.len() implies (#[trigger] all[i]).line <= (
        #[trigger] all[j]).line by {
            if j < before.len() {
                assert(all[i] == before[i]);
                assert(all[j] == before[j]);
            } else if i < before.len() {
                assert(all[i] == before[i]);
                assert(all[j] == here[j - before.len()]);
            } else {
                assert(all[i] == here[i - before.len()]);
                assert(all[j] == here[j - before.len()]);
            }
        }
    }
}

/// Every label of a text is valid: its line and column count from 1; the
/// name of one that is written out is not empty and holds only ASCII
/// letters and digits, `_`, `:`, `.` and `-`; one that is derived from a
/// heading stands at column 1, and its name is not empty, holds only
/// letters, digits, `-` and `_`, neither starts nor ends with `-` and has no
/// two `-` in a row. The labels stand in the order of the lines: their line
/// numbers never decrease from one label to the next and do not go beyond
/// the number of lines. A label that is written out stands in the text
/// where it is said to stand: its line holds `<name>` from its column on,
/// counted in characters. A label that is derived from a heading has the
/// label name of the end of its line, which begins with an equals sign.
pub proof fn labels_are_valid_and_in_line_order(content: Seq<char>)
    ensures
        forall|i: int|
            0 <= i < labels_in(content).len() ==> {
                let l = #[trigger] labels_in(content)[i];
                &&& l.line <= text_lines(content).len()
                &&& valid_label(l)
                &&& (!l.is_implicit ==> stands_at(
                    text_lines(content)[l.line - 1],
                    l.column,
                    written_label(l.name),
                ))
                &&& (l.is_implicit ==> heading_with_name(text_lines(content)[l.line - 1], l.name))
            },
        forall|i: int, j: int|
            0 <= i <= j < labels_in(content).len() ==> (#[trigger] labels_in(content)[i]).line <= (
            #[trigger] labels_in(content)[j]).line,
{
    labels_of_lines_are_in_order(text_lines(content));
}

/// Whether a character can stand in the label name of a heading.
pub open spec fn allowed_in_name(c: char) -> bool {
    is_alphanumeric(c) || c == '-' || c == '_'
}

/// Whether a piece is not empty and holds allowed characters only, none of
/// them a `-`.
pub open spec fn clean_part(part: Seq<char>) -> bool {
    &&& part.len() > 0
    &&& forall|k: int| 0 <= k < part.len() ==> (#[trigger] part[k]) != '-' && allowed_in_name(part[k])
}

/// Whether a name holds allowed characters only, neither starts nor ends
/// with `-` and has no two `-` in a row.
pub open spec fn clean_name(name: Seq<char>) -> bool {
    &&& forall|k: int| 0 <= k < name.len() ==> allowed_in_name(#[trigger] name[k])
    &&& name.len() > 0 ==> name[0] != '-' && name.last() != '-'
    &&& forall|k: int| 0 <= k < name.len() - 1 ==> !((#[trigger] name[k]) == '-' && name[k + 1] == '-')
}

/// Splitting at `-` leaves no `-` in a piece, and no character that the text
/// did not hold.
pub proof fn dash_split_parts_hold_no_dash(s: Seq<char>)
    requires
        forall|k: int| 0 <= k < s.len() ==> allowed_in_name(#[trigger] s[k]),
    ensures
        dash_split(s).len() >= 1,
        forall|i: int, k: int|
            0 <= i < dash_split(s).len() && 0 <= k < dash_split(s)[i].len() ==> (
            #[trigger] dash_split(s)[i][k]) != '-' && allowed_in_name(dash_split(s)[i][k]),
    decreases s.len(),
{
    if s.len() > 0 {
        let shorter = s.drop_last();
        assert(forall|k: int| 0 <= k < shorter.len() ==> shorter[k] == s[k]);
        dash_split_parts_hold_no_dash(shorter);
        let rest = dash_split(shorter);
        let all = dash_split(s);
        assert forall|i: int, k: int| 0 <= i < all.len() && 0 <= k < all[i].len() implies (
        #[trigger] all[i][k]) != '-' && allowed_in_name(all[i][k]) by {
            if s.last() == '-' {
                assert(all[i] == rest[i]);
            } else if i < rest.len() - 1 {
                assert(all[i] == rest[i]);
            } else {
                assert(all[i] == rest.last().push(s.last()));
                if k < rest.last().len() {
                    assert(all[i][k] == rest[rest.len() - 1][k]);
                }
            }
        }
    }
}

/// The pieces that are kept are clean, where no piece holds a `-` or a
/// character that is not allowed.
pub proof fn nonempty_parts_are_clean(parts: Seq<Seq<char>>)
    requires
        forall|i: int, k: int|
            0 <= i < parts.len() && 0 <= k < parts[i].len() ==> (#[trigger] parts[i][k]) != '-'
                && allowed_in_name(parts[i][k]),
    ensures
        forall|i: int| 0 <= i < nonempty_parts(parts).len() ==> clean_part(#[trigger] nonempty_parts(parts)[i]),
    decreases parts.len(),
{
    if parts.len() > 0 {
        let shorter = parts.drop_last();
        assert(forall|i: int| 0 <= i < shorter.len() ==> shorter[i] == parts[i]);
        nonempty_parts_are_clean(shorter);
        let rest = nonempty_parts(shorter);
        let all = nonempty_parts(parts);
        assert forall|i: int| 0 <= i < all.len() implies clean_part(#[trigger] all[i]) by {
            if i < rest.len() {
                assert(all[i] == rest[i]);
            } else {
                assert(all[i] == parts[parts.len() - 1]);
            }
        }
    }
}

/// Clean pieces join to a clean name, which is empty only where there is no
/// piece.
pub proof fn dash_join_of_clean_parts_is_clean(parts: Seq<Seq<char>>)
    requires
        forall|i: int| 0 <= i < parts.len() ==> clean_part(#[trigger] parts[i]),
    ensures
        clean_name(dash_join(parts)),
        parts.len() > 0 ==> dash_join(parts).len() > 0,
    decreases parts.len(),
{
    if parts.len() == 1 {
        assert(clean_part(parts[0]));
    } else if parts.len() > 1 {
        let shorter = parts.drop_last();
        assert(forall|i: int| 0 <= i < shorter.len() ==> shorter[i] == parts[i]);
        dash_join_of_clean_parts_is_clean(shorter);
        let joined = dash_join(shorter);
        let last = parts.last();
        let name = dash_join(parts);
        assert(clean_part(parts[parts.len() - 1]));
        assert(name == joined + seq!['-'] + last);
        assert forall|k: int| 0 <= k < name.len() implies allowed_in_name(#[trigger] name[k]) by {
            if k < joined.len() {
                assert(name[k] == joined[k]);
            } else if k > joined.len() {
                assert(name[k] == last[k - joined.len() - 1]);
            }
        }
        assert(name[0] == joined[0]);
        assert(name.last() == last[last.len() - 1]);
        assert forall|k: int| 0 <= k < name.len() - 1 implies !((#[trigger] name[k]) == '-' && name[k + 1]
            == '-') by {
            if k + 1 < joined.len() {
                assert(name[k] == joined[k]);
                assert(name[k + 1] == joined[k + 1]);
            } else if k + 1 == joined.len() {
                assert(name[k] == joined[joined.len() - 1]);
            } else if k == joined.len() {
                assert(name[k + 1] == last[0]);
            } else {
                assert(name[k] == last[k - joined.len() - 1]);
            }
        }
    }
}

/// The label name of a heading holds only letters, digits, `-` and `_`,
/// neither starts nor ends with `-`, and has no two `-` in a row.
pub proof fn heading_label_name_is_clean(heading: Seq<char>)
    ensures
        clean_name(heading_label_name(heading)),
{
    let mapped = lowercase_of(heading).map_values(|c: char| name_char(c));
    assert forall|k: int| 0 <= k < mapped.len() implies allowed_in_name(#[trigger] mapped[k]) by {
        assert(mapped[k] == name_char(lowercase_of(heading)[k]));
    }
    dash_split_parts_hold_no_dash(mapped);
    nonempty_parts_are_clean(dash_split(mapped));
    dash_join_of_clean_parts_is_clean(nonempty_parts(dash_split(mapped)));
}

/// Replaces every character that a label name cannot hold by `-`.
pub fn name_chars(chars: &Vec<char>) -> (out: Vec<char>)
    ensures
        out@ == chars@.map_values(|c: char| name_char(c)),
{
    let mut out: Vec<char> = Vec::new();
    let mut i: usize = 0;
    while i < chars.len()
        invariant
            i <= chars.len(),
            out@ == chars@.take(i as int).map_values(|c: char| name_char(c)),
        decreases chars.len() - i,
    {
        let c = chars[i];
        let kept = if c.is_alphanumeric() || c == '-' || c == '_' {
            c
        } else {
            '-'
        };
        out.push(kept);
        assert(out@ =~= chars@.take(i as int + 1).map_values(|c: char| name_char(c)));
        i += 1;
    }
    assert(chars@.take(chars.len() as int) == chars@);
    out
}

/// Splits at every `-`.
pub fn split_on_dash(chars: &Vec<char>) -> (parts: Vec<Vec<char>>)
    ensures
        parts.deep_view() == dash_split(chars@),
{
    let mut parts: Vec<Vec<char>> = Vec::new();
    let mut current: Vec<char> = Vec::new();
    let mut i: usize = 0;
    assert(parts.deep_view().push(current@) =~= dash_split(chars@.take(0)));
    while i < chars.len()
        invariant
            i <= chars.len(),
            parts.deep_view().push(current@) == dash_split(chars@.take(i as int)),
        decreases chars.len() - i,
    {
        let c = chars[i];
        let ghost prefix = chars@.take(i as int);
        let ghost next = chars@.take(i as int + 1);
        let ghost done = parts.deep_view();
        let ghost open = current@;
        assert(next.drop_last() == prefix);
        assert(next.last() == c);
        assert(done.push(open).drop_last() =~= done);
        assert(current.deep_view() =~= open);
        if c == '-' {
            parts.push(current);
            current = Vec::new();
            assert(parts.deep_view() =~= done.push(open));
            assert(parts.deep_view().push(current@) =~= dash_split(prefix).push(seq![]));
        } else {
            current.push(c);
            assert(parts.deep_view().push(current@) =~= done.push(open.push(c)));
        }
        i += 1;
    }
    assert(chars@.take(chars.len() as int) == chars@);
    let ghost done = parts.deep_view();
    let ghost open = current@;
    assert(current.deep_view() =~= open);
    parts.push(current);
    assert(parts.deep_view() =~= done.push(open));
    parts
}

/// Joins the pieces that are not empty with `-`.
pub fn join_nonempty(parts: &Vec<Vec<char>>) -> (out: Vec<char>)
    ensures
        out@ == dash_join(nonempty_parts(parts.deep_view())),
{
    let mut out: Vec<char> = Vec::new();
    let mut any = false;
    let mut i: usize = 0;
    assert(parts.deep_view().take(0) =~= seq![]);
    while i < parts.len()
        invariant
            i <= parts.len(),
            out@ == dash_join(nonempty_parts(parts.deep_view().take(i as int))),
            any == (nonempty_parts(parts.deep_view().take(i as int)).len() > 0),
        decreases parts.len() - i,
    {
        let ghost kept = nonempty_parts(parts.deep_view().take(i as int));
        let ghost next = parts.deep_view().take(i as int + 1);
        assert(next.drop_last() == parts.deep_view().take(i as int));
        assert(next.last() == parts[i as int]@);
        let part = &parts[i];
        if part.len() > 0 {
            if any {
                out.push('-');
            }
            let ghost start = out@;
            let mut j: usize = 0;
            while j < part.len()
                invariant
                    j <= part.len(),
                    out@ == start + part@.take(j as int),
                decreases part.len() - j,
            {
                out.push(part[j]);
                assert(part@.take(j as int + 1) =~= part@.take(j as int).push(part@[j as int]));
                j += 1;
            }
            assert(part@.take(part.len() as int) == part@);
            assert(kept.push(part@).drop_last() =~= kept);
            assert(out@ =~= dash_join(kept.push(part@)));
            any = true;
        }
        i += 1;
    }
    assert(parts.deep_view().take(parts.len() as int) == parts.deep_view());
    out
}

/// Derives the label name of a heading.
pub fn heading_to_label(heading: &str) -> (name: String)
    ensures
        name@ == heading_label_name(heading@),
{
    let lowered = heading.to_lowercase();
    let chars = chars_of(lowered.as_str());
    let mapped = name_chars(&chars);
    let parts = split_on_dash(&mapped);
    let joined = join_nonempty(&parts);
    string_of(&joined)
}

/// Tells whether a character can stand in the name of a label that is
/// written out.
pub fn is_label_char(c: char) -> (yes: bool)
    ensures
        yes == label_char(c),
{
    ('a' <= c && c <= 'z') || ('A' <= c && c <= 'Z') || ('0' <= c && c <= '9') || c == '_' || c == ':'
        || c == '.' || c == '-'
}

/// Tells whether a text can be the name of a label that is written out.
pub fn is_valid_label_name(name: &str) -> (valid: bool)
    ensures
        valid == valid_label_name(name@),
{
    let chars = chars_of(name);
    if chars.len() == 0 {
        return false;
    }
    let mut i: usize = 0;
    while i < chars.len()
        invariant
            i <= chars.len(),
            chars@ == name@,
            forall|k: int| 0 <= k < i ==> label_char(#[trigger] chars@[k]),
        decreases chars.len() - i,
    {
        if !is_label_char(chars[i]) {
            assert(!label_char(name@[i as int]));
            return false;
        }
        i += 1;
    }
    true
}

/// Tells whether a match is one of a label in the text of a line.
pub fn is_label_match(cap: &Capture, line_text: &Vec<char>) -> (yes: bool)
    ensures
        yes == label_match(cap@, line_text@),
{
    if cap.groups.len() != 2 {
        return false;
    }
    let (whole, name) = match (&cap.groups[0], &cap.groups[1]) {
        (Some(whole), Some(name)) => (whole, name),
        _ => {
            return false;
        },
    };
    if !is_valid_label_name(name.as_str()) {
        return false;
    }
    let mut form: Vec<char> = Vec::new();
    form.push('<');
    let chars = chars_of(name.as_str());
    push_chars(&mut form, &chars);
    form.push('>');
    assert(form@ =~= written_label(name@));
    let found = chars_of(whole.as_str());
    if found.len() != form.len() || !begins_with(&found, &form) {
        assert(found@ != form@) by {
            if found@.len() == form@.len() {
                assert(found@.subrange(0, form@.len() as int) =~= found@);
            }
        }
        return false;
    }
    assert(found@ == form@) by {
        assert(found@.subrange(0, form@.len() as int) =~= found@);
    }
    let mut upto = chars_of(cap.before.as_str());
    push_chars(&mut upto, &found);
    begins_with(line_text, &upto)
}

/// Turns one match of the label pattern on a line into a label.
pub fn label_from_capture(cap: &Capture, line_text: &Vec<char>, line: usize) -> (r: Option<Label>)
    ensures
        r.deep_view() == explicit_label_of(cap@, line_text@, line as nat),
{
    if !is_label_match(cap, line_text) {
        return None;
    }
    let offset = cap.before.as_str().unicode_len();
    if offset == usize::MAX {
        return None;
    }
    match &cap.groups[1] {
        Some(name) => Some(
            Label { name: name.clone(), line: line, column: offset + 1, is_implicit: false },
        ),
        None => None,
    }
}

/// Turns the matches of the label pattern on one line into labels.
pub fn labels_from_captures(caps: &Vec<Capture>, line_text: &Vec<char>, line: usize) -> (out: Vec<Label>)
    ensures
        out.deep_view() == explicit_labels_of(caps.deep_view(), line_text@, line as nat),
{
    let mut out: Vec<Label> = Vec::new();
    let mut i: usize = 0;
    assert(out.deep_view() =~= explicit_labels_of(caps.deep_view().take(0), line_text@, line as nat));
    while i < caps.len()
        invariant
            i <= caps.len(),
            out.deep_view() == explicit_labels_of(
                caps.deep_view().take(i as int),
                line_text@,
                line as nat,
            ),
        decreases caps.len() - i,
    {
        let ghost next = caps.deep_view().take(i as int + 1);
        assert(next.drop_last() == caps.deep_view().take(i as int));
        assert(next.last() == caps[i as int]@);
        match label_from_capture(&caps[i], line_text, line) {
            Some(label) => {
                let ghost old_out = out.deep_view();
                out.push(label);
                assert(out.deep_view() =~= old_out.push(label@));
            },
            None => {},
        }
        i += 1;
    }
    assert(caps.deep_view().take(caps.len() as int) == caps.deep_view());
    out
}

/// Tells whether a text is made of equals signs, at least one.
pub fn is_heading_marks(marks: &Vec<char>) -> (yes: bool)
    ensures
        yes == heading_marks(marks@),
{
    if marks.len() == 0 {
        return false;
    }
    let mut i: usize = 0;
    while i < marks.len()
        invariant
            i <= marks.len(),
            forall|k: int| 0 <= k < i ==> (#[trigger] marks@[k]) == '=',
        decreases marks.len() - i,
    {
        if marks[i] != '=' {
            return false;
        }
        i += 1;
    }
    true
}

/// Tells whether a match is one of a heading in the text of a line.
pub fn is_heading_match(cap: &Capture, line_text: &Vec<char>) -> (yes: bool)
    ensures
        yes == heading_match(cap@, line_text@),
{
    if cap.groups.len() != 3 || cap.before.as_str().unicode_len() != 0 {
        return false;
    }
    let (whole, marks, heading) = match (&cap.groups[0], &cap.groups[1], &cap.groups[2]) {
        (Some(whole), Some(marks), Some(heading)) => (whole, marks, heading),
        _ => {
            return false;
        },
    };
    let found = chars_of(whole.as_str());
    if found.len() != line_text.len() || !begins_with(&found, line_text) {
        assert(found@ != line_text@) by {
            if found@.len() == line_text@.len() {
                assert(found@.subrange(0, line_text@.len() as int) =~= found@);
            }
        }
        return false;
    }
    assert(found@ == line_text@) by {
        assert(found@.subrange(0, line_text@.len() as int) =~= found@);
    }
    let marks = chars_of(marks.as_str());
    let heading = chars_of(heading.as_str());
    if !is_heading_marks(&marks) || heading.len() == 0 {
        return false;
    }
    if marks.len() >= line_text.len() || heading.len() >= line_text.len() - marks.len() {
        return false;
    }
    begins_with(line_text, &marks) && finishes_with(line_text, &heading)
}

/// Turns the matches of the heading pattern on one line into the heading's
/// label, if it has one.
pub fn label_from_heading(caps: &Vec<Capture>, line_text: &Vec<char>, line: usize) -> (r: Option<Label>)
    ensures
        r.deep_view() == heading_label_of(caps.deep_view(), line_text@, line as nat),
{
    if caps.len() == 0 {
        return None;
    }
    assert(caps.deep_view()[0] == caps[0]@);
    if !is_heading_match(&caps[0], line_text) {
        return None;
    }
    match &caps[0].groups[2] {
        Some(heading) => {
            let name = heading_to_label(heading.as_str());
            if name.as_str().unicode_len() == 0 {
                None
            } else {
                Some(Label { name: name, line: line, column: 1, is_implicit: true })
            }
        },
        None => None,
    }
}

/// Finds the labels in the text of a note.
pub struct LabelParser {
    label_regex: regex::Regex,
    heading_regex: regex::Regex,
}

impl LabelParser {
    #[verifier::type_invariant]
    spec fn holds_label_patterns(&self) -> bool {
        &&& regex_source(self.label_regex) == LABEL_PATTERN@
        &&& regex_source(self.heading_regex) == HEADING_PATTERN@
    }

    /// Makes a parser. It fails only where one of the two patterns does not
    /// compile.
    pub fn new() -> (r: Result<Self, regex::Error>)
        ensures
            r is Ok <==> regex_compiles(LABEL_PATTERN@) && regex_compiles(HEADING_PATTERN@),
    {
        let label_regex = match compile(LABEL_PATTERN) {
            Ok(regex) => regex,
            Err(e) => {
                return Err(e);
            },
        };
        match compile(HEADING_PATTERN) {
            Ok(heading_regex) => Ok(LabelParser { label_regex, heading_regex }),
            Err(e) => Err(e),
        }
    }

    /// All labels of `content`, line by line: on each line those written
    /// out, from left to right, then the one of the heading.
    pub fn parse_labels(&self, content: &str) -> (out: Vec<Label>)
        ensures
            out.deep_view() == labels_in(content@),
    {
        proof {
            use_type_invariant(self);
        }
        let lines = split_lines(content);
        let mut out: Vec<Label> = Vec::new();
        let mut i: usize = 0;
        assert(out.deep_view() =~= labels_of_lines(lines.deep_view().take(0)));
        while i < lines.len()
            invariant
                i <= lines.len(),
                regex_source(self.label_regex) == LABEL_PATTERN@,
                regex_source(self.heading_regex) == HEADING_PATTERN@,
                out.deep_view() == labels_of_lines(lines.deep_view().take(i as int)),
            decreases lines.len() - i,
        {
            let ghost next = lines.deep_view().take(i as int + 1);
            assert(next.drop_last() == lines.deep_view().take(i as int));
            assert(next.last() == lines[i as int]@);
            let ghost old_out = out.deep_view();
            let caps = captures_in(&self.label_regex, lines[i].as_str());
            let line_text = chars_of(lines[i].as_str());
            let mut found = labels_from_captures(&caps, &line_text, i + 1);
            let ghost explicit = found.deep_view();
            out.append(&mut found);
            assert(out.deep_view() =~= old_out + explicit);
            let headings = captures_in(&self.heading_regex, lines[i].as_str());
            match label_from_heading(&headings, &line_text, i + 1) {
                Some(label) => {
                    out.push(label);
                    assert(out.deep_view() =~= old_out + explicit.push(label@));
                },
                None => {},
            }
            i += 1;
        }
        assert(lines.deep_view().take(lines.len() as int) == lines.deep_view());
        out
    }
}

} // verus!
