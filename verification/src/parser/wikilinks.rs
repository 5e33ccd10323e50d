use crate::parser::models::{Wikilink, WikilinkModel};
use crate::parser::pattern::{
    captures_in, compile, regex_captures, regex_compiles, regex_source, Capture, CaptureModel,
};
use crate::parser::text::{
    begins_with, chars_of, part_behind_prefix_stands_at, push_chars, split_lines, stands_at, starts_with,
    text_lines,
};
use vstd::prelude::*;

verus! {

/// The pattern of a wikilink: `[[target]]`, `[[target|alias]]`,
/// `[[target:label]]` or `[[target:label|alias]]`.
pub const WIKILINK_PATTERN: &'static str =
    r"\[\[([^|\]:\n]+)(?::([^|\]\n]+))?(?:\|([^|\]\n]+))?\]\]";

/// Why a wikilink parser could not be made.
#[derive(Debug)]
pub enum WikilinkError {
    RegexError(regex::Error),
}

impl WikilinkError {
    /// The error in words.
    pub fn message(&self) -> (text: String)
        ensures
            text@ == "regex compilation failed"@,
    {
        "regex compilation failed".to_owned()
    }
}

/// A copy of an optional text.
pub fn copy_text(text: &Option<String>) -> (copy: Option<String>)
    ensures
        copy.deep_view() == text.deep_view(),
{
    match text {
        Some(s) => Some(s.clone()),
        None => None,
    }
}

/// Whether a character can stand in the target of a wikilink.
pub open spec fn target_char(c: char) -> bool {
    c != '|' && c != ']' && c != ':' && c != '\n'
}

/// Whether a character can stand in the label or the alias of a wikilink.
pub open spec fn part_char(c: char) -> bool {
    c != '|' && c != ']' && c != '\n'
}

/// Whether a text can be the target of a wikilink: it is not empty and
/// holds none of `|`, `]`, `:` and the line feed.
pub open spec fn valid_target(target: Seq<char>) -> bool {
    &&& target.len() > 0
    &&& forall|k: int| 0 <= k < target.len() ==> target_char(#[trigger] target[k])
}

/// Whether a text can be the label or the alias of a wikilink: it is not
/// empty and holds none of `|`, `]` and the line feed.
pub open spec fn valid_part(part: Seq<char>) -> bool {
    &&& part.len() > 0
    &&& forall|k: int| 0 <= k < part.len() ==> part_char(#[trigger] part[k])
}

/// Whether a label or an alias is absent or valid.
pub open spec fn valid_optional_part(part: Option<Seq<char>>) -> bool {
    match part {
        Some(text) => valid_part(text),
        None => true,
    }
}

/// A label or an alias as it is written in a wikilink: behind its mark,
/// `:` or `|`; nothing where it is absent.
pub open spec fn marked_part(mark: char, part: Option<Seq<char>>) -> Seq<char> {
    match part {
        Some(text) => seq![mark] + text,
        None => seq![],
    }
}

/// A wikilink as it is written: `[[target]]`, `[[target|alias]]`,
/// `[[target:label]]` or `[[target:label|alias]]`.
pub open spec fn written_form(
    target: Seq<char>,
    label: Option<Seq<char>>,
    alias: Option<Seq<char>>,
) -> Seq<char> {
    seq!['[', '['] + target + marked_part(':', label) + marked_part('|', alias) + seq![']', ']']
}

/// Whether a wikilink is of the form `[[target]]`, `[[target|alias]]`,
/// `[[target:label]]` or `[[target:label|alias]]`, with a position that
/// counts from 1.
pub open spec fn valid_wikilink(w: WikilinkModel) -> bool {
    &&& valid_target(w.target)
    &&& valid_optional_part(w.label)
    &&& valid_optional_part(w.alias)
    &&& w.line >= 1
    &&& w.column >= 1
}

/// Whether a match is one of a wikilink in the text of a line: it has the
/// four groups of the pattern, the target is there, target, label and alias
/// hold no character that they cannot hold, the whole match is the written
/// form of the three, and the line begins with what stands before the match
/// and the match itself.
pub open spec fn wikilink_match(cap: CaptureModel, line_text: Seq<char>) -> bool {
    &&& cap.groups.len() == 4
    &&& cap.groups[1] is Some
    &&& valid_target(cap.groups[1]->0)
    &&& valid_optional_part(cap.groups[2])
    &&& valid_optional_part(cap.groups[3])
    &&& cap.groups[0] == Some(written_form(cap.groups[1]->0, cap.groups[2], cap.groups[3]))
    &&& starts_with(line_text, cap.before + cap.groups[0]->0)
}

/// The wikilink that one match of the wikilink pattern on line `line` stands
/// for: group 1 is the target, group 2 the label, group 3 the alias, and the
/// column is one more than the number of characters before the match. There
/// is none where the match is not one of a wikilink in the text of the
/// line, or where the column is beyond the largest `usize`.
pub open spec fn wikilink_of(cap: CaptureModel, line_text: Seq<char>, line: nat) -> Option<
    WikilinkModel,
> {
    if wikilink_match(cap, line_text) && cap.before.len() < usize::MAX {
        Some(
            WikilinkModel {
                target: cap.groups[1]->0,
                alias: cap.groups[3],
                label: cap.groups[2],
                line: line,
                column: cap.before.len() + 1,
            },
        )
    } else {
        None
    }
}

/// The wikilinks of the matches on one line, in the order of the matches.
pub open spec fn wikilinks_of_captures(caps: Seq<CaptureModel>, line_text: Seq<char>, line: nat) -> Seq<
    WikilinkModel,
>
    decreases caps.len(),
{
    if caps.len() == 0 {
        seq![]
    } else {
        let rest = wikilinks_of_captures(caps.drop_last(), line_text, line);
        match wikilink_of(caps.last(), line_text, line) {
            Some(w) => rest.push(w),
            None => rest,
        }
    }
}

/// The wikilinks of the given lines, line by line; the first line has number 1.
pub open spec fn wikilinks_of_lines(lines: Seq<Seq<char>>) -> Seq<WikilinkModel>
    decreases lines.len(),
{
    if lines.len() == 0 {
        seq![]
    } else {
        wikilinks_of_lines(lines.drop_last()) + wikilinks_of_captures(
            regex_captures(WIKILINK_PATTERN@, lines.last()),
            lines.last(),
            lines.len(),
        )
    }
}

/// The wikilinks of a text, in the order in which they stand in it.
pub open spec fn wikilinks_in(content: Seq<char>) -> Seq<WikilinkModel> {
    wikilinks_of_lines(text_lines(content))
}

/// Every wikilink of the matches on a line has the number of that line and
/// a column from 1 on, has a valid target, label and alias, and stands in
/// the text of the line at its column in its written form.
pub proof fn wikilinks_of_captures_stand_on_the_line(
    caps: Seq<CaptureModel>,
    line_text: Seq<char>,
    line: nat,
)
    ensures
        forall|i: int|
            0 <= i < wikilinks_of_captures(caps, line_text, line).len() ==> {
                let w = #[trigger] wikilinks_of_captures(caps, line_text, line)[i];
                &&& w.line == line
                &&& w.column >= 1
                &&& valid_target(w.target)
                &&& valid_optional_part(w.label)
                &&& valid_optional_part(w.alias)
                &&& stands_at(line_text, w.column, written_form(w.target, w.label, w.alias))
            },
    decreases caps.len(),
{
    if caps.len() > 0 {
        wikilinks_of_captures_stand_on_the_line(caps.drop_last(), line_text, line);
        let rest = wikilinks_of_captures(caps.drop_last(), line_text, line);
        let all = wikilinks_of_captures(caps, line_text, line);
        let cap = caps.last();
        if wikilink_of(cap, line_text, line) is Some {
            part_behind_prefix_stands_at(line_text, cap.before, cap.groups[0]->0);
        }
        assert forall|i: int| 0 <= i < all.len() implies {
            let w = #[trigger] all[i];
            &&& w.line == line
            &&& w.column >= 1
            &&& valid_target(w.target)
            &&& valid_optional_part(w.label)
            &&& valid_optional_part(w.alias)
            &&& stands_at(line_text, w.column, written_form(w.target, w.label, w.alias))
        } by {
            if i < rest.len() {
                assert(all[i] == rest[i]);
            }
        }
    }
}

/// The wikilinks of some lines are valid and have line numbers from 1 to
/// the number of the lines, in ascending order.
pub proof fn wikilinks_of_lines_are_in_order(lines: Seq<Seq<char>>)
    ensures
        forall|i: int|
            0 <= i < wikilinks_of_lines(lines).len() ==> {
                let w = #[trigger] wikilinks_of_lines(lines)[i];
                &&& w.line <= lines.len()
                &&& valid_wikilink(w)
                &&& stands_at(lines[w.line - 1], w.column, written_form(w.target, w.label, w.alias))
            },
        forall|i: int, j: int|
            0 <= i <= j < wikilinks_of_lines(lines).len() ==> (#[trigger] wikilinks_of_lines(lines)[i]).line
                <= (#[trigger] wikilinks_of_lines(lines)[j]).line,
    decreases lines.len(),
{
    if lines.len() > 0 {
        wikilinks_of_lines_are_in_order(lines.drop_last());
        wikilinks_of_captures_stand_on_the_line(
            regex_captures(WIKILINK_PATTERN@, lines.last()),
            lines.last(),
            lines.len(),
        );
        let before = wikilinks_of_lines(lines.drop_last());
        let here = wikilinks_of_captures(
            regex_captures(WIKILINK_PATTERN@, lines.last()),
            lines.last(),
            lines.len(),
        );
        let all = wikilinks_of_lines(lines);
        assert(all == before + here);
        assert forall|i: int| 0 <= i < all.len() implies {
            let w = #[trigger] all[i];
            &&& w.line <= lines.len()
            &&& valid_wikilink(w)
            &&& stands_at(lines[w.line - 1], w.column, written_form(w.target, w.label, w.alias))
        } by {
            if i < before.len() {
                assert(all[i] == before[i]);
                assert(lines.drop_last()[all[i].line - 1] == lines[all[i].line - 1]);
            } else {
                assert(all[i] == here[i - before.len()]);
            }
        }
        assert forall|i: int, j: int| 0 <= i <= j < all.len() implies (#[trigger] all[i]).line <= (
        #[trigger] all[j]).line by {
            if j < before.len() {
                assert(all[i] == before[i]);
                assert(all[j] == before[j]);
            } else if i < before.len() {
                assert(all[i] == before[i]);
                assert(all[j] == here[j - before.len()]);
            } else {
                assert(all[i] == here[i - before.len()]);
                assert(all[j] == here[j - before.len()]);
            }
        }
    }
}

/// Every wikilink of a text is valid: its target is not empty and holds
/// none of `|`, `]`, `:` and the line feed, its label and its alias, where
/// it has them, are not empty and hold none of `|`, `]` and the line feed,
/// and its line and column count from 1. It stands in the text where it is
/// said to stand: its line is a line of the text, and that line holds the
/// written form of the wikilink from its column on, counted in characters.
/// The wikilinks stand in the order of the lines: their line numbers never
/// decrease from one wikilink to the next.
pub proof fn wikilinks_are_valid_and_in_line_order(content: Seq<char>)
    ensures
        forall|i: int|
            0 <= i < wikilinks_in(content).len() ==> {
                let w = #[trigger] wikilinks_in(content)[i];
                &&& w.line <= text_lines(content).len()
                &&& valid_wikilink(w)
                &&& stands_at(
                    text_lines(content)[w.line - 1],
                    w.column,
                    written_form(w.target, w.label, w.alias),
                )
            },
        forall|i: int, j: int|
            0 <= i <= j < wikilinks_in(content).len() ==> (#[trigger] wikilinks_in(content)[i]).line <= (
            #[trigger] wikilinks_in(content)[j]).line,
{
    wikilinks_of_lines_are_in_order(text_lines(content));
}

/// Tells whether a text can be the target of a wikilink.
pub fn is_valid_target(target: &str) -> (valid: bool)
    ensures
        valid == valid_target(target@),
{
    let chars = chars_of(target);
    if chars.len() == 0 {
        return false;
    }
    let mut i: usize = 0;
    while i < chars.len()
        invariant
            i <= chars.len(),
            chars@ == target@,
            forall|k: int| 0 <= k < i ==> target_char(#[trigger] chars@[k]),
        decreases chars.len() - i,
    {
        let c = chars[i];
        if c == '|' || c == ']' || c == ':' || c == '\n' {
            assert(!target_char(target@[i as int]));
            return false;
        }
        i += 1;
    }
    true
}

/// Tells whether a text can be the label or the alias of a wikilink.
pub fn is_valid_part(part: &str) -> (valid: bool)
    ensures
        valid == valid_part(part@),
{
    let chars = chars_of(part);
    if chars.len() == 0 {
        return false;
    }
    let mut i: usize = 0;
    while i < chars.len()
        invariant
            i <= chars.len(),
            chars@ == part@,
            forall|k: int| 0 <= k < i ==> part_char(#[trigger] chars@[k]),
        decreases chars.len() - i,
    {
        let c = chars[i];
        if c == '|' || c == ']' || c == '\n' {
            assert(!part_char(part@[i as int]));
            return false;
        }
        i += 1;
    }
    true
}

/// Tells whether a label or an alias is absent or valid.
pub fn is_valid_optional_part(part: &Option<String>) -> (valid: bool)
    ensures
        valid == valid_optional_part(part.deep_view()),
{
    match part {
        Some(text) => is_valid_part(text.as_str()),
        None => true,
    }
}

/// Appends a label or an alias as it is written in a wikilink.
pub fn push_marked_part(out: &mut Vec<char>, mark: char, part: &Option<String>)
    ensures
        final(out)@ == old(out)@ + marked_part(mark, part.deep_view()),
{
    match part {
        Some(text) => {
            out.push(mark);
            let chars = chars_of(text.as_str());
            push_chars(out, &chars);
            assert(out@ =~= old(out)@ + (seq![mark] + text@));
        },
        None => {
            assert(out@ =~= old(out)@ + seq![]);
        },
    }
}

/// Writes a wikilink as it stands in a text.
pub fn write_form(target: &str, label: &Option<String>, alias: &Option<String>) -> (out: Vec<char>)
    ensures
        out@ == written_form(target@, label.deep_view(), alias.deep_view()),
{
    let mut out: Vec<char> = Vec::new();
    out.push('[');
    out.push('[');
    assert(out@ =~= seq!['[', '[']);
    let chars = chars_of(target);
    push_chars(&mut out, &chars);
    push_marked_part(&mut out, ':', label);
    push_marked_part(&mut out, '|', alias);
    let ghost body = out@;
    out.push(']');
    out.push(']');
    assert(out@ =~= body + seq![']', ']']);
    out
}

/// Tells whether a match is one of a wikilink in the text of a line.
pub fn is_wikilink_match(cap: &Capture, line_text: &Vec<char>) -> (yes: bool)
    ensures
        yes == wikilink_match(cap@, line_text@),
{
    if cap.groups.len() != 4 {
        return false;
    }
    let (whole, target) = match (&cap.groups[0], &cap.groups[1]) {
        (Some(whole), Some(target)) => (whole, target),
        _ => {
            return false;
        },
    };
    if !is_valid_target(target.as_str()) || !is_valid_optional_part(&cap.groups[2])
        || !is_valid_optional_part(&cap.groups[3]) {
        return false;
    }
    let form = write_form(target.as_str(), &cap.groups[2], &cap.groups[3]);
    let found = chars_of(whole.as_str());
    if found.len() != form.len() || !begins_with(&found, &form) {
        assert(found@ != form@) by {
            if found@.len() == form@.len() {
                assert(found@.subrange(0, form@.len() as int) =~= found@);
            }
        }
        return false;
    }
    assert(found@ == form@) by {
        assert(found@.subrange(0, form@.len() as int) =~= found@);
    }
    let mut upto = chars_of(cap.before.as_str());
    push_chars(&mut upto, &found);
    begins_with(line_text, &upto)
}

/// Turns one match of the wikilink pattern on a line into a wikilink.
pub fn wikilink_from_capture(cap: &Capture, line_text: &Vec<char>, line: usize) -> (r: Option<Wikilink>)
    ensures
        r.deep_view() == wikilink_of(cap@, line_text@, line as nat),
{
    if !is_wikilink_match(cap, line_text) {
        return None;
    }
    let offset = cap.before.as_str().unicode_len();
    if offset == usize::MAX {
        return None;
    }
    match &cap.groups[1] {
        Some(target) => {
            Some(
                Wikilink {
                    target: target.clone(),
                    alias: copy_text(&cap.groups[3]),
                    label: copy_text(&cap.groups[2]),
                    line: line,
                    column: offset + 1,
                },
            )
        },
        None => None,
    }
}

/// Turns the matches on one line into wikilinks.
pub fn wikilinks_from_captures(caps: &Vec<Capture>, line_text: &Vec<char>, line: usize) -> (out: Vec<
    Wikilink,
>)
    ensures
        out.deep_view() == wikilinks_of_captures(caps.deep_view(), line_text@, line as nat),
{
    let mut out: Vec<Wikilink> = Vec::new();
    let mut i: usize = 0;
    assert(out.deep_view() =~= wikilinks_of_captures(caps.deep_view().take(0), line_text@, line as nat));
    while i < caps.len()
        invariant
            i <= caps.len(),
            out.deep_view() == wikilinks_of_captures(
                caps.deep_view().take(i as int),
                line_text@,
                line as nat,
            ),
        decreases caps.len() - i,
    {
        let ghost next = caps.deep_view().take(i as int + 1);
        assert(next.drop_last() == caps.deep_view().take(i as int));
        assert(next.last() == caps[i as int]@);
        match wikilink_from_capture(&caps[i], line_text, line) {
            Some(w) => {
                let ghost old_out = out.deep_view();
                out.push(w);
                assert(out.deep_view() =~= old_out.push(w@));
            },
            None => {},
        }
        i += 1;
    }
    assert(caps.deep_view().take(caps.len() as int) == caps.deep_view());
    out
}

/// Finds the wikilinks in the text of a note.
pub struct WikilinkParser {
    wikilink_regex: regex::Regex,
}

impl WikilinkParser {
    #[verifier::type_invariant]
    spec fn holds_wikilink_pattern(&self) -> bool {
        regex_source(self.wikilink_regex) == WIKILINK_PATTERN@
    }

    /// Makes a parser. It fails only where the wikilink pattern does not
    /// compile.
    pub fn new() -> (r: Result<Self, WikilinkError>)
        ensures
            r is Ok <==> regex_compiles(WIKILINK_PATTERN@),
    {
        match compile(WIKILINK_PATTERN) {
            Ok(regex) => Ok(WikilinkParser { wikilink_regex: regex }),
            Err(e) => Err(WikilinkError::RegexError(e)),
        }
    }

    /// All wikilinks of `content`, line by line and from left to right. Every
    /// text is accepted: one without a match gives an empty list.
    pub fn parse_wikilinks(&self, content: &str, file_path: &str) -> (out: Vec<Wikilink>)
        ensures
            out.deep_view() == wikilinks_in(content@),
    {
        proof {
            use_type_invariant(self);
        }
        let lines = split_lines(content);
        let mut out: Vec<Wikilink> = Vec::new();
        let mut i: usize = 0;
        assert(out.deep_view() =~= wikilinks_of_lines(lines.deep_view().take(0)));
        while i < lines.len()
            invariant
                i <= lines.len(),
                regex_source(self.wikilink_regex) == WIKILINK_PATTERN@,
                out.deep_view() == wikilinks_of_lines(lines.deep_view().take(i as int)),
            decreases lines.len() - i,
        {
            let ghost next = lines.deep_view().take(i as int + 1);
            assert(next.drop_last() == lines.deep_view().take(i as int));
            assert(next.last() == lines[i as int]@);
            let caps = captures_in(&self.wikilink_regex, lines[i].as_str());
            let line_text = chars_of(lines[i].as_str());
            let mut found = wikilinks_from_captures(&caps, &line_text, i + 1);
            let ghost old_out = out.deep_view();
            let ghost more = found.deep_view();
            out.append(&mut found);
            assert(out.deep_view() =~= old_out + more);
            i += 1;
        }
        assert(lines.deep_view().take(lines.len() as int) == lines.deep_view());
        out
    }
}

} // verus!
