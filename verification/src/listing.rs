//! Reading what the runtime prints: the list of container names, and the
//! answer to the question whether the runtime is up.

use crate::text::{chars_of, same_text, texts};
use vstd::prelude::*;

verus! {

/// Whether a character is white space: the characters that Unicode marks
/// `White_Space`.
pub open spec fn is_space(c: char) -> bool {
    let n = c as u32;
    (0x09 <= n <= 0x0d) || n == 0x20 || n == 0x85 || n == 0xa0 || n == 0x1680 || (0x2000 <= n
        <= 0x200a) || n == 0x2028 || n == 0x2029 || n == 0x202f || n == 0x205f || n == 0x3000
}

/// The first position at or after `from` that holds no white space.
pub open spec fn skip_spaces(s: Seq<char>, from: int) -> int
    decreases s.len() - from,
{
    if 0 <= from < s.len() && is_space(s[from]) {
        skip_spaces(s, from + 1)
    } else {
        from
    }
}

/// The end of the text before `until` once the white space at its end is
/// cut off.
pub open spec fn drop_spaces(s: Seq<char>, until: int) -> int
    decreases until,
{
    if 0 < until <= s.len() && is_space(s[until - 1]) {
        drop_spaces(s, until - 1)
    } else {
        until
    }
}

/// The text without the white space at its start and at its end.
pub open spec fn trimmed(s: Seq<char>) -> Seq<char> {
    let start = skip_spaces(s, 0);
    let end = drop_spaces(s, s.len() as int);
    if start < end {
        s.subrange(start, end)
    } else {
        Seq::empty()
    }
}

/// The position of the first line feed at or after `from`, or the length of
/// the text if there is none.
pub open spec fn line_end(s: Seq<char>, from: int) -> int
    decreases s.len() - from,
{
    if 0 <= from < s.len() && s[from] != '\n' {
        line_end(s, from + 1)
    } else {
        from
    }
}

/// The line that starts at `from` and ends before `end`. Of a line that a
/// line feed ends, a carriage return just before the line feed is no part.
pub open spec fn line_at(s: Seq<char>, from: int, end: int) -> Seq<char> {
    if end < s.len() && from < end && s[end - 1] == '\r' {
        s.subrange(from, end - 1)
    } else {
        s.subrange(from, end)
    }
}

/// The lines of the text from `from` on that are not empty, in order.
pub open spec fn names_from(s: Seq<char>, from: int) -> Seq<Seq<char>>
    decreases s.len() + 1 - from,
    via names_from_decreases
{
    if 0 <= from < s.len() {
        let end = line_end(s, from);
        let line = line_at(s, from, end);
        if line.len() > 0 {
            seq![line] + names_from(s, end + 1)
        } else {
            names_from(s, end + 1)
        }
    } else {
        Seq::empty()
    }
}

#[via_fn]
proof fn names_from_decreases(s: Seq<char>, from: int) {
    if 0 <= from < s.len() {
        lemma_line_end_bounds(s, from);
    }
}

/// The container names in the output of the runtime's listing: the text is
/// trimmed, and each line of it that is not empty is a name.
pub open spec fn names_in(output: Seq<char>) -> Seq<Seq<char>> {
    names_from(trimmed(output), 0)
}

/// The first line feed at or after `from` lies within the text, at or after
/// `from`.
pub proof fn lemma_line_end_bounds(s: Seq<char>, from: int)
    requires
        0 <= from <= s.len(),
    ensures
        from <= line_end(s, from) <= s.len(),
    decreases s.len() - from,
{
    if from < s.len() && s[from] != '\n' {
        lemma_line_end_bounds(s, from + 1);
    }
}

/// Whether a character is white space.
pub fn is_whitespace(c: char) -> (b: bool)
    ensures
        b == is_space(c),
{
    let n: u32 = c as u32;
    (0x09 <= n && n <= 0x0d) || n == 0x20 || n == 0x85 || n == 0xa0 || n == 0x1680 || (0x2000 <= n
        && n <= 0x200a) || n == 0x2028 || n == 0x2029 || n == 0x202f || n == 0x205f || n == 0x3000
}

/// The text without the white space at its start and at its end.
pub fn trim(text: &str) -> (t: &str)
    ensures
        t@ == trimmed(text@),
{
    let chars = chars_of(text);
    let mut start: usize = 0;
    while start < chars.len() && is_whitespace(chars[start])
        invariant
            chars@ == text@,
            start <= chars.len(),
            skip_spaces(text@, 0) == skip_spaces(text@, start as int),
        decreases chars.len() - start,
    {
        start = start + 1;
    }
    let mut end: usize = chars.len();
    while end > 0 && is_whitespace(chars[end - 1])
        invariant
            chars@ == text@,
            end <= chars.len(),
            drop_spaces(text@, text@.len() as int) == drop_spaces(text@, end as int),
        decreases end,
    {
        end = end - 1;
    }
    if start < end {
        text.substring_char(start, end)
    } else {
        text.substring_char(0, 0)
    }
}

/// The container names in the output of the runtime's listing, one per
/// line: the lines of the trimmed output that are not empty, in order.
pub fn parse_container_names(output: &str) -> (names: Vec<String>)
    ensures
        texts(names@) == names_in(output@),
{
    let body = trim(output);
    let chars = chars_of(body);
    let mut names: Vec<String> = Vec::new();
    let mut from: usize = 0;
    while from < chars.len()
        invariant
            chars@ == body@,
            from <= chars.len(),
            texts(names@) + names_from(body@, from as int) == names_from(body@, 0),
        decreases chars.len() - from,
    {
        let mut end: usize = from;
        while end < chars.len() && chars[end] != '\n'
            invariant
                chars@ == body@,
                from <= end <= chars.len(),
                line_end(body@, from as int) == line_end(body@, end as int),
            decreases chars.len() - end,
        {
            end = end + 1;
        }
        let stop: usize = if end < chars.len() && from < end && chars[end - 1] == '\r' {
            end - 1
        } else {
            end
        };
        let ghost before = texts(names@);
        if from < stop {
            let line = body.substring_char(from, stop);
            names.push(String::from_str(line));
            proof {
                let found = seq![line_at(body@, from as int, end as int)];
                let rest = names_from(body@, end + 1);
                assert((before + found) + rest =~= before + (found + rest));
            }
        }
        from = if end < chars.len() {
            end + 1
        } else {
            end
        };
    }
    names
}

/// Whether the runtime's listing holds a container of the given name.
pub fn is_container_in_list(container_name: &str, names: &Vec<String>) -> (found: bool)
    ensures
        found == texts(names@).contains(container_name@),
{
    let mut stat: bool = false;
    let mut i: usize = 0;
    while i < names.len()
        invariant
            i <= names.len(),
            stat == exists|k: int| 0 <= k < i && names@[k]@ == container_name@,
        decreases names.len() - i,
    {
        if same_text(names[i].as_str(), container_name) {
            stat = true;
        }
        i = i + 1;
    }
    proof {
        let all = texts(names@);
        if stat {
            let k = choose|k: int| 0 <= k < names@.len() && names@[k]@ == container_name@;
            assert(all[k] == container_name@);
        } else {
            assert(forall|k: int| 0 <= k < all.len() ==> all[k] == names@[k]@);
        }
    }
    stat
}

/// What is reported when the runtime is not up: a fixed text and what the
/// runtime printed, or `Unknown error` where that cannot be read.
pub open spec fn not_running_message(printed: Option<Seq<char>>) -> Seq<char> {
    "Docker is not running: "@ + match printed {
        Some(text) => text,
        None => "Unknown error"@,
    }
}

/// Judges the outcome of asking the runtime whether it is up. `success`
/// tells whether the query succeeded; `printed` is what it printed, if that
/// is readable text.
pub fn check_docker_running(success: bool, printed: Option<&str>) -> (outcome: Result<(), String>)
    ensures
        success <==> outcome is Ok,
        !success ==> outcome->Err_0@ == not_running_message(
            match printed {
                Some(text) => Some(text@),
                None => None,
            },
        ),
{
    if success {
        Ok(())
    } else {
        let mut message = String::from_str("Docker is not running: ");
        match printed {
            Some(text) => message.append(text),
            None => message.append("Unknown error"),
        }
        Err(message)
    }
}

} // verus!
