//! Line numbers in the gutter of the code editor.
use core::ops::Range;
use vstd::prelude::*;

verus! {

/// A 0-based line index.
#[derive(Clone, Copy, PartialEq, Eq, Structural, Debug)]
pub struct LineCount(pub usize);

impl From<usize> for LineCount {
    fn from(n: usize) -> (r: LineCount) {
        LineCount(n)
    }
}

impl vstd::std_specs::convert::FromSpecImpl<usize> for LineCount {
    open spec fn obeys_from_spec() -> bool {
        true
    }

    open spec fn from_spec(n: usize) -> LineCount {
        LineCount(n)
    }
}

/// How the gutter numbers lines.
#[derive(Clone, Copy, PartialEq, Eq, Structural, Debug)]
pub enum CodeEditorLineNumberMode {
    Absolute,
    Relative,
}

/// The number shown for line `line`: lines count from the starting line
/// number, which is 1 unless the editor shows an excerpt.
pub open spec fn absolute_number(line: LineCount, starting_line_number: Option<usize>) -> int {
    match starting_line_number {
        Some(s) => s + line.0,
        None => 1 + line.0,
    }
}

pub fn absolute_line_number(line: LineCount, starting_line_number: Option<usize>) -> (n: usize)
    requires
        absolute_number(line, starting_line_number) <= usize::MAX,
    ensures
        n == absolute_number(line, starting_line_number),
{
    let start = match starting_line_number {
        Some(s) => s,
        None => 1,
    };
    start + line.0
}

/// In relative mode the active line shows its absolute number and every
/// other line its distance from the active line; without an active line, or
/// in absolute mode, every line shows its absolute number.
pub open spec fn displayed_number(line: LineCount, mode: CodeEditorLineNumberMode, starting_line_number: Option<usize>, active_line: Option<LineCount>) -> int {
    match mode {
        CodeEditorLineNumberMode::Absolute => absolute_number(line, starting_line_number),
        CodeEditorLineNumberMode::Relative => match active_line {
            Some(a) => if a.0 == line.0 {
                absolute_number(line, starting_line_number)
            } else if line.0 > a.0 {
                line.0 - a.0
            } else {
                a.0 - line.0
            },
            None => absolute_number(line, starting_line_number),
        },
    }
}

/// Whether the gutter shows `line`'s absolute number rather than a distance.
pub open spec fn shows_absolute(line: LineCount, mode: CodeEditorLineNumberMode, active_line: Option<LineCount>) -> bool {
    match mode {
        CodeEditorLineNumberMode::Absolute => true,
        CodeEditorLineNumberMode::Relative => match active_line {
            Some(a) => a.0 == line.0,
            None => true,
        },
    }
}

pub fn display_line_number(line: LineCount, mode: CodeEditorLineNumberMode, starting_line_number: Option<usize>, active_line: Option<LineCount>) -> (n: usize)
    requires
        shows_absolute(line, mode, active_line) ==> absolute_number(line, starting_line_number) <= usize::MAX,
    ensures
        n == displayed_number(line, mode, starting_line_number, active_line),
{
    match mode {
        CodeEditorLineNumberMode::Absolute => absolute_line_number(line, starting_line_number),
        CodeEditorLineNumberMode::Relative => match active_line {
            Some(a) => if a.0 == line.0 {
                absolute_line_number(line, starting_line_number)
            } else if line.0 > a.0 {
                line.0 - a.0
            } else {
                a.0 - line.0
            },
            None => absolute_line_number(line, starting_line_number),
        },
    }
}

pub open spec fn range_contains(r: Range<LineCount>, line: LineCount) -> bool {
    r.start.0 <= line.0 && line.0 < r.end.0
}

/// Whether `line` belongs to the diff hunk the cursor is in: the hunk around
/// the cursor when there is one, else the focused hunk if it contains the
/// cursor.
pub open spec fn in_active_diff_range(line: LineCount, cursor_line: LineCount, cursor_range: Option<Range<LineCount>>, focused_range: Option<Range<LineCount>>) -> bool {
    match cursor_range {
        Some(r) => range_contains(r, line),
        None => match focused_range {
            Some(f) => range_contains(f, cursor_line) && range_contains(f, line),
            None => false,
        },
    }
}

pub fn line_is_in_active_diff_range(line: LineCount, cursor_line: LineCount, cursor_range: Option<Range<LineCount>>, focused_range: Option<&Range<LineCount>>) -> (b: bool)
    ensures
        b == in_active_diff_range(line, cursor_line, cursor_range, match focused_range {
            Some(f) => Some(*f),
            None => None,
        }),
{
    match cursor_range {
        Some(r) => r.start.0 <= line.0 && line.0 < r.end.0,
        None => match focused_range {
            Some(f) => f.start.0 <= cursor_line.0 && cursor_line.0 < f.end.0 && f.start.0 <= line.0 && line.0 < f.end.0,
            None => false,
        },
    }
}

/// On the active line the relative gutter shows the absolute number.
pub proof fn lemma_active_line_shows_absolute(line: LineCount, starting_line_number: Option<usize>)
    ensures
        displayed_number(line, CodeEditorLineNumberMode::Relative, starting_line_number, Some(line))
            == absolute_number(line, starting_line_number),
{
}

/// Relative distances are symmetric: the line above and the line below at
/// the same distance show the same number.
pub proof fn lemma_relative_distance_symmetric(active: LineCount, d: usize, starting_line_number: Option<usize>)
    requires
        0 < d <= active.0,
        active.0 + d <= usize::MAX,
    ensures
        displayed_number(LineCount((active.0 - d) as usize), CodeEditorLineNumberMode::Relative, starting_line_number, Some(active))
            == displayed_number(LineCount((active.0 + d) as usize), CodeEditorLineNumberMode::Relative, starting_line_number, Some(active)),
        displayed_number(LineCount((active.0 + d) as usize), CodeEditorLineNumberMode::Relative, starting_line_number, Some(active)) == d,
{
}

} // verus!
