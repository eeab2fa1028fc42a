//! The text of a terminal, as lines.
use crate::alac;
use crate::alac::ZedListener;
use crate::fitness::is_legible_between;
use crate::grid::{
    CellView, GridPoint, GridRange, TermView, LEADING_WIDE_CHAR_SPACER, WIDE_CHAR,
    WIDE_CHAR_SPACER, WRAPLINE,
};
use crate::terminal::{grid_range, is_sized, Terminal};
use crate::text::trim_end;
use alacritty_terminal::term::cell::Cell;
use alacritty_terminal::term::search::RegexSearch;
use alacritty_terminal::term::Term;
use vstd::prelude::*;
use vstd::string::*;

verus! {

/// The characters of a row of cells.
pub open spec fn row_text(row: Seq<CellView>) -> Seq<char> {
    row.map_values(|cell: CellView| cell.c)
}

/// Whether a line of the grid goes on in the next.
pub open spec fn wraps(v: TermView, line: int) -> bool {
    v.flags_at(line, v.columns - 1) & WRAPLINE == WRAPLINE
}

/// The line of the grid in which the text begins that ends in the given line.
pub open spec fn logical_start(v: TermView, line: int) -> int
    decreases line - v.topmost(),
{
    if line > v.topmost() && wraps(v, line - 1) {
        logical_start(v, line - 1)
    } else {
        line
    }
}

/// The characters of the lines from `start` to `end`, both included.
pub open spec fn logical_text(v: TermView, start: int, end: int) -> Seq<char>
    decreases end - start + 1,
{
    if end < start {
        Seq::empty()
    } else {
        logical_text(v, start, end - 1) + row_text(v.lines[end])
    }
}

/// The text of the grid down to the given line, with lines that go on put together and without
/// white space at their ends.
pub open spec fn logical_lines(v: TermView, line: int) -> Seq<Seq<char>>
    decreases line - v.topmost() + 1,
{
    if line < v.topmost() {
        Seq::empty()
    } else {
        proof {
            start_is_above(v, line);
        }
        let start = logical_start(v, line);
        logical_lines(v, start - 1).push(
            crate::text::trimmed_end(logical_text(v, start, line)),
        )
    }
}

/// Whether all text of the grid can be read.
pub open spec fn all_legible(v: TermView) -> bool {
    v.legible_between(
        crate::terminal::whole_grid(v).start,
        crate::terminal::whole_grid(v).end,
    )
}

/// The cell from which a search goes on that has found a match ending at `end`, having begun at
/// `from`: the one behind the match and the wide character at its end; none where that is off the
/// grid, or not behind `from`.
pub open spec fn next_origin(v: TermView, from: GridPoint, end: GridPoint) -> Option<GridPoint> {
    let (line, column) = v.behind_wide(end);
    let next = if column + 1 < v.columns {
        (line, column + 1)
    } else {
        (line + 1, 0int)
    };
    let q = GridPoint { line: next.0 as i32, column: next.1 as usize };
    if next.0 <= v.bottommost() && from.precedes(q) {
        Some(q)
    } else {
        None
    }
}

/// The matches of a search from a cell of the grid on, one behind the other. A cell that the
/// emulator passes over ends the search.
pub open spec fn matches_from(v: TermView, regex: RegexSearch, from: GridPoint) -> Seq<GridRange>
    decreases v.screen_lines - from.line, v.columns - from.column,
{
    if !v.on_grid(from) || v.passed_over(from) {
        Seq::empty()
    } else {
        match crate::alac::first_match(v, regex, from) {
            Some(found) => match next_origin(v, from, found.end) {
                Some(next) => if v.on_grid(next) {
                    seq![found] + matches_from(v, regex, next)
                } else {
                    seq![found]
                },
                None => seq![found],
            },
            None => Seq::empty(),
        }
    }
}

/// The matches of a search over all of the grid, from the top.
pub open spec fn all_matches(v: TermView, regex: RegexSearch) -> Seq<GridRange> {
    matches_from(v, regex, crate::terminal::whole_grid(v).start)
}

/// All text of the grid, scrollback included.
pub open spec fn all_text(v: TermView) -> Seq<char> {
    let range = crate::terminal::whole_grid(v);
    crate::alac::text_between(v, range.start, range.end)
}

/// Whether this is a search as it was compiled, for whatever pattern.
pub open spec fn is_compiled(regex: RegexSearch) -> bool {
    exists|pattern: Seq<char>| #[trigger] crate::alac::compiled(pattern) == Some(regex)
}

/// Those of the texts that are not empty.
pub open spec fn non_empty(texts: Seq<Seq<char>>) -> Seq<Seq<char>> {
    texts.filter(|text: Seq<char>| text.len() > 0)
}

/// The last `n` of the texts, or all where there are fewer.
pub open spec fn last_of(texts: Seq<Seq<char>>, n: int) -> Seq<Seq<char>> {
    if texts.len() <= n {
        texts
    } else {
        texts.skip(texts.len() - n)
    }
}

/// The last `n` texts of the grid that are not empty.
pub open spec fn last_texts(v: TermView, n: int) -> Seq<Seq<char>> {
    last_of(non_empty(logical_lines(v, v.bottommost())), n)
}

/// A text begins no lower than it ends, and on the grid where it ends there.
pub proof fn start_is_above(v: TermView, line: int)
    ensures
        logical_start(v, line) <= line,
        line >= v.topmost() ==> v.topmost() <= logical_start(v, line),
    decreases line - v.topmost(),
{
    if line > v.topmost() && wraps(v, line - 1) {
        start_is_above(v, line - 1);
    }
}

/// The characters of a row of cells.
pub fn row_to_string(row: &Vec<Cell>) -> (text: String)
    ensures
        text@ == row_text(alac::cell_views(row@)),
{
    let mut text = String::new();
    let ghost all = row_text(alac::cell_views(row@));
    for i in 0..row.len()
        invariant
            all == row_text(alac::cell_views(row@)),
            text@ == all.take(i as int),
    {
        text.push(alac::cell_char(&row[i]));
        assert(text@ =~= all.take(i + 1));
    }
    assert(all.take(all.len() as int) =~= all);
    text
}

impl Terminal {
    /// The line of the grid in which the text begins that ends in the line `current`.
    pub fn find_logical_line_start(
        &self,
        term: &Term<ZedListener>,
        current: i32,
        topmost: i32,
    ) -> (start: i32)
        requires
            alac::term_view(*term).sized(),
            topmost == alac::term_view(*term).topmost(),
            topmost <= current <= alac::term_view(*term).bottommost(),
        ensures
            start == logical_start(alac::term_view(*term), current as int),
            topmost <= start <= current,
    {
        let ghost v = alac::term_view(*term);
        let mut line_start: i32 = current;
        let columns: usize = alac::columns(term);
        while line_start > topmost
            invariant
                v == alac::term_view(*term),
                v.sized(),
                columns == v.columns,
                topmost == v.topmost(),
                topmost <= line_start <= current <= v.bottommost(),
                logical_start(v, line_start as int) == logical_start(v, current as int),
            ensures
                line_start == logical_start(v, current as int),
                topmost <= line_start <= current,
            decreases line_start - topmost,
        {
            let last = GridPoint { line: line_start - 1, column: columns - 1 };
            let flags: u16 = alac::cell_flags(&alac::cell_of(term, last));
            if flags & WRAPLINE != WRAPLINE {
                break;
            }
            line_start = line_start - 1;
        }
        line_start
    }

    /// The characters of the lines from `start` to `end`, both included.
    pub fn construct_logical_line(
        &self,
        term: &Term<ZedListener>,
        start: i32,
        end: i32,
    ) -> (text: String)
        requires
            alac::term_view(*term).sized(),
            alac::term_view(*term).topmost() <= start <= end <= alac::term_view(
                *term,
            ).bottommost(),
        ensures
            text@ == logical_text(alac::term_view(*term), start as int, end as int),
    {
        let mut logical_line = String::new();
        let mut row: i32 = start;
        while row <= end
            invariant
                alac::term_view(*term).sized(),
                alac::term_view(*term).topmost() <= start <= row <= end + 1,
                end <= alac::term_view(*term).bottommost(),
                logical_line@ == logical_text(alac::term_view(*term), start as int, row - 1),
            decreases end + 1 - row,
        {
            let cells = alac::row_cells(term, row);
            logical_line.append(row_to_string(&cells).as_str());
            row = row + 1;
        }
        logical_line
    }

    /// The line without white space at its end; `None` where nothing is left.
    pub fn process_line(&self, line: String) -> (r: Option<String>)
        ensures
            match r {
                Some(text) => text@ == crate::text::trimmed_end(line@) && text@.len() > 0,
                None => crate::text::trimmed_end(line@).len() == 0,
            },
    {
        let trimmed = trim_end(line.as_str());
        if trimmed.as_str().unicode_len() > 0 {
            Some(trimmed)
        } else {
            None
        }
    }

    /// The last `n` lines of text that are not empty, in order. Lines that the terminal wrapped are
    /// put together again.
    pub fn last_n_non_empty_lines(&self, term: &Term<ZedListener>, n: usize) -> (lines: Vec<
        String,
    >)
        requires
            alac::term_view(*term).sized(),
        ensures
            crate::text::texts(lines@) == last_texts(alac::term_view(*term), n as int),
    {
        let ghost v = alac::term_view(*term);
        let ghost all = non_empty(logical_lines(v, v.bottommost()));
        let range = grid_range(term);
        let topmost: i32 = range.start.line;
        let mut current_line: i32 = range.end.line;
        let mut lines: Vec<String> = Vec::new();
        assert(crate::text::texts(lines@).reverse() =~= Seq::<Seq<char>>::empty());
        assert(all =~= all + crate::text::texts(lines@).reverse());
        proof {
            start_is_above(v, v.bottommost());
        }
        while current_line >= topmost && lines.len() < n
            invariant
                v == alac::term_view(*term),
                v.sized(),
                topmost == v.topmost(),
                topmost - 1 <= current_line <= v.bottommost(),
                lines@.len() <= n,
                all == non_empty(logical_lines(v, current_line as int)) + crate::text::texts(
                    lines@,
                ).reverse(),
            decreases current_line - topmost + 1,
        {
            let start: i32 = self.find_logical_line_start(term, current_line, topmost);
            let logical_line = self.construct_logical_line(term, start, current_line);
            let ghost above = logical_lines(v, start - 1);
            let ghost before = crate::text::texts(lines@);
            proof {
                start_is_above(v, current_line as int);
                start_is_above(v, start - 1);
                reveal(Seq::filter);
                assert(logical_lines(v, current_line as int).drop_last() =~= above);
            }
            if let Some(line) = self.process_line(logical_line) {
                lines.push(line);
                assert(crate::text::texts(lines@) =~= before.push(line@));
                assert(before.push(line@).reverse() =~= seq![line@] + before.reverse());
                assert(non_empty(above).push(line@) + before.reverse() =~= non_empty(above) + (seq![
                    line@,
                ] + before.reverse()));
            }
            // Move to the line above the start of the current logical line
            current_line = start - 1;
        }
        proof {
            let rest = non_empty(logical_lines(v, current_line as int));
            let found = crate::text::texts(lines@).reverse();
            if current_line < topmost {
                start_is_above(v, current_line as int);
                reveal(Seq::filter);
                assert(rest =~= Seq::<Seq<char>>::empty());
                assert(all =~= found);
            } else {
                assert(all.skip(all.len() - n) =~= found);
                if all.len() <= n {
                    assert(all =~= found);
                }
            }
            assert(last_of(all, n as int) == found);
        }
        let result = reversed(lines);
        result
    }

    /// The last `n` lines of text that are not empty, where the grid is sound; `None` where it is
    /// not.
    pub fn try_last_n_non_empty_lines(&self, term: &Term<ZedListener>, n: usize) -> (lines: Option<
        Vec<String>,
    >)
        ensures
            match lines {
                Some(lines) => {
                    &&& alac::term_view(*term).sized()
                    &&& crate::text::texts(lines@) == last_texts(
                        alac::term_view(*term),
                        n as int,
                    )
                },
                None => !alac::term_view(*term).sized(),
            },
    {
        if is_sized(term) {
            Some(self.last_n_non_empty_lines(term, n))
        } else {
            None
        }
    }

    /// All text of the terminal, scrollback included.
    pub fn get_content(&self, term: &Term<ZedListener>) -> (text: String)
        requires
            alac::term_view(*term).sized(),
            all_legible(alac::term_view(*term)),
        ensures
            text@ == all_text(alac::term_view(*term)),
    {
        let range = grid_range(term);
        alac::bounds_to_string(term, range.start, range.end)
    }

    /// All text of the terminal, where it can be read; `None` where it cannot.
    pub fn try_get_content(&self, term: &Term<ZedListener>) -> (text: Option<String>)
        ensures
            match text {
                Some(text) => {
                    &&& alac::term_view(*term).sized()
                    &&& all_legible(alac::term_view(*term))
                    &&& text@ == all_text(alac::term_view(*term))
                },
                None => !alac::term_view(*term).sized() || !all_legible(alac::term_view(*term)),
            },
    {
        if !is_sized(term) {
            return None;
        }
        let range = grid_range(term);
        if is_legible_between(term, range.start, range.end) {
            Some(self.get_content(term))
        } else {
            None
        }
    }

    /// The matches of a search over all of the terminal, from the top. The search is to be as it
    /// was compiled: one that was used may have spent the space that its automaton has.
    pub fn find_matches(&self, term: &Term<ZedListener>, searcher: RegexSearch) -> (found: Vec<
        GridRange,
    >)
        requires
            alac::term_view(*term).sized(),
            is_compiled(searcher),
        ensures
            found@ == all_matches(alac::term_view(*term), searcher),
    {
        all_search_matches(term, &searcher)
    }

    /// The matches of a pattern over all of the terminal, from the top; `None` where the grid is
    /// not sound, or the pattern cannot be compiled.
    pub fn try_find_matches(&self, term: &Term<ZedListener>, pattern: &str) -> (found: Option<
        Vec<GridRange>,
    >)
        ensures
            match found {
                Some(found) => {
                    &&& alac::term_view(*term).sized()
                    &&& alac::compiled(pattern@) is Some
                    &&& found@ == all_matches(
                        alac::term_view(*term),
                        alac::compiled(pattern@)->0,
                    )
                },
                None => !alac::term_view(*term).sized() || alac::compiled(pattern@) is None,
            },
    {
        if !is_sized(term) {
            return None;
        }
        match alac::new_search(pattern) {
            Some(searcher) => Some(self.find_matches(term, searcher)),
            None => None,
        }
    }

    /// The cell at which a link is looked for: the given one, brought onto the grid; `None` where
    /// the grid is not sound.
    pub fn hyperlink_point(&self, term: &Term<ZedListener>, p: GridPoint) -> (q: Option<GridPoint>)
        ensures
            match q {
                Some(q) => {
                    &&& alac::term_view(*term).sized()
                    &&& q == alac::term_view(*term).grid_clamped(p)
                },
                None => !alac::term_view(*term).sized(),
            },
    {
        if is_sized(term) {
            Some(alac::grid_clamp(term, p))
        } else {
            None
        }
    }
}

/// Whether the emulator, searching backwards, passes over a cell.
fn is_passed_over(term: &Term<ZedListener>, p: GridPoint) -> (r: bool)
    requires
        alac::term_view(*term).sized(),
        alac::term_view(*term).on_grid(p),
    ensures
        r == alac::term_view(*term).passed_over(p),
{
    let range = grid_range(term);
    let before = if p.column > 0 {
        GridPoint { line: p.line, column: p.column - 1 }
    } else if p.line > range.start.line {
        GridPoint { line: p.line - 1, column: range.end.column }
    } else {
        return false;
    };
    let after = if p.column < range.end.column {
        GridPoint { line: p.line, column: p.column + 1 }
    } else if p.line < range.end.line {
        GridPoint { line: p.line + 1, column: 0 }
    } else {
        return false;
    };
    alac::cell_flags(&alac::cell_of(term, before)) & LEADING_WIDE_CHAR_SPACER != 0
        && alac::cell_flags(&alac::cell_of(term, after)) & WIDE_CHAR_SPACER != 0
}

/// The cell from which a search goes on that has found a match.
fn origin_after(term: &Term<ZedListener>, from: GridPoint, end: GridPoint) -> (next: Option<
    GridPoint,
>)
    requires
        alac::term_view(*term).sized(),
        alac::term_view(*term).on_grid(from),
        alac::term_view(*term).on_grid(end),
    ensures
        next == next_origin(alac::term_view(*term), from, end),
        next is Some ==> alac::term_view(*term).on_grid(next->0),
{
    let range = grid_range(term);
    let last: usize = range.end.column;
    let flags: u16 = alac::cell_flags(&alac::cell_of(term, end));
    let (line, column): (i32, usize) = if flags & LEADING_WIDE_CHAR_SPACER != 0 {
        (end.line + 1, 1)
    } else if flags & WIDE_CHAR != 0 && end.column < last {
        (end.line, end.column + 1)
    } else {
        (end.line, end.column)
    };
    let next = if column < last {
        GridPoint { line, column: column + 1 }
    } else {
        GridPoint { line: line + 1, column: 0 }
    };
    if next.line <= range.end.line && (from.line < next.line || (from.line == next.line
        && from.column < next.column)) {
        Some(next)
    } else {
        None
    }
}

/// The matches of a search over all of the emulator, from the top.
fn all_search_matches(term: &Term<ZedListener>, regex: &RegexSearch) -> (found: Vec<GridRange>)
    requires
        alac::term_view(*term).sized(),
        is_compiled(*regex),
    ensures
        found@ == all_matches(alac::term_view(*term), *regex),
{
    let ghost v = alac::term_view(*term);
    let range = grid_range(term);
    let ghost all = matches_from(v, *regex, range.start);
    let mut found: Vec<GridRange> = Vec::new();
    let mut from = range.start;
    assert(all =~= found@ + all);
    while !is_passed_over(term, from)
        invariant_except_break
            all == found@ + matches_from(v, *regex, from),
        invariant
            v == alac::term_view(*term),
            v.sized(),
            v.on_grid(from),
            is_compiled(*regex),
            range.end.line == v.bottommost(),
            range.end.column == v.columns - 1,
        ensures
            found@ == all,
        decreases v.screen_lines - from.line, v.columns - from.column,
    {
        match alac::regex_search_right(term, regex, from, range.end) {
            Some(one) => {
                let ghost before = found@;
                found.push(one);
                match origin_after(term, from, one.end) {
                    Some(next) => {
                        assert(before + (seq![one] + matches_from(v, *regex, next)) =~= found@
                            + matches_from(v, *regex, next));
                        from = next;
                    },
                    None => {
                        assert(before + seq![one] =~= found@);
                        break;
                    },
                }
            },
            None => {
                assert(found@ + Seq::<GridRange>::empty() =~= found@);
                break;
            },
        }
    }
    found
}

/// The texts the other way round.
fn reversed(lines: Vec<String>) -> (r: Vec<String>)
    ensures
        crate::text::texts(r@) == crate::text::texts(lines@).reverse(),
{
    let ghost all = lines@;
    let mut lines = lines;
    let mut r: Vec<String> = Vec::new();
    while lines.len() > 0
        invariant
            lines@.len() + r@.len() == all.len(),
            lines@ == all.take(lines@.len() as int),
            forall|i: int| 0 <= i < r@.len() ==> #[trigger] r@[i] == all[all.len() - 1 - i],
        decreases lines@.len(),
    {
        if let Some(line) = lines.pop() {
            r.push(line);
            assert(lines@ =~= all.take(lines@.len() as int));
        }
    }
    assert(crate::text::texts(r@) =~= crate::text::texts(all).reverse());
    r
}

} // verus!
