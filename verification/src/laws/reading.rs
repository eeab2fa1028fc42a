//! What the text of a terminal, its title and what is told of it say.
use crate::error::{directory_told, failure_told, shell_told};
use crate::events::TargetView;
use crate::grid::{GridPoint, TermView};
use crate::lines::{
    all_matches, all_text, last_of, last_texts, logical_lines, logical_start, logical_text,
    matches_from, next_origin, non_empty,
};
use crate::links::{hex_value, percent_decoded, target_of};
use crate::task::Shell;
use crate::terminal::{ProcessInfo, Terminal};
use crate::text::{joined, trimmed_end, white_space};
use crate::title::TitleParts;
use alacritty_terminal::term::search::RegexSearch;
use std::path::PathBuf;
use vstd::prelude::*;

verus! {

proof fn wrap_flag(flags: u16)
    ensures
        (flags & 16 == 16) == (flags & 16 != 0),
{
    assert((flags & 16 == 16) == (flags & 16 != 0)) by (bit_vector);
}

/// The text that ends in a line begins in the lowest line, at or above it, that the line above does
/// not go on in: every line in between goes on in the next, and the one above the first does not,
/// where there is one.
pub proof fn a_text_begins_where_no_line_goes_on(v: TermView, line: int)
    requires
        line >= -v.history,
    ensures
        ({
            let start = logical_start(v, line);
            let last = v.columns - 1;
            &&& -v.history <= start <= line
            &&& forall|l: int|
                start <= l < line ==> (#[trigger] v.lines[l])[last].flags & 16 != 0
            &&& start > -v.history ==> v.lines[start - 1][last].flags & 16 == 0
        }),
    decreases line + v.history,
{
    let last = v.columns - 1;
    if line > -v.history {
        wrap_flag(v.lines[line - 1][last].flags);
        if crate::lines::wraps(v, line - 1) {
            a_text_begins_where_no_line_goes_on(v, line - 1);
        }
    }
}

/// The text of some lines has the characters of their cells, line by line and column by column.
pub proof fn a_text_has_the_characters_of_its_cells(
    v: TermView,
    start: int,
    end: int,
    line: int,
    column: int,
)
    requires
        v.whole(),
        -v.history <= start <= line <= end < v.screen_lines,
        0 <= column < v.columns,
    ensures
        logical_text(v, start, end).len() == (end - start + 1) * v.columns,
        0 <= (line - start) * v.columns + column < logical_text(v, start, end).len(),
        logical_text(v, start, end)[(line - start) * v.columns + column]
            == v.lines[line][column].c,
    decreases end - start,
{
    let columns = v.columns as int;
    let above = logical_text(v, start, end - 1);
    let at = (line - start) * columns + column;
    assert(v.lines[end].len() == v.columns);
    assert(v.lines[line].len() == v.columns);
    assert((end - start + 1) * columns == (end - start) * columns + columns) by (nonlinear_arith);
    assert(0 <= (line - start) * columns) by (nonlinear_arith)
        requires
            line >= start,
            columns >= 0,
    ;
    if end > start {
        a_text_has_the_characters_of_its_cells(
            v,
            start,
            end - 1,
            if line < end {
                line
            } else {
                start
            },
            column,
        );
        assert((end - 1 - start + 1) * v.columns == (end - start) * columns);
    } else {
        assert(above =~= Seq::<char>::empty());
        assert((end - start) * columns == 0) by (nonlinear_arith)
            requires
                end == start,
        ;
    }
    assert(above.len() == (end - start) * columns);
    if line < end {
        assert(logical_text(v, start, end)[at] == above[at]);
    } else {
        assert(at == above.len() + column);
        assert(logical_text(v, start, end)[at] == crate::lines::row_text(v.lines[end])[column]);
    }
}

/// The texts of a grid follow each other without a gap: the last of those down to a line ends in
/// that line, and the others are those down to the line above the one it begins in.
pub proof fn texts_follow_each_other(v: TermView, line: int)
    requires
        line >= -v.history,
    ensures
        ({
            let all = logical_lines(v, line);
            let start = logical_start(v, line);
            &&& all.len() > 0
            &&& all.last() == trimmed_end(logical_text(v, start, line))
            &&& all.drop_last() == logical_lines(v, start - 1)
        }),
        logical_lines(v, -v.history - 1).len() == 0,
{
    crate::lines::start_is_above(v, line);
    let start = logical_start(v, line);
    assert(logical_lines(v, line).drop_last() =~= logical_lines(v, start - 1));
}

/// What is taken off the end of a text is white space, and all of it is.
pub proof fn only_white_space_is_taken_off(text: Seq<char>)
    ensures
        ({
            let kept = trimmed_end(text);
            &&& kept.is_prefix_of(text)
            &&& forall|i: int| kept.len() <= i < text.len() ==> white_space(#[trigger] text[i])
            &&& kept.len() > 0 ==> !white_space(kept.last())
        }),
    decreases text.len(),
{
    if text.len() > 0 && white_space(text.last()) {
        only_white_space_is_taken_off(text.drop_last());
        let kept = trimmed_end(text);
        assert(kept == text.drop_last().take(kept.len() as int));
        assert(text.take(kept.len() as int) =~= text.drop_last().take(kept.len() as int));
        assert forall|i: int| kept.len() <= i < text.len() implies white_space(
            #[trigger] text[i],
        ) by {
            if i < text.len() - 1 {
                assert(text.drop_last()[i] == text[i]);
            }
        }
    } else {
        assert(text.take(text.len() as int) =~= text);
    }
}

/// As many texts are given as asked for, or all there are, and they are the last ones. Of the texts
/// just the empty ones are left out, wherever they stand.
pub proof fn the_last_texts_are_given(
    texts: Seq<Seq<char>>,
    others: Seq<Seq<char>>,
    text: Seq<char>,
    n: int,
)
    requires
        n >= 0,
    ensures
        last_of(texts, n).len() == (if texts.len() < n {
            texts.len() as int
        } else {
            n
        }),
        forall|i: int|
            0 <= i < last_of(texts, n).len() ==> #[trigger] last_of(texts, n)[i] == texts[i
                + texts.len() - last_of(texts, n).len()],
        non_empty(texts + others) == non_empty(texts) + non_empty(others),
        non_empty(seq![text]) == (if text.len() > 0 {
            seq![text]
        } else {
            Seq::empty()
        }),
{
    let kept = |text: Seq<char>| text.len() > 0;
    Seq::filter_distributes_over_add(texts, others, kept);
    reveal(Seq::filter);
    let one = seq![text];
    assert(one.drop_last() =~= Seq::<Seq<char>>::empty());
    assert(one.drop_last().filter(kept) =~= Seq::<Seq<char>>::empty());
    assert(Seq::<Seq<char>>::empty().push(text) =~= one);
}

/// The last text of a terminal is the one that ends in the lowest line, where that is not empty,
/// and those ahead of it are the ones above; an empty one is passed over.
pub proof fn texts_are_given_from_the_bottom(v: TermView, n: int)
    requires
        n >= 1,
        v.screen_lines >= 1,
    ensures
        ({
            let lowest = v.screen_lines - 1;
            let start = logical_start(v, lowest);
            let text = trimmed_end(logical_text(v, start, lowest));
            let above = non_empty(logical_lines(v, start - 1));
            let given = last_texts(v, n);
            &&& text.len() > 0 ==> given.len() > 0 && given.last() == text && given.drop_last()
                == last_of(above, n - 1)
            &&& text.len() == 0 ==> given == last_of(above, n)
        }),
        last_texts(v, 0).len() == 0,
{
    let lowest = v.screen_lines - 1;
    texts_follow_each_other(v, lowest);
    let start = logical_start(v, lowest);
    let text = trimmed_end(logical_text(v, start, lowest));
    let ahead = logical_lines(v, start - 1);
    let above = non_empty(ahead);
    let all = logical_lines(v, lowest);
    assert(all =~= ahead + seq![text]);
    the_last_texts_are_given(ahead, seq![text], text, n);
    if text.len() > 0 {
        assert(non_empty(all) =~= above.push(text));
        assert(last_texts(v, n).drop_last() =~= last_of(above, n - 1));
    } else {
        assert(non_empty(all) =~= above);
    }
}

/// All text of a terminal is that between its first cell and its last, and a search over all of it
/// begins at its first cell.
pub proof fn all_of_a_terminal_is_read_and_searched(
    v: TermView,
    regex: RegexSearch,
    first: GridPoint,
    last: GridPoint,
)
    requires
        v.sized(),
        v.columns <= usize::MAX,
        first.line == -v.history,
        first.column == 0,
        last.line == v.screen_lines - 1,
        last.column == v.columns - 1,
    ensures
        all_text(v) == crate::alac::text_between(v, first, last),
        all_matches(v, regex) == matches_from(v, regex, first),
{
}

/// A search begins with the first match from where it is, and goes on right behind it: with the
/// next cell, the first of the next line behind the last of a line, or the one behind the wide
/// character that the match ends in. It is over where there is no match, or nothing behind it.
pub proof fn a_search_goes_on_behind_its_match(
    v: TermView,
    regex: RegexSearch,
    from: GridPoint,
)
    requires
        v.sized(),
        v.columns <= usize::MAX,
        -v.history <= from.line < v.screen_lines,
        from.column < v.columns,
        !v.passed_over(from),
    ensures
        ({
            let found = matches_from(v, regex, from);
            let first = crate::alac::first_match(v, regex, from);
            &&& first is None ==> found.len() == 0
            &&& first is Some ==> {
                let end = first->0.end;
                let flags = v.lines[end.line as int][end.column as int].flags;
                &&& found.len() > 0
                &&& found[0] == first->0
                &&& flags & 1024 == 0 && flags & 32 == 0 && end.line < v.screen_lines
                    && end.column < v.columns && (from.line < end.line || (from.line == end.line
                    && from.column <= end.column)) ==> {
                    &&& end.column + 1 < v.columns ==> found.skip(1) == matches_from(
                        v,
                        regex,
                        GridPoint { line: end.line, column: (end.column + 1) as usize },
                    )
                    &&& end.column + 1 == v.columns && end.line + 1 < v.screen_lines ==> found.skip(
                        1,
                    ) == matches_from(
                        v,
                        regex,
                        GridPoint { line: (end.line + 1) as i32, column: 0 },
                    )
                    &&& end.column + 1 == v.columns && end.line + 1 == v.screen_lines
                        ==> found.len() == 1
                }
                &&& flags & 1024 == 0 && flags & 32 != 0 && end.line < v.screen_lines && end.column
                    + 2 < v.columns && (from.line < end.line || (from.line == end.line
                    && from.column <= end.column)) ==> found.skip(1) == matches_from(
                    v,
                    regex,
                    GridPoint { line: end.line, column: (end.column + 2) as usize },
                )
            }
        }),
{
    if let Some(first) = crate::alac::first_match(v, regex, from) {
        let found = matches_from(v, regex, from);
        let end = first.end;
        match next_origin(v, from, end) {
            Some(next) => {
                if v.on_grid(next) {
                    assert(found.skip(1) =~= matches_from(v, regex, next));
                }
            },
            None => {},
        }
    }
}

/// Joined texts stand one after the other with the separator between each two, and with none ahead
/// of the first or behind the last.
pub proof fn joined_texts_are_separated(
    parts: Seq<Seq<char>>,
    part: Seq<char>,
    separator: Seq<char>,
)
    ensures
        joined(Seq::empty(), separator) == Seq::<char>::empty(),
        joined(seq![part], separator) == part,
        parts.len() > 0 ==> joined(parts.push(part), separator) == joined(parts, separator)
            + separator + part,
{
    assert(parts.push(part).drop_last() =~= parts);
}

/// A process is named by its name, and behind that by its arguments, each after a space; the first
/// of them is the program itself and is not told.
pub proof fn a_process_is_named_with_its_arguments(process: ProcessInfo, name: Seq<char>)
    requires
        name == crate::title::process_name(process),
    ensures
        process.argv@.len() == 0 ==> name == process.name@,
        process.argv@.len() == 1 ==> name == process.name@ + " "@,
        process.argv@.len() == 2 ==> name == process.name@ + " "@ + process.argv@[1]@,
        process.argv@.len() == 3 ==> name == process.name@ + " "@ + (process.argv@[1]@ + " "@
            + process.argv@[2]@),
{
    let rest = crate::text::texts(process.argv@.skip(1));
    if process.argv@.len() == 1 {
        assert(rest =~= Seq::<Seq<char>>::empty());
        assert(name =~= process.name@ + " "@);
    } else if process.argv@.len() == 2 {
        assert(rest =~= seq![process.argv@[1]@]);
    } else if process.argv@.len() == 3 {
        assert(rest =~= seq![process.argv@[1]@, process.argv@[2]@]);
        joined_texts_are_separated(rest.drop_last(), process.argv@[1]@, " "@);
        assert(rest.drop_last() =~= seq![process.argv@[1]@]);
    }
}

/// A long title is that of the task, else the one that the shell came with, else the directory and
/// the process, with a dash between them, else the word for a terminal; whatever short ones are
/// shortened to.
pub proof fn the_first_title_there_is_is_shown(
    t: Terminal,
    shortened: spec_fn(Seq<char>, Seq<char>) -> bool,
    title: Seq<char>,
)
    requires
        t.has_title(false, shortened, title),
    ensures
        t.task matches Some(task) ==> title == task.full_label@,
        t.title_override matches Some(given) ==> t.task is None ==> title == given@,
        t.pty_info.current matches Some(process) ==> t.task is None && t.title_override is None
            ==> title == crate::title::process_file(process) + " — "@
            + crate::title::process_name(process),
        t.task is None && t.title_override is None && t.pty_info.current is None ==> title
            == "Terminal"@,
{
}

/// Of a short title the label of the task, the directory and the process are shortened, each by
/// itself; the title that the shell came with and the word for a terminal are not.
pub proof fn short_titles_are_shortened(
    t: Terminal,
    shortened: spec_fn(Seq<char>, Seq<char>) -> bool,
    title: Seq<char>,
)
    requires
        t.has_title(true, shortened, title),
    ensures
        t.task matches Some(task) ==> shortened(task.label@, title),
        t.title_override matches Some(given) ==> t.task is None ==> title == given@,
        t.pty_info.current matches Some(process) ==> t.task is None && t.title_override is None
            ==> exists|a: Seq<char>, b: Seq<char>|
            #![trigger a + " — "@ + b]
            shortened(crate::title::process_file(process), a) && shortened(
                crate::title::process_name(process),
                b,
            ) && title == a + " — "@ + b,
        t.task is None && t.title_override is None && t.pty_info.current is None ==> title
            == "Terminal"@,
{
    let (parts, first, second) = choose|
        parts: TitleParts,
        first: Seq<char>,
        second: Option<Seq<char>>,
    |
        {
            &&& #[trigger] t.title_is_made_of(parts, true)
            &&& if parts.shorten {
                &&& shortened(parts.first@, first)
                &&& second is Some == parts.second is Some
                &&& second is Some ==> shortened(parts.second->0@, second->0)
            } else {
                &&& first == parts.first@
                &&& second == crate::content::optional_text(parts.second)
            }
            &&& title == #[trigger] crate::title::title_joined(first, second)
        };
    if t.task is None && t.title_override is None && t.pty_info.current is Some {
        assert(title == first + " — "@ + second->0);
    }
}

/// A shell is told by its program; one with arguments by those behind it, each after a space, and
/// by the title it came with, in brackets at the end.
pub proof fn a_shell_is_told_in_full(
    program: String,
    args: Vec<String>,
    title: String,
)
    ensures
        shell_told(Shell::System) == "<system defined shell>"@,
        shell_told(Shell::Program(program)) == program@,
        ({
            let bare = shell_told(Shell::WithArguments { program, args, title_override: None });
            let titled = shell_told(
                Shell::WithArguments { program, args, title_override: Some(title) },
            );
            &&& (program@ + " "@).is_prefix_of(bare)
            &&& args@.len() == 0 ==> bare == program@ + " "@
            &&& args@.len() == 1 ==> bare == program@ + " "@ + args@[0]@
            &&& args@.len() == 2 ==> bare == program@ + " "@ + (args@[0]@ + " "@ + args@[1]@)
            &&& titled == bare + " ("@ + title@ + ")"@
        }),
{
    let bare = shell_told(Shell::WithArguments { program, args, title_override: None });
    let start = program@ + " "@;
    let rest = crate::text::texts(args@);
    assert(bare.take(start.len() as int) =~= start);
    if args@.len() == 0 {
        assert(rest =~= Seq::<Seq<char>>::empty());
        assert(bare =~= start);
    } else if args@.len() == 1 {
        assert(rest =~= seq![args@[0]@]);
    } else if args@.len() == 2 {
        assert(rest =~= seq![args@[0]@, args@[1]@]);
        joined_texts_are_separated(rest.drop_last(), args@[0]@, " "@);
        assert(rest.drop_last() =~= seq![args@[0]@]);
    }
}

/// A directory that was given is told by its text, and the home directory has no part in that;
/// where none was given, that is said, with the home directory where it is known.
pub proof fn a_directory_is_told_in_full(path: PathBuf, home: Option<PathBuf>, dir: PathBuf)
    ensures
        crate::paths::path_text(path) matches Some(text) ==> directory_told(Some(path), home)
            == text,
        crate::paths::path_text(path) is None ==> directory_told(Some(path), home)
            == "<non-utf8 path> "@ + crate::paths::lossy_path_text(path),
        directory_told(None, Some(dir)) == "<none specified, using home directory> "@
            + crate::paths::lossy_path_text(dir),
        directory_told(None, None) == "<none specified, could not find home directory>"@,
{
}

/// What is told of a failure has, in this order, the directory, the shell and what the system said,
/// each with what it is ahead of it.
pub proof fn a_failure_is_told_in_full(
    directory: Seq<char>,
    shell: Seq<char>,
    source: Seq<char>,
)
    ensures
        ({
            let told = failure_told(directory, shell, source);
            let a = "Working directory: "@;
            let b = " Shell command: `"@;
            let c = "`, IOError: "@;
            let d = directory.len() as int;
            let s = shell.len() as int;
            let to_b = a.len() + d + b.len() as int;
            let to_c = to_b + s + c.len() as int;
            &&& told.len() == to_c + source.len()
            &&& told.subrange(0, a.len() as int) == a
            &&& told.subrange(a.len() as int, a.len() + d) == directory
            &&& told.subrange(a.len() + d, to_b) == b
            &&& told.subrange(to_b, to_b + s) == shell
            &&& told.subrange(to_b + s, to_c) == c
            &&& told.skip(to_c) == source
        }),
{
    let told = failure_told(directory, shell, source);
    let a = "Working directory: "@;
    let b = " Shell command: `"@;
    let c = "`, IOError: "@;
    let d = directory.len() as int;
    let s = shell.len() as int;
    let to_b = a.len() + d + b.len() as int;
    let to_c = to_b + s + c.len() as int;
    assert(told.subrange(0, a.len() as int) =~= a);
    assert(told.subrange(a.len() as int, a.len() + d) =~= directory);
    assert(told.subrange(a.len() + d, to_b) =~= b);
    assert(told.subrange(to_b, to_b + s) =~= shell);
    assert(told.subrange(to_b + s, to_c) =~= c);
    assert(told.skip(to_c) =~= source);
}

/// Decoding takes a percent sign and two hexadecimal digits, of whichever case, for the byte they
/// write out, and any other byte than a percent sign for itself.
pub proof fn encoded_bytes_are_decoded(high: u8, low: u8, plain: u8, rest: Seq<u8>)
    ensures
        hex_value(high) matches Some(h) ==> hex_value(low) matches Some(l) ==> percent_decoded(
            seq![37u8, high, low] + rest,
        ) == seq![(16 * h + l) as u8] + percent_decoded(rest),
        plain != 37 ==> percent_decoded(seq![plain] + rest) == seq![plain] + percent_decoded(rest),
        48 <= high <= 57 ==> hex_value(high) == Some(high - 48),
        97 <= high <= 102 ==> hex_value(high) == Some(high - 97 + 10),
        65 <= high <= 70 ==> hex_value(high) == Some(high - 65 + 10),
{
    let coded = seq![37u8, high, low] + rest;
    assert(coded.skip(3) =~= rest);
    let bare = seq![plain] + rest;
    assert(bare.skip(1) =~= rest);
}

/// What a link of a terminal leads to has the text of the link: an address is opened as it stands,
/// but for one of a file, which leads to the path behind the scheme, in the directory of the
/// terminal.
pub proof fn links_lead_where_they_say(
    text: Seq<char>,
    is_url: bool,
    terminal_dir: Option<PathBuf>,
)
    ensures
        target_of(text, is_url, terminal_dir) is Url <==> is_url && !"file://"@.is_prefix_of(text),
        target_of(text, is_url, terminal_dir) matches TargetView::Url(address) ==> address == text,
        target_of(text, is_url, terminal_dir) matches TargetView::PathLike {
            maybe_path,
            terminal_dir: dir,
        } ==> {
            &&& dir == terminal_dir
            &&& !is_url ==> maybe_path == text
            &&& is_url && crate::links::url_decoded(text.skip("file://"@.len() as int)) is None
                ==> maybe_path == text.skip("file://"@.len() as int)
            &&& is_url && crate::links::url_decoded(text.skip("file://"@.len() as int)) is Some
                ==> maybe_path == crate::links::url_decoded(
                text.skip("file://"@.len() as int),
            )->0
        },
{
}

/// All that is found of a search was found by it, from one cell of the grid or another.
pub proof fn matches_are_found(v: TermView, regex: RegexSearch, from: GridPoint, i: int)
    requires
        0 <= i < matches_from(v, regex, from).len(),
    ensures
        exists|p: GridPoint|
            v.on_grid(p) && #[trigger] crate::alac::first_match(v, regex, p) == Some(
                matches_from(v, regex, from)[i],
            ),
    decreases v.screen_lines - from.line, v.columns - from.column,
{
    let found = matches_from(v, regex, from);
    if let Some(first) = crate::alac::first_match(v, regex, from) {
        if i == 0 {
            assert(found[0] == first);
        } else if let Some(next) = next_origin(v, from, first.end) {
            assert(found[i] == matches_from(v, regex, next)[i - 1]);
            matches_are_found(v, regex, next, i - 1);
            let p = choose|p: GridPoint|
                v.on_grid(p) && #[trigger] crate::alac::first_match(v, regex, p) == Some(
                    matches_from(v, regex, next)[i - 1],
                );
            assert(v.on_grid(p) && crate::alac::first_match(v, regex, p) == Some(found[i]));
        }
    }
}

/// Where a link is looked for off the grid, it is looked for at the nearest end: above it at its
/// first cell, below it at its last, to the right of a line at the end of that line.
pub proof fn links_are_looked_for_on_the_grid(v: TermView, p: GridPoint)
    requires
        v.sized(),
        v.columns <= usize::MAX,
    ensures
        ({
            let q = v.grid_clamped(p);
            &&& -v.history <= q.line < v.screen_lines
            &&& q.column < v.columns
            &&& -v.history <= p.line < v.screen_lines ==> q.line == p.line
            &&& -v.history <= p.line < v.screen_lines && p.column < v.columns ==> q == p
            &&& -v.history <= p.line < v.screen_lines && p.column >= v.columns ==> q.column
                == v.columns - 1
            &&& p.line < -v.history ==> q.line == -v.history && q.column == 0
            &&& p.line >= v.screen_lines ==> q.line == v.screen_lines - 1 && q.column == v.columns
                - 1
        }),
{
}

/// The directory of a process is told by its last name alone, and one without such a name by
/// nothing. A short title has its parts cut down to twenty-five characters.
pub proof fn a_directory_is_named_by_its_last_name(process: ProcessInfo)
    ensures
        crate::paths::last_component(process.cwd) matches Some(name)
            ==> crate::title::process_file(process) == crate::paths::lossy_path_text(name),
        crate::paths::last_component(process.cwd) is None ==> crate::title::process_file(
            process,
        ).len() == 0,
        crate::title::MAX_TITLE_CHARS == 25,
{
}

/// All text of a terminal without wide characters can be read.
pub proof fn narrow_text_can_be_read(v: TermView)
    requires
        v.sized(),
        v.columns <= usize::MAX,
        forall|l: int, i: int|
            #![trigger v.lines[l][i]]
            -v.history <= l < v.screen_lines && 0 <= i < v.columns ==> v.lines[l][i].flags & 64 == 0
                && v.lines[l][i].flags & 1024 == 0,
    ensures
        crate::lines::all_legible(v),
{
}

} // verus!
