//! The help pop-up: its text, its headings and how it is cut into columns.

use vstd::prelude::*;

verus! {

/// The lines of the help pop-up; a line between double underscores is a
/// heading.
pub open spec fn help_lines() -> Seq<Seq<char>> {
    seq![
        "__Global__"@,
        "Tab     Next view"@,
        "Sh-Tab  Previous view"@,
        "Ctrl-z  Select zone"@,
        "Ctrl-g  Group zones"@,
        "Ctrl-Sp Play/Pause"@,
        "Ctrl-p  Play/Pause"@,
        "Ctrl-e  Pause at end"@,
        "Ctrl-Up Volume up"@,
        "Ctrl-Dn Volume down"@,
        "Ctrl-Ri Next track"@,
        "Ctrl-Le Previous track"@,
        "Ctrl-q  Queue mode"@,
        "Ctrl-a  Append queue"@,
        "Ctrl-h  This help page"@,
        "Ctrl-c  Quit"@,
        ""@,
        "__List Controls__"@,
        "Up      Move up"@,
        "Down    Move down"@,
        "Home    Move to top"@,
        "End     Move to bottom"@,
        "Page-Up Move page up"@,
        "Page-Dn Move page down"@,
        ""@,
        "__Browse View__"@,
        "Enter   Select"@,
        "Esc     Move level up"@,
        "Ctrl-Hm Browse home"@,
        "F5      Refresh"@,
        "a..z    Char jump"@,
        "Backsp  Prev char jump"@,
        ""@,
        "__Queue View__"@,
        "Enter   Play from here"@,
        ""@,
        "__Now Playing View__"@,
        "m       Mute"@,
        "u       Unmute"@,
        "+       Volume up"@,
        "-       Volume down"@,
        "r       Toggle Repeat"@,
        "s       Toggle shuffle"@,
        ""@,
        "__Zone Select Popup__"@,
        "Enter   Select zone"@,
        "Esc     Back to view"@,
        "Delete  Delete preset"@,
        ""@,
        "__Zone Grouping Popup__"@,
        "Space   Toggle output"@,
        "Enter   Activate group"@,
        "s       Save as preset"@,
        "Esc     Back to view"@,
        ""@,
        "__Text Input__"@,
        "Enter   Confirm input"@,
        "Esc     Cancel input"@,
    ]
}

/// The lines of the help pop-up.
pub fn help_text() -> (res: Vec<&'static str>)
    ensures
        res@.len() == help_lines().len(),
        forall|i: int| 0 <= i < res@.len() ==> #[trigger] res@[i]@ == help_lines()[i],
{
    let res = vec![
        "__Global__",
        "Tab     Next view",
        "Sh-Tab  Previous view",
        "Ctrl-z  Select zone",
        "Ctrl-g  Group zones",
        "Ctrl-Sp Play/Pause",
        "Ctrl-p  Play/Pause",
        "Ctrl-e  Pause at end",
        "Ctrl-Up Volume up",
        "Ctrl-Dn Volume down",
        "Ctrl-Ri Next track",
        "Ctrl-Le Previous track",
        "Ctrl-q  Queue mode",
        "Ctrl-a  Append queue",
        "Ctrl-h  This help page",
        "Ctrl-c  Quit",
        "",
        "__List Controls__",
        "Up      Move up",
        "Down    Move down",
        "Home    Move to top",
        "End     Move to bottom",
        "Page-Up Move page up",
        "Page-Dn Move page down",
        "",
        "__Browse View__",
        "Enter   Select",
        "Esc     Move level up",
        "Ctrl-Hm Browse home",
        "F5      Refresh",
        "a..z    Char jump",
        "Backsp  Prev char jump",
        "",
        "__Queue View__",
        "Enter   Play from here",
        "",
        "__Now Playing View__",
        "m       Mute",
        "u       Unmute",
        "+       Volume up",
        "-       Volume down",
        "r       Toggle Repeat",
        "s       Toggle shuffle",
        "",
        "__Zone Select Popup__",
        "Enter   Select zone",
        "Esc     Back to view",
        "Delete  Delete preset",
        "",
        "__Zone Grouping Popup__",
        "Space   Toggle output",
        "Enter   Activate group",
        "s       Save as preset",
        "Esc     Back to view",
        "",
        "__Text Input__",
        "Enter   Confirm input",
        "Esc     Cancel input",
    ];
    assert(res@.len() == help_lines().len());
    res
}

/// A line that starts and ends with `__`.
pub open spec fn is_heading(line: Seq<char>) -> bool {
    line.len() >= 2 && line[0] == '_' && line[1] == '_' && line[line.len() - 1] == '_'
        && line[line.len() - 2] == '_'
}

/// Splits a help line into its text and whether it is a heading: a heading is
/// shown bold, without its underscores.
pub fn help_line<'a>(line: &'a str) -> (res: (&'a str, bool))
    requires
        !(is_heading(line@) && line@.len() < 4),
    ensures
        res.1 == is_heading(line@),
        res.0@ == (if is_heading(line@) { line@.subrange(2, line@.len() - 2) } else { line@ }),
{
    let n = line.unicode_len();
    if n >= 2 && line.get_char(0) == '_' && line.get_char(1) == '_' && line.get_char(n - 1) == '_'
        && line.get_char(n - 2) == '_' {
        (line.substring_char(2, n - 2), true)
    } else {
        (line, false)
    }
}

/// The lines that the help columns from `column` on show, as `(start, end)`
/// ranges into the text: each column holds up to `per_column` lines, and the
/// columns stop at the one that reaches the end of the text.
pub open spec fn help_ranges(columns: nat, per_column: nat, text_len: nat, column: nat) -> Seq<(int, int)>
    decreases columns - column,
{
    if column >= columns {
        Seq::empty()
    } else {
        let start = column * per_column;
        let end: int = if start + per_column < text_len { (start + per_column) as int } else { text_len as int };
        seq![(start as int, end)] + (if end == text_len {
            Seq::empty()
        } else {
            help_ranges(columns, per_column, text_len, column + 1)
        })
    }
}

/// The ranges of help lines shown in each of `columns` columns of
/// `per_column` lines, for a text of `text_len` lines.
pub fn help_columns(columns: usize, per_column: usize, text_len: usize) -> (res: Vec<(usize, usize)>)
    requires
        columns * per_column <= usize::MAX,
    ensures
        res@.len() == help_ranges(columns as nat, per_column as nat, text_len as nat, 0).len(),
        forall|i: int|
            0 <= i < res@.len() ==> (#[trigger] res@[i]).0 as int == help_ranges(
                columns as nat,
                per_column as nat,
                text_len as nat,
                0,
            )[i].0 && res@[i].1 as int == help_ranges(
                columns as nat,
                per_column as nat,
                text_len as nat,
                0,
            )[i].1,
{
    let ghost all = help_ranges(columns as nat, per_column as nat, text_len as nat, 0);
    let mut res: Vec<(usize, usize)> = Vec::new();
    let mut column: usize = 0;
    let mut done = false;
    while column < columns && !done
        invariant
            columns * per_column <= usize::MAX,
            column <= columns,
            column == 0 || done || column * per_column < text_len,
            done ==> all.len() == res@.len(),
            !done ==> all == res@.map_values(|p: (usize, usize)| (p.0 as int, p.1 as int))
                + help_ranges(columns as nat, per_column as nat, text_len as nat, column as nat),
            done ==> all == res@.map_values(|p: (usize, usize)| (p.0 as int, p.1 as int)),
        decreases columns - column + (if done { 0int } else { 1int }),
    {
        assert((column + 1) * per_column <= columns * per_column) by (nonlinear_arith)
            requires
                column < columns,
        ;
        assert((column + 1) * per_column == column * per_column + per_column) by (nonlinear_arith);
        let start = column * per_column;
        let end = if start + per_column < text_len { start + per_column } else { text_len };
        let ghost before = res@;
        res.push((start, end));
        let ghost rest = help_ranges(columns as nat, per_column as nat, text_len as nat, column as nat);
        assert(res@.map_values(|p: (usize, usize)| (p.0 as int, p.1 as int)) =~= before.map_values(
            |p: (usize, usize)| (p.0 as int, p.1 as int),
        ).push((start as int, end as int)));
        if end == text_len {
            done = true;
            assert(all =~= res@.map_values(|p: (usize, usize)| (p.0 as int, p.1 as int)));
        } else {
            column = column + 1;
            assert(all =~= res@.map_values(|p: (usize, usize)| (p.0 as int, p.1 as int))
                + help_ranges(columns as nat, per_column as nat, text_len as nat, column as nat));
        }
    }
    proof {
        if !done {
            assert(all =~= res@.map_values(|p: (usize, usize)| (p.0 as int, p.1 as int)));
        }
        assert forall|i: int| 0 <= i < res@.len() implies (#[trigger] res@[i]).0 as int == all[i].0
            && res@[i].1 as int == all[i].1 by {
            assert(all[i] == res@.map_values(|p: (usize, usize)| (p.0 as int, p.1 as int))[i]);
        }
    }
    res
}

proof fn lemma_help_ranges_from(columns: nat, per_column: nat, text_len: nat, column: nat)
    requires
        column * per_column <= text_len,
    ensures
        ({
            let r = help_ranges(columns, per_column, text_len, column);
            &&& r.len() <= columns - column || (column >= columns && r.len() == 0)
            &&& r.len() > 0 ==> r[0].0 == column * per_column
            &&& forall|i: int| 0 <= i < r.len() ==> (#[trigger] r[i]).0 <= r[i].1 <= text_len
            &&& forall|i: int| 0 <= i < r.len() ==> (#[trigger] r[i]).1 - r[i].0 <= per_column
            &&& forall|i: int| 1 <= i < r.len() ==> r[i - 1].1 == (#[trigger] r[i]).0
            &&& r.len() > 0 && r[r.len() - 1].1 != text_len ==> r[r.len() - 1].1 == columns * per_column
        }),
    decreases columns - column,
{
    if column < columns {
        let start = column * per_column;
        let end: int = if start + per_column < text_len { (start + per_column) as int } else { text_len as int };
        assert((column + 1) * per_column == column * per_column + per_column) by (nonlinear_arith);
        if end != text_len {
            lemma_help_ranges_from(columns, per_column, text_len, column + 1);
            let rest = help_ranges(columns, per_column, text_len, column + 1);
            let r = help_ranges(columns, per_column, text_len, column);
            assert(r == seq![(start as int, end)] + rest);
            assert forall|i: int| 1 <= i < r.len() implies r[i - 1].1 == (#[trigger] r[i]).0 by {
                assert(r[i] == rest[i - 1]);
                if i > 1 {
                    assert(r[i - 1] == rest[i - 2]);
                    assert(rest[i - 2].1 == rest[i - 1].0);
                } else {
                    assert(r[0].1 == end);
                    assert(rest[0].0 == (column + 1) * per_column);
                }
            }
            if rest.len() == 0 {
                assert(column + 1 >= columns);
                assert(column + 1 == columns);
            }
        }
    }
}

/// The help columns show the text in order, each column at most
/// `per_column` lines, each starting where the one before stopped; when the
/// columns have room for the whole text, the last one ends at the text's end.
pub proof fn law_help_columns_cover(columns: nat, per_column: nat, text_len: nat)
    ensures
        ({
            let r = help_ranges(columns, per_column, text_len, 0);
            &&& r.len() <= columns
            &&& r.len() > 0 ==> r[0].0 == 0
            &&& forall|i: int| 0 <= i < r.len() ==> (#[trigger] r[i]).0 <= r[i].1 <= text_len
            &&& forall|i: int| 0 <= i < r.len() ==> (#[trigger] r[i]).1 - r[i].0 <= per_column
            &&& forall|i: int| 1 <= i < r.len() ==> r[i - 1].1 == (#[trigger] r[i]).0
            &&& columns > 0 && columns * per_column >= text_len ==> r.len() > 0 && r[r.len() - 1].1
                == text_len
        }),
{
    assert(0 * per_column == 0);
    lemma_help_ranges_from(columns, per_column, text_len, 0);
    let r = help_ranges(columns, per_column, text_len, 0);
    if columns > 0 {
        assert(r.len() > 0);
    }
}

/// Every heading of the help text is long enough to lose its underscores, so
/// `help_line` takes each line of it.
pub proof fn law_help_text_lines_accepted()
    ensures
        forall|i: int|
            0 <= i < help_lines().len() ==> !(is_heading(#[trigger] help_lines()[i])
                && help_lines()[i].len() < 4),
{
    reveal_strlit("__Global__");
    reveal_strlit("Tab     Next view");
    reveal_strlit("Sh-Tab  Previous view");
    reveal_strlit("Ctrl-z  Select zone");
    reveal_strlit("Ctrl-g  Group zones");
    reveal_strlit("Ctrl-Sp Play/Pause");
    reveal_strlit("Ctrl-p  Play/Pause");
    reveal_strlit("Ctrl-e  Pause at end");
    reveal_strlit("Ctrl-Up Volume up");
    reveal_strlit("Ctrl-Dn Volume down");
    reveal_strlit("Ctrl-Ri Next track");
    reveal_strlit("Ctrl-Le Previous track");
    reveal_strlit("Ctrl-q  Queue mode");
    reveal_strlit("Ctrl-a  Append queue");
    reveal_strlit("Ctrl-h  This help page");
    reveal_strlit("Ctrl-c  Quit");
    reveal_strlit("");
    reveal_strlit("__List Controls__");
    reveal_strlit("Up      Move up");
    reveal_strlit("Down    Move down");
    reveal_strlit("Home    Move to top");
    reveal_strlit("End     Move to bottom");
    reveal_strlit("Page-Up Move page up");
    reveal_strlit("Page-Dn Move page down");
    reveal_strlit("");
    reveal_strlit("__Browse View__");
    reveal_strlit("Enter   Select");
    reveal_strlit("Esc     Move level up");
    reveal_strlit("Ctrl-Hm Browse home");
    reveal_strlit("F5      Refresh");
    reveal_strlit("a..z    Char jump");
    reveal_strlit("Backsp  Prev char jump");
    reveal_strlit("");
    reveal_strlit("__Queue View__");
    reveal_strlit("Enter   Play from here");
    reveal_strlit("");
    reveal_strlit("__Now Playing View__");
    reveal_strlit("m       Mute");
    reveal_strlit("u       Unmute");
    reveal_strlit("+       Volume up");
    reveal_strlit("-       Volume down");
    reveal_strlit("r       Toggle Repeat");
    reveal_strlit("s       Toggle shuffle");
    reveal_strlit("");
    reveal_strlit("__Zone Select Popup__");
    reveal_strlit("Enter   Select zone");
    reveal_strlit("Esc     Back to view");
    reveal_strlit("Delete  Delete preset");
    reveal_strlit("");
    reveal_strlit("__Zone Grouping Popup__");
    reveal_strlit("Space   Toggle output");
    reveal_strlit("Enter   Activate group");
    reveal_strlit("s       Save as preset");
    reveal_strlit("Esc     Back to view");
    reveal_strlit("");
    reveal_strlit("__Text Input__");
    reveal_strlit("Enter   Confirm input");
    reveal_strlit("Esc     Cancel input");
}

/// The binding line `binding` stands in the section of `heading`: some line
/// `heading` comes before it with no other heading between them.
pub open spec fn listed_under(lines: Seq<Seq<char>>, heading: Seq<char>, binding: Seq<char>) -> bool {
    exists|h: int, b: int|
        #![trigger lines[h], lines[b]]
        0 <= h < b < lines.len() && lines[h] == heading && lines[b] == binding && forall|j: int|
            h < j < b ==> !is_heading(#[trigger] lines[j])
}

proof fn lemma_listed_under(lines: Seq<Seq<char>>, heading: Seq<char>, binding: Seq<char>, h: int, b: int)
    requires
        0 <= h < b < lines.len(),
        lines[h] == heading,
        lines[b] == binding,
        forall|j: int| h < j < b ==> !is_heading(#[trigger] lines[j]),
    ensures
        listed_under(lines, heading, binding),
{
}

/// Each key binding of the help text stands under the heading of the pane or
/// pop-up it works in: the browse keys under the browse view, playing from
/// the queue under the queue view, muting under now playing, and so on.
pub proof fn law_help_bindings_under_their_panes()
    ensures
        listed_under(help_lines(), "__Global__"@, "Ctrl-c  Quit"@),
        listed_under(help_lines(), "__Global__"@, "Ctrl-h  This help page"@),
        listed_under(help_lines(), "__List Controls__"@, "Home    Move to top"@),
        listed_under(help_lines(), "__Browse View__"@, "Enter   Select"@),
        listed_under(help_lines(), "__Browse View__"@, "Ctrl-Hm Browse home"@),
        listed_under(help_lines(), "__Browse View__"@, "F5      Refresh"@),
        listed_under(help_lines(), "__Queue View__"@, "Enter   Play from here"@),
        listed_under(help_lines(), "__Now Playing View__"@, "m       Mute"@),
        listed_under(help_lines(), "__Now Playing View__"@, "s       Toggle shuffle"@),
        listed_under(help_lines(), "__Zone Select Popup__"@, "Enter   Select zone"@),
        listed_under(help_lines(), "__Zone Select Popup__"@, "Delete  Delete preset"@),
        listed_under(help_lines(), "__Zone Grouping Popup__"@, "Space   Toggle output"@),
        listed_under(help_lines(), "__Zone Grouping Popup__"@, "s       Save as preset"@),
        listed_under(help_lines(), "__Text Input__"@, "Enter   Confirm input"@),
        listed_under(help_lines(), "__Text Input__"@, "Esc     Cancel input"@),
{
    assert(listed_under(help_lines(), "__Global__"@, "Ctrl-c  Quit"@)) by {
        reveal_strlit("Tab     Next view");
        reveal_strlit("Sh-Tab  Previous view");
        reveal_strlit("Ctrl-z  Select zone");
        reveal_strlit("Ctrl-g  Group zones");
        reveal_strlit("Ctrl-Sp Play/Pause");
        reveal_strlit("Ctrl-p  Play/Pause");
        reveal_strlit("Ctrl-e  Pause at end");
        reveal_strlit("Ctrl-Up Volume up");
        reveal_strlit("Ctrl-Dn Volume down");
        reveal_strlit("Ctrl-Ri Next track");
        reveal_strlit("Ctrl-Le Previous track");
        reveal_strlit("Ctrl-q  Queue mode");
        reveal_strlit("Ctrl-a  Append queue");
        reveal_strlit("Ctrl-h  This help page");
        assert forall|j: int| 0 < j < 15 implies !is_heading(#[trigger] help_lines()[j]) by {
            if j == 1 {
                assert(help_lines()[j] == "Tab     Next view"@);
            } else if j == 2 {
                assert(help_lines()[j] == "Sh-Tab  Previous view"@);
            } else if j == 3 {
                assert(help_lines()[j] == "Ctrl-z  Select zone"@);
            } else if j == 4 {
                assert(help_lines()[j] == "Ctrl-g  Group zones"@);
            } else if j == 5 {
                assert(help_lines()[j] == "Ctrl-Sp Play/Pause"@);
            } else if j == 6 {
                assert(help_lines()[j] == "Ctrl-p  Play/Pause"@);
            } else if j == 7 {
                assert(help_lines()[j] == "Ctrl-e  Pause at end"@);
            } else if j == 8 {
                assert(help_lines()[j] == "Ctrl-Up Volume up"@);
            } else if j == 9 {
                assert(help_lines()[j] == "Ctrl-Dn Volume down"@);
            } else if j == 10 {
                assert(help_lines()[j] == "Ctrl-Ri Next track"@);
            } else if j == 11 {
                assert(help_lines()[j] == "Ctrl-Le Previous track"@);
            } else if j == 12 {
                assert(help_lines()[j] == "Ctrl-q  Queue mode"@);
            } else if j == 13 {
                assert(help_lines()[j] == "Ctrl-a  Append queue"@);
            } else if j == 14 {
                assert(help_lines()[j] == "Ctrl-h  This help page"@);
            }
        }
        lemma_listed_under(help_lines(), "__Global__"@, "Ctrl-c  Quit"@, 0, 15);
    }
    assert(listed_under(help_lines(), "__Global__"@, "Ctrl-h  This help page"@)) by {
        reveal_strlit("Tab     Next view");
        reveal_strlit("Sh-Tab  Previous view");
        reveal_strlit("Ctrl-z  Select zone");
        reveal_strlit("Ctrl-g  Group zones");
        reveal_strlit("Ctrl-Sp Play/Pause");
        reveal_strlit("Ctrl-p  Play/Pause");
        reveal_strlit("Ctrl-e  Pause at end");
        reveal_strlit("Ctrl-Up Volume up");
        reveal_strlit("Ctrl-Dn Volume down");
        reveal_strlit("Ctrl-Ri Next track");
        reveal_strlit("Ctrl-Le Previous track");
        reveal_strlit("Ctrl-q  Queue mode");
        reveal_strlit("Ctrl-a  Append queue");
        assert forall|j: int| 0 < j < 14 implies !is_heading(#[trigger] help_lines()[j]) by {
            if j == 1 {
                assert(help_lines()[j] == "Tab     Next view"@);
            } else if j == 2 {
                assert(help_lines()[j] == "Sh-Tab  Previous view"@);
            } else if j == 3 {
                assert(help_lines()[j] == "Ctrl-z  Select zone"@);
            } else if j == 4 {
                assert(help_lines()[j] == "Ctrl-g  Group zones"@);
            } else if j == 5 {
                assert(help_lines()[j] == "Ctrl-Sp Play/Pause"@);
            } else if j == 6 {
                assert(help_lines()[j] == "Ctrl-p  Play/Pause"@);
            } else if j == 7 {
                assert(help_lines()[j] == "Ctrl-e  Pause at end"@);
            } else if j == 8 {
                assert(help_lines()[j] == "Ctrl-Up Volume up"@);
            } else if j == 9 {
                assert(help_lines()[j] == "Ctrl-Dn Volume down"@);
            } else if j == 10 {
                assert(help_lines()[j] == "Ctrl-Ri Next track"@);
            } else if j == 11 {
                assert(help_lines()[j] == "Ctrl-Le Previous track"@);
            } else if j == 12 {
                assert(help_lines()[j] == "Ctrl-q  Queue mode"@);
            } else if j == 13 {
                assert(help_lines()[j] == "Ctrl-a  Append queue"@);
            }
        }
        lemma_listed_under(help_lines(), "__Global__"@, "Ctrl-h  This help page"@, 0, 14);
    }
    assert(listed_under(help_lines(), "__List Controls__"@, "Home    Move to top"@)) by {
        reveal_strlit("Up      Move up");
        reveal_strlit("Down    Move down");
        assert forall|j: int| 17 < j < 20 implies !is_heading(#[trigger] help_lines()[j]) by {
            if j == 18 {
                assert(help_lines()[j] == "Up      Move up"@);
            } else if j == 19 {
                assert(help_lines()[j] == "Down    Move down"@);
            }
        }
        lemma_listed_under(help_lines(), "__List Controls__"@, "Home    Move to top"@, 17, 20);
    }
    assert(listed_under(help_lines(), "__Browse View__"@, "Enter   Select"@)) by {
        lemma_listed_under(help_lines(), "__Browse View__"@, "Enter   Select"@, 25, 26);
    }
    assert(listed_under(help_lines(), "__Browse View__"@, "Ctrl-Hm Browse home"@)) by {
        reveal_strlit("Enter   Select");
        reveal_strlit("Esc     Move level up");
        assert forall|j: int| 25 < j < 28 implies !is_heading(#[trigger] help_lines()[j]) by {
            if j == 26 {
                assert(help_lines()[j] == "Enter   Select"@);
            } else if j == 27 {
                assert(help_lines()[j] == "Esc     Move level up"@);
            }
        }
        lemma_listed_under(help_lines(), "__Browse View__"@, "Ctrl-Hm Browse home"@, 25, 28);
    }
    assert(listed_under(help_lines(), "__Browse View__"@, "F5      Refresh"@)) by {
        reveal_strlit("Enter   Select");
        reveal_strlit("Esc     Move level up");
        reveal_strlit("Ctrl-Hm Browse home");
        assert forall|j: int| 25 < j < 29 implies !is_heading(#[trigger] help_lines()[j]) by {
            if j == 26 {
                assert(help_lines()[j] == "Enter   Select"@);
            } else if j == 27 {
                assert(help_lines()[j] == "Esc     Move level up"@);
            } else if j == 28 {
                assert(help_lines()[j] == "Ctrl-Hm Browse home"@);
            }
        }
        lemma_listed_under(help_lines(), "__Browse View__"@, "F5      Refresh"@, 25, 29);
    }
    assert(listed_under(help_lines(), "__Queue View__"@, "Enter   Play from here"@)) by {
        lemma_listed_under(help_lines(), "__Queue View__"@, "Enter   Play from here"@, 33, 34);
    }
    assert(listed_under(help_lines(), "__Now Playing View__"@, "m       Mute"@)) by {
        lemma_listed_under(help_lines(), "__Now Playing View__"@, "m       Mute"@, 36, 37);
    }
    assert(listed_under(help_lines(), "__Now Playing View__"@, "s       Toggle shuffle"@)) by {
        reveal_strlit("m       Mute");
        reveal_strlit("u       Unmute");
        reveal_strlit("+       Volume up");
        reveal_strlit("-       Volume down");
        reveal_strlit("r       Toggle Repeat");
        assert forall|j: int| 36 < j < 42 implies !is_heading(#[trigger] help_lines()[j]) by {
            if j == 37 {
                assert(help_lines()[j] == "m       Mute"@);
            } else if j == 38 {
                assert(help_lines()[j] == "u       Unmute"@);
            } else if j == 39 {
                assert(help_lines()[j] == "+       Volume up"@);
            } else if j == 40 {
                assert(help_lines()[j] == "-       Volume down"@);
            } else if j == 41 {
                assert(help_lines()[j] == "r       Toggle Repeat"@);
            }
        }
        lemma_listed_under(help_lines(), "__Now Playing View__"@, "s       Toggle shuffle"@, 36, 42);
    }
    assert(listed_under(help_lines(), "__Zone Select Popup__"@, "Enter   Select zone"@)) by {
        lemma_listed_under(help_lines(), "__Zone Select Popup__"@, "Enter   Select zone"@, 44, 45);
    }
    assert(listed_under(help_lines(), "__Zone Select Popup__"@, "Delete  Delete preset"@)) by {
        reveal_strlit("Enter   Select zone");
        reveal_strlit("Esc     Back to view");
        assert forall|j: int| 44 < j < 47 implies !is_heading(#[trigger] help_lines()[j]) by {
            if j == 45 {
                assert(help_lines()[j] == "Enter   Select zone"@);
            } else if j == 46 {
                assert(help_lines()[j] == "Esc     Back to view"@);
            }
        }
        lemma_listed_under(help_lines(), "__Zone Select Popup__"@, "Delete  Delete preset"@, 44, 47);
    }
    assert(listed_under(help_lines(), "__Zone Grouping Popup__"@, "Space   Toggle output"@)) by {
        lemma_listed_under(help_lines(), "__Zone Grouping Popup__"@, "Space   Toggle output"@, 49, 50);
    }
    assert(listed_under(help_lines(), "__Zone Grouping Popup__"@, "s       Save as preset"@)) by {
        reveal_strlit("Space   Toggle output");
        reveal_strlit("Enter   Activate group");
        assert forall|j: int| 49 < j < 52 implies !is_heading(#[trigger] help_lines()[j]) by {
            if j == 50 {
                assert(help_lines()[j] == "Space   Toggle output"@);
            } else if j == 51 {
                assert(help_lines()[j] == "Enter   Activate group"@);
            }
        }
        lemma_listed_under(help_lines(), "__Zone Grouping Popup__"@, "s       Save as preset"@, 49, 52);
    }
    assert(listed_under(help_lines(), "__Text Input__"@, "Enter   Confirm input"@)) by {
        lemma_listed_under(help_lines(), "__Text Input__"@, "Enter   Confirm input"@, 55, 56);
    }
    assert(listed_under(help_lines(), "__Text Input__"@, "Esc     Cancel input"@)) by {
        reveal_strlit("Enter   Confirm input");
        assert forall|j: int| 55 < j < 57 implies !is_heading(#[trigger] help_lines()[j]) by {
            if j == 56 {
                assert(help_lines()[j] == "Enter   Confirm input"@);
            }
        }
        lemma_listed_under(help_lines(), "__Text Input__"@, "Esc     Cancel input"@, 55, 57);
    }
}

} // verus!
