//! Tables, drawn with box-drawing characters.

use vstd::prelude::*;
use vstd::string::*;
use crate::ansi::{push_fg, push_sgr};
use crate::render_model::{border_cells, col_widths, flush_table, table_cell, table_cells, table_row, table_rows, table_text, widen};
use crate::text::{char_count, push_char, push_repeat, repeat, string_views};
use super::{row_views, Renderer, TableRow};

verus! {

impl Renderer {
    /// One cell of a table row.
    #[verifier::rlimit(40)]
    pub(super) fn table_cell(&self, ws: &Vec<usize>, row: &TableRow, ci: usize) -> (t: String)
        requires
            ci < row.plain.len(),
        ensures
            t@ == table_cell(self@, nat_views(ws@), row@, ci as nat),
    {
        let c = &self.theme.colors;
        let w = if ci < ws.len() { ws[ci] } else { 1 };
        let plain = row.plain[ci].as_str();
        let shown = if ci < row.rich.len() { row.rich[ci].as_str() } else { plain };
        let plain_len = char_count(plain);
        let mut t = String::new();
        push_char(&mut t, ' ');
        if row.is_header {
            push_sgr(&mut t, '1');
            push_fg(&mut t, c.table_header, self.color_off);
        } else {
            push_fg(&mut t, c.foreground, self.color_off);
        }
        t.append(shown);
        if plain_len < w {
            push_repeat(&mut t, ' ', w - plain_len);
        }
        push_sgr(&mut t, '0');
        push_fg(&mut t, c.table_border, self.color_off);
        push_char(&mut t, ' ');
        push_char(&mut t, '│');
        assert(string_views(row.plain@)[ci as int] == row.plain@[ci as int]@);
        assert(ci < row.rich.len() ==> string_views(row.rich@)[ci as int] == row.rich@[ci as int]@);
        assert(t@ =~= table_cell(self@, nat_views(ws@), row@, ci as nat));
        t
    }

    /// One table row, with the header separator before the first body row.
    #[verifier::rlimit(40)]
    pub(super) fn table_row(&self, ws: &Vec<usize>, rows: &Vec<TableRow>, ri: usize) -> (t: String)
        requires
            ri < rows.len(),
        ensures
            t@ == table_row(self@, nat_views(ws@), row_views(rows@), ri as nat),
    {
        let ghost rv = row_views(rows@);
        let row = &rows[ri];
        assert(rv[ri as int] == row@);
        let mut t = String::new();
        if ri > 0 && rows[ri - 1].is_header && !row.is_header {
            assert(rv[ri - 1] == rows@[ri - 1]@);
            push_fg(&mut t, self.theme.colors.table_border, self.color_off);
            push_char(&mut t, '├');
            let mid = border_cells_string(ws, '═', '╪');
            t.append(mid.as_str());
            push_char(&mut t, '┤');
            push_char(&mut t, '\n');
        }
        proof {
            if ri > 0 {
                assert(rv[ri - 1] == rows@[ri - 1]@);
            }
        }
        let ghost sep = t@;
        push_fg(&mut t, self.theme.colors.table_border, self.color_off);
        push_char(&mut t, '│');
        let ghost lead = t@;
        let mut ci: usize = 0;
        while ci < row.plain.len()
            invariant
                ci <= row.plain.len(),
                t@ == lead + table_cells(self@, nat_views(ws@), row@, ci as nat),
            decreases row.plain.len() - ci,
        {
            let cell = self.table_cell(ws, row, ci);
            t.append(cell.as_str());
            ci += 1;
            assert(t@ =~= lead + table_cells(self@, nat_views(ws@), row@, ci as nat));
        }
        push_char(&mut t, '\n');
        assert(row@.plain.len() == row.plain.len());
        assert(t@ =~= table_row(self@, nat_views(ws@), rv, ri as nat));
        t
    }

    /// The whole text of a table.
    pub(super) fn table_string(&self, rows: &Vec<TableRow>) -> (t: String)
        ensures
            t@ == table_text(self@, row_views(rows@)),
    {
        let c = &self.theme.colors;
        let ws = compute_col_widths(rows);
        let mut t = String::new();
        push_fg(&mut t, c.table_border, self.color_off);
        push_char(&mut t, '┌');
        let top = border_cells_string(&ws, '─', '┬');
        t.append(top.as_str());
        push_char(&mut t, '┐');
        push_char(&mut t, '\n');
        let ghost head = t@;
        let mut ri: usize = 0;
        while ri < rows.len()
            invariant
                ri <= rows.len(),
                nat_views(ws@) == col_widths(row_views(rows@)),
                t@ == head + table_rows(self@, nat_views(ws@), row_views(rows@), ri as nat),
            decreases rows.len() - ri,
        {
            let row = self.table_row(&ws, rows, ri);
            t.append(row.as_str());
            ri += 1;
            assert(t@ =~= head + table_rows(self@, nat_views(ws@), row_views(rows@), ri as nat));
        }
        push_fg(&mut t, c.table_border, self.color_off);
        push_char(&mut t, '└');
        let bottom = border_cells_string(&ws, '─', '┴');
        t.append(bottom.as_str());
        push_char(&mut t, '┘');
        push_char(&mut t, '\n');
        push_sgr(&mut t, '0');
        push_char(&mut t, '\n');
        assert(t@ =~= table_text(self@, row_views(rows@)));
        t
    }

    /// Writes the collected table and forgets its rows.
    pub(super) fn flush_table(&mut self)
        ensures
            final(self)@ == flush_table(old(self)@),
    {
        proof {
            reveal(flush_table);
        }
        if self.table_rows.len() == 0 {
            return;
        }
        let t = self.table_string(&self.table_rows);
        self.table_rows = Vec::new();
        assert(row_views(self.table_rows@) =~= Seq::empty());
        self.put(t.as_str());
    }

}

/// Widths as naturals.
pub(crate) open spec fn nat_views(ws: Seq<usize>) -> Seq<nat> {
    ws.map_values(|w: usize| w as nat)
}

/// Column widths of the collected rows: each column's widest cell, in characters, at least 1.
pub(super) fn compute_col_widths(rows: &Vec<TableRow>) -> (ws: Vec<usize>)
    ensures
        nat_views(ws@) == col_widths(row_views(rows@)),
{
    let ghost rv = row_views(rows@);
    let mut widths: Vec<usize> = Vec::new();
    let mut r: usize = 0;
    assert(nat_views(widths@) =~= Seq::empty());
    while r < rows.len()
        invariant
            r <= rows.len(),
            rv == row_views(rows@),
            nat_views(widths@) == col_widths(rv.take(r as int)),
        decreases rows.len() - r,
    {
        let row = &rows[r];
        let ghost cells = rv[r as int].plain;
        let ghost start = nat_views(widths@);
        assert(cells == string_views(row.plain@));
        let mut ci: usize = 0;
        assert(cells.take(0) =~= Seq::<Seq<char>>::empty());
        while ci < row.plain.len()
            invariant
                ci <= row.plain.len(),
                cells == string_views(row.plain@),
                nat_views(widths@) == widen(start, cells.take(ci as int)),
            decreases row.plain.len() - ci,
        {
            let w = char_count(row.plain[ci].as_str());
            assert(cells.take(ci + 1).drop_last() =~= cells.take(ci as int));
            assert(cells.take(ci + 1).last() == row.plain@[ci as int]@);
            let ghost before = nat_views(widths@);
            if ci < widths.len() {
                if w > widths[ci] {
                    widths.set(ci, w);
                    assert(nat_views(widths@) =~= before.update(ci as int, w as nat));
                }
            } else {
                let w1 = if w > 1 { w } else { 1 };
                widths.push(w1);
                assert(nat_views(widths@) =~= before.push(w1 as nat));
            }
            ci += 1;
        }
        assert(cells.take(row.plain.len() as int) =~= cells);
        assert(rv.take(r + 1).drop_last() =~= rv.take(r as int));
        r += 1;
    }
    assert(rv.take(rows.len() as int) =~= rv);
    widths
}

/// The middle of a table border line.
pub(super) fn border_cells_string(ws: &Vec<usize>, fill: char, sep: char) -> (t: String)
    ensures
        t@ == border_cells(nat_views(ws@), fill, sep),
{
    let ghost wv = nat_views(ws@);
    let mut t = String::new();
    let mut i: usize = 0;
    assert(wv.take(0) =~= Seq::<nat>::empty());
    while i < ws.len()
        invariant
            i <= ws.len(),
            wv == nat_views(ws@),
            t@ == border_cells(wv.take(i as int), fill, sep),
        decreases ws.len() - i,
    {
        assert(wv.take(i + 1).drop_last() =~= wv.take(i as int));
        if i > 0 {
            push_char(&mut t, sep);
        }
        push_repeat(&mut t, fill, ws[i]);
        push_repeat(&mut t, fill, 2);
        i += 1;
        assert(repeat(fill, ws[i - 1] as nat) + repeat(fill, 2) =~= repeat(fill, (ws[i - 1] + 2) as nat));
        assert(t@ =~= border_cells(wv.take(i as int), fill, sep));
    }
    assert(wv.take(ws.len() as int) =~= wv);
    t
}

} // verus!
