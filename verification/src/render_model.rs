//! The meaning of rendering: a state machine over Markdown events whose state
//! carries the text written so far.

use vstd::prelude::*;
use crate::ansi::{bold_seq, fg_seq, italic_seq, reset_all_seq, reset_attr_seq, reset_color_seq, strike_seq, underline_seq};
use crate::markdown::{EventView, TagView};
use crate::text::{byte_len, dec, max_int, min_int, repeat, sat_sub, starts_with, trim, trim_end_char, trim_start};
use crate::theme::{AnsiColor, ThemeView};

verus! {

/// A table row as collected: cell text without styling (for measuring) and
/// with styling (for display).
pub struct RowView {
    pub plain: Seq<Seq<char>>,
    pub rich: Seq<Seq<char>>,
    pub is_header: bool,
}

/// The state of a renderer between two events.
pub struct RenderState {
    /// Everything written so far.
    pub out: Seq<char>,
    pub theme: ThemeView,
    pub term_width: u16,
    pub line_numbers: bool,
    pub word_wrap: bool,
    pub indent: usize,
    /// Whether colour sequences are written without parameters.
    pub color_off: bool,
    pub list_depth: nat,
    /// One entry per open list: `Some(n)` is the next number of an ordered list.
    pub ordered: Seq<Option<u64>>,
    /// Inline text of the current paragraph, with styling sequences.
    pub para: Seq<char>,
    pub in_blockquote: bool,
    pub heading_text: Seq<char>,
    pub heading_level: u8,
    pub in_heading: bool,
    pub strong: nat,
    pub em: nat,
    pub strike: nat,
    pub in_link: bool,
    pub link_dest: Seq<char>,
    pub link_text: Seq<char>,
    pub in_image: bool,
    pub image_alt: Seq<char>,
    pub code_buf: Option<Seq<char>>,
    pub code_lang: Option<Seq<char>>,
    pub rows: Seq<RowView>,
    pub in_table: bool,
    pub in_table_head: bool,
    pub in_table_cell: bool,
    pub cell_plain: Seq<char>,
    pub cell_rich: Seq<char>,
    pub row_plain: Seq<Seq<char>>,
    pub row_rich: Seq<Seq<char>>,
}

/// The state of a fresh renderer.
pub open spec fn initial_state(
    theme: ThemeView,
    term_width: u16,
    line_numbers: bool,
    word_wrap: bool,
    indent: usize,
    color_off: bool,
) -> RenderState {
    RenderState {
        out: Seq::empty(),
        theme,
        term_width,
        line_numbers,
        word_wrap,
        indent,
        color_off,
        list_depth: 0,
        ordered: Seq::empty(),
        para: Seq::empty(),
        in_blockquote: false,
        heading_text: Seq::empty(),
        heading_level: 1,
        in_heading: false,
        strong: 0,
        em: 0,
        strike: 0,
        in_link: false,
        link_dest: Seq::empty(),
        link_text: Seq::empty(),
        in_image: false,
        image_alt: Seq::empty(),
        code_buf: None,
        code_lang: None,
        rows: Seq::empty(),
        in_table: false,
        in_table_head: false,
        in_table_cell: false,
        cell_plain: Seq::empty(),
        cell_rich: Seq::empty(),
        row_plain: Seq::empty(),
        row_rich: Seq::empty(),
    }
}

/// Writes `x` to the output.
pub open spec fn emit(s: RenderState, x: Seq<char>) -> RenderState {
    RenderState { out: s.out + x, ..s }
}

/// The sequence that selects colour `c` in state `s`.
pub open spec fn fg(s: RenderState, c: AnsiColor) -> Seq<char> {
    fg_seq(c, s.color_off)
}

/// `n + 1`, held at `usize::MAX`.
pub open spec fn sat_inc(n: nat) -> nat {
    if n < usize::MAX { n + 1 } else { n }
}

/// `n` times `m`, or `usize::MAX` when the product does not fit.
pub open spec fn sat_mul(n: nat, m: nat) -> nat {
    if n * m <= usize::MAX { n * m } else { usize::MAX as nat }
}

// ── visible width ────────────────────────────────────────────────────────────

/// Count of visible characters and whether an escape sequence is open, after `s`.
pub open spec fn visible_scan(s: Seq<char>) -> (nat, bool)
    decreases s.len(),
{
    if s.len() == 0 {
        (0, false)
    } else {
        let (n, in_esc) = visible_scan(s.drop_last());
        let c = s.last();
        if in_esc {
            (n, c != 'm')
        } else if c == '\x1b' {
            (n, true)
        } else {
            (n + 1, false)
        }
    }
}

/// Number of characters of `s` outside escape sequences (`ESC` up to `m`).
pub open spec fn visible_count(s: Seq<char>) -> nat {
    visible_scan(s).0
}

// ── paragraphs ───────────────────────────────────────────────────────────────

/// Tokeniser state: finished words, the word being read, inside an escape sequence.
pub struct TokState {
    pub tokens: Seq<Seq<char>>,
    pub tok: Seq<char>,
    pub in_esc: bool,
}

/// Reads one more character of a paragraph.
pub open spec fn tok_step(st: TokState, c: char) -> TokState {
    if st.in_esc {
        TokState { tok: st.tok.push(c), in_esc: c != 'm', ..st }
    } else if c == '\x1b' {
        TokState { tok: st.tok.push(c), in_esc: true, ..st }
    } else if c == ' ' || c == '\n' {
        if st.tok.len() > 0 {
            TokState { tokens: st.tokens.push(st.tok), tok: Seq::empty(), ..st }
        } else {
            st
        }
    } else {
        TokState { tok: st.tok.push(c), ..st }
    }
}

/// Tokeniser state after reading `s`.
pub open spec fn tok_scan(s: Seq<char>) -> TokState
    decreases s.len(),
{
    if s.len() == 0 {
        TokState { tokens: Seq::empty(), tok: Seq::empty(), in_esc: false }
    } else {
        tok_step(tok_scan(s.drop_last()), s.last())
    }
}

/// The words of a paragraph: maximal runs between spaces and newlines, where
/// spaces inside escape sequences do not separate.
pub open spec fn tokenize(s: Seq<char>) -> Seq<Seq<char>> {
    let st = tok_scan(s);
    if st.tok.len() > 0 {
        st.tokens.push(st.tok)
    } else {
        st.tokens
    }
}

/// Word-wrapping state: text laid out, current column, whether a line was begun.
pub struct LayoutState {
    pub text: Seq<char>,
    pub col: nat,
    pub started: bool,
}

/// Lays out one more word.
pub open spec fn layout_step(st: LayoutState, word: Seq<char>, ind: Seq<char>, avail: nat) -> LayoutState {
    let w = visible_count(word);
    if !st.started {
        LayoutState { text: st.text + ind + word, col: st.col + w, started: true }
    } else if st.col + 1 + w > avail {
        LayoutState { text: st.text + seq!['\n'] + ind + word, col: w, started: true }
    } else {
        LayoutState { text: st.text + seq![' '] + word, col: st.col + 1 + w, started: true }
    }
}

/// Layout of `words`, greedily filling lines of `avail` visible columns after `ind`.
pub open spec fn layout(words: Seq<Seq<char>>, ind: Seq<char>, avail: nat) -> LayoutState
    decreases words.len(),
{
    if words.len() == 0 {
        LayoutState { text: Seq::empty(), col: 0, started: false }
    } else {
        layout_step(layout(words.drop_last(), ind, avail), words.last(), ind, avail)
    }
}

/// `s` with `ind` inserted after every newline.
pub open spec fn indent_lines(s: Seq<char>, ind: Seq<char>) -> Seq<char>
    decreases s.len(),
{
    if s.len() == 0 {
        Seq::empty()
    } else if s.last() == '\n' {
        indent_lines(s.drop_last(), ind) + seq!['\n'] + ind
    } else {
        indent_lines(s.drop_last(), ind).push(s.last())
    }
}

/// The prefix of every paragraph line: a bar inside block quotes, otherwise
/// spaces for the list depth.
pub open spec fn para_indent(s: RenderState) -> Seq<char> {
    if s.in_blockquote {
        seq![' ', ' ', '│', ' ']
    } else {
        repeat(' ', sat_mul(s.list_depth, s.indent as nat))
    }
}

/// Columns available to paragraph text: the terminal width less the indent's
/// length in bytes, at least 20.
pub open spec fn para_avail(s: RenderState) -> nat {
    max_int(sat_sub(s.term_width as int, byte_len(para_indent(s)) as int) as int, 20) as nat
}

/// What a paragraph flush writes.
pub open spec fn para_text(s: RenderState) -> Seq<char> {
    let ind = para_indent(s);
    if s.word_wrap {
        let lay = layout(tokenize(s.para), ind, para_avail(s));
        if lay.started {
            lay.text + reset_all_seq() + seq!['\n']
        } else {
            lay.text
        }
    } else {
        ind + indent_lines(s.para, ind) + seq!['\n'] + reset_all_seq()
    }
}

/// Writes out the pending paragraph text, if any.
#[verifier::opaque]
pub open spec fn flush_para(s: RenderState) -> RenderState {
    if s.para.len() == 0 {
        s
    } else {
        RenderState { out: s.out + para_text(s), para: Seq::empty(), ..s }
    }
}

// ── headings and rules ───────────────────────────────────────────────────────

/// Writes a horizontal rule across the terminal width.
pub open spec fn hr(s: RenderState) -> RenderState {
    emit(s, fg(s, s.theme.colors.rule) + repeat('─', s.term_width as nat) + seq!['\n'] + reset_color_seq())
}

/// The marker and colour of a heading level.
pub open spec fn heading_style(s: RenderState, level: u8) -> (Seq<char>, AnsiColor) {
    if level == 1 {
        (seq!['█', ' '], s.theme.colors.h1)
    } else if level == 2 {
        (seq!['▌', ' '], s.theme.colors.h2)
    } else if level == 3 {
        (seq!['◆', ' '], s.theme.colors.h3)
    } else {
        (seq!['◇', ' '], s.theme.colors.h4)
    }
}

/// What a heading writes: a blank line, the marked bold title, and for levels 1
/// and 2 an underline as wide as the title (at most the terminal width).
pub open spec fn heading_text(s: RenderState, text: Seq<char>, level: u8) -> Seq<char> {
    let (prefix, color) = heading_style(s, level);
    let title = seq!['\n'] + bold_seq() + fg(s, color) + prefix + text + reset_attr_seq()
        + reset_color_seq() + seq!['\n'];
    if level == 1 || level == 2 {
        let width = min_int((prefix.len() + text.len()) as int, s.term_width as int) as nat;
        let under = if level == 1 { '═' } else { '─' };
        title + fg(s, color) + repeat(under, width) + seq!['\n'] + reset_color_seq()
    } else {
        title
    }
}

// ── inline text ──────────────────────────────────────────────────────────────

/// Adds text to whatever inline context is open.
pub open spec fn push_inline_text(s: RenderState, text: Seq<char>) -> RenderState {
    if s.in_heading {
        RenderState { heading_text: s.heading_text + text, ..s }
    } else if s.in_image {
        RenderState { image_alt: s.image_alt + text, ..s }
    } else if s.in_link {
        if s.in_table_cell {
            RenderState {
                link_text: s.link_text + text,
                cell_plain: s.cell_plain + text,
                cell_rich: s.cell_rich + text,
                ..s
            }
        } else {
            RenderState { link_text: s.link_text + text, para: s.para + text, ..s }
        }
    } else if s.in_table_cell {
        RenderState { cell_plain: s.cell_plain + text, cell_rich: s.cell_rich + text, ..s }
    } else if s.code_buf is Some {
        RenderState { code_buf: Some(s.code_buf->0 + text), ..s }
    } else {
        RenderState { para: s.para + text, ..s }
    }
}

/// Adds styling to the styled side of the open inline context.
pub open spec fn push_ansi(s: RenderState, ansi: Seq<char>) -> RenderState {
    if s.in_table_cell {
        RenderState { cell_rich: s.cell_rich + ansi, ..s }
    } else if !s.in_heading && !s.in_image && s.code_buf is None {
        RenderState { para: s.para + ansi, ..s }
    } else {
        s
    }
}

/// Inline code: bare in headings, in backticks elsewhere.
pub open spec fn inline_code(s: RenderState, text: Seq<char>) -> RenderState {
    let shown = seq!['`'] + text + seq!['`'];
    if s.in_heading {
        RenderState { heading_text: s.heading_text + text, ..s }
    } else if s.in_table_cell {
        RenderState {
            cell_plain: s.cell_plain + shown,
            cell_rich: s.cell_rich + fg(s, s.theme.colors.code_inline) + shown + reset_all_seq(),
            ..s
        }
    } else {
        RenderState {
            para: s.para + fg(s, s.theme.colors.code_inline) + shown + reset_all_seq() + fg(
                s,
                s.theme.colors.foreground,
            ),
            ..s
        }
    }
}

/// Tag-stripping state: text kept so far, inside a tag.
pub open spec fn strip_scan(h: Seq<char>) -> (Seq<char>, bool)
    decreases h.len(),
{
    if h.len() == 0 {
        (Seq::empty(), false)
    } else {
        let (kept, in_tag) = strip_scan(h.drop_last());
        let c = h.last();
        if c == '<' {
            (kept, true)
        } else if c == '>' {
            (kept, false)
        } else if !in_tag {
            (kept.push(c), in_tag)
        } else {
            (kept, in_tag)
        }
    }
}

/// HTML with the tags removed.
pub open spec fn strip_tags(h: Seq<char>) -> Seq<char> {
    strip_scan(h).0
}

/// Raw HTML: its text without tags, dimmed, when any is left.
pub open spec fn html(s: RenderState, h: Seq<char>) -> RenderState {
    let t = trim(strip_tags(h));
    if t.len() > 0 {
        RenderState { para: s.para + fg(s, s.theme.colors.code_comment) + t + reset_all_seq(), ..s }
    } else {
        s
    }
}

/// A soft line break: a space in the open inline context.
pub open spec fn soft_break(s: RenderState) -> RenderState {
    if s.in_table_cell {
        RenderState { cell_plain: s.cell_plain.push(' '), cell_rich: s.cell_rich.push(' '), ..s }
    } else if !s.in_heading && s.code_buf is None {
        RenderState { para: s.para.push(' '), ..s }
    } else {
        s
    }
}

/// The styling that ends an emphasis when no emphasis stays open.
pub open spec fn close_emphasis(s: RenderState) -> RenderState {
    if s.strong == 0 && s.em == 0 && s.strike == 0 {
        push_ansi(s, reset_all_seq() + fg(s, s.theme.colors.foreground))
    } else {
        s
    }
}

// ── lists ────────────────────────────────────────────────────────────────────

/// The bullet for a list depth.
pub open spec fn bullet(depth: nat) -> char {
    if depth == 1 {
        '●'
    } else if depth == 2 {
        '○'
    } else {
        '▸'
    }
}

/// The successor of a list number, wrapping at the top of `u64`.
pub open spec fn next_number(n: u64) -> u64 {
    if n == u64::MAX { 0 } else { (n + 1) as u64 }
}

/// Whether the innermost open list is ordered.
pub open spec fn in_ordered_list(s: RenderState) -> bool {
    s.ordered.len() > 0 && s.ordered.last() is Some
}

/// What a list item's marker writes: the indent, then its number in an ordered
/// list, else a bullet for the depth.
pub open spec fn item_marker_text(s: RenderState) -> Seq<char> {
    let ind = repeat(' ', sat_mul(sat_sub(s.list_depth as int, 1), s.indent as nat));
    let mark = if in_ordered_list(s) {
        dec(s.ordered.last()->0 as nat) + seq!['.', ' ']
    } else {
        seq![bullet(s.list_depth), ' ']
    };
    fg(s, s.theme.colors.list_marker) + ind + mark + reset_color_seq()
}

/// The marker of a list item; an ordered list counts on.
pub open spec fn item_marker(s: RenderState) -> RenderState {
    RenderState {
        out: s.out + item_marker_text(s),
        ordered: if in_ordered_list(s) {
            s.ordered.update(s.ordered.len() - 1, Some(next_number(s.ordered.last()->0)))
        } else {
            s.ordered
        },
        ..s
    }
}

// ── code blocks ──────────────────────────────────────────────────────────────

/// Lines of `s` as `str::lines` gives them: split after each newline, the
/// newline (and a carriage return before it) removed, no empty line after a
/// final newline.
pub open spec fn lines_of(s: Seq<char>) -> Seq<Seq<char>> {
    let pieces = line_pieces(s);
    pieces.map_values(|p: Seq<char>| strip_line_end(p))
}

/// `s` cut after each newline; the last piece is the text after the last newline, if any.
pub open spec fn line_pieces(s: Seq<char>) -> Seq<Seq<char>>
    decreases s.len(),
{
    if s.len() == 0 {
        Seq::empty()
    } else {
        let prev = line_pieces(s.drop_last());
        let c = s.last();
        if prev.len() == 0 || prev.last().last() == '\n' {
            prev.push(seq![c])
        } else {
            prev.update(prev.len() - 1, prev.last().push(c))
        }
    }
}

/// A line piece without its newline, and without a carriage return before that newline.
pub open spec fn strip_line_end(p: Seq<char>) -> Seq<char> {
    if p.len() > 0 && p.last() == '\n' {
        let q = p.drop_last();
        if q.len() > 0 && q.last() == '\r' {
            q.drop_last()
        } else {
            q
        }
    } else {
        p
    }
}

/// Languages whose comments begin with `#`.
pub open spec fn hash_comment_language(l: Seq<char>) -> bool {
    ||| l == "python"@ ||| l == "py"@ ||| l == "ruby"@ ||| l == "rb"@ ||| l == "shell"@
    ||| l == "bash"@ ||| l == "sh"@ ||| l == "zsh"@ ||| l == "toml"@ ||| l == "yaml"@
    ||| l == "yml"@ ||| l == "bat"@ ||| l == "powershell"@ ||| l == "ps1"@
}

/// Languages whose comments begin with `--`.
pub open spec fn dash_comment_language(l: Seq<char>) -> bool {
    ||| l == "sql"@ ||| l == "lua"@ ||| l == "haskell"@ ||| l == "hs"@
}

/// The line-comment marker of a language (`//` when unknown).
pub open spec fn comment_marker(lang: Option<Seq<char>>) -> Seq<char> {
    match lang {
        Some(l) => if hash_comment_language(l) {
            seq!['#']
        } else if dash_comment_language(l) {
            seq!['-', '-']
        } else {
            seq!['/', '/']
        },
        None => seq!['/', '/'],
    }
}

/// Whether a code line is a comment in `lang`.
pub open spec fn is_comment_line(line: Seq<char>, lang: Option<Seq<char>>) -> bool {
    let t = trim_start(line);
    starts_with(t, comment_marker(lang)) || ((lang == Some("html"@) || lang == Some("xml"@))
        && starts_with(t, seq!['<', '!', '-', '-']))
}

/// Width of the box interior of a code block.
pub open spec fn code_inner(s: RenderState) -> nat {
    sat_sub(min_int(s.term_width as int, 100), 2)
}

/// Width of the line-number column (number plus a space), or 0.
pub open spec fn line_number_width(s: RenderState, count: nat) -> nat {
    if s.line_numbers { dec(count).len() + 1 } else { 0 }
}

/// Right-aligns `t` in a field of `w` columns.
pub open spec fn pad_left(t: Seq<char>, w: nat) -> Seq<char> {
    repeat(' ', sat_sub(w as int, t.len() as int)) + t
}

/// The line-number column of a code line (`i` counts from 0), or a single space.
pub open spec fn code_number(s: RenderState, count: nat, i: nat) -> Seq<char> {
    let lnw = line_number_width(s, count);
    if s.line_numbers {
        fg(s, s.theme.colors.code_comment) + pad_left(dec(i + 1), sat_sub(lnw as int, 1)) + seq![' ']
    } else {
        seq![' ']
    }
}

/// The styling of a code line: dim italics for comments.
pub open spec fn code_style(s: RenderState, line: Seq<char>, lang: Option<Seq<char>>) -> Seq<char> {
    if is_comment_line(line, lang) {
        fg(s, s.theme.colors.code_comment) + italic_seq()
    } else {
        fg(s, s.theme.colors.code_inline)
    }
}

/// One boxed line of a code block (`i` counts from 0).
pub open spec fn code_row(s: RenderState, lang: Option<Seq<char>>, count: nat, i: nat, line: Seq<char>) -> Seq<char> {
    let c = s.theme.colors;
    let lnw = line_number_width(s, count);
    let content_width = sat_sub(code_inner(s) as int, (1 + lnw) as int);
    fg(s, c.table_border) + seq!['│'] + code_number(s, count, i) + code_style(s, line, lang) + line
        + repeat(' ', sat_sub(content_width as int, line.len() as int)) + reset_attr_seq()
        + reset_color_seq() + fg(s, c.table_border) + seq!['│', '\n']
}

/// The boxed lines of a code block, for the first `ls.len()` lines.
pub open spec fn code_rows(s: RenderState, lang: Option<Seq<char>>, count: nat, ls: Seq<Seq<char>>) -> Seq<char>
    decreases ls.len(),
{
    if ls.len() == 0 {
        Seq::empty()
    } else {
        code_rows(s, lang, count, ls.drop_last()) + code_row(s, lang, count, (ls.len() - 1) as nat, ls.last())
    }
}

/// The top of a code block: the border, and the language label when there is one.
pub open spec fn code_head(s: RenderState, lang: Option<Seq<char>>) -> Seq<char> {
    let c = s.theme.colors;
    let inner = code_inner(s);
    let top = fg(s, c.table_border) + seq!['╭'] + repeat('─', inner) + seq!['╮', '\n'];
    let label = match lang {
        Some(l) => if l.len() > 0 {
            let lab = seq![' '] + l + seq![' '];
            seq!['│'] + bold_seq() + fg(s, c.code_keyword) + lab + reset_attr_seq() + fg(s, c.table_border)
                + repeat(' ', sat_sub(inner as int, lab.len() as int)) + seq!['│', '\n'] + seq!['├']
                + repeat('─', inner) + seq!['┤', '\n']
        } else {
            Seq::empty()
        },
        None => Seq::empty(),
    };
    top + label + reset_color_seq()
}

/// What a code block writes.
pub open spec fn code_block_text(s: RenderState, code: Seq<char>, lang: Option<Seq<char>>) -> Seq<char> {
    let c = s.theme.colors;
    let ls = lines_of(code);
    code_head(s, lang) + code_rows(s, lang, ls.len(), ls) + fg(s, c.table_border) + seq!['╰']
        + repeat('─', code_inner(s)) + seq!['╯', '\n'] + reset_color_seq() + seq!['\n']
}

// ── tables ───────────────────────────────────────────────────────────────────

/// Column widths after measuring the cells of one more row.
pub open spec fn widen(ws: Seq<nat>, cells: Seq<Seq<char>>) -> Seq<nat>
    decreases cells.len(),
{
    if cells.len() == 0 {
        ws
    } else {
        let prev = widen(ws, cells.drop_last());
        let ci = cells.len() - 1;
        let w = cells.last().len();
        if ci < prev.len() {
            if w > prev[ci] {
                prev.update(ci, w)
            } else {
                prev
            }
        } else {
            prev.push(max_int(w as int, 1) as nat)
        }
    }
}

/// Width of each table column: its widest cell, in characters, at least 1.
pub open spec fn col_widths(rows: Seq<RowView>) -> Seq<nat>
    decreases rows.len(),
{
    if rows.len() == 0 {
        Seq::empty()
    } else {
        widen(col_widths(rows.drop_last()), rows.last().plain)
    }
}

/// A border line's middle part: `fill` across each column and its padding,
/// `sep` between columns.
pub open spec fn border_cells(ws: Seq<nat>, fill: char, sep: char) -> Seq<char>
    decreases ws.len(),
{
    if ws.len() == 0 {
        Seq::empty()
    } else {
        border_cells(ws.drop_last(), fill, sep) + (if ws.len() >= 2 { seq![sep] } else { Seq::empty() })
            + repeat(fill, ws.last() + 2)
    }
}

/// One cell of a table row.
pub open spec fn table_cell(s: RenderState, ws: Seq<nat>, row: RowView, ci: nat) -> Seq<char> {
    let c = s.theme.colors;
    let w = if ci < ws.len() { ws[ci as int] } else { 1 };
    let plain = row.plain[ci as int];
    let shown = if ci < row.rich.len() { row.rich[ci as int] } else { plain };
    let style = if row.is_header { bold_seq() + fg(s, c.table_header) } else { fg(s, c.foreground) };
    seq![' '] + style + shown + repeat(' ', sat_sub(w as int, plain.len() as int)) + reset_attr_seq()
        + fg(s, c.table_border) + seq![' ', '│']
}

/// The first `n` cells of a table row.
pub open spec fn table_cells(s: RenderState, ws: Seq<nat>, row: RowView, n: nat) -> Seq<char>
    decreases n,
{
    if n == 0 {
        Seq::empty()
    } else {
        table_cells(s, ws, row, (n - 1) as nat) + table_cell(s, ws, row, (n - 1) as nat)
    }
}

/// One table row, preceded by the header separator when it is the first body row after a header.
pub open spec fn table_row(s: RenderState, ws: Seq<nat>, rows: Seq<RowView>, ri: nat) -> Seq<char> {
    let c = s.theme.colors;
    let row = rows[ri as int];
    let sep = if ri > 0 && rows[ri - 1].is_header && !row.is_header {
        fg(s, c.table_border) + seq!['├'] + border_cells(ws, '═', '╪') + seq!['┤', '\n']
    } else {
        Seq::empty()
    };
    sep + fg(s, c.table_border) + seq!['│'] + table_cells(s, ws, row, row.plain.len()) + seq!['\n']
}

/// The first `n` rows of a table.
pub open spec fn table_rows(s: RenderState, ws: Seq<nat>, rows: Seq<RowView>, n: nat) -> Seq<char>
    decreases n,
{
    if n == 0 {
        Seq::empty()
    } else {
        table_rows(s, ws, rows, (n - 1) as nat) + table_row(s, ws, rows, (n - 1) as nat)
    }
}

/// What a table writes: a box with one line per row.
pub open spec fn table_text(s: RenderState, rows: Seq<RowView>) -> Seq<char> {
    let c = s.theme.colors;
    let ws = col_widths(rows);
    fg(s, c.table_border) + seq!['┌'] + border_cells(ws, '─', '┬') + seq!['┐', '\n']
        + table_rows(s, ws, rows, rows.len()) + fg(s, c.table_border) + seq!['└'] + border_cells(
        ws,
        '─',
        '┴',
    ) + seq!['┘', '\n'] + reset_color_seq() + seq!['\n']
}

/// Writes the collected table, if it has rows, and forgets them.
#[verifier::opaque]
pub open spec fn flush_table(s: RenderState) -> RenderState {
    if s.rows.len() == 0 {
        s
    } else {
        RenderState { out: s.out + table_text(s, s.rows), rows: Seq::empty(), ..s }
    }
}

// ── events ───────────────────────────────────────────────────────────────────

/// The effect of a start event.
pub open spec fn start_tag(s: RenderState, t: TagView) -> RenderState {
    let c = s.theme.colors;
    match t {
        TagView::Heading(level) => {
            let s1 = flush_para(s);
            RenderState { heading_text: Seq::empty(), heading_level: level, in_heading: true, ..s1 }
        },
        TagView::Paragraph => s,
        TagView::Strong => {
            let s1 = RenderState { strong: sat_inc(s.strong), ..s };
            push_ansi(s1, fg(s, c.bold) + bold_seq())
        },
        TagView::Emphasis => {
            let s1 = RenderState { em: sat_inc(s.em), ..s };
            push_ansi(s1, fg(s, c.italic) + italic_seq())
        },
        TagView::Strikethrough => {
            let s1 = RenderState { strike: sat_inc(s.strike), ..s };
            push_ansi(s1, fg(s, c.strikethrough) + strike_seq())
        },
        TagView::CodeBlock(kind) => {
            let s1 = flush_para(s);
            let lang = match kind {
                Some(l) => if l.len() > 0 { Some(l) } else { None },
                None => None,
            };
            RenderState { code_buf: Some(Seq::empty()), code_lang: lang, ..s1 }
        },
        TagView::Link(dest) => {
            let s1 = RenderState { in_link: true, link_dest: dest, link_text: Seq::empty(), ..s };
            push_ansi(s1, fg(s, c.link) + underline_seq())
        },
        TagView::Image => RenderState { in_image: true, image_alt: Seq::empty(), ..s },
        TagView::List(start) => {
            let s1 = flush_para(s);
            RenderState { ordered: s1.ordered.push(start), list_depth: sat_inc(s1.list_depth), ..s1 }
        },
        TagView::Item => item_marker(flush_para(s)),
        TagView::BlockQuote => {
            let s1 = flush_para(s);
            RenderState {
                in_blockquote: true,
                para: s1.para + fg(s, c.blockquote) + italic_seq(),
                ..s1
            }
        },
        TagView::Table => {
            let s1 = flush_para(s);
            RenderState { in_table: true, rows: Seq::empty(), ..s1 }
        },
        TagView::TableHead => RenderState { in_table_head: true, ..s },
        TagView::TableRow => RenderState { row_plain: Seq::empty(), row_rich: Seq::empty(), ..s },
        TagView::TableCell => RenderState {
            cell_plain: Seq::empty(),
            cell_rich: Seq::empty(),
            in_table_cell: true,
            ..s
        },
        TagView::FootnoteDefinition(name) => {
            let s1 = flush_para(s);
            RenderState {
                para: s1.para + fg(s, c.link_url) + seq!['[', '^'] + name + seq![']', ':', ' ']
                    + reset_all_seq(),
                ..s1
            }
        },
    }
}

/// Closing a heading writes it.
#[verifier::opaque]
pub open spec fn end_heading(s: RenderState) -> RenderState {
    let s1 = RenderState { in_heading: false, ..s };
    emit(s1, heading_text(s1, s1.heading_text, s1.heading_level))
}

/// Closing an emphasis of kind `t` (strong, emphasis or strikethrough).
#[verifier::opaque]
pub open spec fn end_emphasis(s: RenderState, t: TagView) -> RenderState {
    let s1 = if t is Strong {
        RenderState { strong: sat_sub(s.strong as int, 1), ..s }
    } else if t is Emphasis {
        RenderState { em: sat_sub(s.em as int, 1), ..s }
    } else {
        RenderState { strike: sat_sub(s.strike as int, 1), ..s }
    };
    close_emphasis(s1)
}

/// Closing a code block writes it, without its trailing newlines.
#[verifier::opaque]
pub open spec fn end_code_block(s: RenderState) -> RenderState {
    match s.code_buf {
        Some(code) => {
            let s1 = RenderState { code_buf: None, code_lang: None, ..s };
            emit(s1, code_block_text(s1, trim_end_char(code, '\n'), s.code_lang))
        },
        None => s,
    }
}

/// Closing a link appends its destination in parentheses.
#[verifier::opaque]
pub open spec fn end_link(s: RenderState) -> RenderState {
    let url_part = seq![' ', '('] + s.link_dest + seq![')'];
    let ansi = reset_all_seq() + fg(s, s.theme.colors.link_url) + url_part + reset_all_seq();
    let s1 = if s.in_table_cell {
        RenderState { cell_plain: s.cell_plain + url_part, cell_rich: s.cell_rich + ansi, ..s }
    } else {
        RenderState { para: s.para + ansi, ..s }
    };
    RenderState { in_link: false, link_dest: Seq::empty(), link_text: Seq::empty(), ..s1 }
}

/// Closing an image shows its alternative text (or `image`).
#[verifier::opaque]
pub open spec fn end_image(s: RenderState) -> RenderState {
    let alt = if s.image_alt.len() == 0 { "image"@ } else { s.image_alt };
    let shown = "[🖼  "@ + alt + seq![']'];
    let ansi = fg(s, s.theme.colors.italic) + shown + reset_all_seq();
    let s1 = if s.in_table_cell {
        RenderState { cell_plain: s.cell_plain + shown, cell_rich: s.cell_rich + ansi, ..s }
    } else {
        RenderState { para: s.para + ansi, ..s }
    };
    RenderState { in_image: false, image_alt: Seq::empty(), ..s1 }
}

/// Closing a list; the outermost list is followed by a blank line.
#[verifier::opaque]
pub open spec fn end_list(s: RenderState) -> RenderState {
    let depth = sat_sub(s.list_depth as int, 1);
    let s1 = RenderState {
        list_depth: depth,
        ordered: if s.ordered.len() > 0 { s.ordered.drop_last() } else { s.ordered },
        ..s
    };
    if depth == 0 { emit(s1, seq!['\n']) } else { s1 }
}

/// Closing a block quote.
#[verifier::opaque]
pub open spec fn end_blockquote(s: RenderState) -> RenderState {
    let s1 = RenderState { in_blockquote: false, ..flush_para(s) };
    emit(s1, reset_attr_seq() + reset_color_seq() + seq!['\n'])
}

/// Closing a table row collects it.
#[verifier::opaque]
pub open spec fn end_table_row(s: RenderState) -> RenderState {
    RenderState {
        rows: s.rows.push(RowView { plain: s.row_plain, rich: s.row_rich, is_header: s.in_table_head }),
        row_plain: Seq::empty(),
        row_rich: Seq::empty(),
        ..s
    }
}

/// Closing a table cell collects it.
#[verifier::opaque]
pub open spec fn end_table_cell(s: RenderState) -> RenderState {
    RenderState {
        in_table_cell: false,
        row_plain: s.row_plain.push(s.cell_plain),
        row_rich: s.row_rich.push(s.cell_rich + reset_all_seq()),
        cell_plain: Seq::empty(),
        cell_rich: Seq::empty(),
        ..s
    }
}

/// The effect of an end event.
pub open spec fn end_tag(s: RenderState, t: TagView) -> RenderState {
    match t {
        TagView::Heading(_) => end_heading(s),
        TagView::Paragraph => emit(flush_para(s), seq!['\n']),
        TagView::Strong => end_emphasis(s, t),
        TagView::Emphasis => end_emphasis(s, t),
        TagView::Strikethrough => end_emphasis(s, t),
        TagView::CodeBlock(_) => end_code_block(s),
        TagView::Link(_) => end_link(s),
        TagView::Image => end_image(s),
        TagView::List(_) => end_list(s),
        TagView::Item => flush_para(s),
        TagView::BlockQuote => end_blockquote(s),
        TagView::Table => flush_table(RenderState { in_table: false, ..s }),
        TagView::TableHead => RenderState { in_table_head: false, ..s },
        TagView::TableRow => end_table_row(s),
        TagView::TableCell => end_table_cell(s),
        TagView::FootnoteDefinition(_) => emit(flush_para(s), seq!['\n']),
    }
}

/// The effect of one event.
pub open spec fn step(s: RenderState, e: EventView) -> RenderState {
    let c = s.theme.colors;
    match e {
        EventView::Start(t) => start_tag(s, t),
        EventView::End(t) => end_tag(s, t),
        EventView::Text(text) => push_inline_text(s, text),
        EventView::Code(text) => inline_code(s, text),
        EventView::Html(h) => html(s, h),
        EventView::FootnoteReference(name) => RenderState {
            para: s.para + fg(s, c.link_url) + seq!['[', '^'] + name + seq![']'] + reset_all_seq(),
            ..s
        },
        EventView::SoftBreak => soft_break(s),
        EventView::HardBreak => flush_para(s),
        EventView::Rule => emit(hr(flush_para(s)), seq!['\n']),
        EventView::TaskListMarker(checked) => emit(
            s,
            fg(s, c.list_marker) + (if checked { seq!['☑', ' '] } else { seq!['☐', ' '] })
                + reset_color_seq(),
        ),
    }
}

/// The state after a sequence of events.
pub open spec fn run(s: RenderState, es: Seq<EventView>) -> RenderState
    decreases es.len(),
{
    if es.len() == 0 {
        s
    } else {
        step(run(s, es.drop_last()), es.last())
    }
}

/// The state after a whole document: all events, then the pending paragraph
/// and a final colour reset.
pub open spec fn finish(s: RenderState, es: Seq<EventView>) -> RenderState {
    emit(flush_para(run(s, es)), reset_color_seq())
}

} // verus!
