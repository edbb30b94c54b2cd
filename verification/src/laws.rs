//! Properties of the library as a whole, stated over the models that the
//! functions' contracts use, and proved.

use vstd::prelude::*;
use vstd::string::*;
use crate::ansi::{bold_seq, reset_attr_seq, reset_color_seq, sgr};
use crate::theme::{builtin_theme_names, builtin_theme_views, law_builtin_theme_names_distinct, AnsiColor};
use crate::cli::{chosen_pager_cmd, chosen_theme_name, pager_wanted};
use crate::config::{config_from_entries, default_config, default_config_lines, digit_value, digits_value, documented_settings, entries_of, found_entry, is_comment_or_blank, parse_bool, parse_unsigned, setting_line, setting_lines, toml_value_text, unsigned_body, AppConfigView};
use crate::markdown::{EventView, TagView};
use crate::render_model::{border_cells, col_widths, emit, end_blockquote, end_code_block, end_emphasis, end_heading, end_image, end_link, end_list, end_table_cell, end_table_row, end_tag, fg, finish, flush_para, flush_table, in_ordered_list, item_marker_text, layout, next_number, run, sat_mul, start_tag, step, table_cell, table_cells, visible_count, visible_scan, widen, RenderState, RowView};
use crate::text::{dec, lemma_sorted_unique, max_int, repeat, sat_sub, sorted_by_lex};
use crate::renderer::padded_right;

verus! {

// ── visible width ────────────────────────────────────────────────────────────

/// Reading `a` then `b` counts the visible characters of each, as long as `a`
/// does not stop inside an escape sequence.
pub proof fn lemma_visible_concat(a: Seq<char>, b: Seq<char>)
    requires
        !visible_scan(a).1,
    ensures
        visible_scan(a + b).0 == visible_scan(a).0 + visible_scan(b).0,
        visible_scan(a + b).1 == visible_scan(b).1,
    decreases b.len(),
{
    if b.len() == 0 {
        assert(a + b =~= a);
    } else {
        lemma_visible_concat(a, b.drop_last());
        assert((a + b).drop_last() =~= a + b.drop_last());
    }
}

/// A styling sequence `ESC [ body m` whose body holds no `m` shows nothing.
pub proof fn lemma_sgr_invisible(body: Seq<char>)
    requires
        forall|i: int| 0 <= i < body.len() ==> body[i] != 'm',
    ensures
        visible_scan(sgr(body)) == (0nat, false),
    decreases body.len(),
{
    let open = seq!['\x1b', '['];
    assert forall|k: int| 0 <= k <= body.len() implies visible_scan(#[trigger] (open + body.take(k))) == (0nat, true) by {
        lemma_sgr_prefix(body, k);
    }
    assert(open + body.take(body.len() as int) =~= open + body);
    assert(sgr(body).drop_last() =~= open + body);
}

/// Inside an open escape sequence, characters other than `m` show nothing.
proof fn lemma_sgr_prefix(body: Seq<char>, k: int)
    requires
        forall|i: int| 0 <= i < body.len() ==> body[i] != 'm',
        0 <= k <= body.len(),
    ensures
        visible_scan(seq!['\x1b', '['] + body.take(k)) == (0nat, true),
    decreases k,
{
    let open = seq!['\x1b', '['];
    if k == 0 {
        assert(open + body.take(0) =~= open);
        assert(open.drop_last() =~= seq!['\x1b']);
        assert(seq!['\x1b'].drop_last() =~= Seq::<char>::empty());
        assert(visible_scan(Seq::<char>::empty()) == (0nat, false));
        assert(visible_scan(seq!['\x1b']) == (0nat, true));
        assert(visible_scan(open) == (0nat, true));
    } else {
        lemma_sgr_prefix(body, k - 1);
        let t = open + body.take(k);
        assert(t.drop_last() =~= open + body.take(k - 1));
        assert(t.last() == body[k - 1]);
    }
}

/// Law: the visible width ignores styling. Text around a styling sequence whose
/// body holds no `m` has the width of the text alone, provided the text before
/// it does not stop inside an escape sequence.
pub proof fn law_styling_has_no_width(a: Seq<char>, body: Seq<char>, b: Seq<char>)
    requires
        !visible_scan(a).1,
        forall|i: int| 0 <= i < body.len() ==> body[i] != 'm',
    ensures
        visible_count(a + sgr(body) + b) == visible_count(a) + visible_count(b),
{
    lemma_sgr_invisible(body);
    lemma_visible_concat(a, sgr(body));
    lemma_visible_concat(a + sgr(body), b);
}

/// Spaces each count one visible column.
proof fn lemma_spaces_visible(n: nat)
    ensures
        visible_scan(repeat(' ', n)) == (n, false),
    decreases n,
{
    if n > 0 {
        lemma_spaces_visible((n - 1) as nat);
        assert(repeat(' ', n).drop_last() =~= repeat(' ', (n - 1) as nat));
    }
}

/// Law: padding on the right reaches the requested width, and never shortens
/// text that is already wider (for text that does not stop inside an escape
/// sequence).
pub proof fn law_pad_right_width(s: Seq<char>, width: nat)
    requires
        !visible_scan(s).1,
    ensures
        visible_count(padded_right(s, width)) == max_int(visible_count(s) as int, width as int),
{
    if visible_count(s) < width {
        let n = (width - visible_count(s)) as nat;
        lemma_spaces_visible(n);
        lemma_visible_concat(s, repeat(' ', n));
    }
}

// ── paragraphs ───────────────────────────────────────────────────────────────

/// Law: word wrapping keeps every line within the available width: when each
/// word fits on a line of `avail` columns, the line being filled never grows
/// past `avail`, after any number of words.
pub proof fn law_wrapped_lines_fit(words: Seq<Seq<char>>, ind: Seq<char>, avail: nat)
    requires
        forall|i: int| 0 <= i < words.len() ==> visible_count(#[trigger] words[i]) <= avail,
    ensures
        forall|k: int| 0 <= k <= words.len() ==> #[trigger] layout(words.take(k), ind, avail).col <= avail,
    decreases words.len(),
{
    if words.len() > 0 {
        let front = words.drop_last();
        assert forall|i: int| 0 <= i < front.len() implies visible_count(#[trigger] front[i]) <= avail by {
            assert(front[i] == words[i]);
        }
        law_wrapped_lines_fit(front, ind, avail);
        assert(front.take(front.len() as int) =~= front);
        assert(layout(front, ind, avail).col <= avail);
        if front.len() > 0 {
            assert(layout(front, ind, avail).started);
        }
        assert(visible_count(words[words.len() - 1]) <= avail);
        assert(words.take(words.len() as int) =~= words);
        assert(layout(words, ind, avail).col <= avail);
        assert forall|k: int| 0 <= k <= words.len() implies #[trigger] layout(words.take(k), ind, avail).col
            <= avail by {
            if k < words.len() {
                assert(words.take(k) =~= front.take(k));
            }
        }
    }
}

// ── tables ───────────────────────────────────────────────────────────────────

/// Widening by a row leaves every column at least as wide as before, makes each
/// of the row's cells fit, and keeps every width at least 1.
proof fn lemma_widen(ws: Seq<nat>, cells: Seq<Seq<char>>)
    requires
        forall|j: int| 0 <= j < ws.len() ==> ws[j] >= 1,
    ensures
        widen(ws, cells).len() == max_int(ws.len() as int, cells.len() as int),
        forall|j: int| 0 <= j < ws.len() ==> #[trigger] widen(ws, cells)[j] >= ws[j],
        forall|j: int| 0 <= j < cells.len() ==> #[trigger] widen(ws, cells)[j] >= cells[j].len(),
        forall|j: int| 0 <= j < widen(ws, cells).len() ==> #[trigger] widen(ws, cells)[j] >= 1,
    decreases cells.len(),
{
    if cells.len() > 0 {
        let front = cells.drop_last();
        lemma_widen(ws, front);
        let prev = widen(ws, front);
        let ci = cells.len() - 1;
        let cur = widen(ws, cells);
        assert forall|j: int| 0 <= j < prev.len() && j != ci implies #[trigger] cur[j] == prev[j] by {}
        assert forall|j: int| 0 <= j < cells.len() implies #[trigger] cur[j] >= cells[j].len() by {
            if j < ci {
                assert(cells[j] == front[j]);
                assert(prev[j] >= front[j].len());
            }
        }
    }
}

/// Law: every table column is at least as wide as each of its cells, and at
/// least one character wide; there is a column for every cell.
pub proof fn law_columns_fit_cells(rows: Seq<RowView>)
    ensures
        forall|j: int| 0 <= j < col_widths(rows).len() ==> #[trigger] col_widths(rows)[j] >= 1,
        forall|r: int| 0 <= r < rows.len() ==> (#[trigger] rows[r]).plain.len() <= col_widths(rows).len(),
        forall|r: int, j: int|
            0 <= r < rows.len() && 0 <= j < rows[r].plain.len() ==> col_widths(rows)[j]
                >= #[trigger] rows[r].plain[j].len(),
    decreases rows.len(),
{
    if rows.len() > 0 {
        let front = rows.drop_last();
        law_columns_fit_cells(front);
        let prev = col_widths(front);
        let last = rows.last().plain;
        lemma_widen(prev, last);
        let cur = col_widths(rows);
        assert(cur == widen(prev, last));
        assert forall|r: int| 0 <= r < rows.len() implies (#[trigger] rows[r]).plain.len() <= col_widths(rows).len() by {
            if r < front.len() {
                assert(rows[r] == front[r]);
            }
        }
        assert forall|r: int, j: int|
            0 <= r < rows.len() && 0 <= j < rows[r].plain.len() implies col_widths(rows)[j]
                >= #[trigger] rows[r].plain[j].len() by {
            if r < front.len() {
                assert(rows[r] == front[r]);
                assert(j < prev.len() && prev[j] >= front[r].plain[j].len());
                assert(cur[j] >= prev[j]);
            } else {
                assert(rows[r].plain == last);
                assert(cur[j] >= last[j].len());
            }
        }
    }
}

// ── whole documents ──────────────────────────────────────────────────────────

/// Law: a rendered document always ends by resetting the colours.
pub proof fn law_document_ends_with_reset(s: RenderState, es: Seq<crate::markdown::EventView>)
    ensures
        finish(s, es).out.len() >= reset_color_seq().len(),
        finish(s, es).out.subrange(
            finish(s, es).out.len() - reset_color_seq().len(),
            finish(s, es).out.len() as int,
        ) == reset_color_seq(),
{
    let t = finish(s, es).out;
    assert(t.subrange(t.len() - reset_color_seq().len(), t.len() as int) =~= reset_color_seq());
}

// ── settings ─────────────────────────────────────────────────────────────────

/// Law: options given on the command line (or through their environment
/// variables) win over the configuration file: the theme and the pager command
/// come from the option when it is given, and `--no-pager` turns the pager off
/// whatever `--pager` and the configuration say.
pub proof fn law_options_override_config(
    option: Option<Seq<char>>,
    configured: Seq<char>,
    cmd_option: Option<Seq<char>>,
    cmd_configured: Option<Seq<char>>,
    pager: bool,
    configured_pager: bool,
)
    ensures
        option matches Some(n) ==> chosen_theme_name(option, configured) == n,
        option is None ==> chosen_theme_name(option, configured) == configured,
        cmd_option is Some ==> chosen_pager_cmd(cmd_option, cmd_configured) == cmd_option,
        !pager_wanted(pager, true, configured_pager),
        pager_wanted(true, false, configured_pager),
        pager_wanted(pager, false, true),
{
}

// ── configuration ────────────────────────────────────────────────────────────

/// Law: each key of a configuration file overrides its default on its own:
/// a text key takes the file's value, any other key the value it reads as
/// (a boolean, a width up to 65535, an indent), and a key that is missing or
/// unreadable leaves the default.
pub proof fn law_config_keys_override_defaults(m: Map<Seq<char>, Seq<char>>)
    ensures
        config_from_entries(m).theme == (if m.contains_key("theme"@) { m["theme"@] } else { "fruity"@ }),
        config_from_entries(m).pager == (if m.contains_key("pager"@) && parse_bool(m["pager"@]) is Some {
            parse_bool(m["pager"@])->0
        } else {
            false
        }),
        config_from_entries(m).pager_cmd == (if m.contains_key("pager_cmd"@) {
            Some(m["pager_cmd"@])
        } else {
            None
        }),
        config_from_entries(m).width == (if m.contains_key("width"@) && parse_unsigned(m["width"@], 65535) is Some {
            Some(parse_unsigned(m["width"@], 65535)->0 as u16)
        } else {
            None
        }),
        config_from_entries(m).line_numbers == (if m.contains_key("line_numbers"@) && parse_bool(
            m["line_numbers"@],
        ) is Some {
            parse_bool(m["line_numbers"@])->0
        } else {
            false
        }),
        config_from_entries(m).themes_dir == (if m.contains_key("themes_dir"@) {
            Some(m["themes_dir"@])
        } else {
            None
        }),
        config_from_entries(m).show_header == (if m.contains_key("show_header"@) && parse_bool(
            m["show_header"@],
        ) is Some {
            parse_bool(m["show_header"@])->0
        } else {
            true
        }),
        config_from_entries(m).word_wrap == (if m.contains_key("word_wrap"@) && parse_bool(m["word_wrap"@]) is Some {
            parse_bool(m["word_wrap"@])->0
        } else {
            true
        }),
        config_from_entries(m).indent == (if m.contains_key("indent"@) && parse_unsigned(
            m["indent"@],
            usize::MAX as nat,
        ) is Some {
            parse_unsigned(m["indent"@], usize::MAX as nat)->0 as usize
        } else {
            2
        }),
{
    let c0 = default_config();
    let c1 = found_entry(c0, m, "theme"@);
    let c2 = found_entry(c1, m, "pager"@);
    let c3 = found_entry(c2, m, "pager_cmd"@);
    let c4 = found_entry(c3, m, "width"@);
    let c5 = found_entry(c4, m, "line_numbers"@);
    let c6 = found_entry(c5, m, "themes_dir"@);
    let c7 = found_entry(c6, m, "show_header"@);
    let c8 = found_entry(c7, m, "word_wrap"@);
    let c9 = found_entry(c8, m, "indent"@);
    lemma_found_frame(c0, m, "theme"@);
    lemma_found_frame(c1, m, "pager"@);
    lemma_found_frame(c2, m, "pager_cmd"@);
    lemma_found_frame(c3, m, "width"@);
    lemma_found_frame(c4, m, "line_numbers"@);
    lemma_found_frame(c5, m, "themes_dir"@);
    lemma_found_frame(c6, m, "show_header"@);
    lemma_found_frame(c7, m, "word_wrap"@);
    lemma_found_frame(c8, m, "indent"@);
    reveal_strlit("theme");
    reveal_strlit("pager");
    reveal_strlit("pager_cmd");
    reveal_strlit("width");
    reveal_strlit("line_numbers");
    reveal_strlit("themes_dir");
    reveal_strlit("show_header");
    reveal_strlit("word_wrap");
    reveal_strlit("indent");
    assert("theme"@.len() == 5 && "theme"@[0] == 't');
    assert("pager"@.len() == 5 && "pager"@[0] == 'p');
    assert("pager_cmd"@.len() == 9 && "pager_cmd"@[0] == 'p');
    assert("width"@.len() == 5 && "width"@[0] == 'w');
    assert("line_numbers"@.len() == 12 && "line_numbers"@[0] == 'l');
    assert("themes_dir"@.len() == 10 && "themes_dir"@[0] == 't');
    assert("show_header"@.len() == 11 && "show_header"@[0] == 's');
    assert("word_wrap"@.len() == 9 && "word_wrap"@[0] == 'w');
    assert("indent"@.len() == 6 && "indent"@[0] == 'i');
}

/// Reading the entry under `k` changes only the field named `k`, and that one
/// as the entry's value reads.
proof fn lemma_found_frame(c: AppConfigView, m: Map<Seq<char>, Seq<char>>, k: Seq<char>)
    ensures
        k != "theme"@ ==> found_entry(c, m, k).theme == c.theme,
        k != "pager"@ ==> found_entry(c, m, k).pager == c.pager,
        k != "pager_cmd"@ ==> found_entry(c, m, k).pager_cmd == c.pager_cmd,
        k != "width"@ ==> found_entry(c, m, k).width == c.width,
        k != "line_numbers"@ ==> found_entry(c, m, k).line_numbers == c.line_numbers,
        k != "themes_dir"@ ==> found_entry(c, m, k).themes_dir == c.themes_dir,
        k != "show_header"@ ==> found_entry(c, m, k).show_header == c.show_header,
        k != "word_wrap"@ ==> found_entry(c, m, k).word_wrap == c.word_wrap,
        k != "indent"@ ==> found_entry(c, m, k).indent == c.indent,
        k == "theme"@ ==> found_entry(c, m, k).theme == (if m.contains_key(k) { m[k] } else { c.theme }),
        k == "pager"@ ==> found_entry(c, m, k).pager == (if m.contains_key(k) && parse_bool(m[k]) is Some {
            parse_bool(m[k])->0
        } else {
            c.pager
        }),
        k == "pager_cmd"@ ==> found_entry(c, m, k).pager_cmd == (if m.contains_key(k) {
            Some(m[k])
        } else {
            c.pager_cmd
        }),
        k == "width"@ ==> found_entry(c, m, k).width == (if m.contains_key(k) && parse_unsigned(m[k], 65535) is Some {
            Some(parse_unsigned(m[k], 65535)->0 as u16)
        } else {
            c.width
        }),
        k == "line_numbers"@ ==> found_entry(c, m, k).line_numbers == (if m.contains_key(k) && parse_bool(m[k]) is Some {
            parse_bool(m[k])->0
        } else {
            c.line_numbers
        }),
        k == "themes_dir"@ ==> found_entry(c, m, k).themes_dir == (if m.contains_key(k) {
            Some(m[k])
        } else {
            c.themes_dir
        }),
        k == "show_header"@ ==> found_entry(c, m, k).show_header == (if m.contains_key(k) && parse_bool(m[k]) is Some {
            parse_bool(m[k])->0
        } else {
            c.show_header
        }),
        k == "word_wrap"@ ==> found_entry(c, m, k).word_wrap == (if m.contains_key(k) && parse_bool(m[k]) is Some {
            parse_bool(m[k])->0
        } else {
            c.word_wrap
        }),
        k == "indent"@ ==> found_entry(c, m, k).indent == (if m.contains_key(k) && parse_unsigned(
            m[k],
            usize::MAX as nat,
        ) is Some {
            parse_unsigned(m[k], usize::MAX as nat)->0 as usize
        } else {
            c.indent
        }),
{
    reveal_strlit("theme");
    reveal_strlit("pager");
    reveal_strlit("pager_cmd");
    reveal_strlit("width");
    reveal_strlit("line_numbers");
    reveal_strlit("themes_dir");
    reveal_strlit("show_header");
    reveal_strlit("word_wrap");
    reveal_strlit("indent");
    assert("theme"@.len() == 5 && "theme"@[0] == 't');
    assert("pager"@.len() == 5 && "pager"@[0] == 'p');
    assert("pager_cmd"@.len() == 9 && "pager_cmd"@[0] == 'p');
    assert("width"@.len() == 5 && "width"@[0] == 'w');
    assert("line_numbers"@.len() == 12 && "line_numbers"@[0] == 'l');
    assert("themes_dir"@.len() == 10 && "themes_dir"@[0] == 't');
    assert("show_header"@.len() == 11 && "show_header"@[0] == 's');
    assert("word_wrap"@.len() == 9 && "word_wrap"@[0] == 'w');
    assert("indent"@.len() == 6 && "indent"@[0] == 'i');
}

// ── rendering invariants ─────────────────────────────────────────────────────

/// `b` continues `a`: what `a` wrote stays at the front of what `b` wrote, and
/// the rendering settings are the same.
pub open spec fn continues(a: RenderState, b: RenderState) -> bool {
    &&& a.out.is_prefix_of(b.out)
    &&& b.theme == a.theme
    &&& b.term_width == a.term_width
    &&& b.line_numbers == a.line_numbers
    &&& b.word_wrap == a.word_wrap
    &&& b.indent == a.indent
    &&& b.color_off == a.color_off
}

proof fn lemma_continues_trans(a: RenderState, b: RenderState, c: RenderState)
    requires
        continues(a, b),
        continues(b, c),
    ensures
        continues(a, c),
{
    assert(a.out =~= c.out.subrange(0, a.out.len() as int)) by {
        assert(b.out.subrange(0, a.out.len() as int) =~= c.out.subrange(0, a.out.len() as int));
    }
}

proof fn lemma_emit_continues(s: RenderState, x: Seq<char>)
    ensures
        continues(s, emit(s, x)),
{
    assert(s.out =~= (s.out + x).subrange(0, s.out.len() as int));
}

proof fn lemma_flush_para_continues(s: RenderState)
    ensures
        continues(s, flush_para(s)),
        flush_para(s).ordered == s.ordered,
        flush_para(s).list_depth == s.list_depth,
{
    reveal(flush_para);
    if s.para.len() > 0 {
        assert(s.out =~= flush_para(s).out.subrange(0, s.out.len() as int));
    }
}

proof fn lemma_flush_table_continues(s: RenderState)
    ensures
        continues(s, flush_table(s)),
{
    reveal(flush_table);
    if s.rows.len() > 0 {
        assert(s.out =~= flush_table(s).out.subrange(0, s.out.len() as int));
    }
}

proof fn lemma_start_tag_continues(s: RenderState, t: TagView)
    ensures
        continues(s, start_tag(s, t)),
{
    lemma_flush_para_continues(s);
    if t is Item {
        let s1 = flush_para(s);
        lemma_emit_continues(s1, item_marker_text(s1));
        lemma_continues_trans(s, s1, start_tag(s, t));
    }
}

proof fn lemma_end_tag_continues(s: RenderState, t: TagView)
    ensures
        continues(s, end_tag(s, t)),
{
    lemma_flush_para_continues(s);
    let s1 = flush_para(s);
    match t {
        TagView::Heading(_) => lemma_end_heading_continues(s),
        TagView::Paragraph => {
            lemma_emit_continues(s1, seq!['\n']);
            lemma_continues_trans(s, s1, end_tag(s, t));
        },
        TagView::Strong => lemma_end_emphasis_continues(s, t),
        TagView::Emphasis => lemma_end_emphasis_continues(s, t),
        TagView::Strikethrough => lemma_end_emphasis_continues(s, t),
        TagView::CodeBlock(_) => lemma_end_code_block_continues(s),
        TagView::Link(_) => lemma_end_inline_continues(s),
        TagView::Image => lemma_end_inline_continues(s),
        TagView::List(_) => lemma_end_list_continues(s),
        TagView::BlockQuote => lemma_end_blockquote_continues(s),
        TagView::Table => {
            let u = RenderState { in_table: false, ..s };
            lemma_flush_table_continues(u);
        },
        TagView::TableRow => lemma_end_table_parts_continue(s),
        TagView::TableCell => lemma_end_table_parts_continue(s),
        TagView::FootnoteDefinition(_) => {
            lemma_emit_continues(s1, seq!['\n']);
            lemma_continues_trans(s, s1, end_tag(s, t));
        },
        _ => {},
    }
}

proof fn lemma_end_heading_continues(s: RenderState)
    ensures
        continues(s, end_heading(s)),
{
    reveal(end_heading);
    let h = RenderState { in_heading: false, ..s };
    lemma_emit_continues(h, crate::render_model::heading_text(h, h.heading_text, h.heading_level));
}

proof fn lemma_end_emphasis_continues(s: RenderState, t: TagView)
    ensures
        continues(s, end_emphasis(s, t)),
{
    reveal(end_emphasis);
    assert(s.out =~= end_emphasis(s, t).out.subrange(0, s.out.len() as int));
}

proof fn lemma_end_code_block_continues(s: RenderState)
    ensures
        continues(s, end_code_block(s)),
{
    reveal(end_code_block);
    if s.code_buf is Some {
        let c = RenderState { code_buf: None, code_lang: None, ..s };
        lemma_emit_continues(
            c,
            crate::render_model::code_block_text(c, crate::text::trim_end_char(s.code_buf->0, '\n'), s.code_lang),
        );
    } else {
        assert(s.out =~= s.out.subrange(0, s.out.len() as int));
    }
}

proof fn lemma_end_inline_continues(s: RenderState)
    ensures
        continues(s, end_link(s)),
        continues(s, end_image(s)),
{
    reveal(end_link);
    reveal(end_image);
    assert(s.out =~= s.out.subrange(0, s.out.len() as int));
}

proof fn lemma_end_list_continues(s: RenderState)
    ensures
        continues(s, end_list(s)),
{
    reveal(end_list);
    let depth = sat_sub(s.list_depth as int, 1);
    let l = RenderState {
        list_depth: depth,
        ordered: if s.ordered.len() > 0 { s.ordered.drop_last() } else { s.ordered },
        ..s
    };
    lemma_emit_continues(l, seq!['\n']);
    assert(s.out =~= s.out.subrange(0, s.out.len() as int));
}

proof fn lemma_end_blockquote_continues(s: RenderState)
    ensures
        continues(s, end_blockquote(s)),
{
    reveal(end_blockquote);
    lemma_flush_para_continues(s);
    let q = RenderState { in_blockquote: false, ..flush_para(s) };
    lemma_emit_continues(q, crate::ansi::reset_attr_seq() + reset_color_seq() + seq!['\n']);
    lemma_continues_trans(s, q, end_blockquote(s));
}

proof fn lemma_end_table_parts_continue(s: RenderState)
    ensures
        continues(s, end_table_row(s)),
        continues(s, end_table_cell(s)),
{
    reveal(end_table_row);
    reveal(end_table_cell);
    assert(s.out =~= s.out.subrange(0, s.out.len() as int));
}

/// Each event continues the rendering.
proof fn lemma_step_continues(s: RenderState, e: EventView)
    ensures
        continues(s, step(s, e)),
{
    match e {
        EventView::Start(t) => lemma_start_tag_continues(s, t),
        EventView::End(t) => lemma_end_tag_continues(s, t),
        EventView::HardBreak => lemma_flush_para_continues(s),
        EventView::Rule => {
            lemma_flush_para_continues(s);
            let s1 = flush_para(s);
            let s2 = crate::render_model::hr(s1);
            lemma_emit_continues(s1, fg(s1, s1.theme.colors.rule) + crate::text::repeat('─', s1.term_width as nat) + seq!['\n'] + reset_color_seq());
            lemma_emit_continues(s2, seq!['\n']);
            lemma_continues_trans(s, s1, s2);
            lemma_continues_trans(s, s2, step(s, e));
        },
        EventView::TaskListMarker(checked) => {
            lemma_emit_continues(
                s,
                fg(s, s.theme.colors.list_marker) + (if checked { seq!['☑', ' '] } else { seq!['☐', ' '] })
                    + reset_color_seq(),
            );
        },
        _ => {
            assert(s.out =~= step(s, e).out.subrange(0, s.out.len() as int));
        },
    }
}

/// Law: rendering only ever appends. Whatever events come, the text already
/// written stays at the front of the output, and the theme, width, line
/// numbering, wrapping, indent and colour mode stay as they were set; the same
/// holds of a whole document, which ends with the pending paragraph and a
/// colour reset.
pub proof fn law_rendering_only_appends(s: RenderState, es: Seq<EventView>)
    ensures
        continues(s, run(s, es)),
        continues(s, finish(s, es)),
    decreases es.len(),
{
    if es.len() > 0 {
        law_rendering_only_appends(s, es.drop_last());
        let r = run(s, es.drop_last());
        lemma_step_continues(r, es.last());
        lemma_continues_trans(s, r, run(s, es));
    } else {
        assert(s.out =~= s.out.subrange(0, s.out.len() as int));
    }
    let r = run(s, es);
    lemma_flush_para_continues(r);
    lemma_emit_continues(flush_para(r), reset_color_seq());
    lemma_continues_trans(r, flush_para(r), finish(s, es));
    lemma_continues_trans(s, r, finish(s, es));
}

// ── ordered lists ────────────────────────────────────────────────────────────

/// Law: an item of an ordered list is numbered by the list's counter, which
/// then counts on by one: the marker written is the counter in decimal, a dot
/// and a space, indented for the list depth, in the list-marker colour.
pub proof fn law_ordered_items_count_on(s: RenderState)
    requires
        in_ordered_list(s),
    ensures
        ({
            let s1 = flush_para(s);
            let n = s.ordered.last()->0;
            &&& step(s, EventView::Start(TagView::Item)).out == s1.out + fg(s1, s1.theme.colors.list_marker)
                + crate::text::repeat(' ', sat_mul(sat_sub(s1.list_depth as int, 1), s1.indent as nat))
                + dec(n as nat) + seq!['.', ' '] + reset_color_seq()
            &&& step(s, EventView::Start(TagView::Item)).ordered == s.ordered.update(
                s.ordered.len() - 1,
                Some(next_number(n)),
            )
        }),
{
    lemma_flush_para_continues(s);
    let s1 = flush_para(s);
    assert(in_ordered_list(s1));
    assert(step(s, EventView::Start(TagView::Item)).out =~= s1.out + item_marker_text(s1));
}

/// Law: a list that starts at `k` numbers its first item `k`, and counts on
/// to the next number for the item after it.
pub proof fn law_ordered_list_starts_at(s: RenderState, k: u64)
    ensures
        ({
            let s1 = step(s, EventView::Start(TagView::List(Some(k))));
            let s2 = step(s1, EventView::Start(TagView::Item));
            let s3 = step(step(s2, EventView::End(TagView::Item)), EventView::Start(TagView::Item));
            &&& s2.ordered.last() == Some(next_number(k))
            &&& s3.ordered.last() == Some(next_number(next_number(k)))
        }),
{
    lemma_flush_para_continues(s);
    let s1 = step(s, EventView::Start(TagView::List(Some(k))));
    assert(s1.ordered.last() == Some(k));
    law_ordered_items_count_on(s1);
    let s2 = step(s1, EventView::Start(TagView::Item));
    lemma_flush_para_continues(s2);
    let e = step(s2, EventView::End(TagView::Item));
    reveal(end_list);
    assert(e == flush_para(s2));
    assert(in_ordered_list(e));
    law_ordered_items_count_on(e);
}

// ── word wrapping, word by word ──────────────────────────────────────────────

/// What word wrapping writes before each word: the indent before the first,
/// then a space while the word fits on the line, else a line break and the
/// indent.
pub open spec fn layout_seps(words: Seq<Seq<char>>, ind: Seq<char>, avail: nat) -> Seq<Seq<char>>
    decreases words.len(),
{
    if words.len() == 0 {
        Seq::empty()
    } else {
        let st = layout(words.drop_last(), ind, avail);
        let w = visible_count(words.last());
        layout_seps(words.drop_last(), ind, avail).push(
            if !st.started {
                ind
            } else if st.col + 1 + w > avail {
                seq!['\n'] + ind
            } else {
                seq![' ']
            },
        )
    }
}

/// Each separator followed by its word, one after another.
pub open spec fn interleave(seps: Seq<Seq<char>>, words: Seq<Seq<char>>) -> Seq<char>
    decreases words.len(),
{
    if words.len() == 0 {
        Seq::empty()
    } else {
        interleave(seps.drop_last(), words.drop_last()) + seps.last() + words.last()
    }
}

/// Law: word wrapping keeps every word, in order, and changes only what stands
/// between them: the indent before the first word, then a single space, or a
/// line break and the indent exactly when the next word would not fit on the
/// line.
pub proof fn law_wrapping_keeps_words(words: Seq<Seq<char>>, ind: Seq<char>, avail: nat)
    ensures
        layout(words, ind, avail).text == interleave(layout_seps(words, ind, avail), words),
        layout(words, ind, avail).started == (words.len() > 0),
        layout_seps(words, ind, avail).len() == words.len(),
        words.len() > 0 ==> layout_seps(words, ind, avail)[0] == ind,
        forall|i: int|
            0 < i < words.len() ==> #[trigger] layout_seps(words, ind, avail)[i] == (if layout(
                words.take(i),
                ind,
                avail,
            ).col + 1 + visible_count(words[i]) > avail {
                seq!['\n'] + ind
            } else {
                seq![' ']
            }),
    decreases words.len(),
{
    if words.len() > 0 {
        let front = words.drop_last();
        law_wrapping_keeps_words(front, ind, avail);
        let seps = layout_seps(words, ind, avail);
        let fs = layout_seps(front, ind, avail);
        assert(seps.drop_last() =~= fs);
        assert(front.take(front.len() as int) =~= front);
        assert forall|i: int| 0 < i < words.len() implies #[trigger] layout_seps(words, ind, avail)[i] == (if layout(
            words.take(i),
            ind,
            avail,
        ).col + 1 + visible_count(words[i]) > avail {
            seq!['\n'] + ind
        } else {
            seq![' ']
        }) by {
            if i < front.len() {
                assert(seps[i] == fs[i]);
                assert(words.take(i) =~= front.take(i));
                assert(words[i] == front[i]);
            } else {
                assert(words.take(i) =~= front);
            }
        }
        if front.len() == 0 {
            assert(seps[0] == ind);
        } else {
            assert(seps[0] == fs[0]);
        }
    }
}

// ── table lines ──────────────────────────────────────────────────────────────

/// A character other than `ESC` shows, repeated, once per copy.
proof fn lemma_repeat_visible(c: char, n: nat)
    requires
        c != '\x1b',
    ensures
        visible_scan(repeat(c, n)) == (n, false),
    decreases n,
{
    if n > 0 {
        lemma_repeat_visible(c, (n - 1) as nat);
        assert(repeat(c, n).drop_last() =~= repeat(c, (n - 1) as nat));
    }
}

/// A single character other than `ESC` shows as one column.
proof fn lemma_char_visible(c: char)
    requires
        c != '\x1b',
    ensures
        visible_scan(seq![c]) == (1nat, false),
{
    let t = seq![c];
    assert(t.drop_last() =~= Seq::<char>::empty());
    assert(visible_scan(t.drop_last()) == (0nat, false));
    assert(t.last() == c);
}

/// Decimal digits hold no `m`.
proof fn lemma_dec_no_m(n: nat)
    ensures
        forall|i: int| 0 <= i < dec(n).len() ==> dec(n)[i] != 'm',
    decreases n,
{
    if n >= 10 {
        lemma_dec_no_m(n / 10);
        assert forall|i: int| 0 <= i < dec(n).len() implies dec(n)[i] != 'm' by {
            if i < dec(n).len() - 1 {
                assert(dec(n)[i] == dec(n / 10)[i]);
            }
        }
    }
}

/// A colour sequence shows nothing.
proof fn lemma_fg_invisible(s: RenderState, c: AnsiColor)
    ensures
        visible_scan(fg(s, c)) == (0nat, false),
{
    if s.color_off {
        lemma_sgr_invisible(Seq::<char>::empty());
    } else {
        let body = seq!['3', '8', ';', '2', ';'] + dec(c.r as nat) + seq![';'] + dec(c.g as nat) + seq![';'] + dec(
            c.b as nat,
        );
        lemma_dec_no_m(c.r as nat);
        lemma_dec_no_m(c.g as nat);
        lemma_dec_no_m(c.b as nat);
        assert forall|i: int| 0 <= i < body.len() implies body[i] != 'm' by {
            let a = 5 + dec(c.r as nat).len();
            let b = a + 1 + dec(c.g as nat).len();
            if i >= 5 && i < a {
                assert(body[i] == dec(c.r as nat)[i - 5]);
            } else if i > a && i < b {
                assert(body[i] == dec(c.g as nat)[i - a - 1]);
            } else if i > b {
                assert(body[i] == dec(c.b as nat)[i - b - 1]);
            }
        }
        lemma_sgr_invisible(body);
    }
}

/// The sum of the column widths.
pub open spec fn widths_sum(ws: Seq<nat>) -> nat
    decreases ws.len(),
{
    if ws.len() == 0 {
        0
    } else {
        widths_sum(ws.drop_last()) + ws.last()
    }
}

/// A border line's middle part shows each column's width plus two, and one
/// separator between columns.
proof fn lemma_border_visible(ws: Seq<nat>, fill: char, sep: char)
    requires
        fill != '\x1b',
        sep != '\x1b',
        ws.len() > 0,
    ensures
        visible_scan(border_cells(ws, fill, sep)) == ((widths_sum(ws) + 3 * ws.len() - 1) as nat, false),
    decreases ws.len(),
{
    let front = ws.drop_last();
    lemma_repeat_visible(fill, ws.last() + 2);
    assert(widths_sum(ws) == widths_sum(front) + ws.last());
    if front.len() == 0 {
        assert(widths_sum(front) == 0);
        assert(border_cells(front, fill, sep) =~= Seq::<char>::empty());
        lemma_visible_concat(Seq::<char>::empty(), repeat(fill, ws.last() + 2));
        assert(border_cells(ws, fill, sep) =~= Seq::<char>::empty() + repeat(fill, ws.last() + 2));
    } else {
        lemma_border_visible(front, fill, sep);
        lemma_char_visible(sep);
        let a = border_cells(front, fill, sep);
        lemma_visible_concat(a, seq![sep]);
        lemma_visible_concat(a + seq![sep], repeat(fill, ws.last() + 2));
        assert(border_cells(ws, fill, sep) =~= a + seq![sep] + repeat(fill, ws.last() + 2));
    }
}

/// A cell shows its column's width plus three: a space on each side and the
/// column rule.
proof fn lemma_cell_visible(s: RenderState, ws: Seq<nat>, row: RowView, ci: nat)
    requires
        ci < row.plain.len(),
        ci < ws.len(),
        row.rich.len() == row.plain.len(),
        visible_scan(row.rich[ci as int]) == (row.plain[ci as int].len(), false),
        row.plain[ci as int].len() <= ws[ci as int],
    ensures
        visible_scan(table_cell(s, ws, row, ci)) == (ws[ci as int] + 3, false),
{
    let c = s.theme.colors;
    let w = ws[ci as int];
    let plain = row.plain[ci as int];
    let shown = row.rich[ci as int];
    let style = if row.is_header { bold_seq() + fg(s, c.table_header) } else { fg(s, c.foreground) };
    let pad = repeat(' ', sat_sub(w as int, plain.len() as int));
    lemma_char_visible(' ');
    lemma_fg_invisible(s, c.table_header);
    lemma_fg_invisible(s, c.foreground);
    lemma_fg_invisible(s, c.table_border);
    lemma_sgr_invisible(seq!['1']);
    lemma_sgr_invisible(seq!['0']);
    if row.is_header {
        lemma_visible_concat(bold_seq(), fg(s, c.table_header));
    }
    lemma_repeat_visible(' ', sat_sub(w as int, plain.len() as int));
    let tail = seq![' ', '│'];
    assert(visible_scan(tail) == (2nat, false)) by {
        assert(tail.drop_last() =~= seq![' ']);
    }
    let p1 = seq![' '] + style;
    lemma_visible_concat(seq![' '], style);
    let p2 = p1 + shown;
    lemma_visible_concat(p1, shown);
    let p3 = p2 + pad;
    lemma_visible_concat(p2, pad);
    let p4 = p3 + reset_attr_seq();
    lemma_visible_concat(p3, reset_attr_seq());
    let p5 = p4 + fg(s, c.table_border);
    lemma_visible_concat(p4, fg(s, c.table_border));
    lemma_visible_concat(p5, tail);
    assert(table_cell(s, ws, row, ci) =~= p5 + tail);
}

/// The first `n` cells of a row show their columns' widths plus three each.
proof fn lemma_cells_visible(s: RenderState, ws: Seq<nat>, row: RowView, n: nat)
    requires
        n <= row.plain.len(),
        n <= ws.len(),
        row.rich.len() == row.plain.len(),
        forall|j: int|
            0 <= j < row.plain.len() ==> visible_scan(#[trigger] row.rich[j]) == (row.plain[j].len(), false),
        forall|j: int| 0 <= j < row.plain.len() && j < ws.len() ==> #[trigger] row.plain[j].len() <= ws[j],
    ensures
        visible_scan(table_cells(s, ws, row, n)) == (widths_sum(ws.take(n as int)) + 3 * n, false),
    decreases n,
{
    if n == 0 {
        assert(ws.take(0) =~= Seq::<nat>::empty());
    } else {
        let k = (n - 1) as nat;
        lemma_cells_visible(s, ws, row, k);
        assert(visible_scan(row.rich[k as int]) == (row.plain[k as int].len(), false));
        assert(row.plain[k as int].len() <= ws[k as int]);
        lemma_cell_visible(s, ws, row, k);
        lemma_visible_concat(table_cells(s, ws, row, k), table_cell(s, ws, row, k));
        assert(ws.take(n as int).drop_last() =~= ws.take(k as int));
    }
}

/// Law: every line of a table has the same visible width. The top and bottom
/// borders, the header separator and each row whose cells fill the columns
/// (each cell's styled text showing exactly its plain text, which fits its
/// column) all show the column widths, plus three columns for each column,
/// plus one.
pub proof fn law_table_lines_same_width(s: RenderState, ws: Seq<nat>, row: RowView)
    requires
        ws.len() > 0,
        row.plain.len() == ws.len(),
        row.rich.len() == row.plain.len(),
        forall|j: int|
            0 <= j < row.plain.len() ==> visible_scan(#[trigger] row.rich[j]) == (row.plain[j].len(), false),
        forall|j: int| 0 <= j < row.plain.len() ==> #[trigger] row.plain[j].len() <= ws[j],
    ensures
        ({
            let b = fg(s, s.theme.colors.table_border);
            let width = widths_sum(ws) + 3 * ws.len() + 1;
            &&& visible_count(b + seq!['┌'] + border_cells(ws, '─', '┬') + seq!['┐']) == width
            &&& visible_count(b + seq!['├'] + border_cells(ws, '═', '╪') + seq!['┤']) == width
            &&& visible_count(b + seq!['└'] + border_cells(ws, '─', '┴') + seq!['┘']) == width
            &&& visible_count(b + seq!['│'] + table_cells(s, ws, row, row.plain.len())) == width
        }),
{
    let b = fg(s, s.theme.colors.table_border);
    lemma_fg_invisible(s, s.theme.colors.table_border);
    lemma_border_line_visible(b, '┌', '─', '┬', '┐', ws);
    lemma_border_line_visible(b, '├', '═', '╪', '┤', ws);
    lemma_border_line_visible(b, '└', '─', '┴', '┘', ws);
    lemma_cells_visible(s, ws, row, row.plain.len());
    assert(ws.take(ws.len() as int) =~= ws);
    lemma_char_visible('│');
    lemma_visible_concat(b, seq!['│']);
    lemma_visible_concat(b + seq!['│'], table_cells(s, ws, row, row.plain.len()));
}

/// A border line shows the column widths, plus three for each column, plus one.
proof fn lemma_border_line_visible(b: Seq<char>, open: char, fill: char, sep: char, close: char, ws: Seq<nat>)
    requires
        visible_scan(b) == (0nat, false),
        open != '\x1b',
        fill != '\x1b',
        sep != '\x1b',
        close != '\x1b',
        ws.len() > 0,
    ensures
        visible_count(b + seq![open] + border_cells(ws, fill, sep) + seq![close]) == widths_sum(ws) + 3 * ws.len()
            + 1,
{
    lemma_char_visible(open);
    lemma_char_visible(close);
    lemma_border_visible(ws, fill, sep);
    lemma_visible_concat(b, seq![open]);
    lemma_visible_concat(b + seq![open], border_cells(ws, fill, sep));
    lemma_visible_concat(b + seq![open] + border_cells(ws, fill, sep), seq![close]);
}

// ── theme listing ────────────────────────────────────────────────────────────

/// Law: the theme listing shows the names in the same order as `list_themes`:
/// two sorted lists of the same names, each as often, are the same list, and
/// both the listing (`theme_entries`) and `list_themes` are sorted lists of the
/// built-in names.
pub proof fn law_listing_follows_list_themes(listing: Seq<Seq<char>>, listed: Seq<Seq<char>>)
    requires
        sorted_by_lex(listing),
        sorted_by_lex(listed),
        listing.to_multiset() == builtin_theme_names().to_multiset(),
        listed.to_multiset() == builtin_theme_names().to_multiset(),
    ensures
        listing == listed,
{
    lemma_sorted_unique(listing, listed);
}

// ── the documented configuration file ────────────────────────────────────────

/// Law: the documented configuration file sets exactly the default settings.
/// Every other line is empty or a comment; the lines that set a value set
/// `theme`, `pager`, `line_numbers`, `show_header`, `word_wrap` and `indent`,
/// in this order; read as a configuration (a quoted value as its text) they
/// give exactly the defaults; `pager_cmd`, `width` and `themes_dir` are not
/// set, matching their defaults of none.
pub proof fn law_documented_config_is_default()
    ensures
        setting_lines(default_config_lines()) == documented_settings().map_values(
            |p: (Seq<char>, Seq<char>)| setting_line(p.0, p.1),
        ),
        config_from_entries(entries_of(documented_settings())) == default_config(),
        !entries_of(documented_settings()).contains_key("pager_cmd"@),
        !entries_of(documented_settings()).contains_key("width"@),
        !entries_of(documented_settings()).contains_key("themes_dir"@),
{
    lemma_documented_setting_lines();
    lemma_documented_entries();
}

/// The lines of the documented file that set a value.
proof fn lemma_documented_setting_lines()
    ensures
        setting_lines(default_config_lines()) == documented_settings().map_values(
            |p: (Seq<char>, Seq<char>)| setting_line(p.0, p.1),
        ),
{
    lemma_documented_lines_0();
    lemma_documented_lines_1();
    lemma_documented_lines_2();
    lemma_documented_lines_3();
    lemma_documented_lines_4();
    let ls = default_config_lines();
    let ds = documented_settings();
    let expected = ds.map_values(|p: (Seq<char>, Seq<char>)| setting_line(p.0, p.1));
    assert forall|k: int| 0 <= k <= 39 implies #[trigger] setting_lines(ls.take(k)) == expected.take(
        settings_before(k),
    ) by {
        lemma_setting_lines_prefix(k);
    }
    assert(ls.take(39) =~= ls);
    assert(expected.take(6) =~= expected);
}

/// How many of the first `k` lines of the documented file set a value.
spec fn settings_before(k: int) -> int {
    if k <= 13 { 0 } else if k <= 16 { 1 } else if k <= 26 { 2 } else if k <= 32 { 3 } else if k <= 35 { 4 }
    else if k <= 38 { 5 } else { 6 }
}

/// The settings among the first `k` lines of the documented file.
proof fn lemma_setting_lines_prefix(k: int)
    requires
        0 <= k <= 39,
    ensures
        setting_lines(default_config_lines().take(k)) == documented_settings().map_values(
            |p: (Seq<char>, Seq<char>)| setting_line(p.0, p.1),
        ).take(settings_before(k)),
    decreases k,
{
    lemma_documented_lines_0();
    lemma_documented_lines_1();
    lemma_documented_lines_2();
    lemma_documented_lines_3();
    lemma_documented_lines_4();
    let ls = default_config_lines();
    let expected = documented_settings().map_values(|p: (Seq<char>, Seq<char>)| setting_line(p.0, p.1));
    if k == 0 {
        assert(ls.take(0) =~= Seq::<Seq<char>>::empty());
        assert(expected.take(0) =~= Seq::<Seq<char>>::empty());
    } else {
        lemma_setting_lines_prefix(k - 1);
        assert(ls.take(k).drop_last() =~= ls.take(k - 1));
        assert(ls.take(k).last() == ls[k - 1]);
        if settings_before(k) > settings_before(k - 1) {
            assert(expected.take(settings_before(k)) =~= expected.take(settings_before(k - 1)).push(
                expected[settings_before(k - 1)],
            ));
        }
    }
}

/// Lines 0 to 7 of the documented file: comments, blank lines and settings.
proof fn lemma_documented_lines_0()
    ensures
        default_config_lines().len() == 39,
        is_comment_or_blank(default_config_lines()[0]),
        is_comment_or_blank(default_config_lines()[1]),
        is_comment_or_blank(default_config_lines()[2]),
        is_comment_or_blank(default_config_lines()[3]),
        is_comment_or_blank(default_config_lines()[4]),
        is_comment_or_blank(default_config_lines()[5]),
        is_comment_or_blank(default_config_lines()[6]),
        is_comment_or_blank(default_config_lines()[7]),
{
    reveal_strlit(r#"# readmetoo configuration"#);
    assert(default_config_lines()[0][0] == '#');
    reveal_strlit(r#"# Save this to the path shown by: readmetoo --config-path"#);
    assert(default_config_lines()[1][0] == '#');
    reveal_strlit(r#"#"#);
    assert(default_config_lines()[2][0] == '#');
    reveal_strlit(r#"# Platform defaults:"#);
    assert(default_config_lines()[3][0] == '#');
    reveal_strlit(r#"#   Linux/macOS : ~/.config/readmetoo/readmetoo.toml"#);
    assert(default_config_lines()[4][0] == '#');
    reveal_strlit(r#"#   Windows     : %APPDATA%\readmetoo\readmetoo.toml"#);
    assert(default_config_lines()[5][0] == '#');
    reveal_strlit(r#""#);
    assert(default_config_lines()[6].len() == 0);
    reveal_strlit(r#"# Theme name.  Run `readmetoo --list-themes` to see all choices."#);
    assert(default_config_lines()[7][0] == '#');
}

/// Lines 8 to 15 of the documented file: comments, blank lines and settings.
proof fn lemma_documented_lines_1()
    ensures
        default_config_lines().len() == 39,
        is_comment_or_blank(default_config_lines()[8]),
        is_comment_or_blank(default_config_lines()[9]),
        is_comment_or_blank(default_config_lines()[10]),
        is_comment_or_blank(default_config_lines()[11]),
        is_comment_or_blank(default_config_lines()[12]),
        default_config_lines()[13] == setting_line("theme"@, r#""fruity""#@),
        !is_comment_or_blank(default_config_lines()[13]),
        is_comment_or_blank(default_config_lines()[14]),
        is_comment_or_blank(default_config_lines()[15]),
{
    reveal_strlit(r#"# Built-in themes (Pygments-inspired):"#);
    assert(default_config_lines()[8][0] == '#');
    reveal_strlit(r#"#   dark  : fruity (default), monokai, dracula, nord, github-dark,"#);
    assert(default_config_lines()[9][0] == '#');
    reveal_strlit(r#"#            gruvbox-dark, one-dark, solarized-dark, material,"#);
    assert(default_config_lines()[10][0] == '#');
    reveal_strlit(r#"#            native, vim, zenburn, inkpot"#);
    assert(default_config_lines()[11][0] == '#');
    reveal_strlit(r#"#   light : default, emacs, friendly, solarized-light, tango, autumn, bw"#);
    assert(default_config_lines()[12][0] == '#');
    reveal_strlit(r#"theme = "fruity""#);
    reveal_strlit("theme");
    reveal_strlit(r#""fruity""#);
    reveal_strlit(" = ");
    assert(default_config_lines()[13] =~= setting_line("theme"@, r#""fruity""#@));
    reveal_strlit(r#""#);
    assert(default_config_lines()[14].len() == 0);
    reveal_strlit(r#"# Enable the built-in pager automatically for long files"#);
    assert(default_config_lines()[15][0] == '#');
}

/// Lines 16 to 23 of the documented file: comments, blank lines and settings.
proof fn lemma_documented_lines_2()
    ensures
        default_config_lines().len() == 39,
        default_config_lines()[16] == setting_line("pager"@, "false"@),
        !is_comment_or_blank(default_config_lines()[16]),
        is_comment_or_blank(default_config_lines()[17]),
        is_comment_or_blank(default_config_lines()[18]),
        is_comment_or_blank(default_config_lines()[19]),
        is_comment_or_blank(default_config_lines()[20]),
        is_comment_or_blank(default_config_lines()[21]),
        is_comment_or_blank(default_config_lines()[22]),
        is_comment_or_blank(default_config_lines()[23]),
{
    reveal_strlit(r#"pager = false"#);
    reveal_strlit("pager");
    reveal_strlit("false");
    reveal_strlit(" = ");
    assert(default_config_lines()[16] =~= setting_line("pager"@, "false"@));
    reveal_strlit(r#""#);
    assert(default_config_lines()[17].len() == 0);
    reveal_strlit(r#"# Use a specific external pager command instead of the built-in one."#);
    assert(default_config_lines()[18][0] == '#');
    reveal_strlit(r#"# The command receives the rendered output on stdin."#);
    assert(default_config_lines()[19][0] == '#');
    reveal_strlit(r#"# pager_cmd = "less -R""#);
    assert(default_config_lines()[20][0] == '#');
    reveal_strlit(r#""#);
    assert(default_config_lines()[21].len() == 0);
    reveal_strlit(r#"# Hard-code terminal width for line-wrapping (omit to auto-detect)"#);
    assert(default_config_lines()[22][0] == '#');
    reveal_strlit(r#"# width = 100"#);
    assert(default_config_lines()[23][0] == '#');
}

/// Lines 24 to 31 of the documented file: comments, blank lines and settings.
proof fn lemma_documented_lines_3()
    ensures
        default_config_lines().len() == 39,
        is_comment_or_blank(default_config_lines()[24]),
        is_comment_or_blank(default_config_lines()[25]),
        default_config_lines()[26] == setting_line("line_numbers"@, "false"@),
        !is_comment_or_blank(default_config_lines()[26]),
        is_comment_or_blank(default_config_lines()[27]),
        is_comment_or_blank(default_config_lines()[28]),
        is_comment_or_blank(default_config_lines()[29]),
        is_comment_or_blank(default_config_lines()[30]),
        is_comment_or_blank(default_config_lines()[31]),
{
    reveal_strlit(r#""#);
    assert(default_config_lines()[24].len() == 0);
    reveal_strlit(r#"# Show line numbers in fenced code blocks"#);
    assert(default_config_lines()[25][0] == '#');
    reveal_strlit(r#"line_numbers = false"#);
    reveal_strlit("line_numbers");
    reveal_strlit("false");
    reveal_strlit(" = ");
    assert(default_config_lines()[26] =~= setting_line("line_numbers"@, "false"@));
    reveal_strlit(r#""#);
    assert(default_config_lines()[27].len() == 0);
    reveal_strlit(r#"# Directory containing custom *.theme.toml files"#);
    assert(default_config_lines()[28][0] == '#');
    reveal_strlit(r#"# themes_dir = "~/.config/readmetoo/themes""#);
    assert(default_config_lines()[29][0] == '#');
    reveal_strlit(r#""#);
    assert(default_config_lines()[30].len() == 0);
    reveal_strlit(r#"# Show a filename banner when reading multiple files at once"#);
    assert(default_config_lines()[31][0] == '#');
}

/// Lines 32 to 38 of the documented file: comments, blank lines and settings.
proof fn lemma_documented_lines_4()
    ensures
        default_config_lines().len() == 39,
        default_config_lines()[32] == setting_line("show_header"@, "true"@),
        !is_comment_or_blank(default_config_lines()[32]),
        is_comment_or_blank(default_config_lines()[33]),
        is_comment_or_blank(default_config_lines()[34]),
        default_config_lines()[35] == setting_line("word_wrap"@, "true"@),
        !is_comment_or_blank(default_config_lines()[35]),
        is_comment_or_blank(default_config_lines()[36]),
        is_comment_or_blank(default_config_lines()[37]),
        default_config_lines()[38] == setting_line("indent"@, "2"@),
        !is_comment_or_blank(default_config_lines()[38]),
{
    reveal_strlit(r#"show_header = true"#);
    reveal_strlit("show_header");
    reveal_strlit("true");
    reveal_strlit(" = ");
    assert(default_config_lines()[32] =~= setting_line("show_header"@, "true"@));
    reveal_strlit(r#""#);
    assert(default_config_lines()[33].len() == 0);
    reveal_strlit(r#"# Word-wrap long paragraphs to terminal width"#);
    assert(default_config_lines()[34][0] == '#');
    reveal_strlit(r#"word_wrap = true"#);
    reveal_strlit("word_wrap");
    reveal_strlit("true");
    reveal_strlit(" = ");
    assert(default_config_lines()[35] =~= setting_line("word_wrap"@, "true"@));
    reveal_strlit(r#""#);
    assert(default_config_lines()[36].len() == 0);
    reveal_strlit(r#"# Number of spaces per indent level in nested lists"#);
    assert(default_config_lines()[37][0] == '#');
    reveal_strlit(r#"indent = 2"#);
    reveal_strlit("indent");
    reveal_strlit("2");
    reveal_strlit(" = ");
    assert(default_config_lines()[38] =~= setting_line("indent"@, "2"@));
}

/// The entries that the documented settings give, and the configuration they make.
proof fn lemma_documented_entries()
    ensures
        config_from_entries(entries_of(documented_settings())) == default_config(),
        !entries_of(documented_settings()).contains_key("pager_cmd"@),
        !entries_of(documented_settings()).contains_key("width"@),
        !entries_of(documented_settings()).contains_key("themes_dir"@),
{
    let m = entries_of(documented_settings());
    reveal_strlit("theme");
    assert("theme"@.len() == 5 && "theme"@[0] == 't');
    reveal_strlit("pager");
    assert("pager"@.len() == 5 && "pager"@[0] == 'p');
    reveal_strlit("pager_cmd");
    assert("pager_cmd"@.len() == 9 && "pager_cmd"@[0] == 'p');
    reveal_strlit("width");
    assert("width"@.len() == 5 && "width"@[0] == 'w');
    reveal_strlit("line_numbers");
    assert("line_numbers"@.len() == 12 && "line_numbers"@[0] == 'l');
    reveal_strlit("themes_dir");
    assert("themes_dir"@.len() == 10 && "themes_dir"@[0] == 't');
    reveal_strlit("show_header");
    assert("show_header"@.len() == 11 && "show_header"@[0] == 's');
    reveal_strlit("word_wrap");
    assert("word_wrap"@.len() == 9 && "word_wrap"@[0] == 'w');
    reveal_strlit("indent");
    assert("indent"@.len() == 6 && "indent"@[0] == 'i');
    reveal_strlit(r#""fruity""#);
    reveal_strlit("false");
    reveal_strlit("true");
    reveal_strlit("2");
    reveal_strlit("fruity");
    reveal_strlit(" = ");
    reveal_with_fuel(entries_of, 7);
    assert(toml_value_text(r#""fruity""#@) =~= "fruity"@);
    assert(m.contains_key("theme"@) && m["theme"@] == "fruity"@);
    assert(m.contains_key("pager"@) && m["pager"@] == "false"@);
    assert(m.contains_key("line_numbers"@) && m["line_numbers"@] == "false"@);
    assert(m.contains_key("show_header"@) && m["show_header"@] == "true"@);
    assert(m.contains_key("word_wrap"@) && m["word_wrap"@] == "true"@);
    assert(m.contains_key("indent"@) && m["indent"@] == "2"@);
    assert(parse_bool("false"@) == Some(false));
    assert(parse_bool("true"@) == Some(true));
    assert(unsigned_body("2"@) =~= seq!['2']);
    assert(seq!['2'].last() == '2');
    assert(seq!['2'].drop_last() =~= Seq::<char>::empty());
    assert(digits_value(Seq::<char>::empty()) == 0);
    assert(digit_value('2') == 2);
    assert(digits_value(seq!['2']) == 2);
    assert(parse_unsigned("2"@, usize::MAX as nat) == Some(2nat));
    law_config_keys_override_defaults(m);
}

/// The names `ns`, separated by a comma and a space.
pub open spec fn name_list(ns: Seq<Seq<char>>) -> Seq<char>
    decreases ns.len(),
{
    if ns.len() == 0 {
        Seq::empty()
    } else if ns.len() == 1 {
        ns[0]
    } else {
        name_list(ns.drop_last()) + ", "@ + ns.last()
    }
}

/// Law: the comment of the documented configuration file lists the built-in
/// themes by kind: the dark ones are exactly the first thirteen built-in
/// themes, named in order over three lines after `dark  :`, the first of them,
/// fruity, the default theme and the only one marked `(default)`; the light
/// ones are exactly the other seven, named in order after `light :`.
pub proof fn law_documented_theme_lists()
    ensures
        builtin_theme_views().len() == 20,
        forall|i: int| 0 <= i < 13 ==> (#[trigger] builtin_theme_views()[i]).dark,
        forall|i: int| 13 <= i < 20 ==> !(#[trigger] builtin_theme_views()[i]).dark,
        builtin_theme_names()[0] == default_config().theme,
        default_config_lines()[9] == "#   dark  : "@ + builtin_theme_names()[0] + " (default), "@ + name_list(
            builtin_theme_names().subrange(1, 5),
        ) + ","@,
        default_config_lines()[10] == "#            "@ + name_list(builtin_theme_names().subrange(5, 9)) + ","@,
        default_config_lines()[11] == "#            "@ + name_list(builtin_theme_names().subrange(9, 13)),
        default_config_lines()[12] == "#   light : "@ + name_list(builtin_theme_names().subrange(13, 20)),
{
    law_builtin_theme_names_distinct();
    lemma_dark_line();
    lemma_dark_continuation_lines();
    lemma_light_line();
}

/// The first line of the dark themes.
proof fn lemma_dark_line()
    ensures
        default_config_lines()[9] == "#   dark  : "@ + builtin_theme_names()[0] + " (default), "@ + name_list(
            builtin_theme_names().subrange(1, 5),
        ) + ","@,
{
    let ns = builtin_theme_names();
    reveal_strlit(r#"#   dark  : fruity (default), monokai, dracula, nord, github-dark,"#);
    reveal_strlit("#   dark  : ");
    reveal_strlit(" (default), ");
    reveal_strlit(", ");
    reveal_strlit(",");
    reveal_strlit("fruity");
    reveal_strlit("monokai");
    reveal_strlit("dracula");
    reveal_strlit("nord");
    reveal_strlit("github-dark");
    let part = ns.subrange(1, 5);
    assert(part =~= seq!["monokai"@, "dracula"@, "nord"@, "github-dark"@]);
    reveal_with_fuel(name_list, 5);
    assert(part.drop_last() =~= seq!["monokai"@, "dracula"@, "nord"@]);
    assert(part.drop_last().drop_last() =~= seq!["monokai"@, "dracula"@]);
    assert(part.drop_last().drop_last().drop_last() =~= seq!["monokai"@]);
    assert(default_config_lines()[9] =~= "#   dark  : "@ + ns[0] + " (default), "@ + name_list(part) + ","@);
}

/// The continuation lines of the dark themes.
proof fn lemma_dark_continuation_lines()
    ensures
        default_config_lines()[10] == "#            "@ + name_list(builtin_theme_names().subrange(5, 9)) + ","@,
        default_config_lines()[11] == "#            "@ + name_list(builtin_theme_names().subrange(9, 13)),
{
    let ns = builtin_theme_names();
    reveal_strlit(r#"#            gruvbox-dark, one-dark, solarized-dark, material,"#);
    reveal_strlit(r#"#            native, vim, zenburn, inkpot"#);
    reveal_strlit("#            ");
    reveal_strlit(", ");
    reveal_strlit(",");
    reveal_strlit("gruvbox-dark");
    reveal_strlit("one-dark");
    reveal_strlit("solarized-dark");
    reveal_strlit("material");
    reveal_strlit("native");
    reveal_strlit("vim");
    reveal_strlit("zenburn");
    reveal_strlit("inkpot");
    let a = ns.subrange(5, 9);
    let b = ns.subrange(9, 13);
    assert(a =~= seq!["gruvbox-dark"@, "one-dark"@, "solarized-dark"@, "material"@]);
    assert(b =~= seq!["native"@, "vim"@, "zenburn"@, "inkpot"@]);
    reveal_with_fuel(name_list, 5);
    assert(a.drop_last() =~= seq!["gruvbox-dark"@, "one-dark"@, "solarized-dark"@]);
    assert(a.drop_last().drop_last() =~= seq!["gruvbox-dark"@, "one-dark"@]);
    assert(a.drop_last().drop_last().drop_last() =~= seq!["gruvbox-dark"@]);
    assert(b.drop_last() =~= seq!["native"@, "vim"@, "zenburn"@]);
    assert(b.drop_last().drop_last() =~= seq!["native"@, "vim"@]);
    assert(b.drop_last().drop_last().drop_last() =~= seq!["native"@]);
    assert(default_config_lines()[10] =~= "#            "@ + name_list(a) + ","@);
    assert(default_config_lines()[11] =~= "#            "@ + name_list(b));
}

/// The line of the light themes.
proof fn lemma_light_line()
    ensures
        default_config_lines()[12] == "#   light : "@ + name_list(builtin_theme_names().subrange(13, 20)),
{
    let ns = builtin_theme_names();
    reveal_strlit(r#"#   light : default, emacs, friendly, solarized-light, tango, autumn, bw"#);
    reveal_strlit("#   light : ");
    reveal_strlit(", ");
    reveal_strlit("default");
    reveal_strlit("emacs");
    reveal_strlit("friendly");
    reveal_strlit("solarized-light");
    reveal_strlit("tango");
    reveal_strlit("autumn");
    reveal_strlit("bw");
    let a = ns.subrange(13, 20);
    assert(a =~= seq!["default"@, "emacs"@, "friendly"@, "solarized-light"@, "tango"@, "autumn"@, "bw"@]);
    reveal_with_fuel(name_list, 8);
    assert(a.take(6) =~= seq!["default"@, "emacs"@, "friendly"@, "solarized-light"@, "tango"@, "autumn"@]);
    assert(a.take(5) =~= seq!["default"@, "emacs"@, "friendly"@, "solarized-light"@, "tango"@]);
    assert(a.take(4) =~= seq!["default"@, "emacs"@, "friendly"@, "solarized-light"@]);
    assert(a.take(3) =~= seq!["default"@, "emacs"@, "friendly"@]);
    assert(a.take(2) =~= seq!["default"@, "emacs"@]);
    assert(a.take(1) =~= seq!["default"@]);
    assert(a.drop_last() =~= a.take(6));
    assert(a.take(6).drop_last() =~= a.take(5));
    assert(a.take(5).drop_last() =~= a.take(4));
    assert(a.take(4).drop_last() =~= a.take(3));
    assert(a.take(3).drop_last() =~= a.take(2));
    assert(a.take(2).drop_last() =~= a.take(1));
    assert(default_config_lines()[12] =~= "#   light : "@ + name_list(a));
}

// ── list markers, images, table order, comment lines, paragraph ends ─────────

/// Law: an item of a list that is not ordered is marked by the bullet of its
/// depth (`●` at the first level, `○` at the second, `▸` deeper), indented by
/// the list indent for each level above its own, in the list-marker colour,
/// and the list's counters stay as they were. The indent does not depend on
/// whether the list is ordered (see `law_ordered_items_count_on`).
pub proof fn law_bullet_items_are_indented(s: RenderState)
    requires
        !in_ordered_list(s),
    ensures
        ({
            let s1 = flush_para(s);
            let d = s.list_depth;
            let b = if d == 1 { '●' } else if d == 2 { '○' } else { '▸' };
            &&& step(s, EventView::Start(TagView::Item)).out == s1.out + fg(s1, s1.theme.colors.list_marker)
                + crate::text::repeat(' ', sat_mul(sat_sub(d as int, 1), s.indent as nat)) + seq![b, ' ']
                + reset_color_seq()
            &&& step(s, EventView::Start(TagView::Item)).ordered == s.ordered
        }),
{
    lemma_flush_para_continues(s);
    let s1 = flush_para(s);
    assert(!in_ordered_list(s1));
    assert(step(s, EventView::Start(TagView::Item)).out =~= s1.out + item_marker_text(s1));
}

/// Law: an image shows its alternative text. Outside headings and table cells,
/// an image whose alternative text is `t` adds to the paragraph, in the italic
/// colour, `[🖼  ` followed by `t` and `]`, then resets the style; only an
/// image without alternative text shows the word `image` instead.
pub proof fn law_image_shows_alt_text(s: RenderState, t: Seq<char>)
    requires
        !s.in_heading,
        !s.in_table_cell,
    ensures
        ({
            let s1 = step(s, EventView::Start(TagView::Image));
            let s2 = step(s1, EventView::Text(t));
            let s3 = step(s2, EventView::End(TagView::Image));
            &&& s3.para == s.para + fg(s, s.theme.colors.italic) + "[🖼  "@ + (if t.len() > 0 {
                t
            } else {
                "image"@
            }) + seq![']'] + crate::ansi::reset_all_seq()
            &&& !s3.in_image
        }),
{
    reveal(end_image);
    let s1 = step(s, EventView::Start(TagView::Image));
    let s2 = step(s1, EventView::Text(t));
    assert(s2.image_alt =~= t);
    let s3 = step(s2, EventView::End(TagView::Image));
    assert(s3.para =~= s.para + fg(s, s.theme.colors.italic) + "[🖼  "@ + (if t.len() > 0 {
        t
    } else {
        "image"@
    }) + seq![']'] + crate::ansi::reset_all_seq());
}

/// The first `n` row lines, as a sequence of lines.
proof fn lemma_rows_in_order(s: RenderState, ws: Seq<nat>, rows: Seq<RowView>, n: nat)
    requires
        n <= rows.len(),
    ensures
        crate::render_model::table_rows(s, ws, rows, n) == Seq::new(
            n,
            |i: int| crate::render_model::table_row(s, ws, rows, i as nat),
        ).flatten_alt(),
    decreases n,
{
    let lines = Seq::new(n, |i: int| crate::render_model::table_row(s, ws, rows, i as nat));
    if n > 0 {
        lemma_rows_in_order(s, ws, rows, (n - 1) as nat);
        assert(lines.drop_last() =~= Seq::new(
            (n - 1) as nat,
            |i: int| crate::render_model::table_row(s, ws, rows, i as nat),
        ));
    } else {
        assert(lines =~= Seq::<Seq<char>>::empty());
    }
}

/// Law: a table is written top border first, then the line of each collected
/// row in the order the rows were collected (`rows[0]` first; each line with
/// the header separator before it where one is due), then the bottom border.
pub proof fn law_table_rows_in_order(s: RenderState, rows: Seq<RowView>)
    ensures
        ({
            let ws = col_widths(rows);
            let b = fg(s, s.theme.colors.table_border);
            crate::render_model::table_text(s, rows) == b + seq!['┌'] + border_cells(ws, '─', '┬') + seq!['┐', '\n']
                + Seq::new(rows.len(), |i: int| crate::render_model::table_row(s, ws, rows, i as nat)).flatten()
                + b + seq!['└'] + border_cells(ws, '─', '┴') + seq!['┘', '\n'] + reset_color_seq() + seq!['\n']
        }),
{
    let ws = col_widths(rows);
    let lines = Seq::new(rows.len(), |i: int| crate::render_model::table_row(s, ws, rows, i as nat));
    lemma_rows_in_order(s, ws, rows, rows.len());
    lines.lemma_flatten_and_flatten_alt_are_equivalent();
}

/// Leading spaces and tabs are white space that trimming removes.
proof fn lemma_trim_start_blank_prefix(ws: Seq<char>, line: Seq<char>)
    requires
        forall|i: int| 0 <= i < ws.len() ==> ws[i] == ' ' || ws[i] == '\t',
    ensures
        crate::text::trim_start(ws + line) == crate::text::trim_start(line),
    decreases ws.len(),
{
    if ws.len() > 0 {
        let rest = ws.drop_first();
        assert((ws + line).drop_first() =~= rest + line);
        assert(crate::text::is_white_space(ws[0]));
        lemma_trim_start_blank_prefix(rest, line);
    } else {
        assert(ws + line =~= line);
    }
}

/// Law: whether a code line is a comment does not depend on its indentation:
/// putting spaces and tabs in front of a line never changes it; so a line whose
/// first characters other than white space are the language's comment marker
/// is a comment.
pub proof fn law_comment_lines_ignore_indentation(ws: Seq<char>, line: Seq<char>, lang: Option<Seq<char>>)
    requires
        forall|i: int| 0 <= i < ws.len() ==> ws[i] == ' ' || ws[i] == '\t',
    ensures
        crate::render_model::is_comment_line(ws + line, lang) == crate::render_model::is_comment_line(line, lang),
        line.len() >= crate::render_model::comment_marker(lang).len() && line.subrange(
            0,
            crate::render_model::comment_marker(lang).len() as int,
        ) == crate::render_model::comment_marker(lang) ==> crate::render_model::is_comment_line(ws + line, lang),
{
    lemma_trim_start_blank_prefix(ws, line);
    let m = crate::render_model::comment_marker(lang);
    if line.len() >= m.len() && line.subrange(0, m.len() as int) == m {
        if line.len() > 0 && crate::text::is_white_space(line[0]) {
            assert(m.len() > 0);
            assert(line[0] == m[0]);
        }
        assert(crate::text::trim_start(line) == line);
    }
}

/// Whether `w` ends a line: its last character is a line break, or a line break
/// followed only by a reset of colours and attributes.
pub open spec fn ends_a_line(w: Seq<char>) -> bool {
    let r = crate::ansi::reset_all_seq();
    ||| w.len() > 0 && w.last() == '\n'
    ||| w.len() > r.len() && w.subrange(w.len() - r.len(), w.len() as int) == r && w[w.len() - r.len() - 1]
        == '\n'
}

/// Law: a paragraph flush that writes anything ends its line, so that later
/// output starts on a line of its own. Without wrapping, a non-empty paragraph
/// is always written and ends its line; with wrapping, a paragraph that holds a
/// word is written and ends its line, and one of only spaces writes nothing.
pub proof fn law_paragraph_flush_ends_line(s: RenderState)
    requires
        s.para.len() > 0,
    ensures
        ({
            let w = flush_para(s).out.subrange(s.out.len() as int, flush_para(s).out.len() as int);
            &&& flush_para(s).out.len() >= s.out.len()
            &&& flush_para(s).out.subrange(0, s.out.len() as int) == s.out
            &&& (!s.word_wrap || crate::render_model::tokenize(s.para).len() > 0) ==> ends_a_line(w)
            &&& (s.word_wrap && crate::render_model::tokenize(s.para).len() == 0) ==> w.len() == 0
        }),
{
    reveal(flush_para);
    let f = flush_para(s);
    let t = crate::render_model::para_text(s);
    assert(f.out =~= s.out + t);
    assert(f.out.subrange(s.out.len() as int, f.out.len() as int) =~= t);
    assert(f.out.subrange(0, s.out.len() as int) =~= s.out);
    let r = crate::ansi::reset_all_seq();
    if s.word_wrap {
        let ind = crate::render_model::para_indent(s);
        let avail = crate::render_model::para_avail(s);
        law_wrapping_keeps_words(crate::render_model::tokenize(s.para), ind, avail);
    } else {
        let body = crate::render_model::para_indent(s) + crate::render_model::indent_lines(
            s.para,
            crate::render_model::para_indent(s),
        );
        assert(t =~= body + seq!['\n'] + r);
        assert(t.subrange(t.len() - r.len(), t.len() as int) =~= r);
        assert(t[t.len() - r.len() - 1] == '\n');
    }
}

} // verus!
