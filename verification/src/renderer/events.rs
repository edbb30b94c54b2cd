//! Opening tags and inline text: what the start of each Markdown element, and
//! the text inside it, does to the renderer.

use vstd::prelude::*;
use vstd::string::*;
use crate::ansi::{push_fg, push_reset_all, push_sgr};
use crate::markdown::{MdTag, TagView};
use crate::render_model::{fg, item_marker, item_marker_text, push_ansi, push_inline_text, sat_mul, start_tag};
use crate::text::{push_char, push_dec, push_repeat, sat_sub, string_views};
use crate::theme::AnsiColor;
use super::{opt_view, row_views, Renderer, TableRow};

verus! {

impl Renderer {
    /// The sequence selecting colour `c`, as a `String`.
    pub(super) fn fg_string(&self, c: AnsiColor) -> (t: String)
        ensures
            t@ == fg(self@, c),
    {
        let mut t = String::new();
        push_fg(&mut t, c, self.color_off);
        t
    }

    /// Adds text to whatever inline context is open.
    pub(super) fn push_inline_text(&mut self, text: &str)
        ensures
            final(self)@ == push_inline_text(old(self)@, text@),
    {
        if self.in_heading {
            self.heading_text.append(text);
        } else if self.in_image {
            self.image_alt.append(text);
        } else if self.in_link {
            self.link_text.append(text);
            if self.in_table_cell {
                self.cur_cell_plain.append(text);
                self.cur_cell_rich.append(text);
            } else {
                self.para_buf.append(text);
            }
        } else if self.in_table_cell {
            self.cur_cell_plain.append(text);
            self.cur_cell_rich.append(text);
        } else if self.code_buf.is_some() {
            let mut b = self.code_buf.take().unwrap();
            b.append(text);
            self.code_buf = Some(b);
        } else {
            self.para_buf.append(text);
        }
    }

    /// Adds styling to the styled side of the open inline context.
    pub(super) fn push_ansi(&mut self, ansi: &str)
        ensures
            final(self)@ == push_ansi(old(self)@, ansi@),
    {
        if self.in_table_cell {
            self.cur_cell_rich.append(ansi);
        } else if !self.in_heading && !self.in_image && self.code_buf.is_none() {
            self.para_buf.append(ansi);
        }
    }

    /// The text of a list item's marker.
    pub(super) fn item_marker_string(&self) -> (m: String)
        ensures
            m@ == item_marker_text(self@),
    {
        let depth1 = if self.list_depth > 0 { self.list_depth - 1 } else { 0 };
        let n = match depth1.checked_mul(self.indent) {
            Some(n) => n,
            None => usize::MAX,
        };
        assert(n as nat == sat_mul(sat_sub(self.list_depth as int, 1), self.indent as nat)) by (nonlinear_arith)
            requires
                depth1 == sat_sub(self.list_depth as int, 1),
                n == (if depth1 * self.indent <= usize::MAX { depth1 * self.indent } else { usize::MAX as int }),
        {
        }
        let mut m = self.fg_string(self.theme.colors.list_marker);
        push_repeat(&mut m, ' ', n);
        let k = self.ordered_counters.len();
        if k > 0 && self.ordered_counters[k - 1].is_some() {
            let num = self.ordered_counters[k - 1].unwrap();
            push_dec(&mut m, num);
            push_char(&mut m, '.');
            push_char(&mut m, ' ');
        } else {
            let b = if self.list_depth == 1 {
                '●'
            } else if self.list_depth == 2 {
                '○'
            } else {
                '▸'
            };
            push_char(&mut m, b);
            push_char(&mut m, ' ');
        }
        push_sgr(&mut m, '0');
        assert(m@ =~= item_marker_text(self@));
        m
    }

    /// Writes the marker of a list item.
    pub(super) fn item_marker(&mut self)
        ensures
            final(self)@ == item_marker(old(self)@),
    {
        let m = self.item_marker_string();
        let k = self.ordered_counters.len();
        if k > 0 && self.ordered_counters[k - 1].is_some() {
            let num = self.ordered_counters[k - 1].unwrap();
            let next = if num == u64::MAX { 0 } else { num + 1 };
            self.ordered_counters.set(k - 1, Some(next));
        }
        self.put(m.as_str());
    }

    /// Opens an emphasis of the given kind: strong, emphasis or strikethrough.
    pub(super) fn start_emphasis(&mut self, t: &MdTag)
        requires
            t is Strong || t is Emphasis || t is Strikethrough,
        ensures
            final(self)@ == start_tag(old(self)@, t@),
    {
        let mut a;
        if let MdTag::Strong = t {
            a = self.fg_string(self.theme.colors.bold);
            push_sgr(&mut a, '1');
            self.strong_depth = self.strong_depth.saturating_add(1);
        } else if let MdTag::Emphasis = t {
            a = self.fg_string(self.theme.colors.italic);
            push_sgr(&mut a, '3');
            self.em_depth = self.em_depth.saturating_add(1);
        } else {
            a = self.fg_string(self.theme.colors.strikethrough);
            push_sgr(&mut a, '9');
            self.strike_depth = self.strike_depth.saturating_add(1);
        }
        self.push_ansi(a.as_str());
    }

    /// Opens a code block.
    pub(super) fn start_code_block(&mut self, kind: &Option<String>)
        ensures
            final(self)@ == start_tag(old(self)@, TagView::CodeBlock(opt_view(*kind))),
    {
        self.flush_para();
        self.code_buf = Some(String::new());
        self.code_lang = match kind {
            Some(l) => if l.as_str().is_empty() {
                None
            } else {
                Some(l.clone())
            },
            None => None,
        };
    }

    /// Opens a link.
    pub(super) fn start_link(&mut self, dest: &String)
        ensures
            final(self)@ == start_tag(old(self)@, TagView::Link(dest@)),
    {
        let mut a = self.fg_string(self.theme.colors.link);
        push_sgr(&mut a, '4');
        self.in_link = true;
        self.link_dest = dest.clone();
        self.link_text = String::new();
        self.push_ansi(a.as_str());
    }

    /// Opens a block quote.
    pub(super) fn start_blockquote(&mut self)
        ensures
            final(self)@ == start_tag(old(self)@, TagView::BlockQuote),
    {
        self.flush_para();
        self.in_blockquote = true;
        let mut a = self.fg_string(self.theme.colors.blockquote);
        push_sgr(&mut a, '3');
        self.para_buf.append(a.as_str());
        assert(self@.para =~= start_tag(old(self)@, TagView::BlockQuote).para);
    }

    /// Opens a footnote definition.
    pub(super) fn start_footnote(&mut self, name: &String)
        ensures
            final(self)@ == start_tag(old(self)@, TagView::FootnoteDefinition(name@)),
    {
        self.flush_para();
        let mut a = self.fg_string(self.theme.colors.link_url);
        push_char(&mut a, '[');
        push_char(&mut a, '^');
        a.append(name.as_str());
        push_char(&mut a, ']');
        push_char(&mut a, ':');
        push_char(&mut a, ' ');
        push_reset_all(&mut a);
        let ghost before = self@.para;
        self.para_buf.append(a.as_str());
        assert(self@.para =~= start_tag(old(self)@, TagView::FootnoteDefinition(name@)).para);
    }

    /// Opens a list.
    pub(super) fn start_list(&mut self, start: Option<u64>)
        ensures
            final(self)@ == start_tag(old(self)@, TagView::List(start)),
    {
        self.flush_para();
        self.ordered_counters.push(start);
        self.list_depth = self.list_depth.saturating_add(1);
    }

    /// Opens a table, table part or cell.
    pub(super) fn start_table_part(&mut self, t: &MdTag)
        requires
            t is Table || t is TableHead || t is TableRow || t is TableCell,
        ensures
            final(self)@ == start_tag(old(self)@, t@),
    {
        match t {
            MdTag::Table => {
                self.flush_para();
                self.in_table = true;
                self.table_rows = Vec::new();
                assert(row_views(self.table_rows@) =~= Seq::empty());
            },
            MdTag::TableHead => {
                self.in_table_head = true;
            },
            MdTag::TableRow => {
                self.cur_row_plain = Vec::new();
                self.cur_row_rich = Vec::new();
                assert(string_views(self.cur_row_plain@) =~= Seq::empty());
                assert(string_views(self.cur_row_rich@) =~= Seq::empty());
            },
            _ => {
                self.cur_cell_plain = String::new();
                self.cur_cell_rich = String::new();
                self.in_table_cell = true;
            },
        }
    }

    /// Handles a start event.
    pub(super) fn start_tag(&mut self, t: &MdTag)
        ensures
            final(self)@ == start_tag(old(self)@, t@),
    {
        match t {
            MdTag::Heading(level) => {
                self.flush_para();
                self.heading_text = String::new();
                self.heading_level = *level;
                self.in_heading = true;
            },
            MdTag::Paragraph => {},
            MdTag::Strong | MdTag::Emphasis | MdTag::Strikethrough => self.start_emphasis(t),
            MdTag::CodeBlock(kind) => self.start_code_block(kind),
            MdTag::Link(dest) => self.start_link(dest),
            MdTag::Image => {
                self.in_image = true;
                self.image_alt = String::new();
            },
            MdTag::List(start) => self.start_list(*start),
            MdTag::Item => {
                self.flush_para();
                self.item_marker();
            },
            MdTag::BlockQuote => self.start_blockquote(),
            MdTag::Table | MdTag::TableHead | MdTag::TableRow | MdTag::TableCell => self.start_table_part(t),
            MdTag::FootnoteDefinition(name) => self.start_footnote(name),
        }
    }
}

} // verus!
