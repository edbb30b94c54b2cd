//! Closing tags: what the end of each Markdown element does to the renderer.

use vstd::prelude::*;
use vstd::string::*;
use crate::ansi::{push_fg, push_reset_all};
use crate::markdown::MdTag;
use crate::render_model::{close_emphasis, end_blockquote, end_code_block, end_emphasis, end_heading, end_image, end_link, end_list, end_table_cell, end_table_row, end_tag, RenderState};
use crate::text::{push_char, sat_sub, string_views, trim_end_matches_char};
use super::{row_views, Renderer, TableRow};

verus! {

impl Renderer {
    /// Closes a heading and writes it.
    pub(super) fn end_heading(&mut self)
        ensures
            final(self)@ == end_heading(old(self)@),
    {
        proof {
            reveal(end_heading);
        }
        self.in_heading = false;
        let text = self.heading_text.clone();
        let level = self.heading_level;
        self.print_heading(text.as_str(), level);
    }

    /// Closes an emphasis of the given kind.
    pub(super) fn end_emphasis(&mut self, t: &MdTag)
        requires
            t is Strong || t is Emphasis || t is Strikethrough,
        ensures
            final(self)@ == end_emphasis(old(self)@, t@),
    {
        proof {
            reveal(end_emphasis);
        }
        self.leave_emphasis(t);
        self.close_emphasis();
    }

    /// Lowers the depth of the given emphasis kind.
    fn leave_emphasis(&mut self, t: &MdTag)
        requires
            t is Strong || t is Emphasis || t is Strikethrough,
        ensures
            final(self)@ == (if t is Strong {
                RenderState { strong: sat_sub(old(self)@.strong as int, 1), ..old(self)@ }
            } else if t is Emphasis {
                RenderState { em: sat_sub(old(self)@.em as int, 1), ..old(self)@ }
            } else {
                RenderState { strike: sat_sub(old(self)@.strike as int, 1), ..old(self)@ }
            }),
    {
        if let MdTag::Strong = t {
            if self.strong_depth > 0 {
                self.strong_depth = self.strong_depth - 1;
            }
        } else if let MdTag::Emphasis = t {
            if self.em_depth > 0 {
                self.em_depth = self.em_depth - 1;
            }
        } else {
            if self.strike_depth > 0 {
                self.strike_depth = self.strike_depth - 1;
            }
        }
    }

    /// Restores the plain style once no emphasis is open.
    fn close_emphasis(&mut self)
        ensures
            final(self)@ == close_emphasis(old(self)@),
    {
        if self.strong_depth == 0 && self.em_depth == 0 && self.strike_depth == 0 {
            let mut a = String::new();
            push_reset_all(&mut a);
            push_fg(&mut a, self.theme.colors.foreground, self.color_off);
            self.push_ansi(a.as_str());
        }
    }

    /// Closes a code block and writes it.
    pub(super) fn end_code_block(&mut self)
        ensures
            final(self)@ == end_code_block(old(self)@),
    {
        proof {
            reveal(end_code_block);
        }
        if self.code_buf.is_some() {
            let code = self.code_buf.take().unwrap();
            let lang = self.code_lang.take();
            let trimmed = trim_end_matches_char(code.as_str(), '\n');
            let t = match &lang {
                Some(l) => self.code_block_string(trimmed.as_str(), Some(l.as_str())),
                None => self.code_block_string(trimmed.as_str(), None),
            };
            self.put(t.as_str());
        }
    }

    /// Closes a link, appending its destination.
    pub(super) fn end_link(&mut self)
        ensures
            final(self)@ == end_link(old(self)@),
    {
        proof {
            reveal(end_link);
        }
        let mut url_part = String::new();
        push_char(&mut url_part, ' ');
        push_char(&mut url_part, '(');
        url_part.append(self.link_dest.as_str());
        push_char(&mut url_part, ')');
        let mut a = String::new();
        push_reset_all(&mut a);
        push_fg(&mut a, self.theme.colors.link_url, self.color_off);
        a.append(url_part.as_str());
        push_reset_all(&mut a);
        if self.in_table_cell {
            self.cur_cell_plain.append(url_part.as_str());
            self.cur_cell_rich.append(a.as_str());
        } else {
            self.para_buf.append(a.as_str());
        }
        self.in_link = false;
        self.link_dest = String::new();
        self.link_text = String::new();
        assert(self@.cell_plain =~= end_link(old(self)@).cell_plain);
        assert(self@.cell_rich =~= end_link(old(self)@).cell_rich);
        assert(self@.para =~= end_link(old(self)@).para);
    }

    /// Closes an image, showing its alternative text.
    pub(super) fn end_image(&mut self)
        ensures
            final(self)@ == end_image(old(self)@),
    {
        proof {
            reveal(end_image);
        }
        let mut shown = String::from_str("[🖼  ");
        if self.image_alt.as_str().is_empty() {
            shown.append("image");
        } else {
            shown.append(self.image_alt.as_str());
        }
        push_char(&mut shown, ']');
        let mut a = self.fg_string(self.theme.colors.italic);
        a.append(shown.as_str());
        push_reset_all(&mut a);
        if self.in_table_cell {
            self.cur_cell_plain.append(shown.as_str());
            self.cur_cell_rich.append(a.as_str());
        } else {
            self.para_buf.append(a.as_str());
        }
        self.in_image = false;
        self.image_alt = String::new();
        assert(self@.cell_plain =~= end_image(old(self)@).cell_plain);
        assert(self@.cell_rich =~= end_image(old(self)@).cell_rich);
        assert(self@.para =~= end_image(old(self)@).para);
    }

    /// Closes a list.
    pub(super) fn end_list(&mut self)
        ensures
            final(self)@ == end_list(old(self)@),
    {
        proof {
            reveal(end_list);
        }
        self.leave_list_level();
        self.drop_list_counter();
        if self.list_depth == 0 {
            self.newline();
        }
    }

    /// Lowers the list depth.
    fn leave_list_level(&mut self)
        ensures
            final(self)@ == (RenderState { list_depth: sat_sub(old(self)@.list_depth as int, 1), ..old(self)@ }),
    {
        if self.list_depth > 0 {
            self.list_depth = self.list_depth - 1;
        }
    }

    /// Drops the counter of the innermost list.
    fn drop_list_counter(&mut self)
        ensures
            final(self)@ == (RenderState {
                ordered: if old(self)@.ordered.len() > 0 {
                    old(self)@.ordered.drop_last()
                } else {
                    old(self)@.ordered
                },
                ..old(self)@
            }),
    {
        if self.ordered_counters.len() > 0 {
            self.ordered_counters.pop();
        }
    }

    /// Closes a block quote.
    pub(super) fn end_blockquote(&mut self)
        ensures
            final(self)@ == end_blockquote(old(self)@),
    {
        proof {
            reveal(end_blockquote);
        }
        self.flush_para();
        self.in_blockquote = false;
        self.reset_attr();
        self.reset_color();
        self.newline();
        assert(self@.out =~= end_blockquote(old(self)@).out);
    }

    /// Closes a table row, collecting it.
    pub(super) fn end_table_row(&mut self)
        ensures
            final(self)@ == end_table_row(old(self)@),
    {
        proof {
            reveal(end_table_row);
        }
        let mut plain = Vec::new();
        std::mem::swap(&mut plain, &mut self.cur_row_plain);
        let mut rich = Vec::new();
        std::mem::swap(&mut rich, &mut self.cur_row_rich);
        let row = TableRow { plain, rich, is_header: self.in_table_head };
        let ghost before = row_views(self.table_rows@);
        self.table_rows.push(row);
        assert(row_views(self.table_rows@) =~= before.push(row@));
        assert(string_views(self.cur_row_plain@) =~= Seq::empty());
        assert(string_views(self.cur_row_rich@) =~= Seq::empty());
    }

    /// Closes a table cell, collecting it.
    pub(super) fn end_table_cell(&mut self)
        ensures
            final(self)@ == end_table_cell(old(self)@),
    {
        proof {
            reveal(end_table_cell);
        }
        self.in_table_cell = false;
        push_reset_all(&mut self.cur_cell_rich);
        let mut plain = String::new();
        std::mem::swap(&mut plain, &mut self.cur_cell_plain);
        let mut rich = String::new();
        std::mem::swap(&mut rich, &mut self.cur_cell_rich);
        let ghost bp = string_views(self.cur_row_plain@);
        let ghost br = string_views(self.cur_row_rich@);
        self.cur_row_plain.push(plain);
        self.cur_row_rich.push(rich);
        assert(string_views(self.cur_row_plain@) =~= bp.push(plain@));
        assert(string_views(self.cur_row_rich@) =~= br.push(rich@));
    }

    /// Handles an end event.
    pub(super) fn end_tag(&mut self, t: &MdTag)
        ensures
            final(self)@ == end_tag(old(self)@, t@),
    {
        match t {
            MdTag::Heading(_) => self.end_heading(),
            MdTag::Paragraph => {
                self.flush_para();
                self.newline();
            },
            MdTag::Strong | MdTag::Emphasis | MdTag::Strikethrough => self.end_emphasis(t),
            MdTag::CodeBlock(_) => self.end_code_block(),
            MdTag::Link(_) => self.end_link(),
            MdTag::Image => self.end_image(),
            MdTag::List(_) => self.end_list(),
            MdTag::Item => self.flush_para(),
            MdTag::BlockQuote => self.end_blockquote(),
            MdTag::Table => {
                self.in_table = false;
                self.flush_table();
            },
            MdTag::TableHead => {
                self.in_table_head = false;
            },
            MdTag::TableRow => self.end_table_row(),
            MdTag::TableCell => self.end_table_cell(),
            MdTag::FootnoteDefinition(_) => {
                self.flush_para();
                self.newline();
            },
        }
    }

}

} // verus!
