//! Inline events and the dispatch of every event to its handler.

use vstd::prelude::*;
use vstd::string::*;
use crate::ansi::{push_fg, push_reset_all};
use crate::markdown::{EventView, MdEvent};
use crate::render_model::{html, inline_code, soft_break, step, strip_scan, strip_tags};
use crate::text::{string_of, trim_end, is_whitespace, push_char, to_chars};
use super::Renderer;
use super::code_block::trim_start_chars;

verus! {

/// The characters of `h` outside `<...>` tags.
pub(super) fn strip_tags_chars(h: &Vec<char>) -> (r: Vec<char>)
    ensures
        r@ == strip_tags(h@),
{
    let mut kept: Vec<char> = Vec::new();
    let mut in_tag = false;
    let mut i: usize = 0;
    assert(h@.take(0) =~= Seq::<char>::empty());
    while i < h.len()
        invariant
            i <= h.len(),
            (kept@, in_tag) == strip_scan(h@.take(i as int)),
        decreases h.len() - i,
    {
        let c = h[i];
        assert(h@.take(i + 1).drop_last() =~= h@.take(i as int));
        if c == '<' {
            in_tag = true;
        } else if c == '>' {
            in_tag = false;
        } else if !in_tag {
            kept.push(c);
        }
        i += 1;
    }
    assert(h@.take(h.len() as int) =~= h@);
    kept
}

/// `v` without its trailing white space.
pub(super) fn trim_end_chars(v: &Vec<char>) -> (r: Vec<char>)
    ensures
        r@ == trim_end(v@),
{
    let mut n: usize = v.len();
    assert(v@.take(n as int) =~= v@);
    while n > 0 && is_whitespace(v[n - 1])
        invariant
            n <= v.len(),
            trim_end(v@) == trim_end(v@.take(n as int)),
        decreases n,
    {
        assert(v@.take(n as int).drop_last() =~= v@.take(n - 1));
        n -= 1;
    }
    let mut r: Vec<char> = Vec::new();
    let mut i: usize = 0;
    while i < n
        invariant
            i <= n <= v.len(),
            r@ == v@.take(i as int),
        decreases n - i,
    {
        r.push(v[i]);
        i += 1;
        assert(r@ =~= v@.take(i as int));
    }
    r
}

impl Renderer {
    /// Inline code: without backticks in a heading, otherwise between backticks
    /// in the inline-code colour.
    pub(super) fn inline_code(&mut self, text: &str)
        ensures
            final(self)@ == inline_code(old(self)@, text@),
    {
        if self.in_heading {
            self.heading_text.append(text);
        } else {
            let mut shown = String::new();
            push_char(&mut shown, '`');
            shown.append(text);
            push_char(&mut shown, '`');
            let mut a = self.fg_string(self.theme.colors.code_inline);
            a.append(shown.as_str());
            push_reset_all(&mut a);
            if self.in_table_cell {
                self.cur_cell_plain.append(shown.as_str());
                self.cur_cell_rich.append(a.as_str());
                assert(self@.cell_plain =~= inline_code(old(self)@, text@).cell_plain);
                assert(self@.cell_rich =~= inline_code(old(self)@, text@).cell_rich);
            } else {
                push_fg(&mut a, self.theme.colors.foreground, self.color_off);
                self.para_buf.append(a.as_str());
                assert(self@.para =~= inline_code(old(self)@, text@).para);
            }
        }
    }

    /// Raw HTML: its text without tags and surrounding white space, dimmed.
    pub(super) fn html(&mut self, h: &str)
        ensures
            final(self)@ == html(old(self)@, h@),
    {
        let chars = to_chars(h);
        let kept = strip_tags_chars(&chars);
        let front = trim_start_chars(&kept);
        let both = trim_end_chars(&front);
        if both.len() > 0 {
            let t = string_of(&both);
            let mut a = self.fg_string(self.theme.colors.code_comment);
            a.append(t.as_str());
            push_reset_all(&mut a);
            self.para_buf.append(a.as_str());
            assert(self@.para =~= html(old(self)@, h@).para);
        }
    }

    /// A footnote reference, `[^name]`, in the link colour.
    pub(super) fn footnote_ref(&mut self, name: &str)
        ensures
            final(self)@ == step(old(self)@, EventView::FootnoteReference(name@)),
    {
        let mut a = self.fg_string(self.theme.colors.link_url);
        push_char(&mut a, '[');
        push_char(&mut a, '^');
        a.append(name);
        push_char(&mut a, ']');
        push_reset_all(&mut a);
        self.para_buf.append(a.as_str());
        assert(self@.para =~= step(old(self)@, EventView::FootnoteReference(name@)).para);
    }

    /// A soft line break: a space in the open inline context.
    pub(super) fn soft_break(&mut self)
        ensures
            final(self)@ == soft_break(old(self)@),
    {
        if self.in_table_cell {
            push_char(&mut self.cur_cell_plain, ' ');
            push_char(&mut self.cur_cell_rich, ' ');
        } else if !self.in_heading && self.code_buf.is_none() {
            push_char(&mut self.para_buf, ' ');
        }
    }

    /// A horizontal rule between blocks.
    pub(super) fn rule(&mut self)
        ensures
            final(self)@ == step(old(self)@, EventView::Rule),
    {
        self.flush_para();
        self.hr();
        self.newline();
    }

    /// A task list check box.
    pub(super) fn task_marker(&mut self, checked: bool)
        ensures
            final(self)@ == step(old(self)@, EventView::TaskListMarker(checked)),
    {
        let c = self.theme.colors.list_marker;
        self.fg(c);
        if checked {
            self.put("☑ ");
        } else {
            self.put("☐ ");
        }
        self.reset_color();
        proof {
            reveal_strlit("☑ ");
            reveal_strlit("☐ ");
        }
        assert(self@.out =~= step(old(self)@, EventView::TaskListMarker(checked)).out);
    }

    /// Handles one parse event.
    pub(super) fn handle_event(&mut self, e: &MdEvent)
        ensures
            final(self)@ == step(old(self)@, e@),
    {
        match e {
            MdEvent::Start(t) => self.start_tag(t),
            MdEvent::End(t) => self.end_tag(t),
            MdEvent::Text(text) => self.push_inline_text(text.as_str()),
            MdEvent::Code(text) => self.inline_code(text.as_str()),
            MdEvent::Html(h) => self.html(h.as_str()),
            MdEvent::FootnoteReference(name) => self.footnote_ref(name.as_str()),
            MdEvent::SoftBreak => self.soft_break(),
            MdEvent::HardBreak => self.flush_para(),
            MdEvent::Rule => self.rule(),
            MdEvent::TaskListMarker(checked) => self.task_marker(*checked),
        }
    }
}

} // verus!
