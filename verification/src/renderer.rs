//! The Markdown renderer: consumes parse events and writes ANSI-styled text.

use vstd::prelude::*;
use vstd::string::*;
use crate::ansi::{ansi_color_disabled, bold_seq, push_fg, push_sgr, reset_attr_seq, reset_color_seq};
use crate::markdown::{markdown_events, EventView, MARKDOWN_OPTIONS, event_views, parse_markdown, MdEvent};
use crate::render_model::{emit, fg, finish, heading_style, heading_text, hr, initial_state, run, table_rows, RenderState, RowView};
use crate::text::{char_count, push_char, min_int, push_repeat, repeat, string_views};
use crate::theme::{AnsiColor, Theme, ThemeColors};

mod paragraph;
mod code_block;
mod table;
mod events;
mod closing;
mod dispatch;

pub use paragraph::{pad_right, padded_right, visible_len};

verus! {

/// A table row as collected.
pub(crate) struct TableRow {
    plain: Vec<String>,
    rich: Vec<String>,
    is_header: bool,
}

impl View for TableRow {
    type V = RowView;

    closed spec fn view(&self) -> RowView {
        RowView { plain: string_views(self.plain@), rich: string_views(self.rich@), is_header: self.is_header }
    }
}

/// The views of a sequence of rows.
pub(crate) open spec fn row_views(rows: Seq<TableRow>) -> Seq<RowView> {
    rows.map_values(|r: TableRow| r@)
}

/// Number of columns the terminal shows, as `terminal_size::terminal_size` reports it.
///
/// Trusted: nothing is stated of the result; it depends on the terminal attached
/// to standard output (`None` when there is none).
#[verifier::external_body]
fn terminal_columns() -> Option<u16> {
    terminal_size::terminal_size().map(|(terminal_size::Width(w), _)| w)
}

/// Renders Markdown into a `String` of ANSI-styled text.
pub struct Renderer {
    out: String,
    theme: Theme,
    term_width: u16,
    line_numbers: bool,
    word_wrap: bool,
    indent: usize,
    color_off: bool,
    list_depth: usize,
    ordered_counters: Vec<Option<u64>>,
    para_buf: String,
    in_blockquote: bool,
    heading_text: String,
    heading_level: u8,
    in_heading: bool,
    strong_depth: usize,
    em_depth: usize,
    strike_depth: usize,
    in_link: bool,
    link_dest: String,
    link_text: String,
    in_image: bool,
    image_alt: String,
    code_buf: Option<String>,
    code_lang: Option<String>,
    table_rows: Vec<TableRow>,
    in_table: bool,
    in_table_head: bool,
    in_table_cell: bool,
    cur_cell_plain: String,
    cur_cell_rich: String,
    cur_row_plain: Vec<String>,
    cur_row_rich: Vec<String>,
}

/// The view of an optional string.
pub open spec fn opt_view(s: Option<String>) -> Option<Seq<char>> {
    match s {
        Some(s) => Some(s@),
        None => None,
    }
}

impl View for Renderer {
    type V = RenderState;

    closed spec fn view(&self) -> RenderState {
        RenderState {
            out: self.out@,
            theme: self.theme@,
            term_width: self.term_width,
            line_numbers: self.line_numbers,
            word_wrap: self.word_wrap,
            indent: self.indent,
            color_off: self.color_off,
            list_depth: self.list_depth as nat,
            ordered: self.ordered_counters@,
            para: self.para_buf@,
            in_blockquote: self.in_blockquote,
            heading_text: self.heading_text@,
            heading_level: self.heading_level,
            in_heading: self.in_heading,
            strong: self.strong_depth as nat,
            em: self.em_depth as nat,
            strike: self.strike_depth as nat,
            in_link: self.in_link,
            link_dest: self.link_dest@,
            link_text: self.link_text@,
            in_image: self.in_image,
            image_alt: self.image_alt@,
            code_buf: opt_view(self.code_buf),
            code_lang: opt_view(self.code_lang),
            rows: row_views(self.table_rows@),
            in_table: self.in_table,
            in_table_head: self.in_table_head,
            in_table_cell: self.in_table_cell,
            cell_plain: self.cur_cell_plain@,
            cell_rich: self.cur_cell_rich@,
            row_plain: string_views(self.cur_row_plain@),
            row_rich: string_views(self.cur_row_rich@),
        }
    }
}

impl Renderer {
    /// A renderer for the given terminal width and colour mode.
    pub fn with_terminal(
        theme: Theme,
        line_numbers: bool,
        word_wrap: bool,
        indent: usize,
        term_width: u16,
        color_off: bool,
    ) -> (r: Self)
        ensures
            r@ == initial_state(theme@, term_width, line_numbers, word_wrap, indent, color_off),
    {
        let r = Renderer {
            out: String::new(),
            theme,
            term_width,
            line_numbers,
            word_wrap,
            indent,
            color_off,
            list_depth: 0,
            ordered_counters: Vec::new(),
            para_buf: String::new(),
            in_blockquote: false,
            heading_text: String::new(),
            heading_level: 1,
            in_heading: false,
            strong_depth: 0,
            em_depth: 0,
            strike_depth: 0,
            in_link: false,
            link_dest: String::new(),
            link_text: String::new(),
            in_image: false,
            image_alt: String::new(),
            code_buf: None,
            code_lang: None,
            table_rows: Vec::new(),
            in_table: false,
            in_table_head: false,
            in_table_cell: false,
            cur_cell_plain: String::new(),
            cur_cell_rich: String::new(),
            cur_row_plain: Vec::new(),
            cur_row_rich: Vec::new(),
        };
        assert(row_views(r.table_rows@) =~= Seq::empty());
        assert(string_views(r.cur_row_plain@) =~= Seq::empty());
        assert(string_views(r.cur_row_rich@) =~= Seq::empty());
        r
    }

    /// A renderer sized to the terminal on standard output (100 columns when
    /// there is none, at most 200), honouring the process's colour setting.
    pub fn new(theme: Theme, line_numbers: bool, word_wrap: bool, indent: usize) -> (r: Self)
        ensures
            r@ == initial_state(theme@, r@.term_width, line_numbers, word_wrap, indent, r@.color_off),
            r@.term_width <= 200,
    {
        let cols = terminal_columns();
        let color_off = ansi_color_disabled();
        Self::with_terminal(theme, line_numbers, word_wrap, indent, width_for(cols), color_off)
    }

    /// The text written so far.
    pub fn output(&self) -> (s: &str)
        ensures
            s@ == self@.out,
    {
        self.out.as_str()
    }

    /// Takes the text written so far.
    pub fn into_output(self) -> (s: String)
        ensures
            s@ == self@.out,
    {
        self.out
    }

    fn put(&mut self, x: &str)
        ensures
            final(self)@ == emit(old(self)@, x@),
    {
        self.out.append(x);
    }

    fn put_char(&mut self, c: char)
        ensures
            final(self)@ == emit(old(self)@, seq![c]),
    {
        push_char(&mut self.out, c);
        assert(self@.out =~= old(self)@.out + seq![c]);
    }

    fn put_repeat(&mut self, c: char, n: usize)
        ensures
            final(self)@ == emit(old(self)@, repeat(c, n as nat)),
    {
        push_repeat(&mut self.out, c, n);
    }

    fn fg(&mut self, c: AnsiColor)
        ensures
            final(self)@ == emit(old(self)@, fg(old(self)@, c)),
    {
        push_fg(&mut self.out, c, self.color_off);
    }

    fn reset_color(&mut self)
        ensures
            final(self)@ == emit(old(self)@, reset_color_seq()),
    {
        push_sgr(&mut self.out, '0');
    }

    fn reset_attr(&mut self)
        ensures
            final(self)@ == emit(old(self)@, reset_attr_seq()),
    {
        push_sgr(&mut self.out, '0');
    }

    fn newline(&mut self)
        ensures
            final(self)@ == emit(old(self)@, seq!['\n']),
    {
        self.put_char('\n');
    }
    /// Writes a horizontal rule.
    fn hr(&mut self)
        ensures
            final(self)@ == hr(old(self)@),
    {
        let c = self.theme.colors.rule;
        self.fg(c);
        self.put_repeat('─', self.term_width as usize);
        self.newline();
        self.reset_color();
        assert(self@.out =~= hr(old(self)@).out);
    }

    /// Writes a heading.
    fn print_heading(&mut self, text: &str, level: u8)
        ensures
            final(self)@ == emit(old(self)@, heading_text(old(self)@, text@, level)),
    {
        let t = heading_string(&self.theme.colors, self.color_off, self.term_width, text, level);
        self.put(t.as_str());
    }
}

impl Renderer {
    /// Handles each event in turn, then writes the pending paragraph and a
    /// final colour reset.
    pub fn render_parsed(&mut self, events: &Vec<MdEvent>)
        ensures
            final(self)@ == finish(old(self)@, event_views(events@)),
    {
        let ghost s0 = self@;
        let mut i: usize = 0;
        assert(event_views(events@.take(0)) =~= Seq::<EventView>::empty());
        while i < events.len()
            invariant
                i <= events.len(),
                self@ == run(s0, event_views(events@.take(i as int))),
            decreases events.len() - i,
        {
            self.handle_event(&events[i]);
            assert(event_views(events@.take(i + 1)).drop_last() =~= event_views(events@.take(i as int)));
            i += 1;
        }
        assert(events@.take(events.len() as int) =~= events@);
        self.flush_para();
        self.reset_color();
    }

    /// Renders a Markdown document, parsed with the tables, footnotes,
    /// strikethrough, task list and smart punctuation extensions.
    pub fn render(&mut self, markdown: &str)
        ensures
            final(self)@ == finish(old(self)@, markdown_events(markdown@, MARKDOWN_OPTIONS)),
    {
        let events = parse_markdown(markdown);
        self.render_parsed(&events);
    }
}

/// Renders Markdown to ANSI-styled text for a terminal of `term_width` columns,
/// with colour sequences left out when `color_off` holds.
pub fn render_to_string_with(
    markdown: &str,
    theme: &Theme,
    line_numbers: bool,
    word_wrap: bool,
    indent: usize,
    term_width: u16,
    color_off: bool,
) -> (r: String)
    ensures
        r@ == finish(
            initial_state(theme@, term_width, line_numbers, word_wrap, indent, color_off),
            markdown_events(markdown@, MARKDOWN_OPTIONS),
        ).out,
{
    let mut r = Renderer::with_terminal(theme.duplicate(), line_numbers, word_wrap, indent, term_width, color_off);
    r.render(markdown);
    r.into_output()
}

/// Renders Markdown to ANSI-styled text, sized to the terminal on standard
/// output (100 columns when there is none, at most 200) and honouring the
/// process's colour setting.
pub fn render_to_string(markdown: &str, theme: &Theme, line_numbers: bool, word_wrap: bool, indent: usize) -> (r: String)
    ensures
        exists|w: u16, color_off: bool|
            w <= 200 && r@ == #[trigger] finish(
                initial_state(theme@, w, line_numbers, word_wrap, indent, color_off),
                markdown_events(markdown@, MARKDOWN_OPTIONS),
            ).out,
{
    let w = width_for(terminal_columns());
    let color_off = ansi_color_disabled();
    render_to_string_with(markdown, theme, line_numbers, word_wrap, indent, w, color_off)
}

/// The text of a heading (see [`heading_text`]).
fn heading_string(c: &ThemeColors, color_off: bool, term_width: u16, text: &str, level: u8) -> (t: String)
    ensures
        forall|s: RenderState| s.theme.colors == c@ && s.color_off == color_off && s.term_width == term_width
            ==> t@ == #[trigger] heading_text(s, text@, level),
{
    let (prefix, color) = if level == 1 {
        ('█', c.h1)
    } else if level == 2 {
        ('▌', c.h2)
    } else if level == 3 {
        ('◆', c.h3)
    } else {
        ('◇', c.h4)
    };
    let mut t = String::new();
    push_char(&mut t, '\n');
    push_sgr(&mut t, '1');
    push_fg(&mut t, color, color_off);
    push_char(&mut t, prefix);
    push_char(&mut t, ' ');
    t.append(text);
    push_sgr(&mut t, '0');
    push_sgr(&mut t, '0');
    push_char(&mut t, '\n');
    let ghost title = t@;
    if level == 1 || level == 2 {
        let len = char_count(text);
        let tw = term_width as usize;
        let width = if len < tw && 2 <= tw - len { len + 2 } else { tw };
        let under = if level == 1 { '═' } else { '─' };
        push_fg(&mut t, color, color_off);
        push_repeat(&mut t, under, width);
        push_char(&mut t, '\n');
        push_sgr(&mut t, '0');
    }
    proof {
        assert forall|s: RenderState| s.theme.colors == c@ && s.color_off == color_off && s.term_width
            == term_width implies t@ == #[trigger] heading_text(s, text@, level) by {
            let (p, col) = heading_style(s, level);
            assert(col == color);
            assert(p =~= seq![prefix, ' ']);
            assert(title =~= seq!['\n'] + bold_seq() + fg(s, col) + p + text@ + reset_attr_seq()
                + reset_color_seq() + seq!['\n']);
        }
    }
    t
}

/// The width used for a terminal of `cols` columns: 100 when unknown, at most 200.
pub fn width_for(cols: Option<u16>) -> (w: u16)
    ensures
        w == min_int(
            match cols {
                Some(c) => c as int,
                None => 100,
            },
            200,
        ),
{
    let c = match cols {
        Some(c) => c,
        None => 100,
    };
    if c < 200 { c } else { 200 }
}

} // verus!
