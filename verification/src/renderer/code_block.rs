//! Fenced and indented code blocks, drawn in a box.

use vstd::prelude::*;
use vstd::string::*;
use crate::ansi::{push_fg, push_sgr, reset_color_seq};
use crate::render_model::{code_block_text, code_head, code_inner, code_number, code_row, code_rows, code_style, comment_marker, dash_comment_language, fg, hash_comment_language, is_comment_line, line_number_width, line_pieces, lines_of, strip_line_end};
use crate::text::{char_count, chars_start_with, is_whitespace, lemma_dec_len_u64, push_char, push_dec, push_repeat, repeat, str_eq, string_views, to_chars, trim_start};
use super::Renderer;

verus! {

impl Renderer {
    /// The line-number column of a code line.
    pub(super) fn code_number(&self, count: usize, i: usize, lnw: usize) -> (t: String)
        requires
            i < count,
            lnw == line_number_width(self@, count as nat),
        ensures
            t@ == code_number(self@, count as nat, i as nat),
    {
        let mut t = String::new();
        if self.line_numbers {
            push_fg(&mut t, self.theme.colors.code_comment, self.color_off);
            let mut num = String::new();
            push_dec(&mut num, (i + 1) as u64);
            let nl = char_count(num.as_str());
            let field = lnw - 1;
            if nl < field {
                push_repeat(&mut t, ' ', field - nl);
            }
            t.append(num.as_str());
            push_char(&mut t, ' ');
        } else {
            push_char(&mut t, ' ');
        }
        assert(t@ =~= code_number(self@, count as nat, i as nat));
        t
    }

    /// The styling of a code line.
    pub(super) fn code_style(&self, line: &str, lang: Option<&str>) -> (t: String)
        ensures
            t@ == code_style(self@, line@, opt_str_view(lang)),
    {
        let mut t = String::new();
        if is_comment_line_exec(line, lang) {
            push_fg(&mut t, self.theme.colors.code_comment, self.color_off);
            push_sgr(&mut t, '3');
        } else {
            push_fg(&mut t, self.theme.colors.code_inline, self.color_off);
        }
        assert(t@ =~= code_style(self@, line@, opt_str_view(lang)));
        t
    }

    /// One boxed line of a code block.
    #[verifier::rlimit(60)]
    pub(super) fn code_row(&self, lang: Option<&str>, count: usize, i: usize, line: &str) -> (t: String)
        requires
            i < count,
        ensures
            t@ == code_row(self@, opt_str_view(lang), count as nat, i as nat, line@),
    {
        let c = &self.theme.colors;
        let mut cnt = String::new();
        push_dec(&mut cnt, count as u64);
        proof {
            lemma_dec_len_u64(count as u64);
        }
        let lnw = if self.line_numbers { char_count(cnt.as_str()) + 1 } else { 0 };
        let inner = self.code_inner();
        let content_width = if inner > 1 + lnw { inner - (1 + lnw) } else { 0 };
        let number = self.code_number(count, i, lnw);
        let style = self.code_style(line, lang);
        let vlen = char_count(line);
        let pad = if vlen < content_width { content_width - vlen } else { 0 };
        let mut t = String::new();
        push_fg(&mut t, c.table_border, self.color_off);
        push_char(&mut t, '│');
        t.append(number.as_str());
        t.append(style.as_str());
        t.append(line);
        push_repeat(&mut t, ' ', pad);
        push_sgr(&mut t, '0');
        push_sgr(&mut t, '0');
        push_fg(&mut t, c.table_border, self.color_off);
        push_char(&mut t, '│');
        push_char(&mut t, '\n');
        assert(t@ =~= code_row(self@, opt_str_view(lang), count as nat, i as nat, line@));
        t
    }

    /// Width of the box interior of a code block.
    pub(super) fn code_inner(&self) -> (w: usize)
        ensures
            w == code_inner(self@),
    {
        let tw = self.term_width as usize;
        let capped = if tw < 100 { tw } else { 100 };
        if capped > 2 { capped - 2 } else { 0 }
    }

    /// The language line of a code block.
    #[verifier::rlimit(60)]
    pub(super) fn code_label(&self, l: &str, inner: usize) -> (t: String)
        requires
            inner == code_inner(self@),
            l@.len() > 0,
        ensures
            code_head(self@, Some(l@)) == code_head(self@, None::<Seq<char>>).take(0) + (fg(self@, self@.theme.colors.table_border)
                + seq!['╭'] + repeat('─', inner as nat) + seq!['╮', '\n']) + t@ + reset_color_seq(),
    {
        let c = &self.theme.colors;
        let mut t = String::new();
        let mut label = String::new();
        push_char(&mut label, ' ');
        label.append(l);
        push_char(&mut label, ' ');
        let llen = char_count(label.as_str());
        let pad = if inner > llen { inner - llen } else { 0 };
        push_char(&mut t, '│');
        push_sgr(&mut t, '1');
        push_fg(&mut t, c.code_keyword, self.color_off);
        t.append(label.as_str());
        push_sgr(&mut t, '0');
        push_fg(&mut t, c.table_border, self.color_off);
        push_repeat(&mut t, ' ', pad);
        push_char(&mut t, '│');
        push_char(&mut t, '\n');
        push_char(&mut t, '├');
        push_repeat(&mut t, '─', inner);
        push_char(&mut t, '┤');
        push_char(&mut t, '\n');
        assert(code_head(self@, None::<Seq<char>>).take(0) =~= Seq::empty());
        assert(code_head(self@, Some(l@)) =~= (fg(self@, self@.theme.colors.table_border)
                + seq!['╭'] + repeat('─', inner as nat) + seq!['╮', '\n']) + t@ + reset_color_seq());
        t
    }

    /// The top of a code block.
    pub(super) fn code_head(&self, lang: Option<&str>) -> (t: String)
        ensures
            t@ == code_head(self@, opt_str_view(lang)),
    {
        let c = &self.theme.colors;
        let inner = self.code_inner();
        let mut t = String::new();
        push_fg(&mut t, c.table_border, self.color_off);
        push_char(&mut t, '╭');
        push_repeat(&mut t, '─', inner);
        push_char(&mut t, '╮');
        push_char(&mut t, '\n');
        let ghost top = t@;
        match lang {
            Some(l) => {
                if !l.is_empty() {
                    let lab = self.code_label(l, inner);
                    t.append(lab.as_str());
                }
            },
            None => {},
        }
        push_sgr(&mut t, '0');
        assert(t@ =~= code_head(self@, opt_str_view(lang)));
        t
    }

    /// The whole text of a code block.
    pub(super) fn code_block_string(&self, code: &str, lang: Option<&str>) -> (t: String)
        ensures
            t@ == code_block_text(self@, code@, opt_str_view(lang)),
    {
        let c = &self.theme.colors;
        let ls = lines_exec(&to_chars(code));
        let ghost lv = string_views(ls@);
        let count = ls.len();
        let mut t = self.code_head(lang);
        let ghost head = t@;
        let mut i: usize = 0;
        while i < count
            invariant
                i <= count,
                count == ls.len(),
                lv == string_views(ls@),
                lv == lines_of(code@),
                t@ == head + code_rows(self@, opt_str_view(lang), count as nat, lv.take(i as int)),
            decreases count - i,
        {
            let row = self.code_row(lang, count, i, ls[i].as_str());
            assert(lv.take(i + 1).drop_last() =~= lv.take(i as int));
            assert(lv.take(i + 1).last() == ls@[i as int]@);
            t.append(row.as_str());
            i += 1;
            assert(t@ =~= head + code_rows(self@, opt_str_view(lang), count as nat, lv.take(i as int)));
        }
        assert(lv.take(count as int) =~= lv);
        let ghost body = t@;
        push_fg(&mut t, c.table_border, self.color_off);
        push_char(&mut t, '╰');
        push_repeat(&mut t, '─', self.code_inner());
        push_char(&mut t, '╯');
        push_char(&mut t, '\n');
        push_sgr(&mut t, '0');
        push_char(&mut t, '\n');
        assert(t@ =~= code_block_text(self@, code@, opt_str_view(lang)));
        t
    }

}

/// The view of an optional string slice.
pub open spec fn opt_str_view(s: Option<&str>) -> Option<Seq<char>> {
    match s {
        Some(s) => Some(s@),
        None => None,
    }
}

/// The lines of `chars`, as `str::lines` splits them.
pub(super) fn lines_exec(chars: &Vec<char>) -> (ls: Vec<String>)
    ensures
        string_views(ls@) == lines_of(chars@),
{
    let mut pieces: Vec<Vec<char>> = Vec::new();
    let mut i: usize = 0;
    assert(chars@.take(0) =~= Seq::<char>::empty());
    while i < chars.len()
        invariant
            i <= chars.len(),
            pieces@.map_values(|p: Vec<char>| p@) == line_pieces(chars@.take(i as int)),
            forall|k: int| 0 <= k < pieces@.len() ==> (#[trigger] pieces@[k])@.len() > 0,
        decreases chars.len() - i,
    {
        let c = chars[i];
        assert(chars@.take(i + 1).drop_last() =~= chars@.take(i as int));
        let ghost prev = pieces@.map_values(|p: Vec<char>| p@);
        let n = pieces.len();
        if n == 0 || pieces[n - 1][pieces[n - 1].len() - 1] == '\n' {
            let mut p = Vec::new();
            p.push(c);
            pieces.push(p);
            assert(pieces@.map_values(|p: Vec<char>| p@) =~= prev.push(seq![c]));
        } else {
            let mut p = pieces.pop().unwrap();
            p.push(c);
            pieces.push(p);
            assert(pieces@.map_values(|p: Vec<char>| p@) =~= prev.update(prev.len() - 1, prev.last().push(c)));
        }
        i += 1;
    }
    assert(chars@.take(chars.len() as int) =~= chars@);
    let ghost all = pieces@.map_values(|p: Vec<char>| p@);
    let mut ls: Vec<String> = Vec::new();
    let mut j: usize = 0;
    while j < pieces.len()
        invariant
            j <= pieces.len(),
            all == pieces@.map_values(|p: Vec<char>| p@),
            all == line_pieces(chars@),
            string_views(ls@) == all.take(j as int).map_values(|p: Seq<char>| strip_line_end(p)),
        decreases pieces.len() - j,
    {
        let p = &pieces[j];
        let mut end = p.len();
        if end > 0 && p[end - 1] == '\n' {
            end -= 1;
            if end > 0 && p[end - 1] == '\r' {
                end -= 1;
            }
        }
        let mut line = String::new();
        let mut k: usize = 0;
        while k < end
            invariant
                k <= end,
                end <= p.len(),
                line@ == p@.take(k as int),
            decreases end - k,
        {
            push_char(&mut line, p[k]);
            k += 1;
            assert(line@ =~= p@.take(k as int));
        }
        let ghost before = string_views(ls@);
        assert(all[j as int] == p@);
        assert(line@ =~= strip_line_end(p@));
        ls.push(line);
        assert(string_views(ls@) =~= before.push(line@));
        assert(all.take(j + 1).map_values(|p: Seq<char>| strip_line_end(p)) =~= all.take(j as int).map_values(
            |p: Seq<char>| strip_line_end(p),
        ).push(strip_line_end(all[j as int])));
        j += 1;
    }
    assert(all.take(pieces.len() as int) =~= all);
    ls
}

/// `v` without its leading white space.
pub(super) fn trim_start_chars(v: &Vec<char>) -> (r: Vec<char>)
    ensures
        r@ == trim_start(v@),
{
    let mut k: usize = 0;
    assert(v@.skip(0) =~= v@);
    while k < v.len() && is_whitespace(v[k])
        invariant
            k <= v.len(),
            trim_start(v@) == trim_start(v@.skip(k as int)),
        decreases v.len() - k,
    {
        assert(v@.skip(k as int).drop_first() =~= v@.skip(k + 1));
        k += 1;
    }
    let mut r = Vec::new();
    let mut i = k;
    while i < v.len()
        invariant
            k <= i <= v.len(),
            r@ == v@.subrange(k as int, i as int),
        decreases v.len() - i,
    {
        r.push(v[i]);
        i += 1;
        assert(r@ =~= v@.subrange(k as int, i as int));
    }
    assert(r@ =~= v@.skip(k as int));
    r
}

/// Whether `l` names a language whose comments begin with `#`.
pub(super) fn is_hash_comment_language(l: &str) -> (b: bool)
    ensures
        b == hash_comment_language(l@),
{
    str_eq(l, "python") || str_eq(l, "py") || str_eq(l, "ruby") || str_eq(l, "rb")
        || str_eq(l, "shell") || str_eq(l, "bash") || str_eq(l, "sh") || str_eq(l, "zsh")
        || str_eq(l, "toml") || str_eq(l, "yaml") || str_eq(l, "yml") || str_eq(l, "bat")
        || str_eq(l, "powershell") || str_eq(l, "ps1")
}

/// Whether `l` names a language whose comments begin with `--`.
pub(super) fn is_dash_comment_language(l: &str) -> (b: bool)
    ensures
        b == dash_comment_language(l@),
{
    str_eq(l, "sql") || str_eq(l, "lua") || str_eq(l, "haskell") || str_eq(l, "hs")
}

/// The line-comment marker of a language.
pub(super) fn comment_marker_chars(lang: Option<&str>) -> (m: Vec<char>)
    ensures
        m@ == comment_marker(opt_str_view(lang)),
{
    let mut m = Vec::new();
    match lang {
        Some(l) => {
            if is_hash_comment_language(l) {
                m.push('#');
            } else if is_dash_comment_language(l) {
                m.push('-');
                m.push('-');
            } else {
                m.push('/');
                m.push('/');
            }
        },
        None => {
            m.push('/');
            m.push('/');
        },
    }
    assert(m@ =~= comment_marker(opt_str_view(lang)));
    m
}

/// Whether a code line is a comment.
pub(super) fn is_comment_line_exec(line: &str, lang: Option<&str>) -> (b: bool)
    ensures
        b == is_comment_line(line@, opt_str_view(lang)),
{
    let t = trim_start_chars(&to_chars(line));
    let marker = comment_marker_chars(lang);
    if chars_start_with(&t, &marker) {
        return true;
    }
    let markup = match lang {
        Some(l) => str_eq(l, "html") || str_eq(l, "xml"),
        None => false,
    };
    let mut open = Vec::new();
    open.push('<');
    open.push('!');
    open.push('-');
    open.push('-');
    assert(open@ =~= seq!['<', '!', '-', '-']);
    proof {
        if lang is Some {
            assert(opt_str_view(lang) == Some(lang->0@));
        }
    }
    markup && chars_start_with(&t, &open)
}

} // verus!
