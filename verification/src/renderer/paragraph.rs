//! Paragraph text: visible width, word splitting and wrapping.

use vstd::prelude::*;
use vstd::string::*;
use crate::ansi::push_reset_all;
use crate::render_model::{flush_para, indent_lines, layout, para_avail, para_indent, para_text, run, sat_mul, tok_scan, tokenize, visible_count, visible_scan, TokState};
use crate::text::{byte_len, min_int, push_char, push_repeat, repeat, repeat_char, string_views, to_chars};
use super::Renderer;

verus! {

impl Renderer {
    /// The paragraph prefix and its length in bytes.
    pub(super) fn para_indent(&self) -> (r: (String, usize))
        ensures
            r.0@ == para_indent(self@),
            r.1 == byte_len(para_indent(self@)),
    {
        if self.in_blockquote {
            let mut ind = String::new();
            push_char(&mut ind, ' ');
            push_char(&mut ind, ' ');
            push_char(&mut ind, '│');
            push_char(&mut ind, ' ');
            proof {
                lemma_byte_len_quote_bar();
                assert(ind@ =~= seq![' ', ' ', '│', ' ']);
            }
            (ind, 6)
        } else {
            let n = self.list_depth.checked_mul(self.indent);
            let n = match n {
                Some(n) => n,
                None => usize::MAX,
            };
            proof {
                lemma_byte_len_spaces(n as nat);
                assert(n as nat == sat_mul(self.list_depth as nat, self.indent as nat)) by (nonlinear_arith)
                    requires
                        n == (if self.list_depth * self.indent <= usize::MAX { self.list_depth * self.indent } else { usize::MAX as int }),
                {
                }
            }
            (repeat_char(' ', n), n)
        }
    }

    /// Writes out the pending paragraph text.
    pub(super) fn flush_para(&mut self)
        ensures
            final(self)@ == flush_para(old(self)@),
            final(self)@.theme == old(self)@.theme,
            final(self)@.color_off == old(self)@.color_off,
    {
        proof {
            reveal(flush_para);
        }
        if self.para_buf.as_str().is_empty() {
            return;
        }
        let ghost s0 = self@;
        let chars = to_chars(self.para_buf.as_str());
        let (ind, ind_len) = self.para_indent();
        let tw = self.term_width as usize;
        let rest = if tw > ind_len { tw - ind_len } else { 0 };
        let avail = if rest > 20 { rest } else { 20 };
        assert(avail as nat == para_avail(s0));
        let mut text;
        if self.word_wrap {
            let words = tokenize_chars(&chars);
            let (t, started) = layout_words(&words, ind.as_str(), avail);
            text = t;
            if started {
                push_reset_all(&mut text);
                push_char(&mut text, '\n');
            }
        } else {
            text = ind.clone();
            let body = indent_lines_exec(&chars, ind.as_str());
            text.append(body.as_str());
            push_char(&mut text, '\n');
            push_reset_all(&mut text);
        }
        assert(text@ =~= para_text(s0));
        self.para_buf = String::new();
        self.put(text.as_str());
    }

}

/// Number of characters of `s` outside ANSI escape sequences.
pub fn visible_len(s: &str) -> (n: usize)
    ensures
        n == visible_count(s@),
{
    let chars = to_chars(s);
    let mut len: usize = 0;
    let mut in_esc = false;
    let mut i: usize = 0;
    while i < chars.len()
        invariant
            i <= chars.len(),
            chars@ == s@,
            (len as nat, in_esc) == visible_scan(chars@.take(i as int)),
            len <= i,
        decreases chars.len() - i,
    {
        let c = chars[i];
        assert(chars@.take(i + 1).drop_last() =~= chars@.take(i as int));
        if in_esc {
            if c == 'm' {
                in_esc = false;
            }
        } else if c == '\x1b' {
            in_esc = true;
        } else {
            len += 1;
        }
        i += 1;
    }
    assert(chars@.take(chars.len() as int) =~= s@);
    len
}

/// `s` padded on the right with spaces to `width` visible characters.
pub open spec fn padded_right(s: Seq<char>, width: nat) -> Seq<char> {
    if visible_count(s) >= width {
        s
    } else {
        s + repeat(' ', (width - visible_count(s)) as nat)
    }
}

/// Pads `s` on the right with spaces to `width` visible characters.
pub fn pad_right(s: &str, width: usize) -> (r: String)
    ensures
        r@ == padded_right(s@, width as nat),
{
    let vlen = visible_len(s);
    let mut r = String::from_str(s);
    if vlen < width {
        push_repeat(&mut r, ' ', width - vlen);
    }
    r
}

/// Splits paragraph text into words.
pub(super) fn tokenize_chars(chars: &Vec<char>) -> (words: Vec<String>)
    ensures
        string_views(words@) == tokenize(chars@),
{
    let mut words: Vec<String> = Vec::new();
    let mut tok = String::new();
    let mut in_esc = false;
    let mut i: usize = 0;
    assert(string_views(words@) =~= Seq::empty());
    assert(chars@.take(0) =~= Seq::empty());
    while i < chars.len()
        invariant
            i <= chars.len(),
            tok_scan(chars@.take(i as int)) == (TokState { tokens: string_views(words@), tok: tok@, in_esc }),
        decreases chars.len() - i,
    {
        let ch = chars[i];
        assert(chars@.take(i + 1).drop_last() =~= chars@.take(i as int));
        let ghost before = string_views(words@);
        if in_esc {
            push_char(&mut tok, ch);
            if ch == 'm' {
                in_esc = false;
            }
        } else if ch == '\x1b' {
            in_esc = true;
            push_char(&mut tok, ch);
        } else if ch == ' ' || ch == '\n' {
            if tok.as_str().is_empty() {
            } else {
                let t = tok;
                tok = String::new();
                words.push(t);
                assert(string_views(words@) =~= before.push(t@));
            }
        } else {
            push_char(&mut tok, ch);
        }
        i += 1;
    }
    assert(chars@.take(chars.len() as int) =~= chars@);
    if !tok.as_str().is_empty() {
        let ghost before = string_views(words@);
        words.push(tok);
        assert(string_views(words@) =~= before.push(tok@));
    }
    words
}

/// Lays words out in lines of `avail` visible columns, each line after `ind`.
pub(super) fn layout_words(words: &Vec<String>, ind: &str, avail: usize) -> (r: (String, bool))
    ensures
        r.0@ == layout(string_views(words@), ind@, avail as nat).text,
        r.1 == layout(string_views(words@), ind@, avail as nat).started,
{
    let ghost ws = string_views(words@);
    let mut text = String::new();
    let mut col: usize = 0;
    let mut started = false;
    let mut j: usize = 0;
    while j < words.len()
        invariant
            j <= words.len(),
            ws == string_views(words@),
            text@ == layout(ws.take(j as int), ind@, avail as nat).text,
            started == layout(ws.take(j as int), ind@, avail as nat).started,
            col as int == min_int(layout(ws.take(j as int), ind@, avail as nat).col as int, usize::MAX as int),
        decreases words.len() - j,
    {
        assert(ws.take(j + 1).drop_last() =~= ws.take(j as int));
        assert(ws.take(j + 1).last() == words@[j as int]@);
        let word = words[j].as_str();
        let wlen = visible_len(word);
        if !started {
            text.append(ind);
            started = true;
        } else if wlen >= avail || col >= avail - wlen {
            push_char(&mut text, '\n');
            text.append(ind);
            col = 0;
        } else {
            push_char(&mut text, ' ');
            col = col.saturating_add(1);
        }
        text.append(word);
        col = col.saturating_add(wlen);
        j += 1;
        assert(text@ =~= layout(ws.take(j as int), ind@, avail as nat).text);
    }
    assert(ws.take(words.len() as int) =~= ws);
    (text, started)
}

/// `chars` with `ind` inserted after every newline.
pub(super) fn indent_lines_exec(chars: &Vec<char>, ind: &str) -> (r: String)
    ensures
        r@ == indent_lines(chars@, ind@),
{
    let mut r = String::new();
    let mut i: usize = 0;
    while i < chars.len()
        invariant
            i <= chars.len(),
            r@ == indent_lines(chars@.take(i as int), ind@),
        decreases chars.len() - i,
    {
        assert(chars@.take(i + 1).drop_last() =~= chars@.take(i as int));
        if chars[i] == '\n' {
            push_char(&mut r, '\n');
            r.append(ind);
        } else {
            push_char(&mut r, chars[i]);
        }
        i += 1;
        assert(r@ =~= indent_lines(chars@.take(i as int), ind@));
    }
    assert(chars@.take(chars.len() as int) =~= chars@);
    r
}

/// A run of spaces takes one byte per space.
pub(super) proof fn lemma_byte_len_spaces(n: nat)
    ensures
        byte_len(repeat(' ', n)) == n,
    decreases n,
{
    reveal_with_fuel(vstd::utf8::encode_utf8, 2);
    if n > 0 {
        assert(repeat(' ', n).drop_first() =~= repeat(' ', (n - 1) as nat));
        lemma_byte_len_spaces((n - 1) as nat);
    }
}

/// The block-quote bar takes six bytes.
pub(super) proof fn lemma_byte_len_quote_bar()
    ensures
        byte_len(seq![' ', ' ', '│', ' ']) == 6,
{
    let s = seq![' ', ' ', '│', ' '];
    reveal_with_fuel(vstd::utf8::encode_utf8, 5);
    assert(s.drop_first() =~= seq![' ', '│', ' ']);
    assert(s.drop_first().drop_first() =~= seq!['│', ' ']);
    assert(s.drop_first().drop_first().drop_first() =~= seq![' ']);
    assert(s.drop_first().drop_first().drop_first().drop_first() =~= Seq::<char>::empty());
    assert(('│' as u32) == 0x2502u32);
}

} // verus!
