//! Which pager commands to try, in order, and how a command line is split.

use vstd::prelude::*;
use vstd::string::*;
use crate::text::{all_white_space, is_white_space, is_whitespace, push_char, string_views, to_chars};

verus! {

/// Words found so far and the word being read.
pub struct SplitState {
    pub words: Seq<Seq<char>>,
    pub word: Seq<char>,
}

/// Split state after reading `s`.
pub open spec fn split_scan(s: Seq<char>) -> SplitState
    decreases s.len(),
{
    if s.len() == 0 {
        SplitState { words: Seq::empty(), word: Seq::empty() }
    } else {
        let st = split_scan(s.drop_last());
        let c = s.last();
        if is_white_space(c) {
            if st.word.len() > 0 {
                SplitState { words: st.words.push(st.word), word: Seq::empty() }
            } else {
                st
            }
        } else {
            SplitState { word: st.word.push(c), ..st }
        }
    }
}

/// The words of `s`: its maximal runs of characters other than white space
/// (what `str::split_whitespace` yields).
pub open spec fn split_words(s: Seq<char>) -> Seq<Seq<char>> {
    let st = split_scan(s);
    if st.word.len() > 0 {
        st.words.push(st.word)
    } else {
        st.words
    }
}

/// The program and arguments of a pager command line; empty when the line
/// holds only white space.
pub fn split_command(cmd: &str) -> (words: Vec<String>)
    ensures
        string_views(words@) == split_words(cmd@),
{
    let chars = to_chars(cmd);
    let mut words: Vec<String> = Vec::new();
    let mut word = String::new();
    let mut i: usize = 0;
    assert(chars@.take(0) =~= Seq::<char>::empty());
    while i < chars.len()
        invariant
            i <= chars.len(),
            chars@ == cmd@,
            string_views(words@) == split_scan(chars@.take(i as int)).words,
            word@ == split_scan(chars@.take(i as int)).word,
        decreases chars.len() - i,
    {
        let c = chars[i];
        assert(chars@.take(i + 1).drop_last() =~= chars@.take(i as int));
        if is_whitespace(c) {
            if !word.as_str().is_empty() {
                let ghost before = string_views(words@);
                let w = word;
                words.push(w);
                word = String::new();
                assert(string_views(words@) =~= before.push(w@));
            }
        } else {
            push_char(&mut word, c);
        }
        i += 1;
    }
    assert(chars@.take(chars.len() as int) =~= cmd@);
    if !word.as_str().is_empty() {
        let ghost before = string_views(words@);
        let w = word;
        words.push(w);
        assert(string_views(words@) =~= before.push(w@));
    }
    words
}

/// The platform's own pagers: `more` on Windows, else `less -R`, `less` and `more`.
pub open spec fn native_pagers(windows: bool) -> Seq<Seq<char>> {
    if windows {
        seq!["more"@]
    } else {
        seq!["less -R"@, "less"@, "more"@]
    }
}

/// The commands that the pager strategy tries, in order: the `PAGER` setting
/// when it holds more than white space, then the platform's own pagers.
pub open spec fn pager_candidates_spec(env_pager: Option<Seq<char>>, windows: bool) -> Seq<Seq<char>> {
    let natives = native_pagers(windows);
    match env_pager {
        Some(p) => if !all_white_space(p) { seq![p] + natives } else { natives },
        None => natives,
    }
}

/// Whether `s` holds only white space.
fn only_white_space(s: &str) -> (b: bool)
    ensures
        b == all_white_space(s@),
{
    let chars = to_chars(s);
    let mut i: usize = 0;
    while i < chars.len()
        invariant
            i <= chars.len(),
            chars@ == s@,
            forall|j: int| 0 <= j < i ==> is_white_space(#[trigger] chars@[j]),
        decreases chars.len() - i,
    {
        if !is_whitespace(chars[i]) {
            return false;
        }
        i += 1;
    }
    true
}

/// The commands that the pager strategy tries, in order, given the value of
/// the `PAGER` environment variable (`None` when it is unset) and whether the
/// program runs on Windows.
pub fn pager_candidates(env_pager: Option<&str>, windows: bool) -> (cs: Vec<String>)
    ensures
        string_views(cs@) == pager_candidates_spec(match env_pager {
            Some(p) => Some(p@),
            None => None,
        }, windows),
{
    let mut cs: Vec<String> = Vec::new();
    if let Some(p) = env_pager {
        if !only_white_space(p) {
            cs.push(String::from_str(p));
        }
    }
    if !windows {
        cs.push(String::from_str("less -R"));
        cs.push(String::from_str("less"));
    }
    cs.push(String::from_str("more"));
    proof {
        let ghost ev = match env_pager {
            Some(p) => Some(p@),
            None => None,
        };
        assert(string_views(cs@) =~= pager_candidates_spec(ev, windows));
    }
    cs
}

} // verus!
