//! Application settings, their defaults, and how the entries of a
//! configuration file override them.

use vstd::prelude::*;
use vstd::string::*;
use config_get::ConfigGet;
use crate::renderer::opt_view;
use crate::text::{push_char, str_eq, to_chars};

verus! {

/// The configuration loaded by `config_get` (declared for use in signatures).
#[verifier::external_type_specification]
#[verifier::external_body]
pub struct ExConfigGet(config_get::ConfigGet);

/// The flat key/value entries that a loaded configuration holds.
pub uninterp spec fn config_entries(cg: ConfigGet) -> Map<Seq<char>, Seq<char>>;

/// The text stored under `key`, as `config_get::ConfigGet::get` reports it.
///
/// Trusted: `get` looks the key up, exactly as given, in the configuration's
/// flat map; the contract says that the result is that entry, or `None`
/// where the map has no such key.
#[verifier::external_body]
fn config_value(cg: &ConfigGet, key: &str) -> (v: Option<String>)
    ensures
        match v {
            Some(text) => config_entries(*cg).contains_key(key@) && text@ == config_entries(*cg)[key@],
            None => !config_entries(*cg).contains_key(key@),
        },
{
    cg.get(key).map(String::from)
}

/// Application configuration
pub struct AppConfig {
    pub theme: String,
    pub pager: bool,
    pub pager_cmd: Option<String>,
    pub width: Option<u16>,
    pub line_numbers: bool,
    pub themes_dir: Option<String>,
    pub show_header: bool,
    pub word_wrap: bool,
    pub indent: usize,
}

/// The mathematical value of an [`AppConfig`].
pub struct AppConfigView {
    pub theme: Seq<char>,
    pub pager: bool,
    pub pager_cmd: Option<Seq<char>>,
    pub width: Option<u16>,
    pub line_numbers: bool,
    pub themes_dir: Option<Seq<char>>,
    pub show_header: bool,
    pub word_wrap: bool,
    pub indent: usize,
}

impl View for AppConfig {
    type V = AppConfigView;

    open spec fn view(&self) -> AppConfigView {
        AppConfigView {
            theme: self.theme@,
            pager: self.pager,
            pager_cmd: opt_view(self.pager_cmd),
            width: self.width,
            line_numbers: self.line_numbers,
            themes_dir: opt_view(self.themes_dir),
            show_header: self.show_header,
            word_wrap: self.word_wrap,
            indent: self.indent,
        }
    }
}

/// The settings used when no configuration file says otherwise.
pub open spec fn default_config() -> AppConfigView {
    AppConfigView {
        theme: "fruity"@,
        pager: false,
        pager_cmd: None,
        width: None,
        line_numbers: false,
        themes_dir: None,
        show_header: true,
        word_wrap: true,
        indent: 2,
    }
}

impl Default for AppConfig {
    fn default() -> (c: Self)
        ensures
            c@ == default_config(),
    {
        AppConfig {
            theme: String::from_str("fruity"),
            pager: false,
            pager_cmd: None,
            width: None,
            line_numbers: false,
            themes_dir: None,
            show_header: true,
            word_wrap: true,
            indent: 2,
        }
    }
}

// ── reading values the way `str::parse` does ─────────────────────────────────

/// Whether `c` is an ASCII decimal digit.
pub open spec fn is_ascii_digit(c: char) -> bool {
    '0' <= c <= '9'
}

/// The value of an ASCII digit.
pub open spec fn digit_value(c: char) -> nat {
    (c as int - '0' as int) as nat
}

/// Whether every character of `s` is an ASCII digit.
pub open spec fn all_ascii_digits(s: Seq<char>) -> bool {
    forall|i: int| 0 <= i < s.len() ==> is_ascii_digit(#[trigger] s[i])
}

/// The decimal number written by the digits `s`.
pub open spec fn digits_value(s: Seq<char>) -> nat
    decreases s.len(),
{
    if s.len() == 0 {
        0
    } else {
        digits_value(s.drop_last()) * 10 + digit_value(s.last())
    }
}

/// The digits of an unsigned number, after an optional leading `+`.
pub open spec fn unsigned_body(s: Seq<char>) -> Seq<char> {
    if s.len() > 0 && s[0] == '+' {
        s.drop_first()
    } else {
        s
    }
}

/// What `str::parse` gives for an unsigned integer type whose largest value is
/// `max`: an optional `+`, then at least one ASCII digit, and a value that fits.
pub open spec fn parse_unsigned(s: Seq<char>, max: nat) -> Option<nat> {
    let d = unsigned_body(s);
    if d.len() > 0 && all_ascii_digits(d) && digits_value(d) <= max {
        Some(digits_value(d))
    } else {
        None
    }
}

/// What `str::parse::<bool>` gives: exactly `true` or `false`.
pub open spec fn parse_bool(s: Seq<char>) -> Option<bool> {
    if s == "true"@ {
        Some(true)
    } else if s == "false"@ {
        Some(false)
    } else {
        None
    }
}

/// A prefix of a run of digits is worth no more than the whole run.
proof fn lemma_digits_prefix(d: Seq<char>, k: int)
    requires
        all_ascii_digits(d),
        0 <= k <= d.len(),
    ensures
        digits_value(d.take(k)) <= digits_value(d),
    decreases d.len(),
{
    if k < d.len() {
        let e = d.drop_last();
        assert(all_ascii_digits(e)) by {
            assert forall|i: int| 0 <= i < e.len() implies is_ascii_digit(#[trigger] e[i]) by {
                assert(e[i] == d[i]);
            }
        }
        lemma_digits_prefix(e, k);
        assert(e.take(k) =~= d.take(k));
    } else {
        assert(d.take(k) =~= d);
    }
}

/// Reads `s` as an unsigned number no larger than `max`.
pub fn parse_unsigned_text(s: &str, max: usize) -> (r: Option<usize>)
    ensures
        match r {
            Some(v) => parse_unsigned(s@, max as nat) == Some(v as nat),
            None => parse_unsigned(s@, max as nat) is None,
        },
{
    let chars = to_chars(s);
    let n = chars.len();
    let start: usize = if n > 0 && chars[0] == '+' { 1 } else { 0 };
    let ghost d = unsigned_body(s@);
    assert(d =~= s@.subrange(start as int, n as int));
    if start >= n {
        return None;
    }
    let mut v: usize = 0;
    let mut i: usize = start;
    assert(d.take(0) =~= Seq::<char>::empty());
    while i < n
        invariant
            start <= i <= n,
            n == chars.len(),
            chars@ == s@,
            d == s@.subrange(start as int, n as int),
            d == unsigned_body(s@),
            d.len() == n - start,
            forall|j: int| 0 <= j < i - start ==> is_ascii_digit(#[trigger] d[j]),
            v as nat == digits_value(d.take(i - start)),
            v <= max,
        decreases n - i,
    {
        let c = chars[i];
        assert(d[i - start] == c);
        if !('0' <= c && c <= '9') {
            assert(!is_ascii_digit(d[i - start]));
            return None;
        }
        let digit = ((c as u32) - ('0' as u32)) as usize;
        let w: u128 = (v as u128) * 10 + (digit as u128);
        assert(d.take(i - start + 1).drop_last() =~= d.take(i - start));
        assert(w == digits_value(d.take(i - start + 1)));
        if w > max as u128 {
            proof {
                if all_ascii_digits(d) {
                    lemma_digits_prefix(d, i - start + 1);
                }
            }
            return None;
        }
        v = w as usize;
        i += 1;
    }
    assert(d.take(n - start) =~= d);
    Some(v)
}

/// Reads `s` as `true` or `false`.
pub fn parse_bool_text(s: &str) -> (r: Option<bool>)
    ensures
        r == parse_bool(s@),
{
    if str_eq(s, "true") {
        Some(true)
    } else if str_eq(s, "false") {
        Some(false)
    } else {
        None
    }
}

// ── configuration entries ────────────────────────────────────────────────────

/// The configuration after one entry `key = value` of a configuration file:
/// text keys are taken as they stand, the others only when their value reads
/// as the key's type; unknown keys change nothing.
pub open spec fn apply_entry(c: AppConfigView, key: Seq<char>, value: Seq<char>) -> AppConfigView {
    if key == "theme"@ {
        AppConfigView { theme: value, ..c }
    } else if key == "pager"@ {
        match parse_bool(value) {
            Some(b) => AppConfigView { pager: b, ..c },
            None => c,
        }
    } else if key == "pager_cmd"@ {
        AppConfigView { pager_cmd: Some(value), ..c }
    } else if key == "width"@ {
        match parse_unsigned(value, u16::MAX as nat) {
            Some(w) => AppConfigView { width: Some(w as u16), ..c },
            None => c,
        }
    } else if key == "line_numbers"@ {
        match parse_bool(value) {
            Some(b) => AppConfigView { line_numbers: b, ..c },
            None => c,
        }
    } else if key == "themes_dir"@ {
        AppConfigView { themes_dir: Some(value), ..c }
    } else if key == "show_header"@ {
        match parse_bool(value) {
            Some(b) => AppConfigView { show_header: b, ..c },
            None => c,
        }
    } else if key == "word_wrap"@ {
        match parse_bool(value) {
            Some(b) => AppConfigView { word_wrap: b, ..c },
            None => c,
        }
    } else if key == "indent"@ {
        match parse_unsigned(value, usize::MAX as nat) {
            Some(n) => AppConfigView { indent: n as usize, ..c },
            None => c,
        }
    } else {
        c
    }
}

/// The configuration after the entry stored under `key` in `m`, when `m` has one.
pub open spec fn found_entry(c: AppConfigView, m: Map<Seq<char>, Seq<char>>, key: Seq<char>) -> AppConfigView {
    if m.contains_key(key) {
        apply_entry(c, key, m[key])
    } else {
        c
    }
}

/// The configuration that the entries `m` of a configuration file give: the
/// defaults, then each key the application reads, in this order.
pub open spec fn config_from_entries(m: Map<Seq<char>, Seq<char>>) -> AppConfigView {
    let c = found_entry(default_config(), m, "theme"@);
    let c = found_entry(c, m, "pager"@);
    let c = found_entry(c, m, "pager_cmd"@);
    let c = found_entry(c, m, "width"@);
    let c = found_entry(c, m, "line_numbers"@);
    let c = found_entry(c, m, "themes_dir"@);
    let c = found_entry(c, m, "show_header"@);
    let c = found_entry(c, m, "word_wrap"@);
    found_entry(c, m, "indent"@)
}

impl AppConfig {
    /// Applies one entry `key = value` of a configuration file.
    pub fn apply_setting(&mut self, key: &str, value: &str)
        ensures
            final(self)@ == apply_entry(old(self)@, key@, value@),
    {
        if str_eq(key, "theme") {
            self.theme = String::from_str(value);
        } else if str_eq(key, "pager") {
            if let Some(b) = parse_bool_text(value) {
                self.pager = b;
            }
        } else if str_eq(key, "pager_cmd") {
            self.pager_cmd = Some(String::from_str(value));
        } else if str_eq(key, "width") {
            if let Some(w) = parse_unsigned_text(value, 65535) {
                self.width = Some(w as u16);
            }
        } else if str_eq(key, "line_numbers") {
            if let Some(b) = parse_bool_text(value) {
                self.line_numbers = b;
            }
        } else if str_eq(key, "themes_dir") {
            self.themes_dir = Some(String::from_str(value));
        } else if str_eq(key, "show_header") {
            if let Some(b) = parse_bool_text(value) {
                self.show_header = b;
            }
        } else if str_eq(key, "word_wrap") {
            if let Some(b) = parse_bool_text(value) {
                self.word_wrap = b;
            }
        } else if str_eq(key, "indent") {
            if let Some(n) = parse_unsigned_text(value, usize::MAX) {
                self.indent = n;
            }
        }
    }

    /// Applies the entry stored under `key` in `cg`, when there is one.
    fn apply_found(&mut self, cg: &ConfigGet, key: &str)
        ensures
            final(self)@ == found_entry(old(self)@, config_entries(*cg), key@),
    {
        if let Some(v) = config_value(cg, key) {
            self.apply_setting(key, v.as_str());
        }
    }
}

/// The application configuration that a loaded configuration file gives:
/// the defaults, overridden by each key that the file sets to a usable value.
pub fn config_from(cg: &ConfigGet) -> (c: AppConfig)
    ensures
        c@ == config_from_entries(config_entries(*cg)),
{
    let mut c = AppConfig::default();
    c.apply_found(cg, "theme");
    c.apply_found(cg, "pager");
    c.apply_found(cg, "pager_cmd");
    c.apply_found(cg, "width");
    c.apply_found(cg, "line_numbers");
    c.apply_found(cg, "themes_dir");
    c.apply_found(cg, "show_header");
    c.apply_found(cg, "word_wrap");
    c.apply_found(cg, "indent");
    c
}

/// The lines of the documented configuration file that `--print-config` shows.
pub open spec fn default_config_lines() -> Seq<Seq<char>> {
    seq![
        r#"# readmetoo configuration"#@,
        r#"# Save this to the path shown by: readmetoo --config-path"#@,
        r#"#"#@,
        r#"# Platform defaults:"#@,
        r#"#   Linux/macOS : ~/.config/readmetoo/readmetoo.toml"#@,
        r#"#   Windows     : %APPDATA%\readmetoo\readmetoo.toml"#@,
        r#""#@,
        r#"# Theme name.  Run `readmetoo --list-themes` to see all choices."#@,
        r#"# Built-in themes (Pygments-inspired):"#@,
        r#"#   dark  : fruity (default), monokai, dracula, nord, github-dark,"#@,
        r#"#            gruvbox-dark, one-dark, solarized-dark, material,"#@,
        r#"#            native, vim, zenburn, inkpot"#@,
        r#"#   light : default, emacs, friendly, solarized-light, tango, autumn, bw"#@,
        r#"theme = "fruity""#@,
        r#""#@,
        r#"# Enable the built-in pager automatically for long files"#@,
        r#"pager = false"#@,
        r#""#@,
        r#"# Use a specific external pager command instead of the built-in one."#@,
        r#"# The command receives the rendered output on stdin."#@,
        r#"# pager_cmd = "less -R""#@,
        r#""#@,
        r#"# Hard-code terminal width for line-wrapping (omit to auto-detect)"#@,
        r#"# width = 100"#@,
        r#""#@,
        r#"# Show line numbers in fenced code blocks"#@,
        r#"line_numbers = false"#@,
        r#""#@,
        r#"# Directory containing custom *.theme.toml files"#@,
        r#"# themes_dir = "~/.config/readmetoo/themes""#@,
        r#""#@,
        r#"# Show a filename banner when reading multiple files at once"#@,
        r#"show_header = true"#@,
        r#""#@,
        r#"# Word-wrap long paragraphs to terminal width"#@,
        r#"word_wrap = true"#@,
        r#""#@,
        r#"# Number of spaces per indent level in nested lists"#@,
        r#"indent = 2"#@
    ]
}

/// Each line followed by a line break.
pub open spec fn joined_lines(ls: Seq<Seq<char>>) -> Seq<char>
    decreases ls.len(),
{
    if ls.len() == 0 {
        Seq::empty()
    } else {
        joined_lines(ls.drop_last()) + ls.last() + seq!['\n']
    }
}

/// The lines of the documented configuration file.
fn config_file_lines() -> (ls: Vec<&'static str>)
    ensures
        ls@.map_values(|l: &'static str| l@) == default_config_lines(),
{
    let ls: Vec<&'static str> = vec![
        r#"# readmetoo configuration"#,
        r#"# Save this to the path shown by: readmetoo --config-path"#,
        r#"#"#,
        r#"# Platform defaults:"#,
        r#"#   Linux/macOS : ~/.config/readmetoo/readmetoo.toml"#,
        r#"#   Windows     : %APPDATA%\readmetoo\readmetoo.toml"#,
        r#""#,
        r#"# Theme name.  Run `readmetoo --list-themes` to see all choices."#,
        r#"# Built-in themes (Pygments-inspired):"#,
        r#"#   dark  : fruity (default), monokai, dracula, nord, github-dark,"#,
        r#"#            gruvbox-dark, one-dark, solarized-dark, material,"#,
        r#"#            native, vim, zenburn, inkpot"#,
        r#"#   light : default, emacs, friendly, solarized-light, tango, autumn, bw"#,
        r#"theme = "fruity""#,
        r#""#,
        r#"# Enable the built-in pager automatically for long files"#,
        r#"pager = false"#,
        r#""#,
        r#"# Use a specific external pager command instead of the built-in one."#,
        r#"# The command receives the rendered output on stdin."#,
        r#"# pager_cmd = "less -R""#,
        r#""#,
        r#"# Hard-code terminal width for line-wrapping (omit to auto-detect)"#,
        r#"# width = 100"#,
        r#""#,
        r#"# Show line numbers in fenced code blocks"#,
        r#"line_numbers = false"#,
        r#""#,
        r#"# Directory containing custom *.theme.toml files"#,
        r#"# themes_dir = "~/.config/readmetoo/themes""#,
        r#""#,
        r#"# Show a filename banner when reading multiple files at once"#,
        r#"show_header = true"#,
        r#""#,
        r#"# Word-wrap long paragraphs to terminal width"#,
        r#"word_wrap = true"#,
        r#""#,
        r#"# Number of spaces per indent level in nested lists"#,
        r#"indent = 2"#
    ];
    assert(ls@.map_values(|l: &'static str| l@) =~= default_config_lines());
    ls
}

/// The documented default configuration file.
pub fn default_config_toml() -> (s: String)
    ensures
        s@ == joined_lines(default_config_lines()),
{
    let ls = config_file_lines();
    let ghost views = ls@.map_values(|l: &'static str| l@);
    let mut s = String::new();
    let mut i: usize = 0;
    assert(views.take(0) =~= Seq::<Seq<char>>::empty());
    while i < ls.len()
        invariant
            i <= ls.len(),
            views == ls@.map_values(|l: &'static str| l@),
            s@ == joined_lines(views.take(i as int)),
        decreases ls.len() - i,
    {
        s.append(ls[i]);
        push_char(&mut s, '\n');
        assert(views.take(i + 1).drop_last() =~= views.take(i as int));
        i += 1;
    }
    assert(views.take(ls.len() as int) =~= views);
    s
}

// ── what the documented file sets ───────────────────────────────────────────

/// Whether a line of a TOML file sets nothing: it is empty or a comment.
pub open spec fn is_comment_or_blank(l: Seq<char>) -> bool {
    l.len() == 0 || l[0] == '#'
}

/// The lines of `ls` that set a value, in order.
pub open spec fn setting_lines(ls: Seq<Seq<char>>) -> Seq<Seq<char>>
    decreases ls.len(),
{
    if ls.len() == 0 {
        Seq::empty()
    } else if is_comment_or_blank(ls.last()) {
        setting_lines(ls.drop_last())
    } else {
        setting_lines(ls.drop_last()).push(ls.last())
    }
}

/// A TOML line setting `key` to the value written `value`.
pub open spec fn setting_line(key: Seq<char>, value: Seq<char>) -> Seq<char> {
    key + " = "@ + value
}

/// The text of a TOML value: a quoted string without its quotes, else the value
/// as written.
pub open spec fn toml_value_text(v: Seq<char>) -> Seq<char> {
    if v.len() >= 2 && v[0] == '"' && v.last() == '"' {
        v.subrange(1, v.len() - 1)
    } else {
        v
    }
}

/// The keys the documented file sets, each with its value as written.
pub open spec fn documented_settings() -> Seq<(Seq<char>, Seq<char>)> {
    seq![
        ("theme"@, r#""fruity""#@),
        ("pager"@, "false"@),
        ("line_numbers"@, "false"@),
        ("show_header"@, "true"@),
        ("word_wrap"@, "true"@),
        ("indent"@, "2"@),
    ]
}

/// The entries that the settings `ds` give a configuration, each value as text.
pub open spec fn entries_of(ds: Seq<(Seq<char>, Seq<char>)>) -> Map<Seq<char>, Seq<char>>
    decreases ds.len(),
{
    if ds.len() == 0 {
        Map::empty()
    } else {
        entries_of(ds.drop_last()).insert(ds.last().0, toml_value_text(ds.last().1))
    }
}

} // verus!
