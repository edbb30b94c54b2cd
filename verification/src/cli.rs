//! Command-line options and the decisions a run takes from them: what to
//! do, which settings apply, how the output is assembled and shown.

use vstd::prelude::*;
use vstd::string::*;
use crate::config::AppConfig;
use crate::markdown::{markdown_events, MARKDOWN_OPTIONS};
use crate::render_model::{finish, initial_state};
use crate::ansi::ansi_color_disabled;
use crate::renderer::{opt_view, render_to_string, render_to_string_with};
use crate::text::{byte_len, push_repeat, repeat, sorted_by_lex, str_eq, string_views};
use crate::theme::{builtin_theme_names, builtin_theme_views, find_builtin_theme, find_theme, find_theme_in, law_get_theme_matches_list, list_themes, spec_theme_fruity, theme_fruity, theme_views, Theme, ThemeView};

verus! {

/// readmetoo — Beautiful Markdown reader for your terminal.
///
/// The options of one run.
pub struct Cli {
    /// Markdown file(s) to display (reads from stdin when omitted)
    pub files: Vec<String>,
    /// Color theme name (overrides config file)
    pub theme: Option<String>,
    /// Enable the built-in pager for long output
    pub pager: bool,
    /// Disable the pager even when enabled in config
    pub no_pager: bool,
    /// External pager command to pipe output into (e.g. "less -R")
    pub pager_cmd: Option<String>,
    /// Show line numbers inside code blocks
    pub line_numbers: bool,
    /// Hard-code terminal width for line-wrapping
    pub width: Option<u16>,
    /// Disable paragraph word-wrapping
    pub no_wrap: bool,
    /// List all available built-in themes and exit
    pub list_themes: bool,
    /// Print sample rendered output for the named theme, then exit
    pub preview_theme: Option<String>,
    /// Print the config file path for this platform and exit
    pub config_path: bool,
    /// Print a documented default config file to stdout and exit
    pub print_config: bool,
    /// Suppress filename banners when reading multiple files
    pub quiet: bool,
}

/// What a run does.
pub enum Action {
    ListThemes,
    ShowConfigPath,
    PrintConfig,
    Preview(String),
    Render,
}

/// The settings that rendering and output follow.
pub struct Settings {
    pub theme: Theme,
    pub use_pager: bool,
    pub line_numbers: bool,
    pub word_wrap: bool,
    pub indent: usize,
    pub show_header: bool,
    pub pager_cmd: Option<String>,
    /// The wrapping width fixed by `--width` or the configuration, if any.
    pub width: Option<u16>,
}

/// Where one input document comes from.
pub enum Input {
    /// Standard input (no files given, or the file name `-`).
    Stdin,
    /// The named file.
    File(String),
}

/// How the assembled output is shown.
pub enum Emission {
    /// Written to standard output.
    Stdout,
    /// Piped into the given pager command.
    ExternalPager(String),
    /// Shown by the pager strategy, with the given title.
    Pager(String),
}

/// The theme name a run uses: the option when given, else the configured one.
pub open spec fn chosen_theme_name(option: Option<Seq<char>>, configured: Seq<char>) -> Seq<char> {
    match option {
        Some(n) => n,
        None => configured,
    }
}

/// Whether the pager is used: `--no-pager` wins over `--pager` and the configuration.
pub open spec fn pager_wanted(pager: bool, no_pager: bool, configured: bool) -> bool {
    !no_pager && (pager || configured)
}

/// The external pager command: the option when given, else the configured one.
pub open spec fn chosen_pager_cmd(option: Option<Seq<char>>, configured: Option<Seq<char>>) -> Option<Seq<char>> {
    match option {
        Some(c) => Some(c),
        None => configured,
    }
}

/// A copy of an optional string.
fn copy_opt(s: &Option<String>) -> (r: Option<String>)
    ensures
        opt_view(r) == opt_view(*s),
{
    match s {
        Some(t) => Some(String::from_str(t.as_str())),
        None => None,
    }
}

impl Cli {
    /// What this run does: the informational exits first, in this order, then a
    /// theme preview, else rendering.
    pub fn action(&self) -> (a: Action)
        ensures
            (a is ListThemes) == self.list_themes,
            (a is ShowConfigPath) == (!self.list_themes && self.config_path),
            (a is PrintConfig) == (!self.list_themes && !self.config_path && self.print_config),
            (a is Preview) == (!self.list_themes && !self.config_path && !self.print_config
                && self.preview_theme is Some),
            (a is Render) == (!self.list_themes && !self.config_path && !self.print_config
                && self.preview_theme is None),
            a matches Action::Preview(n) ==> self.preview_theme matches Some(p) && n@ == p@,
    {
        if self.list_themes {
            Action::ListThemes
        } else if self.config_path {
            Action::ShowConfigPath
        } else if self.print_config {
            Action::PrintConfig
        } else {
            match &self.preview_theme {
                Some(n) => Action::Preview(String::from_str(n.as_str())),
                None => Action::Render,
            }
        }
    }

    /// The settings of this run under the configuration `cfg`, with the
    /// custom themes `custom`: options override the configuration; the theme
    /// named is looked up among the built-in themes, then the custom ones, and
    /// falls back to the default theme, fruity.
    pub fn resolve(&self, cfg: &AppConfig, custom: &Vec<Theme>) -> (s: Settings)
        ensures
            s.theme@ == chosen_theme(chosen_theme_name(opt_view(self.theme), cfg.theme@), theme_views(custom@)),
            s.use_pager == pager_wanted(self.pager, self.no_pager, cfg.pager),
            s.line_numbers == (self.line_numbers || cfg.line_numbers),
            s.word_wrap == (!self.no_wrap && cfg.word_wrap),
            s.indent == cfg.indent,
            s.show_header == (!self.quiet && cfg.show_header),
            opt_view(s.pager_cmd) == chosen_pager_cmd(opt_view(self.pager_cmd), opt_view(cfg.pager_cmd)),
            s.width == (match self.width {
                Some(w) => Some(w),
                None => cfg.width,
            }),
    {
        let name: &str = match &self.theme {
            Some(t) => t.as_str(),
            None => cfg.theme.as_str(),
        };
        let theme = select_theme(name, custom);
        let pager_cmd = match &self.pager_cmd {
            Some(c) => Some(String::from_str(c.as_str())),
            None => copy_opt(&cfg.pager_cmd),
        };
        Settings {
            theme,
            use_pager: !self.no_pager && (self.pager || cfg.pager),
            line_numbers: self.line_numbers || cfg.line_numbers,
            word_wrap: !self.no_wrap && cfg.word_wrap,
            indent: cfg.indent,
            show_header: !self.quiet && cfg.show_header,
            pager_cmd,
            width: match self.width {
                Some(w) => Some(w),
                None => cfg.width,
            },
        }
    }

    /// The input documents of this run, in order: standard input when no file
    /// is given, else each file, the name `-` standing for standard input.
    pub fn inputs(&self) -> (ins: Vec<Input>)
        ensures
            self.files.len() == 0 ==> ins.len() == 1 && ins@[0] is Stdin,
            self.files.len() > 0 ==> ins.len() == self.files.len(),
            forall|i: int| 0 <= i < self.files.len() ==> (if self.files@[i]@ == "-"@ {
                #[trigger] ins@[i] is Stdin
            } else {
                ins@[i] matches Input::File(f) && f@ == self.files@[i]@
            }),
    {
        let mut ins: Vec<Input> = Vec::new();
        if self.files.len() == 0 {
            ins.push(Input::Stdin);
            return ins;
        }
        let mut i: usize = 0;
        while i < self.files.len()
            invariant
                i <= self.files.len(),
                ins.len() == i,
                forall|k: int| 0 <= k < i ==> (if self.files@[k]@ == "-"@ {
                    #[trigger] ins@[k] is Stdin
                } else {
                    ins@[k] matches Input::File(f) && f@ == self.files@[k]@
                }),
            decreases self.files.len() - i,
        {
            if str_eq(self.files[i].as_str(), "-") {
                ins.push(Input::Stdin);
            } else {
                ins.push(Input::File(String::from_str(self.files[i].as_str())));
            }
            i += 1;
        }
        ins
    }
}

/// The theme that `name` selects: a built-in theme of that name, else a custom
/// theme of that name, else the default theme, fruity.
pub open spec fn chosen_theme(name: Seq<char>, custom: Seq<ThemeView>) -> ThemeView {
    match find_theme(builtin_theme_views(), name) {
        Some(t) => t,
        None => match find_theme(custom, name) {
            Some(t) => t,
            None => spec_theme_fruity(),
        },
    }
}

/// The theme that `name` selects among the built-in and the custom themes.
pub fn select_theme(name: &str, custom: &Vec<Theme>) -> (t: Theme)
    ensures
        t@ == chosen_theme(name@, theme_views(custom@)),
{
    match find_builtin_theme(name) {
        Some(t) => t,
        None => match find_theme_in(custom, name) {
            Some(t) => t,
            None => theme_fruity(),
        },
    }
}

/// The width a document is laid out for: the fixed width when one is given
/// and not 0, else what the terminal reports (`None`).
pub open spec fn fixed_width(width: Option<u16>) -> Option<u16> {
    match width {
        Some(w) => if w > 0 { Some(w) } else { None },
        None => None,
    }
}

impl Settings {
    /// Whether `out` is what rendering `text` under these settings gives: laid
    /// out for the fixed width when there is one, else for some width of at
    /// most 200 (the terminal's), in some colour mode (the process's).
    pub open spec fn renders_to(&self, text: Seq<char>, out: Seq<char>) -> bool {
        exists|w: u16, color_off: bool|
            (match fixed_width(self.width) {
                Some(f) => w == f,
                None => w <= 200,
            }) && out == #[trigger] finish(
                initial_state(self.theme@, w, self.line_numbers, self.word_wrap, self.indent, color_off),
                markdown_events(text, MARKDOWN_OPTIONS),
            ).out
    }

    /// Renders one input document under these settings: laid out for the
    /// fixed width when there is one, else for the terminal (100 columns when
    /// there is none, at most 200), in the process's colour mode.
    pub fn render(&self, markdown: &str) -> (r: String)
        ensures
            self.renders_to(markdown@, r@),
    {
        match self.width {
            Some(w) => {
                if w > 0 {
                    let color_off = ansi_color_disabled();
                    return render_to_string_with(
                        markdown,
                        &self.theme,
                        self.line_numbers,
                        self.word_wrap,
                        self.indent,
                        w,
                        color_off,
                    );
                }
            },
            None => {},
        }
        render_to_string(markdown, &self.theme, self.line_numbers, self.word_wrap, self.indent)
    }

    /// The whole output of a run over the documents `docs`, each a title and
    /// its Markdown text: each text rendered under these settings, one after
    /// another, each after its banner when headers are on and there is more
    /// than one document.
    pub fn output(&self, docs: &Vec<(String, String)>) -> (out: String)
        requires
            forall|i: int| 0 <= i < docs.len() ==> byte_len(#[trigger] docs@[i].0@) + 4 <= usize::MAX,
        ensures
            exists|bodies: Seq<Seq<char>>|
                #![trigger titled(part_views(docs@), bodies)]
                bodies.len() == docs.len() && (forall|i: int|
                    0 <= i < docs.len() ==> self.renders_to(docs@[i].1@, #[trigger] bodies[i]))
                    && out@ == assembled(titled(part_views(docs@), bodies), self.show_header && docs.len() > 1),
    {
        let mut parts: Vec<(String, String)> = Vec::new();
        let mut i: usize = 0;
        while i < docs.len()
            invariant
                i <= docs.len(),
                parts.len() == i,
                forall|k: int| 0 <= k < i ==> (#[trigger] parts@[k]).0@ == docs@[k].0@,
                forall|k: int| 0 <= k < i ==> self.renders_to(docs@[k].1@, (#[trigger] parts@[k]).1@),
            decreases docs.len() - i,
        {
            let title = String::from_str(docs[i].0.as_str());
            let body = self.render(docs[i].1.as_str());
            parts.push((title, body));
            i += 1;
        }
        let out = assemble_output(&parts, self.show_header);
        let ghost bodies = part_views(parts@).map_values(|p: (Seq<char>, Seq<char>)| p.1);
        assert(titled(part_views(docs@), bodies) =~= part_views(parts@));
        assert forall|k: int| 0 <= k < docs.len() implies self.renders_to(docs@[k].1@, #[trigger] bodies[k]) by {
            assert(bodies[k] == parts@[k].1@);
        }
        out
    }

    /// How the output of inputs titled `titles` is shown: on standard output
    /// without the pager, else through the chosen pager command, else by the
    /// pager strategy under the first title.
    pub fn emission(&self, titles: &Vec<String>) -> (e: Emission)
        ensures
            !self.use_pager ==> e is Stdout,
            self.use_pager && self.pager_cmd is Some ==> (e matches Emission::ExternalPager(c)
                && Some(c@) == opt_view(self.pager_cmd)),
            self.use_pager && self.pager_cmd is None ==> (e matches Emission::Pager(t)
                && t@ == (if titles.len() > 0 { titles@[0]@ } else { "readmetoo"@ })),
    {
        if !self.use_pager {
            Emission::Stdout
        } else {
            match &self.pager_cmd {
                Some(c) => Emission::ExternalPager(String::from_str(c.as_str())),
                None => {
                    if titles.len() > 0 {
                        Emission::Pager(String::from_str(titles[0].as_str()))
                    } else {
                        Emission::Pager(String::from_str("readmetoo"))
                    }
                },
            }
        }
    }
}

// ── output assembly ──────────────────────────────────────────────────────────

/// The banner above an input's output when several are shown: the title in a
/// double-lined box as wide as the title's length in bytes, plus four.
pub open spec fn banner_text(title: Seq<char>) -> Seq<char> {
    let line = repeat('═', byte_len(title) + 4);
    "\n╔"@ + line + "╗\n║  "@ + title + "  ║\n╚"@ + line + "╝\n\n"@
}

/// The banner for an input titled `title`.
pub fn file_banner(title: &str) -> (b: String)
    requires
        byte_len(title@) + 4 <= usize::MAX,
    ensures
        b@ == banner_text(title@),
{
    let n = title.len() + 4;
    let mut b = String::from_str("\n╔");
    push_repeat(&mut b, '═', n);
    b.append("╗\n║  ");
    b.append(title);
    b.append("  ║\n╚");
    push_repeat(&mut b, '═', n);
    b.append("╝\n\n");
    b
}

/// The (title, output) pairs as mathematical values.
pub open spec fn part_views(parts: Seq<(String, String)>) -> Seq<(Seq<char>, Seq<char>)> {
    parts.map_values(|p: (String, String)| (p.0@, p.1@))
}

/// The titles of `parts` paired with the texts `bodies`.
pub open spec fn titled(parts: Seq<(Seq<char>, Seq<char>)>, bodies: Seq<Seq<char>>) -> Seq<(Seq<char>, Seq<char>)> {
    Seq::new(parts.len(), |i: int| (parts[i].0, bodies[i]))
}

/// The outputs one after another, each after its banner when `banners` holds.
pub open spec fn assembled(parts: Seq<(Seq<char>, Seq<char>)>, banners: bool) -> Seq<char>
    decreases parts.len(),
{
    if parts.len() == 0 {
        Seq::empty()
    } else {
        let p = parts.last();
        assembled(parts.drop_last(), banners) + (if banners { banner_text(p.0) } else { Seq::empty() }) + p.1
    }
}

/// The whole output of a run: banners only when headers are on and there is
/// more than one input.
pub fn assemble_output(parts: &Vec<(String, String)>, show_header: bool) -> (out: String)
    requires
        forall|i: int| 0 <= i < parts.len() ==> byte_len(#[trigger] parts@[i].0@) + 4 <= usize::MAX,
    ensures
        out@ == assembled(part_views(parts@), show_header && parts.len() > 1),
{
    let banners = show_header && parts.len() > 1;
    let mut out = String::new();
    let mut i: usize = 0;
    assert(part_views(parts@).take(0) =~= Seq::<(Seq<char>, Seq<char>)>::empty());
    while i < parts.len()
        invariant
            i <= parts.len(),
            banners == (show_header && parts.len() > 1),
            forall|j: int| 0 <= j < parts.len() ==> byte_len(#[trigger] parts@[j].0@) + 4 <= usize::MAX,
            out@ == assembled(part_views(parts@).take(i as int), banners),
        decreases parts.len() - i,
    {
        let ghost before = out@;
        if banners {
            let b = file_banner(parts[i].0.as_str());
            out.append(b.as_str());
        }
        out.append(parts[i].1.as_str());
        assert(part_views(parts@).take(i + 1).drop_last() =~= part_views(parts@).take(i as int));
        assert(part_views(parts@).take(i + 1).last() == (parts@[i as int].0@, parts@[i as int].1@));
        i += 1;
    }
    assert(part_views(parts@).take(parts.len() as int) =~= part_views(parts@));
    out
}

// ── theme listing and preview ────────────────────────────────────────────────

/// One line of the theme listing.
pub struct ThemeEntry {
    pub name: String,
    pub dark: bool,
    pub description: String,
    pub is_default: bool,
}

/// The names of the listed themes.
pub open spec fn entry_names(es: Seq<ThemeEntry>) -> Seq<Seq<char>> {
    es.map_values(|e: ThemeEntry| e.name@)
}

/// The theme listing: every built-in theme once, sorted by name, with its kind,
/// its description and whether it is the default.
pub fn theme_entries() -> (es: Vec<ThemeEntry>)
    ensures
        entry_names(es@).to_multiset() == builtin_theme_names().to_multiset(),
        sorted_by_lex(entry_names(es@)),
        forall|i: int| 0 <= i < es.len() ==> {
            &&& #[trigger] find_theme(builtin_theme_views(), es@[i].name@) matches Some(t)
            &&& es@[i].dark == t.dark
            &&& es@[i].description@ == t.description
            &&& es@[i].is_default == (es@[i].name@ == "fruity"@)
        },
{
    let names = list_themes();
    let mut es: Vec<ThemeEntry> = Vec::new();
    let mut i: usize = 0;
    while i < names.len()
        invariant
            i <= names.len(),
            string_views(names@).to_multiset() == builtin_theme_names().to_multiset(),
            entry_names(es@) == string_views(names@).take(i as int),
            forall|j: int| 0 <= j < es.len() ==> {
                &&& #[trigger] find_theme(builtin_theme_views(), es@[j].name@) matches Some(t)
                &&& es@[j].dark == t.dark
                &&& es@[j].description@ == t.description
                &&& es@[j].is_default == (es@[j].name@ == "fruity"@)
            },
        decreases names.len() - i,
    {
        let name = names[i].as_str();
        proof {
            broadcast use vstd::seq_lib::group_to_multiset_ensures;
            assert(string_views(names@)[i as int] == name@);
            assert(string_views(names@).to_multiset().contains(name@));
            law_get_theme_matches_list(name@);
        }
        match find_builtin_theme(name) {
            Some(t) => {
                let e = ThemeEntry {
                    name: String::from_str(name),
                    dark: t.dark,
                    description: t.description,
                    is_default: str_eq(name, "fruity"),
                };
                let ghost before = entry_names(es@);
                es.push(e);
                assert(entry_names(es@) =~= before.push(name@));
                assert(string_views(names@).take(i + 1) =~= string_views(names@).take(i as int).push(name@));
            },
            None => {
                assert(false);
            },
        }
        i += 1;
    }
    assert(string_views(names@).take(names.len() as int) =~= string_views(names@));
    es
}

pub const SAMPLE_HEAD: &'static str = r#"# "#;

pub const SAMPLE_TITLE_TO_CODE: &'static str = r#" — Theme Preview

## Typography

This paragraph contains **bold text**, *italic text*, ~~strikethrough~~,
and `inline code`. A [link](https://github.com/cumulus13/readmetoo) is shown too.

## Code Block

```rust
fn main() {
    // Hello from readmetoo!
    let theme = ""#;

pub const SAMPLE_CODE_TO_QUOTE: &'static str = r#"";
    println!("Active theme: {theme}");
    let answer: u32 = 42;
}
```

## Lists

- First bullet item
- Second item with **bold**
  - Nested bullet
    - Deeply nested

1. Ordered first
2. Ordered second
3. Ordered third

## Task List

- [x] Implement themes
- [x] Add pager support
- [ ] Write more tests

## Blockquote

> *"Any color you like, as long as it's "#;

pub const SAMPLE_QUOTE_TO_TABLE: &'static str = r#"."*

## Table

| Feature        | Status   | Notes             |
|----------------|----------|-------------------|
| Themes         | ✅ Done  | "#;

pub const SAMPLE_TABLE_END: &'static str = r#" active     |
| Pager          | ✅ Done  | minus + external  |
| Code highlight | ✅ Done  | Per-language      |
| Tables         | ✅ Done  | Unicode borders   |

---

~~Old style~~ → **New style** • Powered by `readmetoo`
"#;

/// The sample document that previews the theme `name`.
pub open spec fn sample_text(name: Seq<char>) -> Seq<char> {
    SAMPLE_HEAD@ + name + SAMPLE_TITLE_TO_CODE@ + name + SAMPLE_CODE_TO_QUOTE@ + name + SAMPLE_QUOTE_TO_TABLE@ + name
        + SAMPLE_TABLE_END@
}

/// The sample document that previews the theme `name`.
pub fn sample_markdown(name: &str) -> (s: String)
    ensures
        s@ == sample_text(name@),
{
    let mut s = String::from_str(SAMPLE_HEAD);
    s.append(name);
    s.append(SAMPLE_TITLE_TO_CODE);
    s.append(name);
    s.append(SAMPLE_CODE_TO_QUOTE);
    s.append(name);
    s.append(SAMPLE_QUOTE_TO_TABLE);
    s.append(name);
    s.append(SAMPLE_TABLE_END);
    s
}

/// The rendered preview of the theme that `name` selects (see [`select_theme`]):
/// the sample document with line numbers off, word wrap on and an indent of two.
pub fn preview_output(name: &str, custom: &Vec<Theme>) -> (out: String)
    ensures
        exists|w: u16, color_off: bool|
            w <= 200 && out@ == #[trigger] finish(
                initial_state(chosen_theme(name@, theme_views(custom@)), w, false, true, 2, color_off),
                markdown_events(sample_text(name@), MARKDOWN_OPTIONS),
            ).out,
{
    let theme = select_theme(name, custom);
    let sample = sample_markdown(name);
    render_to_string(sample.as_str(), &theme, false, true, 2)
}

} // verus!
