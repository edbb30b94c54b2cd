//! Colour themes: the built-in Pygments-inspired palettes and their lookup.

use vstd::prelude::*;
use vstd::string::*;
use crate::text::{sort_strings, sorted_by_lex, str_eq, string_views};

verus! {

/// A 24-bit terminal colour.
#[derive(Clone, Copy, Debug, PartialEq, Eq, Structural)]
pub struct AnsiColor {
    pub r: u8,
    pub g: u8,
    pub b: u8,
}

impl AnsiColor {
    /// The colour with the given red, green and blue components.
    pub fn new(r: u8, g: u8, b: u8) -> (c: Self)
        ensures
            c == (AnsiColor { r, g, b }),
    {
        AnsiColor { r, g, b }
    }
}

/// Shorthand for a colour value in specifications.
pub open spec fn rgb(r: u8, g: u8, b: u8) -> AnsiColor {
    AnsiColor { r, g, b }
}

/// Role-based colour scheme.
#[derive(Clone, Debug)]
pub struct ThemeColors {
    /// Overall background (`None` = terminal default)
    pub background: Option<AnsiColor>,
    /// Default foreground text
    pub foreground: AnsiColor,
    /// H1 heading
    pub h1: AnsiColor,
    /// H2 heading
    pub h2: AnsiColor,
    /// H3 heading
    pub h3: AnsiColor,
    /// H4-H6 headings
    pub h4: AnsiColor,
    /// Bold text
    pub bold: AnsiColor,
    /// Italic text
    pub italic: AnsiColor,
    /// Inline code
    pub code_inline: AnsiColor,
    /// Code block keyword
    pub code_keyword: AnsiColor,
    /// Code block string
    pub code_string: AnsiColor,
    /// Code block comment
    pub code_comment: AnsiColor,
    /// Code block number
    pub code_number: AnsiColor,
    /// Code block function/class names
    pub code_function: AnsiColor,
    /// Code block operators
    pub code_operator: AnsiColor,
    /// Blockquote text
    pub blockquote: AnsiColor,
    /// Link text
    pub link: AnsiColor,
    /// Link URL
    pub link_url: AnsiColor,
    /// Horizontal rule
    pub rule: AnsiColor,
    /// List bullet/marker
    pub list_marker: AnsiColor,
    /// Table header
    pub table_header: AnsiColor,
    /// Table border
    pub table_border: AnsiColor,
    /// Strikethrough text
    pub strikethrough: AnsiColor,
    /// Syntax theme name for code blocks
    pub syntect_theme: String,
}

/// The mathematical value of a [`ThemeColors`].
pub struct ThemeColorsView {
    pub background: Option<AnsiColor>,
    pub foreground: AnsiColor,
    pub h1: AnsiColor,
    pub h2: AnsiColor,
    pub h3: AnsiColor,
    pub h4: AnsiColor,
    pub bold: AnsiColor,
    pub italic: AnsiColor,
    pub code_inline: AnsiColor,
    pub code_keyword: AnsiColor,
    pub code_string: AnsiColor,
    pub code_comment: AnsiColor,
    pub code_number: AnsiColor,
    pub code_function: AnsiColor,
    pub code_operator: AnsiColor,
    pub blockquote: AnsiColor,
    pub link: AnsiColor,
    pub link_url: AnsiColor,
    pub rule: AnsiColor,
    pub list_marker: AnsiColor,
    pub table_header: AnsiColor,
    pub table_border: AnsiColor,
    pub strikethrough: AnsiColor,
    pub syntect_theme: Seq<char>,
}

impl View for ThemeColors {
    type V = ThemeColorsView;

    open spec fn view(&self) -> ThemeColorsView {
        ThemeColorsView {
            background: self.background,
            foreground: self.foreground,
            h1: self.h1,
            h2: self.h2,
            h3: self.h3,
            h4: self.h4,
            bold: self.bold,
            italic: self.italic,
            code_inline: self.code_inline,
            code_keyword: self.code_keyword,
            code_string: self.code_string,
            code_comment: self.code_comment,
            code_number: self.code_number,
            code_function: self.code_function,
            code_operator: self.code_operator,
            blockquote: self.blockquote,
            link: self.link,
            link_url: self.link_url,
            rule: self.rule,
            list_marker: self.list_marker,
            table_header: self.table_header,
            table_border: self.table_border,
            strikethrough: self.strikethrough,
            syntect_theme: self.syntect_theme@,
        }
    }
}

/// A complete named theme.
#[derive(Clone, Debug)]
pub struct Theme {
    pub name: String,
    pub description: String,
    pub dark: bool,
    pub colors: ThemeColors,
}

/// The mathematical value of a [`Theme`].
pub struct ThemeView {
    pub name: Seq<char>,
    pub description: Seq<char>,
    pub dark: bool,
    pub colors: ThemeColorsView,
}

impl View for Theme {
    type V = ThemeView;

    open spec fn view(&self) -> ThemeView {
        ThemeView {
            name: self.name@,
            description: self.description@,
            dark: self.dark,
            colors: self.colors@,
        }
    }
}

impl ThemeColors {
    /// An equal copy of this colour scheme.
    pub fn duplicate(&self) -> (c: ThemeColors)
        ensures
            c@ == self@,
    {
        ThemeColors {
            background: self.background,
            foreground: self.foreground,
            h1: self.h1,
            h2: self.h2,
            h3: self.h3,
            h4: self.h4,
            bold: self.bold,
            italic: self.italic,
            code_inline: self.code_inline,
            code_keyword: self.code_keyword,
            code_string: self.code_string,
            code_comment: self.code_comment,
            code_number: self.code_number,
            code_function: self.code_function,
            code_operator: self.code_operator,
            blockquote: self.blockquote,
            link: self.link,
            link_url: self.link_url,
            rule: self.rule,
            list_marker: self.list_marker,
            table_header: self.table_header,
            table_border: self.table_border,
            strikethrough: self.strikethrough,
            syntect_theme: String::from_str(self.syntect_theme.as_str()),
        }
    }
}

impl Theme {
    /// An equal copy of this theme.
    pub fn duplicate(&self) -> (t: Theme)
        ensures
            t@ == self@,
    {
        Theme {
            name: String::from_str(self.name.as_str()),
            description: String::from_str(self.description.as_str()),
            dark: self.dark,
            colors: self.colors.duplicate(),
        }
    }
}

/// A colour scheme given role by role.
pub open spec fn palette(
    background: Option<AnsiColor>,
    foreground: AnsiColor,
    h1: AnsiColor,
    h2: AnsiColor,
    h3: AnsiColor,
    h4: AnsiColor,
    bold: AnsiColor,
    italic: AnsiColor,
    code_inline: AnsiColor,
    code_keyword: AnsiColor,
    code_string: AnsiColor,
    code_comment: AnsiColor,
    code_number: AnsiColor,
    code_function: AnsiColor,
    code_operator: AnsiColor,
    blockquote: AnsiColor,
    link: AnsiColor,
    link_url: AnsiColor,
    rule: AnsiColor,
    list_marker: AnsiColor,
    table_header: AnsiColor,
    table_border: AnsiColor,
    strikethrough: AnsiColor,
    syntect_theme: Seq<char>,
) -> ThemeColorsView {
    ThemeColorsView {
        background,
        foreground,
        h1,
        h2,
        h3,
        h4,
        bold,
        italic,
        code_inline,
        code_keyword,
        code_string,
        code_comment,
        code_number,
        code_function,
        code_operator,
        blockquote,
        link,
        link_url,
        rule,
        list_marker,
        table_header,
        table_border,
        strikethrough,
        syntect_theme,
    }
}

/// Builds a [`ThemeColors`] role by role.
fn colors_of(
    background: Option<AnsiColor>,
    foreground: AnsiColor,
    h1: AnsiColor,
    h2: AnsiColor,
    h3: AnsiColor,
    h4: AnsiColor,
    bold: AnsiColor,
    italic: AnsiColor,
    code_inline: AnsiColor,
    code_keyword: AnsiColor,
    code_string: AnsiColor,
    code_comment: AnsiColor,
    code_number: AnsiColor,
    code_function: AnsiColor,
    code_operator: AnsiColor,
    blockquote: AnsiColor,
    link: AnsiColor,
    link_url: AnsiColor,
    rule: AnsiColor,
    list_marker: AnsiColor,
    table_header: AnsiColor,
    table_border: AnsiColor,
    strikethrough: AnsiColor,
    syntect_theme: &str,
) -> (c: ThemeColors)
    ensures
        c@ == palette(
            background,
            foreground,
            h1,
            h2,
            h3,
            h4,
            bold,
            italic,
            code_inline,
            code_keyword,
            code_string,
            code_comment,
            code_number,
            code_function,
            code_operator,
            blockquote,
            link,
            link_url,
            rule,
            list_marker,
            table_header,
            table_border,
            strikethrough,
            syntect_theme@,
        ),
{
    ThemeColors {
        background,
        foreground,
        h1,
        h2,
        h3,
        h4,
        bold,
        italic,
        code_inline,
        code_keyword,
        code_string,
        code_comment,
        code_number,
        code_function,
        code_operator,
        blockquote,
        link,
        link_url,
        rule,
        list_marker,
        table_header,
        table_border,
        strikethrough,
        syntect_theme: String::from_str(syntect_theme),
    }
}

/// Builds a [`Theme`] from its parts.
fn theme_of(name: &str, description: &str, dark: bool, colors: ThemeColors) -> (t: Theme)
    ensures
        t@ == (ThemeView { name: name@, description: description@, dark, colors: colors@ }),
{
    Theme { name: String::from_str(name), description: String::from_str(description), dark, colors }
}

/// The `fruity` theme.
pub open spec fn spec_theme_fruity() -> ThemeView {
    ThemeView {
        name: "fruity"@,
        description: "Exact Pygments fruity — dark vim-inspired theme (bg #111111)"@,
        dark: true,
        colors: palette(
            Some(rgb(17, 17, 17)),
            rgb(255, 255, 255), rgb(251, 102, 10), rgb(0, 134, 210), rgb(255, 0, 134),
            rgb(0, 134, 247), rgb(255, 255, 255), rgb(205, 202, 169), rgb(0, 134, 210),
            rgb(251, 102, 10), rgb(0, 134, 210), rgb(0, 136, 0), rgb(0, 134, 247),
            rgb(255, 0, 134), rgb(205, 202, 169), rgb(0, 136, 0), rgb(0, 134, 247),
            rgb(0, 134, 210), rgb(136, 136, 136), rgb(251, 102, 10), rgb(255, 0, 134),
            rgb(68, 68, 68), rgb(136, 136, 136),
            "base16-ocean.dark"@,
        ),
    }
}

pub fn theme_fruity() -> (t: Theme)
    ensures
        t@ == spec_theme_fruity(),
{
    theme_of(
        "fruity",
        "Exact Pygments fruity — dark vim-inspired theme (bg #111111)",
        true,
        colors_of(
            Some(AnsiColor::new(17, 17, 17)),
            AnsiColor::new(255, 255, 255), AnsiColor::new(251, 102, 10), AnsiColor::new(0, 134, 210),
            AnsiColor::new(255, 0, 134), AnsiColor::new(0, 134, 247), AnsiColor::new(255, 255, 255),
            AnsiColor::new(205, 202, 169), AnsiColor::new(0, 134, 210), AnsiColor::new(251, 102, 10),
            AnsiColor::new(0, 134, 210), AnsiColor::new(0, 136, 0), AnsiColor::new(0, 134, 247),
            AnsiColor::new(255, 0, 134), AnsiColor::new(205, 202, 169), AnsiColor::new(0, 136, 0),
            AnsiColor::new(0, 134, 247), AnsiColor::new(0, 134, 210), AnsiColor::new(136, 136, 136),
            AnsiColor::new(251, 102, 10), AnsiColor::new(255, 0, 134), AnsiColor::new(68, 68, 68),
            AnsiColor::new(136, 136, 136),
            "base16-ocean.dark",
        ),
    )
}

/// The `monokai` theme.
pub open spec fn spec_theme_monokai() -> ThemeView {
    ThemeView {
        name: "monokai"@,
        description: "Classic Monokai dark theme"@,
        dark: true,
        colors: palette(
            Some(rgb(39, 40, 34)),
            rgb(248, 248, 242), rgb(249, 38, 114), rgb(166, 226, 46), rgb(230, 219, 116),
            rgb(102, 217, 239), rgb(249, 38, 114), rgb(166, 226, 46), rgb(166, 226, 46),
            rgb(249, 38, 114), rgb(230, 219, 116), rgb(117, 113, 94), rgb(174, 129, 255),
            rgb(166, 226, 46), rgb(249, 38, 114), rgb(117, 113, 94), rgb(102, 217, 239),
            rgb(81, 170, 194), rgb(80, 80, 80), rgb(249, 38, 114), rgb(166, 226, 46),
            rgb(80, 80, 80), rgb(117, 113, 94),
            "Monokai Extended"@,
        ),
    }
}

fn theme_monokai() -> (t: Theme)
    ensures
        t@ == spec_theme_monokai(),
{
    theme_of(
        "monokai",
        "Classic Monokai dark theme",
        true,
        colors_of(
            Some(AnsiColor::new(39, 40, 34)),
            AnsiColor::new(248, 248, 242), AnsiColor::new(249, 38, 114), AnsiColor::new(166, 226, 46),
            AnsiColor::new(230, 219, 116), AnsiColor::new(102, 217, 239), AnsiColor::new(249, 38, 114),
            AnsiColor::new(166, 226, 46), AnsiColor::new(166, 226, 46), AnsiColor::new(249, 38, 114),
            AnsiColor::new(230, 219, 116), AnsiColor::new(117, 113, 94), AnsiColor::new(174, 129, 255),
            AnsiColor::new(166, 226, 46), AnsiColor::new(249, 38, 114), AnsiColor::new(117, 113, 94),
            AnsiColor::new(102, 217, 239), AnsiColor::new(81, 170, 194), AnsiColor::new(80, 80, 80),
            AnsiColor::new(249, 38, 114), AnsiColor::new(166, 226, 46), AnsiColor::new(80, 80, 80),
            AnsiColor::new(117, 113, 94),
            "Monokai Extended",
        ),
    )
}

/// The `dracula` theme.
pub open spec fn spec_theme_dracula() -> ThemeView {
    ThemeView {
        name: "dracula"@,
        description: "Dracula dark theme"@,
        dark: true,
        colors: palette(
            Some(rgb(40, 42, 54)),
            rgb(248, 248, 242), rgb(255, 85, 85), rgb(255, 184, 108), rgb(241, 250, 140),
            rgb(80, 250, 123), rgb(255, 85, 85), rgb(189, 147, 249), rgb(80, 250, 123),
            rgb(255, 121, 198), rgb(241, 250, 140), rgb(98, 114, 164), rgb(189, 147, 249),
            rgb(80, 250, 123), rgb(255, 121, 198), rgb(98, 114, 164), rgb(139, 233, 253),
            rgb(98, 114, 164), rgb(68, 71, 90), rgb(255, 184, 108), rgb(255, 121, 198),
            rgb(68, 71, 90), rgb(98, 114, 164),
            "Dracula"@,
        ),
    }
}

fn theme_dracula() -> (t: Theme)
    ensures
        t@ == spec_theme_dracula(),
{
    theme_of(
        "dracula",
        "Dracula dark theme",
        true,
        colors_of(
            Some(AnsiColor::new(40, 42, 54)),
            AnsiColor::new(248, 248, 242), AnsiColor::new(255, 85, 85), AnsiColor::new(255, 184, 108),
            AnsiColor::new(241, 250, 140), AnsiColor::new(80, 250, 123), AnsiColor::new(255, 85, 85),
            AnsiColor::new(189, 147, 249), AnsiColor::new(80, 250, 123), AnsiColor::new(255, 121, 198),
            AnsiColor::new(241, 250, 140), AnsiColor::new(98, 114, 164), AnsiColor::new(189, 147, 249),
            AnsiColor::new(80, 250, 123), AnsiColor::new(255, 121, 198), AnsiColor::new(98, 114, 164),
            AnsiColor::new(139, 233, 253), AnsiColor::new(98, 114, 164), AnsiColor::new(68, 71, 90),
            AnsiColor::new(255, 184, 108), AnsiColor::new(255, 121, 198), AnsiColor::new(68, 71, 90),
            AnsiColor::new(98, 114, 164),
            "Dracula",
        ),
    )
}

/// The `nord` theme.
pub open spec fn spec_theme_nord() -> ThemeView {
    ThemeView {
        name: "nord"@,
        description: "Nord arctic dark theme"@,
        dark: true,
        colors: palette(
            Some(rgb(46, 52, 64)),
            rgb(216, 222, 233), rgb(191, 97, 106), rgb(235, 203, 139), rgb(163, 190, 140),
            rgb(129, 161, 193), rgb(235, 203, 139), rgb(180, 142, 173), rgb(163, 190, 140),
            rgb(129, 161, 193), rgb(163, 190, 140), rgb(76, 86, 106), rgb(180, 142, 173),
            rgb(136, 192, 208), rgb(129, 161, 193), rgb(76, 86, 106), rgb(136, 192, 208),
            rgb(94, 129, 172), rgb(67, 76, 94), rgb(235, 203, 139), rgb(136, 192, 208),
            rgb(67, 76, 94), rgb(76, 86, 106),
            "base16-ocean.dark"@,
        ),
    }
}

fn theme_nord() -> (t: Theme)
    ensures
        t@ == spec_theme_nord(),
{
    theme_of(
        "nord",
        "Nord arctic dark theme",
        true,
        colors_of(
            Some(AnsiColor::new(46, 52, 64)),
            AnsiColor::new(216, 222, 233), AnsiColor::new(191, 97, 106), AnsiColor::new(235, 203, 139),
            AnsiColor::new(163, 190, 140), AnsiColor::new(129, 161, 193), AnsiColor::new(235, 203, 139),
            AnsiColor::new(180, 142, 173), AnsiColor::new(163, 190, 140), AnsiColor::new(129, 161, 193),
            AnsiColor::new(163, 190, 140), AnsiColor::new(76, 86, 106), AnsiColor::new(180, 142, 173),
            AnsiColor::new(136, 192, 208), AnsiColor::new(129, 161, 193), AnsiColor::new(76, 86, 106),
            AnsiColor::new(136, 192, 208), AnsiColor::new(94, 129, 172), AnsiColor::new(67, 76, 94),
            AnsiColor::new(235, 203, 139), AnsiColor::new(136, 192, 208), AnsiColor::new(67, 76, 94),
            AnsiColor::new(76, 86, 106),
            "base16-ocean.dark",
        ),
    )
}

/// The `github-dark` theme.
pub open spec fn spec_theme_github_dark() -> ThemeView {
    ThemeView {
        name: "github-dark"@,
        description: "GitHub dark theme"@,
        dark: true,
        colors: palette(
            Some(rgb(13, 17, 23)),
            rgb(201, 209, 217), rgb(88, 166, 255), rgb(121, 192, 255), rgb(149, 213, 145),
            rgb(210, 153, 34), rgb(255, 255, 255), rgb(201, 209, 217), rgb(255, 123, 114),
            rgb(255, 123, 114), rgb(165, 214, 255), rgb(139, 148, 158), rgb(121, 192, 255),
            rgb(210, 168, 255), rgb(255, 123, 114), rgb(139, 148, 158), rgb(88, 166, 255),
            rgb(58, 125, 200), rgb(33, 38, 45), rgb(88, 166, 255), rgb(88, 166, 255),
            rgb(33, 38, 45), rgb(139, 148, 158),
            "base16-ocean.dark"@,
        ),
    }
}

fn theme_github_dark() -> (t: Theme)
    ensures
        t@ == spec_theme_github_dark(),
{
    theme_of(
        "github-dark",
        "GitHub dark theme",
        true,
        colors_of(
            Some(AnsiColor::new(13, 17, 23)),
            AnsiColor::new(201, 209, 217), AnsiColor::new(88, 166, 255), AnsiColor::new(121, 192, 255),
            AnsiColor::new(149, 213, 145), AnsiColor::new(210, 153, 34), AnsiColor::new(255, 255, 255),
            AnsiColor::new(201, 209, 217), AnsiColor::new(255, 123, 114), AnsiColor::new(255, 123, 114),
            AnsiColor::new(165, 214, 255), AnsiColor::new(139, 148, 158), AnsiColor::new(121, 192, 255),
            AnsiColor::new(210, 168, 255), AnsiColor::new(255, 123, 114), AnsiColor::new(139, 148, 158),
            AnsiColor::new(88, 166, 255), AnsiColor::new(58, 125, 200), AnsiColor::new(33, 38, 45),
            AnsiColor::new(88, 166, 255), AnsiColor::new(88, 166, 255), AnsiColor::new(33, 38, 45),
            AnsiColor::new(139, 148, 158),
            "base16-ocean.dark",
        ),
    )
}

/// The `gruvbox-dark` theme.
pub open spec fn spec_theme_gruvbox_dark() -> ThemeView {
    ThemeView {
        name: "gruvbox-dark"@,
        description: "Gruvbox dark retro theme"@,
        dark: true,
        colors: palette(
            Some(rgb(40, 40, 40)),
            rgb(235, 219, 178), rgb(251, 73, 52), rgb(250, 189, 47), rgb(184, 187, 38),
            rgb(142, 192, 124), rgb(251, 73, 52), rgb(211, 134, 155), rgb(184, 187, 38),
            rgb(251, 73, 52), rgb(184, 187, 38), rgb(146, 131, 116), rgb(211, 134, 155),
            rgb(250, 189, 47), rgb(254, 128, 25), rgb(146, 131, 116), rgb(131, 165, 152),
            rgb(69, 133, 136), rgb(80, 73, 69), rgb(250, 189, 47), rgb(251, 73, 52),
            rgb(80, 73, 69), rgb(146, 131, 116),
            "base16-ocean.dark"@,
        ),
    }
}

fn theme_gruvbox_dark() -> (t: Theme)
    ensures
        t@ == spec_theme_gruvbox_dark(),
{
    theme_of(
        "gruvbox-dark",
        "Gruvbox dark retro theme",
        true,
        colors_of(
            Some(AnsiColor::new(40, 40, 40)),
            AnsiColor::new(235, 219, 178), AnsiColor::new(251, 73, 52), AnsiColor::new(250, 189, 47),
            AnsiColor::new(184, 187, 38), AnsiColor::new(142, 192, 124), AnsiColor::new(251, 73, 52),
            AnsiColor::new(211, 134, 155), AnsiColor::new(184, 187, 38), AnsiColor::new(251, 73, 52),
            AnsiColor::new(184, 187, 38), AnsiColor::new(146, 131, 116), AnsiColor::new(211, 134, 155),
            AnsiColor::new(250, 189, 47), AnsiColor::new(254, 128, 25), AnsiColor::new(146, 131, 116),
            AnsiColor::new(131, 165, 152), AnsiColor::new(69, 133, 136), AnsiColor::new(80, 73, 69),
            AnsiColor::new(250, 189, 47), AnsiColor::new(251, 73, 52), AnsiColor::new(80, 73, 69),
            AnsiColor::new(146, 131, 116),
            "base16-ocean.dark",
        ),
    )
}

/// The `one-dark` theme.
pub open spec fn spec_theme_one_dark() -> ThemeView {
    ThemeView {
        name: "one-dark"@,
        description: "Atom One Dark theme"@,
        dark: true,
        colors: palette(
            Some(rgb(40, 44, 52)),
            rgb(171, 178, 191), rgb(224, 108, 117), rgb(209, 154, 102), rgb(229, 192, 123),
            rgb(152, 195, 121), rgb(224, 108, 117), rgb(198, 120, 221), rgb(152, 195, 121),
            rgb(198, 120, 221), rgb(152, 195, 121), rgb(92, 99, 112), rgb(209, 154, 102),
            rgb(97, 175, 239), rgb(86, 182, 194), rgb(92, 99, 112), rgb(97, 175, 239),
            rgb(86, 182, 194), rgb(60, 65, 75), rgb(209, 154, 102), rgb(224, 108, 117),
            rgb(60, 65, 75), rgb(92, 99, 112),
            "base16-ocean.dark"@,
        ),
    }
}

fn theme_one_dark() -> (t: Theme)
    ensures
        t@ == spec_theme_one_dark(),
{
    theme_of(
        "one-dark",
        "Atom One Dark theme",
        true,
        colors_of(
            Some(AnsiColor::new(40, 44, 52)),
            AnsiColor::new(171, 178, 191), AnsiColor::new(224, 108, 117), AnsiColor::new(209, 154, 102),
            AnsiColor::new(229, 192, 123), AnsiColor::new(152, 195, 121), AnsiColor::new(224, 108, 117),
            AnsiColor::new(198, 120, 221), AnsiColor::new(152, 195, 121), AnsiColor::new(198, 120, 221),
            AnsiColor::new(152, 195, 121), AnsiColor::new(92, 99, 112), AnsiColor::new(209, 154, 102),
            AnsiColor::new(97, 175, 239), AnsiColor::new(86, 182, 194), AnsiColor::new(92, 99, 112),
            AnsiColor::new(97, 175, 239), AnsiColor::new(86, 182, 194), AnsiColor::new(60, 65, 75),
            AnsiColor::new(209, 154, 102), AnsiColor::new(224, 108, 117), AnsiColor::new(60, 65, 75),
            AnsiColor::new(92, 99, 112),
            "base16-ocean.dark",
        ),
    )
}

/// The `solarized-dark` theme.
pub open spec fn spec_theme_solarized_dark() -> ThemeView {
    ThemeView {
        name: "solarized-dark"@,
        description: "Solarized dark theme"@,
        dark: true,
        colors: palette(
            Some(rgb(0, 43, 54)),
            rgb(131, 148, 150), rgb(220, 50, 47), rgb(203, 75, 22), rgb(181, 137, 0),
            rgb(133, 153, 0), rgb(147, 161, 161), rgb(108, 113, 196), rgb(133, 153, 0),
            rgb(108, 113, 196), rgb(42, 161, 152), rgb(88, 110, 117), rgb(211, 54, 130),
            rgb(38, 139, 210), rgb(220, 50, 47), rgb(88, 110, 117), rgb(38, 139, 210),
            rgb(7, 54, 66), rgb(7, 54, 66), rgb(203, 75, 22), rgb(38, 139, 210),
            rgb(7, 54, 66), rgb(88, 110, 117),
            "Solarized (dark)"@,
        ),
    }
}

fn theme_solarized_dark() -> (t: Theme)
    ensures
        t@ == spec_theme_solarized_dark(),
{
    theme_of(
        "solarized-dark",
        "Solarized dark theme",
        true,
        colors_of(
            Some(AnsiColor::new(0, 43, 54)),
            AnsiColor::new(131, 148, 150), AnsiColor::new(220, 50, 47), AnsiColor::new(203, 75, 22),
            AnsiColor::new(181, 137, 0), AnsiColor::new(133, 153, 0), AnsiColor::new(147, 161, 161),
            AnsiColor::new(108, 113, 196), AnsiColor::new(133, 153, 0), AnsiColor::new(108, 113, 196),
            AnsiColor::new(42, 161, 152), AnsiColor::new(88, 110, 117), AnsiColor::new(211, 54, 130),
            AnsiColor::new(38, 139, 210), AnsiColor::new(220, 50, 47), AnsiColor::new(88, 110, 117),
            AnsiColor::new(38, 139, 210), AnsiColor::new(7, 54, 66), AnsiColor::new(7, 54, 66),
            AnsiColor::new(203, 75, 22), AnsiColor::new(38, 139, 210), AnsiColor::new(7, 54, 66),
            AnsiColor::new(88, 110, 117),
            "Solarized (dark)",
        ),
    )
}

/// The `material` theme.
pub open spec fn spec_theme_material() -> ThemeView {
    ThemeView {
        name: "material"@,
        description: "Material dark theme"@,
        dark: true,
        colors: palette(
            Some(rgb(38, 50, 56)),
            rgb(238, 255, 255), rgb(255, 83, 112), rgb(255, 203, 107), rgb(195, 232, 141),
            rgb(137, 221, 255), rgb(255, 83, 112), rgb(199, 146, 234), rgb(195, 232, 141),
            rgb(199, 146, 234), rgb(195, 232, 141), rgb(85, 98, 112), rgb(247, 140, 108),
            rgb(130, 170, 255), rgb(137, 221, 255), rgb(85, 98, 112), rgb(130, 170, 255),
            rgb(85, 98, 112), rgb(55, 70, 80), rgb(255, 203, 107), rgb(130, 170, 255),
            rgb(55, 70, 80), rgb(85, 98, 112),
            "base16-ocean.dark"@,
        ),
    }
}

fn theme_material() -> (t: Theme)
    ensures
        t@ == spec_theme_material(),
{
    theme_of(
        "material",
        "Material dark theme",
        true,
        colors_of(
            Some(AnsiColor::new(38, 50, 56)),
            AnsiColor::new(238, 255, 255), AnsiColor::new(255, 83, 112), AnsiColor::new(255, 203, 107),
            AnsiColor::new(195, 232, 141), AnsiColor::new(137, 221, 255), AnsiColor::new(255, 83, 112),
            AnsiColor::new(199, 146, 234), AnsiColor::new(195, 232, 141), AnsiColor::new(199, 146, 234),
            AnsiColor::new(195, 232, 141), AnsiColor::new(85, 98, 112), AnsiColor::new(247, 140, 108),
            AnsiColor::new(130, 170, 255), AnsiColor::new(137, 221, 255), AnsiColor::new(85, 98, 112),
            AnsiColor::new(130, 170, 255), AnsiColor::new(85, 98, 112), AnsiColor::new(55, 70, 80),
            AnsiColor::new(255, 203, 107), AnsiColor::new(130, 170, 255), AnsiColor::new(55, 70, 80),
            AnsiColor::new(85, 98, 112),
            "base16-ocean.dark",
        ),
    )
}

/// The `native` theme.
pub open spec fn spec_theme_native() -> ThemeView {
    ThemeView {
        name: "native"@,
        description: "Pygments native dark theme"@,
        dark: true,
        colors: palette(
            Some(rgb(26, 26, 26)),
            rgb(220, 220, 220), rgb(255, 102, 102), rgb(255, 170, 68), rgb(255, 204, 102),
            rgb(170, 255, 102), rgb(255, 255, 255), rgb(187, 187, 187), rgb(102, 255, 102),
            rgb(102, 102, 255), rgb(255, 102, 102), rgb(153, 153, 153), rgb(0, 204, 153),
            rgb(255, 170, 68), rgb(170, 170, 170), rgb(153, 153, 153), rgb(102, 153, 255),
            rgb(68, 102, 204), rgb(68, 68, 68), rgb(255, 170, 68), rgb(102, 102, 255),
            rgb(68, 68, 68), rgb(153, 153, 153),
            "base16-ocean.dark"@,
        ),
    }
}

fn theme_native() -> (t: Theme)
    ensures
        t@ == spec_theme_native(),
{
    theme_of(
        "native",
        "Pygments native dark theme",
        true,
        colors_of(
            Some(AnsiColor::new(26, 26, 26)),
            AnsiColor::new(220, 220, 220), AnsiColor::new(255, 102, 102), AnsiColor::new(255, 170, 68),
            AnsiColor::new(255, 204, 102), AnsiColor::new(170, 255, 102), AnsiColor::new(255, 255, 255),
            AnsiColor::new(187, 187, 187), AnsiColor::new(102, 255, 102), AnsiColor::new(102, 102, 255),
            AnsiColor::new(255, 102, 102), AnsiColor::new(153, 153, 153), AnsiColor::new(0, 204, 153),
            AnsiColor::new(255, 170, 68), AnsiColor::new(170, 170, 170), AnsiColor::new(153, 153, 153),
            AnsiColor::new(102, 153, 255), AnsiColor::new(68, 102, 204), AnsiColor::new(68, 68, 68),
            AnsiColor::new(255, 170, 68), AnsiColor::new(102, 102, 255), AnsiColor::new(68, 68, 68),
            AnsiColor::new(153, 153, 153),
            "base16-ocean.dark",
        ),
    )
}

/// The `vim` theme.
pub open spec fn spec_theme_vim() -> ThemeView {
    ThemeView {
        name: "vim"@,
        description: "Classic Vim color scheme (dark)"@,
        dark: true,
        colors: palette(
            Some(rgb(0, 0, 0)),
            rgb(255, 255, 255), rgb(0, 175, 255), rgb(0, 215, 0), rgb(255, 175, 0),
            rgb(215, 95, 255), rgb(255, 255, 255), rgb(200, 200, 200), rgb(0, 215, 0),
            rgb(0, 175, 255), rgb(255, 135, 0), rgb(95, 95, 95), rgb(215, 95, 255),
            rgb(0, 215, 0), rgb(215, 215, 215), rgb(95, 95, 95), rgb(0, 175, 255),
            rgb(0, 95, 175), rgb(95, 95, 95), rgb(255, 175, 0), rgb(0, 175, 255),
            rgb(95, 95, 95), rgb(95, 95, 95),
            "base16-ocean.dark"@,
        ),
    }
}

fn theme_vim() -> (t: Theme)
    ensures
        t@ == spec_theme_vim(),
{
    theme_of(
        "vim",
        "Classic Vim color scheme (dark)",
        true,
        colors_of(
            Some(AnsiColor::new(0, 0, 0)),
            AnsiColor::new(255, 255, 255), AnsiColor::new(0, 175, 255), AnsiColor::new(0, 215, 0),
            AnsiColor::new(255, 175, 0), AnsiColor::new(215, 95, 255), AnsiColor::new(255, 255, 255),
            AnsiColor::new(200, 200, 200), AnsiColor::new(0, 215, 0), AnsiColor::new(0, 175, 255),
            AnsiColor::new(255, 135, 0), AnsiColor::new(95, 95, 95), AnsiColor::new(215, 95, 255),
            AnsiColor::new(0, 215, 0), AnsiColor::new(215, 215, 215), AnsiColor::new(95, 95, 95),
            AnsiColor::new(0, 175, 255), AnsiColor::new(0, 95, 175), AnsiColor::new(95, 95, 95),
            AnsiColor::new(255, 175, 0), AnsiColor::new(0, 175, 255), AnsiColor::new(95, 95, 95),
            AnsiColor::new(95, 95, 95),
            "base16-ocean.dark",
        ),
    )
}

/// The `zenburn` theme.
pub open spec fn spec_theme_zenburn() -> ThemeView {
    ThemeView {
        name: "zenburn"@,
        description: "Zenburn low-contrast dark theme"@,
        dark: true,
        colors: palette(
            Some(rgb(63, 63, 63)),
            rgb(220, 220, 204), rgb(220, 130, 130), rgb(220, 200, 130), rgb(180, 220, 130),
            rgb(130, 220, 200), rgb(240, 240, 224), rgb(204, 170, 204), rgb(115, 175, 113),
            rgb(223, 175, 143), rgb(204, 136, 88), rgb(120, 120, 120), rgb(255, 160, 122),
            rgb(223, 175, 143), rgb(200, 200, 180), rgb(120, 120, 120), rgb(130, 180, 220),
            rgb(90, 130, 170), rgb(90, 90, 90), rgb(220, 200, 130), rgb(223, 175, 143),
            rgb(90, 90, 90), rgb(120, 120, 120),
            "base16-ocean.dark"@,
        ),
    }
}

fn theme_zenburn() -> (t: Theme)
    ensures
        t@ == spec_theme_zenburn(),
{
    theme_of(
        "zenburn",
        "Zenburn low-contrast dark theme",
        true,
        colors_of(
            Some(AnsiColor::new(63, 63, 63)),
            AnsiColor::new(220, 220, 204), AnsiColor::new(220, 130, 130), AnsiColor::new(220, 200, 130),
            AnsiColor::new(180, 220, 130), AnsiColor::new(130, 220, 200), AnsiColor::new(240, 240, 224),
            AnsiColor::new(204, 170, 204), AnsiColor::new(115, 175, 113), AnsiColor::new(223, 175, 143),
            AnsiColor::new(204, 136, 88), AnsiColor::new(120, 120, 120), AnsiColor::new(255, 160, 122),
            AnsiColor::new(223, 175, 143), AnsiColor::new(200, 200, 180), AnsiColor::new(120, 120, 120),
            AnsiColor::new(130, 180, 220), AnsiColor::new(90, 130, 170), AnsiColor::new(90, 90, 90),
            AnsiColor::new(220, 200, 130), AnsiColor::new(223, 175, 143), AnsiColor::new(90, 90, 90),
            AnsiColor::new(120, 120, 120),
            "base16-ocean.dark",
        ),
    )
}

/// The `inkpot` theme.
pub open spec fn spec_theme_inkpot() -> ThemeView {
    ThemeView {
        name: "inkpot"@,
        description: "InkPot dark theme"@,
        dark: true,
        colors: palette(
            Some(rgb(29, 24, 36)),
            rgb(205, 205, 205), rgb(207, 106, 76), rgb(255, 164, 79), rgb(192, 192, 64),
            rgb(95, 175, 175), rgb(255, 255, 255), rgb(173, 138, 190), rgb(95, 175, 175),
            rgb(173, 138, 190), rgb(207, 106, 76), rgb(118, 118, 118), rgb(102, 204, 153),
            rgb(95, 175, 175), rgb(200, 200, 200), rgb(118, 118, 118), rgb(95, 175, 255),
            rgb(60, 100, 160), rgb(60, 55, 70), rgb(255, 164, 79), rgb(173, 138, 190),
            rgb(60, 55, 70), rgb(118, 118, 118),
            "base16-ocean.dark"@,
        ),
    }
}

fn theme_inkpot() -> (t: Theme)
    ensures
        t@ == spec_theme_inkpot(),
{
    theme_of(
        "inkpot",
        "InkPot dark theme",
        true,
        colors_of(
            Some(AnsiColor::new(29, 24, 36)),
            AnsiColor::new(205, 205, 205), AnsiColor::new(207, 106, 76), AnsiColor::new(255, 164, 79),
            AnsiColor::new(192, 192, 64), AnsiColor::new(95, 175, 175), AnsiColor::new(255, 255, 255),
            AnsiColor::new(173, 138, 190), AnsiColor::new(95, 175, 175), AnsiColor::new(173, 138, 190),
            AnsiColor::new(207, 106, 76), AnsiColor::new(118, 118, 118), AnsiColor::new(102, 204, 153),
            AnsiColor::new(95, 175, 175), AnsiColor::new(200, 200, 200), AnsiColor::new(118, 118, 118),
            AnsiColor::new(95, 175, 255), AnsiColor::new(60, 100, 160), AnsiColor::new(60, 55, 70),
            AnsiColor::new(255, 164, 79), AnsiColor::new(173, 138, 190), AnsiColor::new(60, 55, 70),
            AnsiColor::new(118, 118, 118),
            "base16-ocean.dark",
        ),
    )
}

/// The `default` theme.
pub open spec fn spec_theme_default() -> ThemeView {
    ThemeView {
        name: "default"@,
        description: "Pygments default light theme"@,
        dark: false,
        colors: palette(
            None,
            rgb(40, 40, 40), rgb(0, 0, 200), rgb(0, 100, 0), rgb(150, 0, 150),
            rgb(0, 130, 130), rgb(0, 0, 0), rgb(80, 80, 80), rgb(0, 100, 0),
            rgb(0, 0, 200), rgb(187, 68, 0), rgb(64, 128, 128), rgb(0, 64, 255),
            rgb(0, 100, 0), rgb(100, 100, 100), rgb(100, 100, 100), rgb(0, 100, 200),
            rgb(100, 130, 180), rgb(180, 180, 180), rgb(0, 0, 200), rgb(0, 0, 180),
            rgb(180, 180, 180), rgb(150, 150, 150),
            "InspiredGitHub"@,
        ),
    }
}

fn theme_default() -> (t: Theme)
    ensures
        t@ == spec_theme_default(),
{
    theme_of(
        "default",
        "Pygments default light theme",
        false,
        colors_of(
            None,
            AnsiColor::new(40, 40, 40), AnsiColor::new(0, 0, 200), AnsiColor::new(0, 100, 0),
            AnsiColor::new(150, 0, 150), AnsiColor::new(0, 130, 130), AnsiColor::new(0, 0, 0),
            AnsiColor::new(80, 80, 80), AnsiColor::new(0, 100, 0), AnsiColor::new(0, 0, 200),
            AnsiColor::new(187, 68, 0), AnsiColor::new(64, 128, 128), AnsiColor::new(0, 64, 255),
            AnsiColor::new(0, 100, 0), AnsiColor::new(100, 100, 100), AnsiColor::new(100, 100, 100),
            AnsiColor::new(0, 100, 200), AnsiColor::new(100, 130, 180), AnsiColor::new(180, 180, 180),
            AnsiColor::new(0, 0, 200), AnsiColor::new(0, 0, 180), AnsiColor::new(180, 180, 180),
            AnsiColor::new(150, 150, 150),
            "InspiredGitHub",
        ),
    )
}

/// The `emacs` theme.
pub open spec fn spec_theme_emacs() -> ThemeView {
    ThemeView {
        name: "emacs"@,
        description: "Emacs-like light syntax theme"@,
        dark: false,
        colors: palette(
            None,
            rgb(0, 0, 0), rgb(0, 0, 205), rgb(34, 139, 34), rgb(139, 0, 139),
            rgb(0, 128, 128), rgb(0, 0, 0), rgb(80, 80, 80), rgb(34, 139, 34),
            rgb(170, 34, 255), rgb(188, 122, 0), rgb(95, 125, 149), rgb(102, 102, 204),
            rgb(0, 100, 50), rgb(100, 100, 100), rgb(100, 100, 100), rgb(0, 0, 205),
            rgb(100, 130, 180), rgb(180, 180, 180), rgb(170, 34, 255), rgb(0, 0, 205),
            rgb(180, 180, 180), rgb(150, 150, 150),
            "InspiredGitHub"@,
        ),
    }
}

fn theme_emacs() -> (t: Theme)
    ensures
        t@ == spec_theme_emacs(),
{
    theme_of(
        "emacs",
        "Emacs-like light syntax theme",
        false,
        colors_of(
            None,
            AnsiColor::new(0, 0, 0), AnsiColor::new(0, 0, 205), AnsiColor::new(34, 139, 34),
            AnsiColor::new(139, 0, 139), AnsiColor::new(0, 128, 128), AnsiColor::new(0, 0, 0),
            AnsiColor::new(80, 80, 80), AnsiColor::new(34, 139, 34), AnsiColor::new(170, 34, 255),
            AnsiColor::new(188, 122, 0), AnsiColor::new(95, 125, 149), AnsiColor::new(102, 102, 204),
            AnsiColor::new(0, 100, 50), AnsiColor::new(100, 100, 100), AnsiColor::new(100, 100, 100),
            AnsiColor::new(0, 0, 205), AnsiColor::new(100, 130, 180), AnsiColor::new(180, 180, 180),
            AnsiColor::new(170, 34, 255), AnsiColor::new(0, 0, 205), AnsiColor::new(180, 180, 180),
            AnsiColor::new(150, 150, 150),
            "InspiredGitHub",
        ),
    )
}

/// The `friendly` theme.
pub open spec fn spec_theme_friendly() -> ThemeView {
    ThemeView {
        name: "friendly"@,
        description: "Friendly light theme"@,
        dark: false,
        colors: palette(
            None,
            rgb(50, 50, 50), rgb(0, 100, 200), rgb(0, 160, 80), rgb(160, 40, 160),
            rgb(0, 140, 140), rgb(20, 20, 20), rgb(90, 90, 90), rgb(0, 140, 0),
            rgb(0, 100, 200), rgb(200, 80, 0), rgb(80, 140, 140), rgb(100, 80, 200),
            rgb(0, 140, 0), rgb(100, 100, 100), rgb(100, 100, 100), rgb(0, 100, 200),
            rgb(80, 120, 180), rgb(200, 200, 200), rgb(0, 100, 200), rgb(0, 100, 180),
            rgb(180, 180, 180), rgb(150, 150, 150),
            "InspiredGitHub"@,
        ),
    }
}

fn theme_friendly() -> (t: Theme)
    ensures
        t@ == spec_theme_friendly(),
{
    theme_of(
        "friendly",
        "Friendly light theme",
        false,
        colors_of(
            None,
            AnsiColor::new(50, 50, 50), AnsiColor::new(0, 100, 200), AnsiColor::new(0, 160, 80),
            AnsiColor::new(160, 40, 160), AnsiColor::new(0, 140, 140), AnsiColor::new(20, 20, 20),
            AnsiColor::new(90, 90, 90), AnsiColor::new(0, 140, 0), AnsiColor::new(0, 100, 200),
            AnsiColor::new(200, 80, 0), AnsiColor::new(80, 140, 140), AnsiColor::new(100, 80, 200),
            AnsiColor::new(0, 140, 0), AnsiColor::new(100, 100, 100), AnsiColor::new(100, 100, 100),
            AnsiColor::new(0, 100, 200), AnsiColor::new(80, 120, 180), AnsiColor::new(200, 200, 200),
            AnsiColor::new(0, 100, 200), AnsiColor::new(0, 100, 180), AnsiColor::new(180, 180, 180),
            AnsiColor::new(150, 150, 150),
            "InspiredGitHub",
        ),
    )
}

/// The `solarized-light` theme.
pub open spec fn spec_theme_solarized_light() -> ThemeView {
    ThemeView {
        name: "solarized-light"@,
        description: "Solarized light theme"@,
        dark: false,
        colors: palette(
            None,
            rgb(88, 110, 117), rgb(220, 50, 47), rgb(203, 75, 22), rgb(181, 137, 0),
            rgb(133, 153, 0), rgb(101, 123, 131), rgb(108, 113, 196), rgb(133, 153, 0),
            rgb(108, 113, 196), rgb(42, 161, 152), rgb(147, 161, 161), rgb(211, 54, 130),
            rgb(38, 139, 210), rgb(220, 50, 47), rgb(147, 161, 161), rgb(38, 139, 210),
            rgb(147, 161, 161), rgb(200, 215, 220), rgb(203, 75, 22), rgb(38, 139, 210),
            rgb(200, 215, 220), rgb(147, 161, 161),
            "Solarized (light)"@,
        ),
    }
}

fn theme_solarized_light() -> (t: Theme)
    ensures
        t@ == spec_theme_solarized_light(),
{
    theme_of(
        "solarized-light",
        "Solarized light theme",
        false,
        colors_of(
            None,
            AnsiColor::new(88, 110, 117), AnsiColor::new(220, 50, 47), AnsiColor::new(203, 75, 22),
            AnsiColor::new(181, 137, 0), AnsiColor::new(133, 153, 0), AnsiColor::new(101, 123, 131),
            AnsiColor::new(108, 113, 196), AnsiColor::new(133, 153, 0), AnsiColor::new(108, 113, 196),
            AnsiColor::new(42, 161, 152), AnsiColor::new(147, 161, 161), AnsiColor::new(211, 54, 130),
            AnsiColor::new(38, 139, 210), AnsiColor::new(220, 50, 47), AnsiColor::new(147, 161, 161),
            AnsiColor::new(38, 139, 210), AnsiColor::new(147, 161, 161), AnsiColor::new(200, 215, 220),
            AnsiColor::new(203, 75, 22), AnsiColor::new(38, 139, 210), AnsiColor::new(200, 215, 220),
            AnsiColor::new(147, 161, 161),
            "Solarized (light)",
        ),
    )
}

/// The `tango` theme.
pub open spec fn spec_theme_tango() -> ThemeView {
    ThemeView {
        name: "tango"@,
        description: "GNOME Tango light theme"@,
        dark: false,
        colors: palette(
            None,
            rgb(0, 0, 0), rgb(52, 101, 164), rgb(78, 154, 6), rgb(117, 80, 123),
            rgb(6, 152, 154), rgb(0, 0, 0), rgb(80, 80, 80), rgb(78, 154, 6),
            rgb(0, 0, 200), rgb(196, 160, 0), rgb(136, 138, 133), rgb(36, 36, 175),
            rgb(78, 154, 6), rgb(100, 100, 100), rgb(136, 138, 133), rgb(52, 101, 164),
            rgb(100, 130, 180), rgb(200, 200, 200), rgb(52, 101, 164), rgb(52, 101, 164),
            rgb(200, 200, 200), rgb(150, 150, 150),
            "InspiredGitHub"@,
        ),
    }
}

fn theme_tango() -> (t: Theme)
    ensures
        t@ == spec_theme_tango(),
{
    theme_of(
        "tango",
        "GNOME Tango light theme",
        false,
        colors_of(
            None,
            AnsiColor::new(0, 0, 0), AnsiColor::new(52, 101, 164), AnsiColor::new(78, 154, 6),
            AnsiColor::new(117, 80, 123), AnsiColor::new(6, 152, 154), AnsiColor::new(0, 0, 0),
            AnsiColor::new(80, 80, 80), AnsiColor::new(78, 154, 6), AnsiColor::new(0, 0, 200),
            AnsiColor::new(196, 160, 0), AnsiColor::new(136, 138, 133), AnsiColor::new(36, 36, 175),
            AnsiColor::new(78, 154, 6), AnsiColor::new(100, 100, 100), AnsiColor::new(136, 138, 133),
            AnsiColor::new(52, 101, 164), AnsiColor::new(100, 130, 180), AnsiColor::new(200, 200, 200),
            AnsiColor::new(52, 101, 164), AnsiColor::new(52, 101, 164), AnsiColor::new(200, 200, 200),
            AnsiColor::new(150, 150, 150),
            "InspiredGitHub",
        ),
    )
}

/// The `autumn` theme.
pub open spec fn spec_theme_autumn() -> ThemeView {
    ThemeView {
        name: "autumn"@,
        description: "Warm autumn-toned light theme"@,
        dark: false,
        colors: palette(
            None,
            rgb(30, 30, 30), rgb(180, 60, 0), rgb(200, 120, 0), rgb(160, 140, 0),
            rgb(0, 130, 80), rgb(30, 30, 30), rgb(100, 80, 80), rgb(150, 80, 0),
            rgb(0, 112, 32), rgb(186, 33, 33), rgb(153, 85, 17), rgb(64, 160, 112),
            rgb(64, 0, 128), rgb(100, 100, 100), rgb(153, 85, 17), rgb(0, 80, 180),
            rgb(80, 110, 160), rgb(200, 200, 200), rgb(200, 120, 0), rgb(180, 60, 0),
            rgb(200, 200, 200), rgb(150, 150, 150),
            "InspiredGitHub"@,
        ),
    }
}

fn theme_autumn() -> (t: Theme)
    ensures
        t@ == spec_theme_autumn(),
{
    theme_of(
        "autumn",
        "Warm autumn-toned light theme",
        false,
        colors_of(
            None,
            AnsiColor::new(30, 30, 30), AnsiColor::new(180, 60, 0), AnsiColor::new(200, 120, 0),
            AnsiColor::new(160, 140, 0), AnsiColor::new(0, 130, 80), AnsiColor::new(30, 30, 30),
            AnsiColor::new(100, 80, 80), AnsiColor::new(150, 80, 0), AnsiColor::new(0, 112, 32),
            AnsiColor::new(186, 33, 33), AnsiColor::new(153, 85, 17), AnsiColor::new(64, 160, 112),
            AnsiColor::new(64, 0, 128), AnsiColor::new(100, 100, 100), AnsiColor::new(153, 85, 17),
            AnsiColor::new(0, 80, 180), AnsiColor::new(80, 110, 160), AnsiColor::new(200, 200, 200),
            AnsiColor::new(200, 120, 0), AnsiColor::new(180, 60, 0), AnsiColor::new(200, 200, 200),
            AnsiColor::new(150, 150, 150),
            "InspiredGitHub",
        ),
    )
}

/// The `bw` theme.
pub open spec fn spec_theme_bw() -> ThemeView {
    ThemeView {
        name: "bw"@,
        description: "Black and white minimal theme"@,
        dark: false,
        colors: palette(
            None,
            rgb(0, 0, 0), rgb(0, 0, 0), rgb(50, 50, 50), rgb(80, 80, 80),
            rgb(100, 100, 100), rgb(0, 0, 0), rgb(70, 70, 70), rgb(50, 50, 50),
            rgb(0, 0, 0), rgb(50, 50, 50), rgb(130, 130, 130), rgb(50, 50, 50),
            rgb(0, 0, 0), rgb(70, 70, 70), rgb(100, 100, 100), rgb(0, 0, 200),
            rgb(80, 80, 180), rgb(180, 180, 180), rgb(0, 0, 0), rgb(0, 0, 0),
            rgb(150, 150, 150), rgb(150, 150, 150),
            "InspiredGitHub"@,
        ),
    }
}

fn theme_bw() -> (t: Theme)
    ensures
        t@ == spec_theme_bw(),
{
    theme_of(
        "bw",
        "Black and white minimal theme",
        false,
        colors_of(
            None,
            AnsiColor::new(0, 0, 0), AnsiColor::new(0, 0, 0), AnsiColor::new(50, 50, 50),
            AnsiColor::new(80, 80, 80), AnsiColor::new(100, 100, 100), AnsiColor::new(0, 0, 0),
            AnsiColor::new(70, 70, 70), AnsiColor::new(50, 50, 50), AnsiColor::new(0, 0, 0),
            AnsiColor::new(50, 50, 50), AnsiColor::new(130, 130, 130), AnsiColor::new(50, 50, 50),
            AnsiColor::new(0, 0, 0), AnsiColor::new(70, 70, 70), AnsiColor::new(100, 100, 100),
            AnsiColor::new(0, 0, 200), AnsiColor::new(80, 80, 180), AnsiColor::new(180, 180, 180),
            AnsiColor::new(0, 0, 0), AnsiColor::new(0, 0, 0), AnsiColor::new(150, 150, 150),
            AnsiColor::new(150, 150, 150),
            "InspiredGitHub",
        ),
    )
}

/// The built-in themes, in the order in which they are declared.
pub open spec fn builtin_theme_views() -> Seq<ThemeView> {
    seq![
        spec_theme_fruity(),
        spec_theme_monokai(),
        spec_theme_dracula(),
        spec_theme_nord(),
        spec_theme_github_dark(),
        spec_theme_gruvbox_dark(),
        spec_theme_one_dark(),
        spec_theme_solarized_dark(),
        spec_theme_material(),
        spec_theme_native(),
        spec_theme_vim(),
        spec_theme_zenburn(),
        spec_theme_inkpot(),
        spec_theme_default(),
        spec_theme_emacs(),
        spec_theme_friendly(),
        spec_theme_solarized_light(),
        spec_theme_tango(),
        spec_theme_autumn(),
        spec_theme_bw(),
    ]
}

/// The views of a sequence of themes.
pub open spec fn theme_views(ts: Seq<Theme>) -> Seq<ThemeView> {
    ts.map_values(|t: Theme| t@)
}

/// All built-in themes, modelled after Pygments styles.
pub fn builtin_themes() -> (themes: Vec<Theme>)
    ensures
        theme_views(themes@) == builtin_theme_views(),
{
    let mut themes: Vec<Theme> = Vec::new();
    themes.push(theme_fruity());
    themes.push(theme_monokai());
    themes.push(theme_dracula());
    themes.push(theme_nord());
    themes.push(theme_github_dark());
    themes.push(theme_gruvbox_dark());
    themes.push(theme_one_dark());
    themes.push(theme_solarized_dark());
    themes.push(theme_material());
    themes.push(theme_native());
    themes.push(theme_vim());
    themes.push(theme_zenburn());
    themes.push(theme_inkpot());
    themes.push(theme_default());
    themes.push(theme_emacs());
    themes.push(theme_friendly());
    themes.push(theme_solarized_light());
    themes.push(theme_tango());
    themes.push(theme_autumn());
    themes.push(theme_bw());
    assert(theme_views(themes@) =~= builtin_theme_views());
    themes
}

/// The first theme of `ts` called `name`.
pub open spec fn find_theme(ts: Seq<ThemeView>, name: Seq<char>) -> Option<ThemeView>
    decreases ts.len(),
{
    if ts.len() == 0 {
        None
    } else if ts[0].name == name {
        Some(ts[0])
    } else {
        find_theme(ts.drop_first(), name)
    }
}

/// The names of the built-in themes, in declaration order.
pub open spec fn builtin_theme_names() -> Seq<Seq<char>> {
    builtin_theme_views().map_values(|t: ThemeView| t.name)
}

/// The built-in theme called `name`, if there is one.
pub fn find_builtin_theme(name: &str) -> (r: Option<Theme>)
    ensures
        match r {
            Some(t) => find_theme(builtin_theme_views(), name@) == Some(t@),
            None => find_theme(builtin_theme_views(), name@) is None,
        },
{
    let mut themes = builtin_themes();
    let ghost views = builtin_theme_views();
    let mut i: usize = 0;
    assert(views.skip(0) =~= views);
    while i < themes.len()
        invariant
            i <= themes.len(),
            theme_views(themes@) == views,
            views == builtin_theme_views(),
            find_theme(views, name@) == find_theme(views.skip(i as int), name@),
        decreases themes.len() - i,
    {
        assert(views[i as int] == themes@[i as int]@);
        if str_eq(themes[i].name.as_str(), name) {
            let t = themes.remove(i);
            return Some(t);
        }
        assert(views.skip(i as int).drop_first() =~= views.skip(i + 1));
        i += 1;
    }
    None
}

/// A copy of the theme called `name` among `themes`, if there is one.
pub fn find_theme_in(themes: &Vec<Theme>, name: &str) -> (r: Option<Theme>)
    ensures
        match r {
            Some(t) => find_theme(theme_views(themes@), name@) == Some(t@),
            None => find_theme(theme_views(themes@), name@) is None,
        },
{
    let ghost views = theme_views(themes@);
    let mut i: usize = 0;
    assert(views.skip(0) =~= views);
    while i < themes.len()
        invariant
            i <= themes.len(),
            views == theme_views(themes@),
            find_theme(views, name@) == find_theme(views.skip(i as int), name@),
        decreases themes.len() - i,
    {
        assert(views[i as int] == themes@[i as int]@);
        if str_eq(themes[i].name.as_str(), name) {
            return Some(themes[i].duplicate());
        }
        assert(views.skip(i as int).drop_first() =~= views.skip(i + 1));
        i += 1;
    }
    None
}

/// The theme that the name `name` selects: the built-in theme of that name,
/// else the default theme, fruity.
pub open spec fn theme_or_default(name: Seq<char>) -> ThemeView {
    match find_theme(builtin_theme_views(), name) {
        Some(t) => t,
        None => spec_theme_fruity(),
    }
}

/// Load a theme by name. Falls back to "fruity" if not found.
pub fn get_theme(name: &str) -> (r: Option<Theme>)
    ensures
        r matches Some(t) && t@ == theme_or_default(name@),
{
    match find_builtin_theme(name) {
        Some(t) => Some(t),
        None => Some(theme_fruity()),
    }
}

/// The names of all built-in themes, sorted.
pub fn list_themes() -> (names: Vec<String>)
    ensures
        string_views(names@).to_multiset() == builtin_theme_names().to_multiset(),
        sorted_by_lex(string_views(names@)),
{
    let themes = builtin_themes();
    let mut names: Vec<String> = Vec::new();
    let mut i: usize = 0;
    while i < themes.len()
        invariant
            i <= themes.len(),
            theme_views(themes@) == builtin_theme_views(),
            string_views(names@) == builtin_theme_names().take(i as int),
        decreases themes.len() - i,
    {
        let nm = themes[i].name.clone();
        assert(theme_views(themes@)[i as int] == themes@[i as int]@);
        assert(builtin_theme_names()[i as int] == nm@);
        let ghost before = string_views(names@);
        names.push(nm);
        assert(string_views(names@) =~= before.push(nm@));
        assert(string_views(names@) =~= builtin_theme_names().take(i + 1));
        i += 1;
    }
    assert(builtin_theme_names().take(i as int) =~= builtin_theme_names());
    sort_strings(names)
}

/// A name is found by [`get_theme`] exactly when it is one of the built-in theme names,
/// and the theme found carries that name.
pub proof fn lemma_find_theme_iff_named(ts: Seq<ThemeView>, name: Seq<char>)
    ensures
        find_theme(ts, name) is Some <==> ts.map_values(|t: ThemeView| t.name).contains(name),
        find_theme(ts, name) matches Some(t) ==> t.name == name,
    decreases ts.len(),
{
    let names = ts.map_values(|t: ThemeView| t.name);
    if ts.len() > 0 {
        lemma_find_theme_iff_named(ts.drop_first(), name);
        let rest = ts.drop_first().map_values(|t: ThemeView| t.name);
        assert(names =~= seq![ts[0].name] + rest);
        assert(names[0] == ts[0].name);
        if names.contains(name) && ts[0].name != name {
            let k = choose|k: int| 0 <= k < names.len() && names[k] == name;
            assert(rest[k - 1] == name);
        }
        if rest.contains(name) {
            let k = choose|k: int| 0 <= k < rest.len() && rest[k] == name;
            assert(names[k + 1] == name);
        }
    } else {
        assert(!names.contains(name));
    }
}

/// Law: a built-in theme is found exactly for the names that `list_themes`
/// returns, and it is the one called `n`; `get_theme` gives that theme for a
/// listed name and the default theme, fruity, for any other.
pub proof fn law_get_theme_matches_list(name: Seq<char>)
    ensures
        find_theme(builtin_theme_views(), name) is Some
            <==> builtin_theme_names().to_multiset().contains(name),
        find_theme(builtin_theme_views(), name) matches Some(t) ==> t.name == name,
        builtin_theme_names().to_multiset().contains(name) ==> theme_or_default(name).name == name,
        !builtin_theme_names().to_multiset().contains(name) ==> theme_or_default(name) == spec_theme_fruity(),
{
    broadcast use vstd::seq_lib::group_to_multiset_ensures;
    lemma_find_theme_iff_named(builtin_theme_views(), name);
}

/// Law: the default theme of the configuration, `fruity`, is built in.
pub proof fn law_default_theme_is_builtin()
    ensures
        find_theme(builtin_theme_views(), "fruity"@) == Some(spec_theme_fruity()),
{
}

/// Law: a dark theme paints its own background; a light theme keeps the terminal's.
pub proof fn law_dark_themes_have_background(i: int)
    requires
        0 <= i < builtin_theme_views().len(),
    ensures
        builtin_theme_views()[i].colors.background is Some <==> builtin_theme_views()[i].dark,
{
}

/// Law: there are twenty built-in themes, and no two share a name, so the
/// theme listing shows each of them once.
pub proof fn law_builtin_theme_names_distinct()
    ensures
        builtin_theme_views().len() == 20,
        builtin_theme_names().no_duplicates(),
{
    reveal_strlit("fruity");
    reveal_strlit("monokai");
    reveal_strlit("dracula");
    reveal_strlit("nord");
    reveal_strlit("github-dark");
    reveal_strlit("gruvbox-dark");
    reveal_strlit("one-dark");
    reveal_strlit("solarized-dark");
    reveal_strlit("material");
    reveal_strlit("native");
    reveal_strlit("vim");
    reveal_strlit("zenburn");
    reveal_strlit("inkpot");
    reveal_strlit("default");
    reveal_strlit("emacs");
    reveal_strlit("friendly");
    reveal_strlit("solarized-light");
    reveal_strlit("tango");
    reveal_strlit("autumn");
    reveal_strlit("bw");
    assert("fruity"@.len() == 6 && "fruity"@[0] == 'f' && "fruity"@[1] == 'r');
    assert("monokai"@.len() == 7 && "monokai"@[0] == 'm' && "monokai"@[1] == 'o');
    assert("dracula"@.len() == 7 && "dracula"@[0] == 'd' && "dracula"@[1] == 'r');
    assert("nord"@.len() == 4 && "nord"@[0] == 'n' && "nord"@[1] == 'o');
    assert("github-dark"@.len() == 11 && "github-dark"@[0] == 'g' && "github-dark"@[1] == 'i');
    assert("gruvbox-dark"@.len() == 12 && "gruvbox-dark"@[0] == 'g' && "gruvbox-dark"@[1] == 'r');
    assert("one-dark"@.len() == 8 && "one-dark"@[0] == 'o' && "one-dark"@[1] == 'n');
    assert("solarized-dark"@.len() == 14 && "solarized-dark"@[0] == 's' && "solarized-dark"@[1] == 'o');
    assert("material"@.len() == 8 && "material"@[0] == 'm' && "material"@[1] == 'a');
    assert("native"@.len() == 6 && "native"@[0] == 'n' && "native"@[1] == 'a');
    assert("vim"@.len() == 3 && "vim"@[0] == 'v' && "vim"@[1] == 'i');
    assert("zenburn"@.len() == 7 && "zenburn"@[0] == 'z' && "zenburn"@[1] == 'e');
    assert("inkpot"@.len() == 6 && "inkpot"@[0] == 'i' && "inkpot"@[1] == 'n');
    assert("default"@.len() == 7 && "default"@[0] == 'd' && "default"@[1] == 'e');
    assert("emacs"@.len() == 5 && "emacs"@[0] == 'e' && "emacs"@[1] == 'm');
    assert("friendly"@.len() == 8 && "friendly"@[0] == 'f' && "friendly"@[1] == 'r');
    assert("solarized-light"@.len() == 15 && "solarized-light"@[0] == 's' && "solarized-light"@[1] == 'o');
    assert("tango"@.len() == 5 && "tango"@[0] == 't' && "tango"@[1] == 'a');
    assert("autumn"@.len() == 6 && "autumn"@[0] == 'a' && "autumn"@[1] == 'u');
    assert("bw"@.len() == 2 && "bw"@[0] == 'b' && "bw"@[1] == 'w');
    let ns = builtin_theme_names();
    assert forall|i: int, j: int| 0 <= i < ns.len() && 0 <= j < ns.len() && i != j implies ns[i] != ns[j] by {
        assert(ns[i] == builtin_theme_views()[i].name);
        assert(ns[j] == builtin_theme_views()[j].name);
    }
}

} // verus!
