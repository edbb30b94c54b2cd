use readmetoo::config::{config_from, default_config_toml, parse_bool_text, parse_unsigned_text, AppConfig};
use readmetoo::error::ReadmetooError;

#[test]
fn defaults() {
    let c = AppConfig::default();
    assert_eq!(c.theme, "fruity");
    assert!(!c.pager);
    assert!(c.pager_cmd.is_none());
    assert!(c.width.is_none());
    assert!(!c.line_numbers);
    assert!(c.themes_dir.is_none());
    assert!(c.show_header);
    assert!(c.word_wrap);
    assert_eq!(c.indent, 2);
}

#[test]
fn text_settings_are_taken_as_given() {
    let mut c = AppConfig::default();
    c.apply_setting("theme", "nord");
    c.apply_setting("pager_cmd", "less -R");
    c.apply_setting("themes_dir", "/tmp/t");
    assert_eq!(c.theme, "nord");
    assert_eq!(c.pager_cmd.as_deref(), Some("less -R"));
    assert_eq!(c.themes_dir.as_deref(), Some("/tmp/t"));
}

#[test]
fn boolean_settings_need_true_or_false() {
    let mut c = AppConfig::default();
    c.apply_setting("pager", "true");
    assert!(c.pager);
    c.apply_setting("pager", "yes");
    assert!(c.pager);
    c.apply_setting("word_wrap", "false");
    assert!(!c.word_wrap);
    c.apply_setting("show_header", "False");
    assert!(c.show_header);
    c.apply_setting("line_numbers", "true");
    assert!(c.line_numbers);
}

#[test]
fn numeric_settings_must_fit() {
    let mut c = AppConfig::default();
    c.apply_setting("width", "+120");
    assert_eq!(c.width, Some(120));
    c.apply_setting("width", "70000");
    assert_eq!(c.width, Some(120));
    c.apply_setting("indent", "4");
    assert_eq!(c.indent, 4);
    c.apply_setting("indent", "-1");
    assert_eq!(c.indent, 4);
    c.apply_setting("indent", " 3");
    assert_eq!(c.indent, 4);
}

#[test]
fn unknown_keys_change_nothing() {
    let mut c = AppConfig::default();
    c.apply_setting("colour", "red");
    assert_eq!(c.theme, "fruity");
    assert_eq!(c.indent, 2);
}

#[test]
fn unsigned_parsing_follows_str_parse() {
    assert_eq!(parse_unsigned_text("", 10), None);
    assert_eq!(parse_unsigned_text("+", 10), None);
    assert_eq!(parse_unsigned_text("007", 10), Some(7));
    assert_eq!(parse_unsigned_text("10", 10), Some(10));
    assert_eq!(parse_unsigned_text("11", 10), None);
    assert_eq!(parse_unsigned_text("1a", 100), None);
    assert_eq!(parse_unsigned_text("65535", 65535), Some(65535));
    assert_eq!(parse_unsigned_text("65536", 65535), None);
    for s in ["0", "42", "+9", "x", "-3", "99999999999999999999999"] {
        assert_eq!(parse_unsigned_text(s, usize::MAX), s.parse::<usize>().ok());
    }
}

#[test]
fn bool_parsing_follows_str_parse() {
    for s in ["true", "false", "True", "", " true", "1"] {
        assert_eq!(parse_bool_text(s), s.parse::<bool>().ok());
    }
}

#[test]
fn empty_configuration_gives_defaults() {
    let cg = config_get::ConfigGet::builder("readmetoo-test-none").auto_load(false).build().unwrap();
    let c = config_from(&cg);
    assert_eq!(c.theme, "fruity");
    assert_eq!(c.indent, 2);
    assert!(c.word_wrap);
}

#[test]
fn documented_configuration_file() {
    let t = default_config_toml();
    assert!(t.starts_with("# readmetoo configuration\n"));
    assert!(t.contains("theme = \"fruity\"\n"));
    assert!(t.contains("indent = 2\n"));
    assert!(t.ends_with("indent = 2\n"));
}

#[test]
fn error_messages() {
    assert_eq!(ReadmetooError::file_not_found("x.md").message(), "File not found: x.md");
    assert_eq!(
        ReadmetooError::theme_not_found("zzz").message(),
        "Theme 'zzz' not found. Run `readmetoo --list-themes` to see available themes."
    );
    let io = ReadmetooError::IoError { path: "a".to_string(), source: "denied".to_string() };
    assert_eq!(io.message(), "Failed to read file 'a': denied");
    assert_eq!(ReadmetooError::ConfigError("c".to_string()).message(), "Invalid configuration: c");
    assert_eq!(ReadmetooError::RenderError("r".to_string()).message(), "Rendering error: r");
    assert_eq!(ReadmetooError::PagerError("p".to_string()).message(), "Pager error: p");
}

const DOCUMENTED: &str = r#"# readmetoo configuration
# Save this to the path shown by: readmetoo --config-path
#
# Platform defaults:
#   Linux/macOS : ~/.config/readmetoo/readmetoo.toml
#   Windows     : %APPDATA%\readmetoo\readmetoo.toml

# Theme name.  Run `readmetoo --list-themes` to see all choices.
# Built-in themes (Pygments-inspired):
#   dark  : fruity (default), monokai, dracula, nord, github-dark,
#            gruvbox-dark, one-dark, solarized-dark, material,
#            native, vim, zenburn, inkpot
#   light : default, emacs, friendly, solarized-light, tango, autumn, bw
theme = "fruity"

# Enable the built-in pager automatically for long files
pager = false

# Use a specific external pager command instead of the built-in one.
# The command receives the rendered output on stdin.
# pager_cmd = "less -R"

# Hard-code terminal width for line-wrapping (omit to auto-detect)
# width = 100

# Show line numbers in fenced code blocks
line_numbers = false

# Directory containing custom *.theme.toml files
# themes_dir = "~/.config/readmetoo/themes"

# Show a filename banner when reading multiple files at once
show_header = true

# Word-wrap long paragraphs to terminal width
word_wrap = true

# Number of spaces per indent level in nested lists
indent = 2
"#;

#[test]
fn documented_file_is_reproduced_exactly() {
    assert_eq!(default_config_toml(), DOCUMENTED);
}

#[test]
fn documented_settings_are_the_defaults() {
    let mut c = AppConfig::default();
    for line in default_config_toml().lines() {
        if line.is_empty() || line.starts_with('#') {
            continue;
        }
        let (key, value) = line.split_once(" = ").unwrap();
        c.apply_setting(key, value.trim_matches('"'));
    }
    let d = AppConfig::default();
    assert_eq!(c.theme, d.theme);
    assert_eq!(c.pager, d.pager);
    assert_eq!(c.line_numbers, d.line_numbers);
    assert_eq!(c.show_header, d.show_header);
    assert_eq!(c.word_wrap, d.word_wrap);
    assert_eq!(c.indent, d.indent);
    assert!(c.pager_cmd.is_none() && c.width.is_none() && c.themes_dir.is_none());
}
