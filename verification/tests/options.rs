use readmetoo::cli::{assemble_output, file_banner, preview_output, sample_markdown, select_theme, theme_entries, Action, Cli, Emission, Input};
use readmetoo::config::AppConfig;
use readmetoo::theme::{get_theme, Theme};
use readmetoo::pager::{pager_candidates, split_command};

fn no_custom() -> Vec<Theme> {
    Vec::new()
}

fn cli() -> Cli {
    Cli {
        files: Vec::new(),
        theme: None,
        pager: false,
        no_pager: false,
        pager_cmd: None,
        line_numbers: false,
        width: None,
        no_wrap: false,
        list_themes: false,
        preview_theme: None,
        config_path: false,
        print_config: false,
        quiet: false,
    }
}

#[test]
fn informational_exits_come_first() {
    let mut c = cli();
    assert!(matches!(c.action(), Action::Render));
    c.preview_theme = Some("nord".to_string());
    assert!(matches!(c.action(), Action::Preview(ref n) if n == "nord"));
    c.print_config = true;
    assert!(matches!(c.action(), Action::PrintConfig));
    c.config_path = true;
    assert!(matches!(c.action(), Action::ShowConfigPath));
    c.list_themes = true;
    assert!(matches!(c.action(), Action::ListThemes));
}

#[test]
fn option_theme_overrides_configuration() {
    let mut c = cli();
    let cfg = AppConfig::default();
    let s = c.resolve(&cfg, &no_custom());
    assert_eq!(s.theme.name, "fruity");
    c.theme = Some("dracula".to_string());
    let s = c.resolve(&cfg, &no_custom());
    assert_eq!(s.theme.name, "dracula");
}

#[test]
fn unknown_theme_falls_back_to_the_default() {
    let mut c = cli();
    c.theme = Some("zzz".to_string());
    assert_eq!(c.resolve(&AppConfig::default(), &no_custom()).theme.name, "fruity");
}

fn custom_theme() -> Theme {
    let mut t = get_theme("dracula").unwrap();
    t.name = "mytheme".to_string();
    t.colors.h1 = readmetoo::theme::AnsiColor::new(1, 2, 3);
    t
}

#[test]
fn custom_themes_come_after_the_builtin_ones() {
    let custom = vec![custom_theme()];
    let mut c = cli();
    c.theme = Some("mytheme".to_string());
    let s = c.resolve(&AppConfig::default(), &custom);
    assert_eq!(s.theme.name, "mytheme");
    assert_eq!((s.theme.colors.h1.r, s.theme.colors.h1.g, s.theme.colors.h1.b), (1, 2, 3));
    let mut shadow = custom_theme();
    shadow.name = "nord".to_string();
    let t = select_theme("nord", &vec![shadow]);
    assert_eq!(t.colors.h1, get_theme("nord").unwrap().colors.h1);
}

#[test]
fn width_option_overrides_configuration() {
    let mut c = cli();
    let mut cfg = AppConfig::default();
    assert_eq!(c.resolve(&cfg, &no_custom()).width, None);
    cfg.width = Some(90);
    assert_eq!(c.resolve(&cfg, &no_custom()).width, Some(90));
    c.width = Some(40);
    assert_eq!(c.resolve(&cfg, &no_custom()).width, Some(40));
}

#[test]
fn fixed_width_governs_wrapping() {
    let mut c = cli();
    c.width = Some(25);
    let s = c.resolve(&AppConfig::default(), &no_custom());
    let out = s.render("aaaa bbbb cccc dddd eeee ffff gggg");
    assert!(out.contains("aaaa bbbb cccc dddd eeee\nffff gggg"));
}

#[test]
fn inputs_read_standard_input_for_a_dash() {
    let c = cli();
    let ins = c.inputs();
    assert_eq!(ins.len(), 1);
    assert!(matches!(ins[0], Input::Stdin));
    let c = Cli { files: vec!["a.md".to_string(), "-".to_string()], ..cli() };
    let ins = c.inputs();
    assert_eq!(ins.len(), 2);
    assert!(matches!(&ins[0], Input::File(f) if f == "a.md"));
    assert!(matches!(ins[1], Input::Stdin));
}

#[test]
fn no_pager_wins() {
    let mut c = cli();
    let mut cfg = AppConfig::default();
    cfg.pager = true;
    assert!(c.resolve(&cfg, &no_custom()).use_pager);
    c.no_pager = true;
    c.pager = true;
    assert!(!c.resolve(&cfg, &no_custom()).use_pager);
    let c2 = Cli { pager: true, ..cli() };
    assert!(c2.resolve(&AppConfig::default(), &no_custom()).use_pager);
}

#[test]
fn flags_combine_with_configuration() {
    let mut c = cli();
    let mut cfg = AppConfig::default();
    cfg.line_numbers = true;
    cfg.indent = 4;
    let s = c.resolve(&cfg, &no_custom());
    assert!(s.line_numbers);
    assert!(s.word_wrap);
    assert!(s.show_header);
    assert_eq!(s.indent, 4);
    c.no_wrap = true;
    c.quiet = true;
    let s = c.resolve(&cfg, &no_custom());
    assert!(!s.word_wrap);
    assert!(!s.show_header);
}

#[test]
fn pager_command_option_overrides_configuration() {
    let mut c = cli();
    let mut cfg = AppConfig::default();
    cfg.pager_cmd = Some("more".to_string());
    assert_eq!(c.resolve(&cfg, &no_custom()).pager_cmd.as_deref(), Some("more"));
    c.pager_cmd = Some("less -R".to_string());
    assert_eq!(c.resolve(&cfg, &no_custom()).pager_cmd.as_deref(), Some("less -R"));
}

#[test]
fn emission_choice() {
    let mut c = cli();
    let cfg = AppConfig::default();
    let titles = vec!["a.md".to_string(), "b.md".to_string()];
    let s = c.resolve(&cfg, &no_custom());
    assert!(matches!(s.emission(&titles), Emission::Stdout));
    c.pager = true;
    let s = c.resolve(&cfg, &no_custom());
    assert!(matches!(s.emission(&titles), Emission::Pager(ref t) if t == "a.md"));
    assert!(matches!(s.emission(&Vec::new()), Emission::Pager(ref t) if t == "readmetoo"));
    c.pager_cmd = Some("most".to_string());
    let s = c.resolve(&cfg, &no_custom());
    assert!(matches!(s.emission(&titles), Emission::ExternalPager(ref p) if p == "most"));
}

#[test]
fn banner_is_as_wide_as_the_title_in_bytes() {
    assert_eq!(file_banner("ab"), "\n╔══════╗\n║  ab  ║\n╚══════╝\n\n");
    assert_eq!(file_banner("é"), "\n╔══════╗\n║  é  ║\n╚══════╝\n\n");
}

#[test]
fn banners_only_for_several_inputs() {
    let one = vec![("a".to_string(), "A".to_string())];
    assert_eq!(assemble_output(&one, true), "A");
    let two = vec![("a".to_string(), "A".to_string()), ("b".to_string(), "B".to_string())];
    assert_eq!(assemble_output(&two, false), "AB");
    let both = assemble_output(&two, true);
    assert_eq!(both, format!("{}A{}B", file_banner("a"), file_banner("b")));
}

#[test]
fn sample_document_names_the_theme() {
    let s = sample_markdown("nord");
    assert!(s.starts_with("# nord — Theme Preview\n"));
    assert!(s.contains("    let theme = \"nord\";\n"));
    assert!(s.contains("println!(\"Active theme: {theme}\");"));
    assert!(s.contains("as long as it's nord.\"*"));
    assert!(s.contains("| Themes         | ✅ Done  | nord active     |"));
    assert!(s.ends_with("Powered by `readmetoo`\n"));
}

#[test]
fn preview_of_unknown_theme_uses_the_default() {
    let out = preview_output("zzz", &no_custom());
    assert!(out.contains("zzz"));
    let out = preview_output("monokai", &no_custom());
    assert!(out.contains("monokai"));
}

#[test]
fn theme_listing() {
    let es = theme_entries();
    assert_eq!(es.len(), 20);
    assert_eq!(es.iter().filter(|e| e.is_default).count(), 1);
    let f = es.iter().find(|e| e.name == "fruity").unwrap();
    assert!(f.is_default);
    assert!(f.dark);
    let bw = es.iter().find(|e| e.name == "bw").unwrap();
    assert!(!bw.dark);
    for w in es.windows(2) {
        assert!(w[0].name < w[1].name);
    }
    let names: Vec<String> = es.iter().map(|e| e.name.clone()).collect();
    assert_eq!(names, readmetoo::theme::list_themes());
}

#[test]
fn command_lines_split_on_white_space() {
    assert_eq!(split_command("less -R"), vec!["less", "-R"]);
    assert_eq!(split_command("  \t "), Vec::<String>::new());
    assert_eq!(split_command(" a\tb  c\n"), vec!["a", "b", "c"]);
    for s in ["x  y", "", "\u{2003}p\u{2003}q"] {
        let expected: Vec<String> = s.split_whitespace().map(String::from).collect();
        assert_eq!(split_command(s), expected);
    }
}

#[test]
fn pager_candidates_put_the_environment_first() {
    assert_eq!(pager_candidates(None, false), vec!["less -R", "less", "more"]);
    assert_eq!(pager_candidates(Some("   "), false), vec!["less -R", "less", "more"]);
    assert_eq!(pager_candidates(Some("most"), false), vec!["most", "less -R", "less", "more"]);
    assert_eq!(pager_candidates(None, true), vec!["more"]);
    assert_eq!(pager_candidates(Some("most"), true), vec!["most", "more"]);
}

#[test]
fn whole_output_renders_each_document_under_its_banner() {
    let c = Cli { width: Some(30), ..cli() };
    let s = c.resolve(&AppConfig::default(), &no_custom());
    let docs = vec![("a".to_string(), "x".to_string()), ("b".to_string(), "# y".to_string())];
    let expected = format!("{}{}{}{}", file_banner("a"), s.render("x"), file_banner("b"), s.render("# y"));
    assert_eq!(s.output(&docs), expected);
    let one = vec![("a".to_string(), "x".to_string())];
    assert_eq!(s.output(&one), s.render("x"));
}
