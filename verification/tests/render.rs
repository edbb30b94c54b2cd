use readmetoo::markdown::{parse_markdown, MdEvent, MdTag};
use readmetoo::renderer::{pad_right, render_to_string, render_to_string_with, visible_len, width_for, Renderer};
use readmetoo::theme::get_theme;

const R: &str = "\x1b[0m";
const FG: &str = "\x1b[m";

fn plain(md: &str, width: u16) -> String {
    let theme = get_theme("bw").unwrap();
    render_to_string_with(md, &theme, false, true, 2, width, true)
}

#[test]
fn paragraph_is_flushed_with_resets() {
    assert_eq!(plain("Hello world", 80), format!("Hello world{R}{R}\n\n{R}"));
}

#[test]
fn heading_level_one_is_underlined() {
    let expected = format!("\n\x1b[1m{FG}█ Title{R}{R}\n{FG}═══════\n{R}{R}");
    assert_eq!(plain("# Title", 80), expected);
}

#[test]
fn heading_underline_is_cut_to_terminal_width() {
    let out = plain("## A rather long heading", 20);
    let expected = format!("\n\x1b[1m{FG}▌ A rather long heading{R}{R}\n{FG}{}\n{R}{R}", "─".repeat(20));
    assert_eq!(out, expected);
}

#[test]
fn heading_level_three_has_no_underline() {
    assert_eq!(plain("### Sub", 80), format!("\n\x1b[1m{FG}◆ Sub{R}{R}\n{R}"));
}

#[test]
fn bullet_list_item() {
    assert_eq!(plain("- a", 80), format!("{FG}● {R}  a{R}{R}\n\n{R}"));
}

#[test]
fn ordered_list_counts_from_its_start() {
    let expected = format!("{FG}3. {R}  x{R}{R}\n{FG}4. {R}  y{R}{R}\n\n{R}");
    assert_eq!(plain("3. x\n4. y", 80), expected);
}

#[test]
fn rule_spans_the_width() {
    let expected = format!("{FG}{}\n{R}\n{R}", "─".repeat(30));
    assert_eq!(plain("---", 30), expected);
}

#[test]
fn inline_code_is_wrapped_in_backticks() {
    let expected = format!("a {FG}`b`{R}{R}{FG} c{R}{R}\n\n{R}");
    assert_eq!(plain("a `b` c", 80), expected);
}

#[test]
fn emphasis_is_styled_and_reset() {
    let expected = format!("{FG}\x1b[3mi{R}{R}{FG}{R}{R}\n\n{R}");
    assert_eq!(plain("*i*", 80), expected);
}

#[test]
fn long_paragraph_wraps_at_twenty_columns() {
    let out = plain("aaaa bbbb cccc dddd eeee ffff", 10);
    let expected = format!("aaaa bbbb cccc dddd\neeee ffff{R}{R}\n\n{R}");
    assert_eq!(out, expected);
}

#[test]
fn code_block_is_boxed() {
    let expected = format!(
        "{FG}╭{line}╮\n{R}{FG}│ {FG}x{pad}{R}{R}{FG}│\n{FG}╰{line}╯\n{R}\n{R}",
        line = "─".repeat(18),
        pad = " ".repeat(16)
    );
    assert_eq!(plain("```\nx\n```", 20), expected);
}

#[test]
fn code_block_shows_its_language() {
    let out = plain("```rust\nlet x = 1;\n```", 40);
    assert!(out.contains(" rust "));
    assert!(out.contains("├"));
    assert!(out.contains("let x = 1;"));
}

#[test]
fn table_is_drawn_with_box_characters() {
    let cell = |c: &str| format!(" {FG}{c}{R}{R}{R}{FG} │");
    let expected = format!(
        "{FG}┌───┬───┐\n{FG}│{}{}\n{FG}└───┴───┘\n{R}\n{R}",
        cell("c"),
        cell("d")
    );
    assert_eq!(plain("| a | b |\n|---|---|\n| c | d |", 80), expected);
}

#[test]
fn task_list_marker_is_written() {
    let out = plain("- [x] done", 80);
    assert!(out.contains("☑ "));
}

#[test]
fn html_tags_are_stripped() {
    let out = plain("<b>bold</b>", 80);
    assert!(out.contains("bold"));
    assert!(!out.contains("<b>"));
}

#[test]
fn link_destination_is_appended() {
    let out = plain("[site](http://x.y)", 80);
    assert!(out.contains("site"));
    assert!(out.contains(" (http://x.y)"));
}

#[test]
fn colours_use_theme_rgb_values() {
    let theme = get_theme("bw").unwrap();
    let out = render_to_string_with("---", &theme, false, true, 2, 5, false);
    let rule = theme.colors.rule;
    let expected = format!("\x1b[38;2;{};{};{}m─────\n{R}\n{R}", rule.r, rule.g, rule.b);
    assert_eq!(out, expected);
}

#[test]
fn render_to_string_ends_with_reset() {
    let theme = get_theme("fruity").unwrap();
    let out = render_to_string("# Hi\n\ntext", &theme, false, true, 2);
    assert!(out.ends_with(R));
    assert!(out.contains("Hi"));
    assert!(out.contains("text"));
}

#[test]
fn hand_built_events_render() {
    let theme = get_theme("bw").unwrap();
    let mut r = Renderer::with_terminal(theme, false, true, 2, 80, true);
    let events = vec![
        MdEvent::Start(MdTag::Paragraph),
        MdEvent::Text("x".to_string()),
        MdEvent::SoftBreak,
        MdEvent::Text("y".to_string()),
        MdEvent::End(MdTag::Paragraph),
    ];
    r.render_parsed(&events);
    assert_eq!(r.output(), format!("x y{R}{R}\n\n{R}"));
}

#[test]
fn parser_reports_heading_events() {
    let events = parse_markdown("# T");
    assert_eq!(events.len(), 3);
    assert!(matches!(events[0], MdEvent::Start(MdTag::Heading(1))));
    assert!(matches!(&events[1], MdEvent::Text(t) if t == "T"));
    assert!(matches!(events[2], MdEvent::End(MdTag::Heading(1))));
}

#[test]
fn parser_reports_ordered_list_start() {
    let events = parse_markdown("7. a");
    assert!(matches!(events[0], MdEvent::Start(MdTag::List(Some(7)))));
}

#[test]
fn visible_len_skips_escape_sequences() {
    assert_eq!(visible_len("\x1b[1mab\x1b[0m"), 2);
    assert_eq!(visible_len("plain"), 5);
    assert_eq!(visible_len(""), 0);
}

#[test]
fn pad_right_reaches_width() {
    assert_eq!(pad_right("ab", 4), "ab  ");
    assert_eq!(pad_right("abcdef", 3), "abcdef");
    assert_eq!(visible_len(&pad_right("\x1b[1mab\x1b[0m", 5)), 5);
}

#[test]
fn width_defaults_and_cap() {
    assert_eq!(width_for(None), 100);
    assert_eq!(width_for(Some(80)), 80);
    assert_eq!(width_for(Some(250)), 200);
}

#[test]
fn code_block_with_line_numbers_and_comment() {
    let theme = get_theme("bw").unwrap();
    let out = render_to_string_with("```py\n# c\nx\n```", &theme, true, true, 2, 20, true);
    let expected = format!(
        "{FG}╭{l}╮\n│\x1b[1m{FG} py {R}{FG}{p14}│\n├{l}┤\n{R}\
         {FG}│{FG}1 {FG}\x1b[3m# c{p12}{R}{R}{FG}│\n\
         {FG}│{FG}2 {FG}x{p14}{R}{R}{FG}│\n\
         {FG}╰{l}╯\n{R}\n{R}",
        l = "─".repeat(18),
        p14 = " ".repeat(14),
        p12 = " ".repeat(12)
    );
    assert_eq!(out, expected);
}

#[test]
fn block_quote_lines_carry_a_bar() {
    assert_eq!(plain("> q", 80), format!("  │ {FG}\x1b[3mq{R}{R}\n\n{R}{R}\n{R}"));
}
