use readmetoo::theme::{builtin_themes, find_builtin_theme, find_theme_in, get_theme, list_themes, AnsiColor};

#[test]
fn fruity_is_the_default_dark_theme() {
    let t = get_theme("fruity").unwrap();
    assert_eq!(t.name, "fruity");
    assert!(t.dark);
    assert!(t.colors.background.is_some());
}

#[test]
fn unknown_theme_falls_back_to_fruity() {
    for n in ["no-such-theme", "", "Fruity"] {
        let t = get_theme(n).unwrap();
        assert_eq!(t.name, "fruity");
    }
    assert!(find_builtin_theme("no-such-theme").is_none());
    assert_eq!(find_builtin_theme("nord").unwrap().name, "nord");
}

#[test]
fn lookup_among_given_themes() {
    let mut custom = get_theme("nord").unwrap();
    custom.name = "mine".to_string();
    let themes = vec![custom];
    assert_eq!(find_theme_in(&themes, "mine").unwrap().colors.h1, get_theme("nord").unwrap().colors.h1);
    assert!(find_theme_in(&themes, "nord").is_none());
}

#[test]
fn there_are_twenty_builtin_themes() {
    let ts = builtin_themes();
    assert_eq!(ts.len(), 20);
    assert_eq!(ts[0].name, "fruity");
    assert_eq!(ts[19].name, "bw");
}

#[test]
fn list_is_sorted_and_complete() {
    let names = list_themes();
    assert_eq!(names.len(), 20);
    assert_eq!(names[0], "autumn");
    assert_eq!(names[19], "zenburn");
    for w in names.windows(2) {
        assert!(w[0] < w[1]);
    }
    for t in builtin_themes() {
        assert!(names.contains(&t.name));
    }
}

#[test]
fn every_listed_theme_can_be_found() {
    for n in list_themes() {
        let t = get_theme(&n).unwrap();
        assert_eq!(t.name, n);
    }
}

#[test]
fn dark_themes_have_a_background_and_light_ones_do_not() {
    for t in builtin_themes() {
        assert_eq!(t.dark, t.colors.background.is_some(), "{}", t.name);
    }
}

#[test]
fn ansi_color_new_keeps_components() {
    let c = AnsiColor::new(1, 2, 3);
    assert_eq!((c.r, c.g, c.b), (1, 2, 3));
}

#[test]
fn duplicate_is_equal() {
    let t = get_theme("nord").unwrap();
    let d = t.duplicate();
    assert_eq!(d.name, t.name);
    assert_eq!(d.description, t.description);
    assert_eq!(d.dark, t.dark);
    assert_eq!(d.colors.h1, t.colors.h1);
    assert_eq!(d.colors.syntect_theme, t.colors.syntect_theme);
}
