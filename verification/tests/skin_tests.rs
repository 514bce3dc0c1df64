use skin::color::Color;
use skin::role::{Role, Side};
use skin::skin::resolve_side;
use skin::{Skin, SkinEntry};
use std::collections::HashMap;

const ROLES: [(Role, &str, &str, &str); 21] = [
    (Role::CharMatch, "char_match", "\x1b[38;5;2m", "\x1b[49m"),
    (Role::Code, "code", "\x1b[39m", "\x1b[48;5;234m"),
    (Role::Directory, "directory", "\x1b[38;5;12m", "\x1b[49m"),
    (Role::Exe, "exe", "\x1b[38;5;14m", "\x1b[49m"),
    (Role::File, "file", "\x1b[38;5;7m", "\x1b[49m"),
    (Role::FileError, "file_error", "\x1b[38;5;1m", "\x1b[49m"),
    (Role::FlagLabel, "flag_label", "\x1b[38;5;244m", "\x1b[48;5;233m"),
    (Role::FlagValue, "flag_value", "\x1b[38;5;248m", "\x1b[48;5;233m"),
    (Role::Input, "input", "\x1b[38;5;7m", "\x1b[49m"),
    (Role::Link, "link", "\x1b[38;5;13m", "\x1b[49m"),
    (Role::Permissions, "permissions", "\x1b[38;5;247m", "\x1b[49m"),
    (Role::SelectedLine, "selected_line", "\x1b[39m", "\x1b[48;5;235m"),
    (Role::SizeBarFull, "size_bar_full", "\x1b[39m", "\x1b[48;5;5m"),
    (Role::SizeBarVoid, "size_bar_void", "\x1b[39m", "\x1b[48;5;234m"),
    (Role::SizeText, "size_text", "\x1b[38;5;247m", "\x1b[49m"),
    (Role::Spinner, "spinner", "\x1b[38;5;242m", "\x1b[48;5;234m"),
    (Role::StatusError, "status_error", "\x1b[38;5;1m", "\x1b[48;5;234m"),
    (Role::StatusNormal, "status_normal", "\x1b[38;5;7m", "\x1b[48;5;234m"),
    (Role::TableBorder, "table_border", "\x1b[38;5;240m", "\x1b[49m"),
    (Role::Tree, "tree", "\x1b[38;5;237m", "\x1b[49m"),
    (Role::Unlisted, "unlisted", "\x1b[38;5;245m", "\x1b[49m"),
];

fn conf_of(pairs: &[(&str, &str)]) -> HashMap<String, String> {
    let mut conf = HashMap::new();
    for (k, v) in pairs {
        conf.insert(k.to_string(), v.to_string());
    }
    conf
}

fn assert_defaults_but(skin: &Skin, changed: &[(Role, Side)]) {
    for (role, _, fg, bg) in ROLES.iter() {
        if !changed.contains(&(*role, Side::Fg)) {
            assert_eq!(skin.entry(*role).fg, *fg, "{:?}", role);
        }
        if !changed.contains(&(*role, Side::Bg)) {
            assert_eq!(skin.entry(*role).bg, *bg, "{:?}", role);
        }
    }
    assert_eq!(skin.reset.fg, "\x1b[39m");
    assert_eq!(skin.reset.bg, "\x1b[49m");
    assert_eq!(skin.style_folder, "\x1b[1m");
    assert_eq!(skin.style_pruning, "\x1b[3m");
    assert_eq!(skin.style_reset, "\x1b[m");
}

#[test]
fn fgbg_is_foreground_then_background() {
    let e = SkinEntry { fg: "ab".to_string(), bg: "cd".to_string() };
    assert_eq!(e.fgbg(), "abcd");
    let e = SkinEntry { fg: String::new(), bg: "x".to_string() };
    assert_eq!(e.fgbg(), "x");
    let e = SkinEntry { fg: String::new(), bg: String::new() };
    assert_eq!(e.fgbg(), "");
}

#[test]
fn fgbg_of_every_entry_of_a_configured_skin() {
    let skin = Skin::create(HashMap::new());
    for (role, _, fg, bg) in ROLES.iter() {
        assert_eq!(skin.entry(*role).fgbg(), format!("{}{}", fg, bg));
    }
    assert_eq!(skin.reset.fgbg(), "\x1b[39m\x1b[49m");
    assert_eq!(skin.code.fgbg(), "\x1b[39m\x1b[48;5;234m");
}

#[test]
fn no_term_has_no_control_character() {
    let skin = Skin::no_term();
    for (role, _, _, _) in ROLES.iter() {
        assert_eq!(skin.entry(*role).fg, "");
        assert_eq!(skin.entry(*role).bg, "");
        assert_eq!(skin.entry(*role).fgbg(), "");
    }
    assert_eq!(skin.reset.fg, "");
    assert_eq!(skin.reset.bg, "");
    assert_eq!(skin.style_folder, "");
    assert_eq!(skin.style_reset, "");
}

#[test]
fn no_term_marks_pruning_by_text() {
    let skin = Skin::no_term();
    assert_eq!(skin.style_pruning, " … ");
    assert_eq!(skin.style_pruning.len(), 5);
    assert_eq!(skin.style_pruning.chars().count(), 3);
    assert_eq!(skin.style_pruning.as_bytes(), &[0x20, 0xE2, 0x80, 0xA6, 0x20]);
}

#[test]
fn create_without_overrides_gives_the_defaults() {
    let skin = Skin::create(HashMap::new());
    assert_defaults_but(&skin, &[]);
    assert_eq!(skin.char_match.fg, "\x1b[38;5;2m");
    assert_eq!(skin.size_bar_full.bg, "\x1b[48;5;5m");
    assert_eq!(skin.unlisted.fg, "\x1b[38;5;245m");
}

#[test]
fn create_is_the_same_on_each_call() {
    let a = Skin::create(HashMap::new());
    let b = Skin::create(conf_of(&[]));
    for (role, _, _, _) in ROLES.iter() {
        assert_eq!(a.entry(*role).fg, b.entry(*role).fg);
        assert_eq!(a.entry(*role).bg, b.entry(*role).bg);
    }
    assert_eq!(a.reset.fg, b.reset.fg);
    assert_eq!(a.reset.bg, b.reset.bg);
    assert_eq!(a.style_folder, b.style_folder);
    assert_eq!(a.style_pruning, b.style_pruning);
    assert_eq!(a.style_reset, b.style_reset);
}

#[test]
fn create_overrides_directory_foreground_only() {
    let skin = Skin::create(conf_of(&[("directory_fg", "\x1b[1;34m")]));
    assert_eq!(skin.directory.fg, "\x1b[1;34m");
    assert_eq!(skin.directory.bg, "\x1b[49m");
    assert_defaults_but(&skin, &[(Role::Directory, Side::Fg)]);
}

#[test]
fn create_takes_each_override_as_it_stands() {
    for (role, name, _, _) in ROLES.iter() {
        for (side, suffix) in [(Side::Fg, "_fg"), (Side::Bg, "_bg")] {
            let key = format!("{}{}", name, suffix);
            let value = format!("<{} not a sequence>", key);
            let skin = Skin::create(conf_of(&[(key.as_str(), value.as_str())]));
            let entry = skin.entry(*role);
            let got = match side {
                Side::Fg => &entry.fg,
                Side::Bg => &entry.bg,
            };
            assert_eq!(got, &value);
            assert_defaults_but(&skin, &[(*role, side)]);
        }
    }
}

#[test]
fn create_overrides_both_sides_and_several_roles() {
    let skin = Skin::create(conf_of(&[
        ("file_fg", "A"),
        ("file_bg", "B"),
        ("file_error_bg", "C"),
        ("tree_fg", ""),
    ]));
    assert_eq!(skin.file.fg, "A");
    assert_eq!(skin.file.bg, "B");
    assert_eq!(skin.file_error.fg, "\x1b[38;5;1m");
    assert_eq!(skin.file_error.bg, "C");
    assert_eq!(skin.tree.fg, "");
    assert_defaults_but(
        &skin,
        &[
            (Role::File, Side::Fg),
            (Role::File, Side::Bg),
            (Role::FileError, Side::Bg),
            (Role::Tree, Side::Fg),
        ],
    );
}

#[test]
fn create_ignores_unknown_keys() {
    let skin = Skin::create(conf_of(&[
        ("nonexistent_fg", "x"),
        ("directory", "y"),
        ("directory_fgx", "z"),
        ("reset_fg", "r"),
        ("style_folder", "s"),
        ("_fg", "t"),
        ("", "u"),
    ]));
    assert_defaults_but(&skin, &[]);
}

#[test]
fn reset_and_styles_have_no_key() {
    let skin = Skin::create(conf_of(&[
        ("reset_fg", "a"),
        ("reset_bg", "b"),
        ("style_folder_fg", "c"),
        ("style_pruning", "d"),
        ("style_reset", "e"),
    ]));
    assert_eq!(skin.reset.fg, "\x1b[39m");
    assert_eq!(skin.reset.bg, "\x1b[49m");
    assert_eq!(skin.style_folder, "\x1b[1m");
    assert_eq!(skin.style_pruning, "\x1b[3m");
    assert!(!skin.style_pruning.is_empty());
    assert_eq!(skin.style_reset, "\x1b[m");
}

#[test]
fn resolve_side_prefers_what_was_found() {
    assert_eq!(resolve_side(Some("abc".to_string()), Role::Exe, Side::Fg), "abc");
    assert_eq!(resolve_side(Some(String::new()), Role::Exe, Side::Bg), "");
    assert_eq!(resolve_side(None, Role::Exe, Side::Fg), "\x1b[38;5;14m");
    assert_eq!(resolve_side(None, Role::Exe, Side::Bg), "\x1b[49m");
    assert_eq!(resolve_side(None, Role::Spinner, Side::Bg), "\x1b[48;5;234m");
}

#[test]
fn names_and_keys_of_the_roles() {
    for (role, name, _, _) in ROLES.iter() {
        assert_eq!(role.name(), *name);
        assert_eq!(role.override_key(Side::Fg), format!("{}_fg", name));
        assert_eq!(role.override_key(Side::Bg), format!("{}_bg", name));
    }
    assert_eq!(Side::Fg.suffix(), "_fg");
    assert_eq!(Side::Bg.suffix(), "_bg");
    assert_eq!(Role::SizeBarVoid.override_key(Side::Bg), "size_bar_void_bg");
}

#[test]
fn keys_are_all_different() {
    let mut seen = Vec::new();
    for (role, _, _, _) in ROLES.iter() {
        for side in [Side::Fg, Side::Bg] {
            let key = role.override_key(side);
            assert!(!seen.contains(&key));
            seen.push(key);
        }
    }
    assert_eq!(seen.len(), 42);
}

#[test]
fn default_colors_of_the_roles() {
    assert_eq!(Role::CharMatch.default_color(Side::Fg), Color::Green);
    assert_eq!(Role::CharMatch.default_color(Side::Bg), Color::Reset);
    assert_eq!(Role::Code.default_color(Side::Bg), Color::Grayscale(2));
    assert_eq!(Role::FlagValue.default_color(Side::Fg), Color::Grayscale(16));
    assert_eq!(Role::SizeBarFull.default_color(Side::Bg), Color::Magenta);
    for (role, _, fg, bg) in ROLES.iter() {
        assert_eq!(role.default_code(Side::Fg), *fg);
        assert_eq!(role.default_code(Side::Bg), *bg);
        assert_eq!(role.default_color(Side::Fg).fg(), *fg);
        assert_eq!(role.default_color(Side::Bg).bg(), *bg);
    }
}

#[test]
fn foreground_sequences_of_the_colors() {
    assert_eq!(Color::Reset.fg(), "\x1b[39m");
    assert_eq!(Color::Green.fg(), "\x1b[38;5;2m");
    assert_eq!(Color::LightBlue.fg(), "\x1b[38;5;12m");
    assert_eq!(Color::LightCyan.fg(), "\x1b[38;5;14m");
    assert_eq!(Color::White.fg(), "\x1b[38;5;7m");
    assert_eq!(Color::Red.fg(), "\x1b[38;5;1m");
    assert_eq!(Color::LightMagenta.fg(), "\x1b[38;5;13m");
    assert_eq!(Color::Magenta.fg(), "\x1b[38;5;5m");
    assert_eq!(Color::Grayscale(0).fg(), "\x1b[38;5;232m");
    assert_eq!(Color::Grayscale(8).fg(), "\x1b[38;5;240m");
    assert_eq!(Color::Grayscale(23).fg(), "\x1b[38;5;255m");
}

#[test]
fn background_sequences_of_the_colors() {
    assert_eq!(Color::Reset.bg(), "\x1b[49m");
    assert_eq!(Color::Green.bg(), "\x1b[48;5;2m");
    assert_eq!(Color::LightBlue.bg(), "\x1b[48;5;12m");
    assert_eq!(Color::LightCyan.bg(), "\x1b[48;5;14m");
    assert_eq!(Color::White.bg(), "\x1b[48;5;7m");
    assert_eq!(Color::Red.bg(), "\x1b[48;5;1m");
    assert_eq!(Color::LightMagenta.bg(), "\x1b[48;5;13m");
    assert_eq!(Color::Magenta.bg(), "\x1b[48;5;5m");
    assert_eq!(Color::Grayscale(0).bg(), "\x1b[48;5;232m");
    assert_eq!(Color::Grayscale(17).bg(), "\x1b[48;5;249m");
    assert_eq!(Color::Grayscale(23).bg(), "\x1b[48;5;255m");
}

#[test]
fn every_shade_of_gray_is_written_in_base_ten() {
    for shade in 0u8..24 {
        let n = 232 + u32::from(shade);
        assert_eq!(Color::Grayscale(shade).fg(), format!("\x1b[38;5;{}m", n));
        assert_eq!(Color::Grayscale(shade).bg(), format!("\x1b[48;5;{}m", n));
    }
}
