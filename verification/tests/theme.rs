use mesh::theme::load_choice;
use mesh::theme::names_color;
use mesh::theme::palette_for_choice;
use mesh::theme::parse_hex;
use mesh::theme::presets;
use mesh::theme::save_choice;
use mesh::theme::Color;
use mesh::theme::Config;
use mesh::theme::Palette;
use mesh::theme::CUSTOM;

fn own_palette() -> Palette {
    Palette {
        background: "#010203".to_owned(),
        surface: "040506".to_owned(),
        surface_alt: "##0a0B0c".to_owned(),
        text: "#ffffff".to_owned(),
        text_muted: "#eeeeee".to_owned(),
        accent: "#89b4fa".to_owned(),
        accent_text: "#000000".to_owned(),
        danger: "#ff0000".to_owned(),
        success: "#00ff00".to_owned(),
        border: "#123456ff".to_owned(),
    }
}

#[test]
fn a_color_is_read_from_hex() {
    assert_eq!(parse_hex("#89b4fa"), Color { r: 0x89, g: 0xb4, b: 0xfa });
    assert_eq!(parse_hex("89B4FA"), Color { r: 0x89, g: 0xb4, b: 0xfa });
    assert_eq!(parse_hex("##010203ff"), Color { r: 1, g: 2, b: 3 });
}

#[test]
fn a_pair_that_is_no_number_counts_as_zero() {
    assert_eq!(parse_hex("#zz10+f"), Color { r: 0, g: 0x10, b: 0x0f });
    assert_eq!(parse_hex("#-1ff1-"), Color { r: 0, g: 0xff, b: 0 });
}

#[test]
fn a_text_names_a_color_if_it_has_three_pairs() {
    assert!(names_color("#89b4fa"));
    assert!(names_color("zzzzzz"));
    assert!(names_color("é12345"));
    assert!(!names_color("#89b4f"));
    assert!(!names_color(""));
    assert!(!names_color("######"));
    assert!(!names_color("1é2345"));
}

#[test]
fn the_presets_are_in_order() {
    let all = presets();
    let names: Vec<&str> = all.iter().map(|(name, _)| *name).collect();
    assert_eq!(names, vec!["Catppuccin Mocha", "Nord", "Gruvbox Dark"]);
    assert_eq!(all[0].1, Palette::default());
    assert_eq!(all[1].1.accent, "#88c0d0");
    assert_eq!(all[2].1.background, "#282828");
}

#[test]
fn a_preset_is_chosen_by_name() {
    assert_eq!(palette_for_choice("Nord", None).background, "#2e3440");
    assert_eq!(palette_for_choice("Nord", Some(own_palette())).background, "#2e3440");
    assert_eq!(palette_for_choice("Gruvbox Dark", None).danger, "#cc241d");
    assert_eq!(palette_for_choice("Catppuccin Mocha", None), Palette::default());
}

#[test]
fn the_custom_choice_takes_the_palette_file() {
    assert_eq!(palette_for_choice(CUSTOM, Some(own_palette())), own_palette());
}

#[test]
fn a_missing_or_broken_palette_file_falls_back() {
    assert_eq!(palette_for_choice(CUSTOM, None), Palette::default());
    let mut broken = own_palette();
    broken.accent = "blue".to_owned();
    assert!(!broken.is_readable());
    assert_eq!(palette_for_choice(CUSTOM, Some(broken)), Palette::default());
    assert_eq!(palette_for_choice("Solarized", None), Palette::default());
}

#[test]
fn the_palette_gives_its_colors() {
    let p = own_palette();
    assert!(p.is_readable());
    assert_eq!(p.background(), Color { r: 1, g: 2, b: 3 });
    assert_eq!(p.surface(), Color { r: 4, g: 5, b: 6 });
    assert_eq!(p.surface_alt(), Color { r: 10, g: 11, b: 12 });
    assert_eq!(p.text(), Color { r: 255, g: 255, b: 255 });
    assert_eq!(p.text_muted(), Color { r: 0xee, g: 0xee, b: 0xee });
    assert_eq!(p.accent(), Color { r: 0x89, g: 0xb4, b: 0xfa });
    assert_eq!(p.accent_text(), Color { r: 0, g: 0, b: 0 });
    assert_eq!(p.danger(), Color { r: 255, g: 0, b: 0 });
    assert_eq!(p.success(), Color { r: 0, g: 255, b: 0 });
    assert_eq!(p.border(), Color { r: 0x12, g: 0x34, b: 0x56 });
}

#[test]
fn widgets_wear_the_palette() {
    let theme = own_palette().to_iced_theme();
    assert_eq!(theme.name, "Mesh");
    assert_eq!(theme.background, Color { r: 1, g: 2, b: 3 });
    assert_eq!(theme.primary, Color { r: 0x89, g: 0xb4, b: 0xfa });
    assert_eq!(theme.warning, theme.primary);
    assert_eq!(theme.danger, Color { r: 255, g: 0, b: 0 });
}

#[test]
fn a_choice_survives_a_restart() {
    assert_eq!(load_choice(Some(save_choice("Nord"))), "Nord");
    assert_eq!(load_choice(Some(save_choice(""))), "");
}

#[test]
fn without_a_choice_the_custom_one_counts() {
    assert_eq!(load_choice(None), CUSTOM);
    assert_eq!(load_choice(Some(Config { theme: None })), CUSTOM);
    assert_eq!(CUSTOM, "custom");
}
