//! The color palette: built-in presets, the user's own colors, and the persisted
//! choice between them. Every color that the frontend uses comes from here.

use vstd::prelude::*;
use vstd::string::*;

use crate::text;

verus! {

// ---------------------------------------------------------------------------
// Colors

/// An opaque color.
#[derive(Debug, Clone, Copy, PartialEq, Eq, Structural)]
pub struct Color {
    pub r: u8,
    pub g: u8,
    pub b: u8,
}

/// `bytes` without the `#`s it starts with.
pub open spec fn after_hashes(bytes: Seq<u8>) -> Seq<u8>
    decreases bytes.len(),
{
    if bytes.len() > 0 && bytes[0] == 0x23 {
        after_hashes(bytes.drop_first())
    } else {
        bytes
    }
}

/// A character starts, or the text ends, at byte `i`.
pub open spec fn is_boundary(bytes: Seq<u8>, i: int) -> bool {
    i == bytes.len() || !(0x80 <= bytes[i] < 0xc0)
}

/// The value of a hexadecimal digit.
pub open spec fn hex_digit(b: u8) -> Option<int> {
    if 0x30 <= b <= 0x39 {
        Some(b - 0x30)
    } else if 0x41 <= b <= 0x46 {
        Some(b - 0x41 + 10)
    } else if 0x61 <= b <= 0x66 {
        Some(b - 0x61 + 10)
    } else {
        None
    }
}

/// The value of two bytes read as a hexadecimal number: two digits, or one digit
/// behind a plus sign; anything else counts as zero.
pub open spec fn hex_pair(a: u8, b: u8) -> int {
    match (hex_digit(a), hex_digit(b)) {
        (Some(x), Some(y)) => 16 * x + y,
        (None, Some(y)) => if a == 0x2b {
            y
        } else {
            0
        },
        _ => 0,
    }
}

/// A text that names a color: after any leading `#`s it has six bytes that split
/// into three pairs between characters. More may follow.
pub open spec fn is_color_text(s: Seq<char>) -> bool {
    let bytes = after_hashes(vstd::utf8::encode_utf8(s));
    &&& bytes.len() >= 6
    &&& is_boundary(bytes, 2) && is_boundary(bytes, 4) && is_boundary(bytes, 6)
}

/// The color that a text names: red, green and blue as hexadecimal pairs.
pub open spec fn color_of(s: Seq<char>) -> Color {
    let bytes = after_hashes(vstd::utf8::encode_utf8(s));
    Color {
        r: hex_pair(bytes[0], bytes[1]) as u8,
        g: hex_pair(bytes[2], bytes[3]) as u8,
        b: hex_pair(bytes[4], bytes[5]) as u8,
    }
}

fn digit(b: u8) -> (r: Option<u8>)
    ensures
        match r {
            Some(v) => v < 16 && hex_digit(b) == Some(v as int),
            None => hex_digit(b) is None,
        },
{
    if 0x30 <= b && b <= 0x39 {
        Some(b - 0x30)
    } else if 0x41 <= b && b <= 0x46 {
        Some(b - 0x41 + 10)
    } else if 0x61 <= b && b <= 0x66 {
        Some(b - 0x61 + 10)
    } else {
        None
    }
}

fn pair(a: u8, b: u8) -> (r: u8)
    ensures
        r == hex_pair(a, b),
{
    match (digit(a), digit(b)) {
        (Some(x), Some(y)) => 16 * x + y,
        (None, Some(y)) => if a == 0x2b {
            y
        } else {
            0
        },
        _ => 0,
    }
}

/// Where the part behind the leading `#`s starts.
fn skip_hashes(bytes: &[u8]) -> (r: usize)
    ensures
        r <= bytes.len(),
        after_hashes(bytes@) == bytes@.skip(r as int),
{
    let mut i: usize = 0;
    proof {
        assert(bytes@.skip(0) =~= bytes@);
    }
    while i < bytes.len() && bytes[i] == 0x23
        invariant
            i <= bytes.len(),
            after_hashes(bytes@) == after_hashes(bytes@.skip(i as int)),
        ensures
            i <= bytes.len(),
            after_hashes(bytes@) == bytes@.skip(i as int),
        decreases bytes.len() - i,
    {
        proof {
            assert(bytes@.skip(i as int).drop_first() =~= bytes@.skip(i + 1));
        }
        i += 1;
    }
    i
}

fn starts_char(b: u8) -> (r: bool)
    ensures
        r == !(0x80 <= b < 0xc0),
{
    b < 0x80 || b >= 0xc0
}

/// Whether a text names a color.
pub fn names_color(hex: &str) -> (r: bool)
    ensures
        r == is_color_text(hex@),
{
    let bytes: &[u8] = hex.as_bytes();
    let at: usize = skip_hashes(bytes);
    let left: usize = bytes.len() - at;
    left >= 6 && starts_char(bytes[at + 2]) && starts_char(bytes[at + 4]) && (left == 6
        || starts_char(bytes[at + 6]))
}

/// Reads a color such as `#89b4fa`. The text has to name a color.
pub fn parse_hex(hex: &str) -> (r: Color)
    requires
        is_color_text(hex@),
    ensures
        r == color_of(hex@),
{
    let bytes: &[u8] = hex.as_bytes();
    let at: usize = skip_hashes(bytes);
    Color {
        r: pair(bytes[at], bytes[at + 1]),
        g: pair(bytes[at + 2], bytes[at + 3]),
        b: pair(bytes[at + 4], bytes[at + 5]),
    }
}

/// `#` and six ASCII characters name a color.
proof fn lemma_plain_color(s: Seq<char>)
    requires
        s.len() == 7,
        s[0] == '#',
        s[1] != '#',
        vstd::utf8::is_ascii_chars(s),
    ensures
        is_color_text(s),
{
    vstd::utf8::is_ascii_chars_encode_utf8(s);
    let bytes = vstd::utf8::encode_utf8(s);
    assert(bytes.len() == 7);
    assert(bytes[0] == 0x23);
    assert(bytes[1] == s[1] as u8);
    assert(after_hashes(bytes) == after_hashes(bytes.drop_first()));
    assert(after_hashes(bytes.drop_first()) == bytes.drop_first());
    assert forall|i: int| 0 <= i < 7 implies bytes[i] < 0x80 by {
        assert(bytes[i] == s[i] as u8);
    }
}

// ---------------------------------------------------------------------------
// Palettes

/// The ten named colors of the frontend, as texts such as `#89b4fa`.
#[derive(Debug, Clone, PartialEq, Eq)]
pub struct Palette {
    pub background: String,
    pub surface: String,
    pub surface_alt: String,
    pub text: String,
    pub text_muted: String,
    pub accent: String,
    pub accent_text: String,
    pub danger: String,
    pub success: String,
    pub border: String,
}

impl Palette {
    /// The color texts, in the order of the fields.
    pub open spec fn colors(&self) -> Seq<Seq<char>> {
        seq![
            self.background@,
            self.surface@,
            self.surface_alt@,
            self.text@,
            self.text_muted@,
            self.accent@,
            self.accent_text@,
            self.danger@,
            self.success@,
            self.border@,
        ]
    }

    /// Every text names a color.
    pub open spec fn wf(&self) -> bool {
        &&& is_color_text(self.background@)
        &&& is_color_text(self.surface@)
        &&& is_color_text(self.surface_alt@)
        &&& is_color_text(self.text@)
        &&& is_color_text(self.text_muted@)
        &&& is_color_text(self.accent@)
        &&& is_color_text(self.accent_text@)
        &&& is_color_text(self.danger@)
        &&& is_color_text(self.success@)
        &&& is_color_text(self.border@)
    }
}

/// The color texts of Catppuccin Mocha.
pub open spec fn mocha_colors() -> Seq<Seq<char>> {
    seq![
        "#1e1e2e"@,
        "#181825"@,
        "#313244"@,
        "#cdd6f4"@,
        "#a6adc8"@,
        "#89b4fa"@,
        "#11111b"@,
        "#f38ba8"@,
        "#a6e3a1"@,
        "#45475a"@,
    ]
}

fn mocha() -> (r: Palette)
    ensures
        r.wf(),
        r.colors() == mocha_colors(),
{
    proof {
        reveal_strlit("#1e1e2e");
        lemma_plain_color("#1e1e2e"@);
        reveal_strlit("#181825");
        lemma_plain_color("#181825"@);
        reveal_strlit("#313244");
        lemma_plain_color("#313244"@);
        reveal_strlit("#cdd6f4");
        lemma_plain_color("#cdd6f4"@);
        reveal_strlit("#a6adc8");
        lemma_plain_color("#a6adc8"@);
        reveal_strlit("#89b4fa");
        lemma_plain_color("#89b4fa"@);
        reveal_strlit("#11111b");
        lemma_plain_color("#11111b"@);
        reveal_strlit("#f38ba8");
        lemma_plain_color("#f38ba8"@);
        reveal_strlit("#a6e3a1");
        lemma_plain_color("#a6e3a1"@);
        reveal_strlit("#45475a");
        lemma_plain_color("#45475a"@);
    }
    Palette {
        background: "#1e1e2e".to_owned(),
        surface: "#181825".to_owned(),
        surface_alt: "#313244".to_owned(),
        text: "#cdd6f4".to_owned(),
        text_muted: "#a6adc8".to_owned(),
        accent: "#89b4fa".to_owned(),
        accent_text: "#11111b".to_owned(),
        danger: "#f38ba8".to_owned(),
        success: "#a6e3a1".to_owned(),
        border: "#45475a".to_owned(),
    }
}

/// The color texts of Nord.
pub open spec fn nord_colors() -> Seq<Seq<char>> {
    seq![
        "#2e3440"@,
        "#3b4252"@,
        "#434c5e"@,
        "#eceff4"@,
        "#d8dee9"@,
        "#88c0d0"@,
        "#2e3440"@,
        "#bf616a"@,
        "#a3be8c"@,
        "#4c566a"@,
    ]
}

fn nord() -> (r: Palette)
    ensures
        r.wf(),
        r.colors() == nord_colors(),
{
    proof {
        reveal_strlit("#2e3440");
        lemma_plain_color("#2e3440"@);
        reveal_strlit("#3b4252");
        lemma_plain_color("#3b4252"@);
        reveal_strlit("#434c5e");
        lemma_plain_color("#434c5e"@);
        reveal_strlit("#eceff4");
        lemma_plain_color("#eceff4"@);
        reveal_strlit("#d8dee9");
        lemma_plain_color("#d8dee9"@);
        reveal_strlit("#88c0d0");
        lemma_plain_color("#88c0d0"@);
        reveal_strlit("#bf616a");
        lemma_plain_color("#bf616a"@);
        reveal_strlit("#a3be8c");
        lemma_plain_color("#a3be8c"@);
        reveal_strlit("#4c566a");
        lemma_plain_color("#4c566a"@);
    }
    Palette {
        background: "#2e3440".to_owned(),
        surface: "#3b4252".to_owned(),
        surface_alt: "#434c5e".to_owned(),
        text: "#eceff4".to_owned(),
        text_muted: "#d8dee9".to_owned(),
        accent: "#88c0d0".to_owned(),
        accent_text: "#2e3440".to_owned(),
        danger: "#bf616a".to_owned(),
        success: "#a3be8c".to_owned(),
        border: "#4c566a".to_owned(),
    }
}

/// The color texts of Gruvbox Dark.
pub open spec fn gruvbox_colors() -> Seq<Seq<char>> {
    seq![
        "#282828"@,
        "#3c3836"@,
        "#504945"@,
        "#ebdbb2"@,
        "#bdae93"@,
        "#d79921"@,
        "#282828"@,
        "#cc241d"@,
        "#98971a"@,
        "#665c54"@,
    ]
}

fn gruvbox() -> (r: Palette)
    ensures
        r.wf(),
        r.colors() == gruvbox_colors(),
{
    proof {
        reveal_strlit("#282828");
        lemma_plain_color("#282828"@);
        reveal_strlit("#3c3836");
        lemma_plain_color("#3c3836"@);
        reveal_strlit("#504945");
        lemma_plain_color("#504945"@);
        reveal_strlit("#ebdbb2");
        lemma_plain_color("#ebdbb2"@);
        reveal_strlit("#bdae93");
        lemma_plain_color("#bdae93"@);
        reveal_strlit("#d79921");
        lemma_plain_color("#d79921"@);
        reveal_strlit("#cc241d");
        lemma_plain_color("#cc241d"@);
        reveal_strlit("#98971a");
        lemma_plain_color("#98971a"@);
        reveal_strlit("#665c54");
        lemma_plain_color("#665c54"@);
    }
    Palette {
        background: "#282828".to_owned(),
        surface: "#3c3836".to_owned(),
        surface_alt: "#504945".to_owned(),
        text: "#ebdbb2".to_owned(),
        text_muted: "#bdae93".to_owned(),
        accent: "#d79921".to_owned(),
        accent_text: "#282828".to_owned(),
        danger: "#cc241d".to_owned(),
        success: "#98971a".to_owned(),
        border: "#665c54".to_owned(),
    }
}

impl Default for Palette {
    /// Catppuccin Mocha, a sane default until the user drops in their own rice
    /// colors.
    fn default() -> (r: Self)
        ensures
            r.wf(),
            r.colors() == mocha_colors(),
    {
        mocha()
    }
}

/// What a frontend's widgets are themed with.
#[derive(Debug, PartialEq, Eq)]
pub struct WidgetTheme {
    pub name: String,
    pub background: Color,
    pub text: Color,
    pub primary: Color,
    pub success: Color,
    pub warning: Color,
    pub danger: Color,
}

impl WidgetTheme {
    /// The theme is the one built from this palette.
    pub open spec fn wears(self, palette: Palette) -> bool {
        &&& self.name@ == "Mesh"@
        &&& self.background == color_of(palette.background@)
        &&& self.text == color_of(palette.text@)
        &&& self.primary == color_of(palette.accent@)
        &&& self.success == color_of(palette.success@)
        &&& self.warning == color_of(palette.accent@)
        &&& self.danger == color_of(palette.danger@)
    }
}

impl Palette {
    /// Whether every text names a color.
    pub fn is_readable(&self) -> (r: bool)
        ensures
            r == self.wf(),
    {
        names_color(self.background.as_str())
            && names_color(self.surface.as_str())
            && names_color(self.surface_alt.as_str())
            && names_color(self.text.as_str())
            && names_color(self.text_muted.as_str())
            && names_color(self.accent.as_str())
            && names_color(self.accent_text.as_str())
            && names_color(self.danger.as_str())
            && names_color(self.success.as_str())
            && names_color(self.border.as_str())
    }

    /// The palette that the palette file holds. A missing file, one that could
    /// not be read as a palette (`None`) and one with a text that names no color
    /// fall back to the default palette.
    pub fn load_or_default(parsed: Option<Palette>) -> (r: Self)
        ensures
            r.wf(),
            match parsed {
                Some(p) if p.wf() => r == p,
                _ => r.colors() == mocha_colors(),
            },
    {
        match parsed {
            Some(p) => if p.is_readable() {
                p
            } else {
                Palette::default()
            },
            None => Palette::default(),
        }
    }

    pub fn background(&self) -> (r: Color)
        requires
            self.wf(),
        ensures
            r == color_of(self.background@),
    {
        parse_hex(self.background.as_str())
    }

    pub fn surface(&self) -> (r: Color)
        requires
            self.wf(),
        ensures
            r == color_of(self.surface@),
    {
        parse_hex(self.surface.as_str())
    }

    pub fn surface_alt(&self) -> (r: Color)
        requires
            self.wf(),
        ensures
            r == color_of(self.surface_alt@),
    {
        parse_hex(self.surface_alt.as_str())
    }

    pub fn text(&self) -> (r: Color)
        requires
            self.wf(),
        ensures
            r == color_of(self.text@),
    {
        parse_hex(self.text.as_str())
    }

    pub fn text_muted(&self) -> (r: Color)
        requires
            self.wf(),
        ensures
            r == color_of(self.text_muted@),
    {
        parse_hex(self.text_muted.as_str())
    }

    pub fn accent(&self) -> (r: Color)
        requires
            self.wf(),
        ensures
            r == color_of(self.accent@),
    {
        parse_hex(self.accent.as_str())
    }

    pub fn accent_text(&self) -> (r: Color)
        requires
            self.wf(),
        ensures
            r == color_of(self.accent_text@),
    {
        parse_hex(self.accent_text.as_str())
    }

    pub fn danger(&self) -> (r: Color)
        requires
            self.wf(),
        ensures
            r == color_of(self.danger@),
    {
        parse_hex(self.danger.as_str())
    }

    pub fn success(&self) -> (r: Color)
        requires
            self.wf(),
        ensures
            r == color_of(self.success@),
    {
        parse_hex(self.success.as_str())
    }

    pub fn border(&self) -> (r: Color)
        requires
            self.wf(),
        ensures
            r == color_of(self.border@),
    {
        parse_hex(self.border.as_str())
    }

    /// The theme of the frontend's widgets, built from the palette, so that every
    /// default widget style picks the colors up. Warnings use the accent color.
    pub fn to_iced_theme(&self) -> (r: WidgetTheme)
        requires
            self.wf(),
        ensures
            r.wears(*self),
    {
        WidgetTheme {
            name: "Mesh".to_owned(),
            background: self.background(),
            text: self.text(),
            primary: self.accent(),
            success: self.success(),
            warning: self.accent(),
            danger: self.danger(),
        }
    }
}

// ---------------------------------------------------------------------------
// Presets and the persisted choice

/// Sentinel theme choice meaning "load colors from theme.toml".
pub const CUSTOM: &'static str = "custom";

/// The names of the presets, in order.
pub open spec fn preset_names() -> Seq<Seq<char>> {
    seq!["Catppuccin Mocha"@, "Nord"@, "Gruvbox Dark"@]
}

/// The color texts of the presets, in order.
pub open spec fn preset_colors() -> Seq<Seq<Seq<char>>> {
    seq![mocha_colors(), nord_colors(), gruvbox_colors()]
}

/// A handful of built-in presets, for the theme switcher.
pub fn presets() -> (r: Vec<(&'static str, Palette)>)
    ensures
        r.len() == 3,
        forall|i: int|
            0 <= i < 3 ==> (#[trigger] r@[i]).0@ == preset_names()[i] && r@[i].1.colors()
                == preset_colors()[i] && r@[i].1.wf(),
{
    let mut all: Vec<(&'static str, Palette)> = Vec::new();
    all.push(("Catppuccin Mocha", Palette::default()));
    all.push(("Nord", nord()));
    all.push(("Gruvbox Dark", gruvbox()));
    all
}

/// The persisted configuration.
#[derive(Debug, PartialEq, Eq)]
pub struct Config {
    pub theme: Option<String>,
}

/// The theme choice that a configuration stands for: the one it holds, or
/// [`CUSTOM`] where it holds none or there is no readable configuration.
pub open spec fn chosen(config: Option<Config>) -> Seq<char> {
    match config {
        Some(Config { theme: Some(choice) }) => choice@,
        _ => "custom"@,
    }
}

/// `config` persists this theme choice.
pub open spec fn persists(config: Config, choice: Seq<char>) -> bool {
    config.theme matches Some(theme) && theme@ == choice
}

/// The persisted theme choice: a preset name, or [`CUSTOM`], also where there is
/// no readable configuration.
pub fn load_choice(config: Option<Config>) -> (r: String)
    ensures
        r@ == chosen(config),
{
    match config {
        Some(Config { theme: Some(choice) }) => choice,
        _ => CUSTOM.to_owned(),
    }
}

/// The configuration that persists a theme choice.
pub fn save_choice(choice: &str) -> (r: Config)
    ensures
        persists(r, choice@),
{
    Config { theme: Some(choice.to_owned()) }
}

/// The palette that a theme choice stands for: [`CUSTOM`] the one of the palette
/// file, a preset's name that preset, anything else the default.
pub open spec fn is_choice(palette: Palette, choice: Seq<char>, custom: Option<Palette>) -> bool {
    if choice == "custom"@ {
        match custom {
            Some(p) if p.wf() => palette == p,
            _ => palette.colors() == mocha_colors(),
        }
    } else if choice == "Nord"@ {
        palette.colors() == nord_colors()
    } else if choice == "Gruvbox Dark"@ {
        palette.colors() == gruvbox_colors()
    } else {
        palette.colors() == mocha_colors()
    }
}

/// Resolves a theme choice to a palette: [`CUSTOM`] takes the palette file's,
/// anything else looks up the presets (falling back to the default palette).
/// Whatever the choice, every text of the palette names a color.
pub fn palette_for_choice(choice: &str, custom: Option<Palette>) -> (r: Palette)
    ensures
        r.wf(),
        is_choice(r, choice@, custom),
{
    proof {
        reveal_strlit("custom");
        reveal_strlit("Catppuccin Mocha");
        reveal_strlit("Nord");
        reveal_strlit("Gruvbox Dark");
    }
    if text::same_text(choice, CUSTOM) {
        return Palette::load_or_default(custom);
    }
    let mut all = presets();
    let ghost given = all@;
    while all.len() > 0
        invariant
            choice@ != "custom"@,
            given.len() == 3,
            all.len() <= 3,
            all@ =~= given.take(all.len() as int),
            forall|i: int|
                0 <= i < 3 ==> (#[trigger] given[i]).0@ == preset_names()[i] && given[i].1.colors()
                    == preset_colors()[i] && given[i].1.wf(),
            forall|i: int| all.len() <= i < 3 ==> choice@ != #[trigger] preset_names()[i],
        decreases all.len(),
    {
        let ghost k = all.len() - 1;
        let (name, palette) = all.pop().unwrap();
        proof {
            assert(given[k].0@ == preset_names()[k]);
        }
        if text::same_text(name, choice) {
            proof {
                reveal_strlit("Catppuccin Mocha");
                reveal_strlit("Nord");
                reveal_strlit("Gruvbox Dark");
                assert("Catppuccin Mocha"@.len() != "Nord"@.len());
                assert("Catppuccin Mocha"@.len() != "Gruvbox Dark"@.len());
                assert("Nord"@.len() != "Gruvbox Dark"@.len());
            }
            return palette;
        }
    }
    proof {
        assert(preset_names()[1] == "Nord"@);
        assert(preset_names()[2] == "Gruvbox Dark"@);
    }
    Palette::default()
}

// ---------------------------------------------------------------------------
// Laws

/// A persisted choice is read back as it was: a configuration that persists a
/// choice stands for that choice.
pub proof fn choice_survives_restart(config: Config, choice: Seq<char>)
    requires
        persists(config, choice),
    ensures
        chosen(Some(config)) == choice,
{
}

/// Choosing a preset by its name gives that preset's colors, whatever the palette
/// file holds.
pub proof fn preset_is_found_by_name(i: int, palette: Palette, custom: Option<Palette>)
    requires
        0 <= i < preset_names().len(),
        is_choice(palette, preset_names()[i], custom),
    ensures
        palette.colors() == preset_colors()[i],
{
    reveal_strlit("custom");
    reveal_strlit("Catppuccin Mocha");
    reveal_strlit("Nord");
    reveal_strlit("Gruvbox Dark");
    assert("custom"@.len() == 6 && "Catppuccin Mocha"@.len() == 16);
    assert("Nord"@.len() == 4 && "Gruvbox Dark"@.len() == 12);
}

/// Without a palette file, or with a broken one, the custom choice falls back to
/// the default colors, and so does a choice that names nothing.
pub proof fn choice_falls_back_to_default(
    palette: Palette,
    choice: Seq<char>,
    custom: Option<Palette>,
)
    requires
        is_choice(palette, choice, custom),
        choice == "custom"@ ==> (custom matches Some(p) ==> !p.wf()),
        choice == "custom"@ || !preset_names().contains(choice),
    ensures
        palette.colors() == mocha_colors(),
{
    assert(preset_names()[1] == "Nord"@ && preset_names()[2] == "Gruvbox Dark"@);
}

/// The character of a hexadecimal digit.
pub open spec fn hex_char(d: int) -> char {
    if d < 10 {
        (d + '0' as int) as char
    } else {
        (d - 10 + 'a' as int) as char
    }
}

/// A color written as `#` and six hexadecimal digits: red, green, blue.
pub open spec fn color_text(c: Color) -> Seq<char> {
    seq![
        '#',
        hex_char(c.r as int / 16),
        hex_char(c.r as int % 16),
        hex_char(c.g as int / 16),
        hex_char(c.g as int % 16),
        hex_char(c.b as int / 16),
        hex_char(c.b as int % 16),
    ]
}

/// Every color can be written, and reads back as the color it is.
pub proof fn a_written_color_reads_back(c: Color)
    ensures
        is_color_text(color_text(c)),
        color_of(color_text(c)) == c,
{
    let s = color_text(c);
    lemma_hex_char(c.r as int / 16);
    lemma_hex_char(c.r as int % 16);
    lemma_hex_char(c.g as int / 16);
    lemma_hex_char(c.g as int % 16);
    lemma_hex_char(c.b as int / 16);
    lemma_hex_char(c.b as int % 16);
    lemma_plain_color(s);
    lemma_plain_color_value(s);
}

proof fn lemma_hex_char(d: int)
    requires
        0 <= d < 16,
    ensures
        '0' <= hex_char(d) <= 'f',
        hex_digit(hex_char(d) as u8) == Some(d),
{
}

/// The color that `#` and six ASCII characters name.
proof fn lemma_plain_color_value(s: Seq<char>)
    requires
        s.len() == 7,
        s[0] == '#',
        s[1] != '#',
        vstd::utf8::is_ascii_chars(s),
    ensures
        color_of(s) == (Color {
            r: hex_pair(s[1] as u8, s[2] as u8) as u8,
            g: hex_pair(s[3] as u8, s[4] as u8) as u8,
            b: hex_pair(s[5] as u8, s[6] as u8) as u8,
        }),
{
    vstd::utf8::is_ascii_chars_encode_utf8(s);
    let bytes = vstd::utf8::encode_utf8(s);
    assert(bytes[0] == 0x23 && bytes[1] == s[1] as u8);
    assert(after_hashes(bytes) == after_hashes(bytes.drop_first()));
    assert(after_hashes(bytes.drop_first()) == bytes.drop_first());
    assert forall|i: int| 1 <= i < 7 implies bytes.drop_first()[i - 1] == #[trigger] s[i] as u8 by {
        assert(bytes[i] == s[i] as u8);
    }
}

/// Capital digits mean the same as small ones; digits count from zero to fifteen.
pub proof fn hexadecimal_digits_count_up(d: u8)
    ensures
        '0' as u8 <= d <= '9' as u8 ==> hex_digit(d) == Some(d - '0' as u8),
        'a' as u8 <= d <= 'f' as u8 ==> hex_digit(d) == Some(d - 'a' as u8 + 10),
        'A' as u8 <= d <= 'F' as u8 ==> hex_digit(d) == hex_digit((d + ('a' as u8 - 'A' as u8)) as u8),
{
}

/// A `#` in front of a text does not change the color it names, nor whether it names one.
pub proof fn a_hash_in_front_does_not_matter(s: Seq<char>)
    ensures
        is_color_text(seq!['#'] + s) == is_color_text(s),
        color_of(seq!['#'] + s) == color_of(s),
{
    let with = seq!['#'] + s;
    let bytes = vstd::utf8::encode_utf8(with);
    assert(with.drop_first() =~= s);
    assert(with[0] as u32 == 0x23u32);
    vstd::utf8::is_ascii_chars_encode_utf8(seq!['#']);
    assert(seq!['#'].drop_first() =~= Seq::<char>::empty());
    assert(vstd::utf8::encode_utf8(seq!['#']) =~= vstd::utf8::encode_scalar(0x23u32));
    assert(seq!['#'][0] as u8 == 0x23);
    assert(bytes =~= seq![0x23u8] + vstd::utf8::encode_utf8(s));
    assert(bytes.drop_first() =~= vstd::utf8::encode_utf8(s));
}

/// A text that names a color has three pairs of bytes at least; one with fewer names
/// none.
pub proof fn a_short_text_names_no_color(s: Seq<char>)
    requires
        s.len() > 0 ==> s[0] != '#',
        vstd::utf8::is_ascii_chars(s),
    ensures
        is_color_text(s) <==> s.len() >= 6,
{
    vstd::utf8::is_ascii_chars_encode_utf8(s);
    let bytes = vstd::utf8::encode_utf8(s);
    assert forall|i: int| 0 <= i < bytes.len() implies bytes[i] < 0x80 by {
        assert(bytes[i] == s[i] as u8);
    }
    if s.len() > 0 {
        assert(bytes[0] == s[0] as u8);
    }
    assert(after_hashes(bytes) == bytes);
}

/// The colors of a palette are its ten texts, each one its own: two palettes with the
/// same colors have the same text everywhere.
pub proof fn colors_tell_palettes_apart(p: Palette, q: Palette)
    requires
        p.colors() == q.colors(),
    ensures
        p.background@ == q.background@ && p.surface@ == q.surface@ && p.surface_alt@
            == q.surface_alt@,
        p.text@ == q.text@ && p.text_muted@ == q.text_muted@,
        p.accent@ == q.accent@ && p.accent_text@ == q.accent_text@,
        p.danger@ == q.danger@ && p.success@ == q.success@ && p.border@ == q.border@,
        p.colors().len() == 10 && p.colors()[0] == p.background@ && p.colors()[3] == p.text@,
{
    let a = p.colors();
    let b = q.colors();
    assert(a[0] == b[0] && a[1] == b[1] && a[2] == b[2] && a[3] == b[3] && a[4] == b[4]);
    assert(a[5] == b[5] && a[6] == b[6] && a[7] == b[7] && a[8] == b[8] && a[9] == b[9]);
}

/// A palette can be used exactly if each of its ten texts names a color.
pub proof fn a_palette_is_as_good_as_its_texts(p: Palette)
    ensures
        p.wf() <==> is_color_text(p.background@) && is_color_text(p.surface@) && is_color_text(
            p.surface_alt@,
        ) && is_color_text(p.text@) && is_color_text(p.text_muted@) && is_color_text(p.accent@)
            && is_color_text(p.accent_text@) && is_color_text(p.danger@) && is_color_text(
            p.success@,
        ) && is_color_text(p.border@),
{
}

/// The widgets have the palette's colors, each for its own purpose: what is written is in
/// the color of the text, on the color of the background, and so on; warnings are in the
/// accent color.
pub proof fn widgets_have_the_colors_of_the_palette(theme: WidgetTheme, palette: Palette)
    requires
        theme.wears(palette),
    ensures
        theme.text == color_of(palette.text@),
        theme.background == color_of(palette.background@),
        theme.primary == color_of(palette.accent@),
        theme.success == color_of(palette.success@),
        theme.danger == color_of(palette.danger@),
        theme.warning == color_of(palette.accent@),
        theme.name@ == "Mesh"@,
{
}

/// Palettes of different text color make different widget themes, and a text that stands
/// out from the background in the palette stands out in the widgets.
pub proof fn text_stands_out_as_in_the_palette(
    a: WidgetTheme,
    p: Palette,
    b: WidgetTheme,
    q: Palette,
)
    requires
        a.wears(p),
        b.wears(q),
    ensures
        color_of(p.text@) != color_of(q.text@) ==> a.text != b.text,
        color_of(p.background@) != color_of(q.background@) ==> a.background != b.background,
        color_of(p.accent@) != color_of(q.accent@) ==> a.primary != b.primary,
        color_of(p.danger@) != color_of(q.danger@) ==> a.danger != b.danger,
        color_of(p.success@) != color_of(q.success@) ==> a.success != b.success,
        color_of(p.text@) != color_of(p.background@) ==> a.text != a.background,
{
}

/// The palette file is used as it is where the choice is the custom one and each of its
/// texts names a color.
pub proof fn a_good_palette_file_is_used(palette: Palette, file: Palette)
    requires
        is_choice(palette, "custom"@, Some(file)),
        file.wf(),
    ensures
        palette == file,
{
}

/// Without a persisted choice the custom one counts, and every choice that is persisted
/// is the one that counts.
pub proof fn the_persisted_choice_counts(config: Config, choice: String)
    ensures
        chosen(None) == "custom"@,
        config.theme is None ==> chosen(Some(config)) == "custom"@,
        config.theme == Some(choice) ==> chosen(Some(config)) == choice@ && persists(
            config,
            choice@,
        ),
{
}

/// The presets go by different names, none of which means the palette file, and each has
/// its ten colors.
pub proof fn presets_go_by_their_names(i: int, j: int)
    requires
        0 <= i < j < preset_names().len(),
    ensures
        preset_names()[i] != preset_names()[j],
        preset_names()[i] != "custom"@ && preset_names()[j] != "custom"@,
        preset_colors().len() == preset_names().len(),
        preset_colors()[i].len() == 10 && preset_colors()[j].len() == 10,
{
    reveal_strlit("custom");
    reveal_strlit("Catppuccin Mocha");
    reveal_strlit("Nord");
    reveal_strlit("Gruvbox Dark");
    assert("custom"@.len() == 6 && "Catppuccin Mocha"@.len() == 16);
    assert("Nord"@.len() == 4 && "Gruvbox Dark"@.len() == 12);
}

/// Every preset can be read: its texts, muted or not, its accents, its warnings and its
/// confirmations differ from the background, and the text on an accent from the accent.
#[verifier::rlimit(30)]
pub proof fn presets_can_be_read(i: int, p: Palette)
    requires
        0 <= i < preset_colors().len(),
        p.colors() == preset_colors()[i],
    ensures
        color_of(p.text@) != color_of(p.background@),
        color_of(p.text_muted@) != color_of(p.background@),
        color_of(p.accent@) != color_of(p.background@),
        color_of(p.danger@) != color_of(p.background@),
        color_of(p.success@) != color_of(p.background@),
        color_of(p.accent_text@) != color_of(p.accent@),
{
    if i == 0 {
        let c = mocha_colors();
        assert(preset_colors()[i] == c);
        assert(c[0] == "#1e1e2e"@ && c[3] == "#cdd6f4"@ && c[4] == "#a6adc8"@ && c[5] == "#89b4fa"@);
        assert(c[6] == "#11111b"@ && c[7] == "#f38ba8"@ && c[8] == "#a6e3a1"@);
        lemma_colors_by_place(p, c);
        lemma_mocha_reds();
    } else if i == 1 {
        let c = nord_colors();
        assert(preset_colors()[i] == c);
        assert(c[0] == "#2e3440"@ && c[3] == "#eceff4"@ && c[4] == "#d8dee9"@ && c[5] == "#88c0d0"@);
        assert(c[6] == "#2e3440"@ && c[7] == "#bf616a"@ && c[8] == "#a3be8c"@);
        lemma_colors_by_place(p, c);
        lemma_nord_reds();
    } else {
        let c = gruvbox_colors();
        assert(preset_colors()[i] == c);
        assert(c[0] == "#282828"@ && c[3] == "#ebdbb2"@ && c[4] == "#bdae93"@ && c[5] == "#d79921"@);
        assert(c[6] == "#282828"@ && c[7] == "#cc241d"@ && c[8] == "#98971a"@);
        lemma_colors_by_place(p, c);
        lemma_gruvbox_reds();
    }
}

proof fn lemma_colors_by_place(p: Palette, c: Seq<Seq<char>>)
    requires
        p.colors() == c,
    ensures
        p.background@ == c[0] && p.text@ == c[3] && p.text_muted@ == c[4] && p.accent@ == c[5],
        p.accent_text@ == c[6] && p.danger@ == c[7] && p.success@ == c[8],
{
    let a = p.colors();
    assert(a[0] == c[0] && a[3] == c[3] && a[4] == c[4] && a[5] == c[5] && a[6] == c[6]);
    assert(a[7] == c[7] && a[8] == c[8]);
}

/// The red part of the color that `#` and six ASCII characters name.
proof fn lemma_red(s: Seq<char>)
    requires
        s.len() == 7,
        s[0] == '#',
        s[1] != '#',
        vstd::utf8::is_ascii_chars(s),
    ensures
        color_of(s).r == hex_pair(s[1] as u8, s[2] as u8) as u8,
{
    lemma_plain_color_value(s);
}

proof fn lemma_mocha_reds()
    ensures
        color_of("#1e1e2e"@).r == 0x1e,
        color_of("#cdd6f4"@).r == 0xcd,
        color_of("#a6adc8"@).r == 0xa6,
        color_of("#89b4fa"@).r == 0x89,
        color_of("#11111b"@).r == 0x11,
        color_of("#f38ba8"@).r == 0xf3,
        color_of("#a6e3a1"@).r == 0xa6,
{
    assert(color_of("#1e1e2e"@).r == 0x1e) by {
        reveal_strlit("#1e1e2e");
        lemma_red("#1e1e2e"@);
    }
    assert(color_of("#cdd6f4"@).r == 0xcd) by {
        reveal_strlit("#cdd6f4");
        lemma_red("#cdd6f4"@);
    }
    assert(color_of("#a6adc8"@).r == 0xa6) by {
        reveal_strlit("#a6adc8");
        lemma_red("#a6adc8"@);
    }
    assert(color_of("#89b4fa"@).r == 0x89) by {
        reveal_strlit("#89b4fa");
        lemma_red("#89b4fa"@);
    }
    assert(color_of("#11111b"@).r == 0x11) by {
        reveal_strlit("#11111b");
        lemma_red("#11111b"@);
    }
    assert(color_of("#f38ba8"@).r == 0xf3) by {
        reveal_strlit("#f38ba8");
        lemma_red("#f38ba8"@);
    }
    assert(color_of("#a6e3a1"@).r == 0xa6) by {
        reveal_strlit("#a6e3a1");
        lemma_red("#a6e3a1"@);
    }
}

proof fn lemma_nord_reds()
    ensures
        color_of("#2e3440"@).r == 0x2e,
        color_of("#eceff4"@).r == 0xec,
        color_of("#d8dee9"@).r == 0xd8,
        color_of("#88c0d0"@).r == 0x88,
        color_of("#bf616a"@).r == 0xbf,
        color_of("#a3be8c"@).r == 0xa3,
{
    assert(color_of("#2e3440"@).r == 0x2e) by {
        reveal_strlit("#2e3440");
        lemma_red("#2e3440"@);
    }
    assert(color_of("#eceff4"@).r == 0xec) by {
        reveal_strlit("#eceff4");
        lemma_red("#eceff4"@);
    }
    assert(color_of("#d8dee9"@).r == 0xd8) by {
        reveal_strlit("#d8dee9");
        lemma_red("#d8dee9"@);
    }
    assert(color_of("#88c0d0"@).r == 0x88) by {
        reveal_strlit("#88c0d0");
        lemma_red("#88c0d0"@);
    }
    assert(color_of("#bf616a"@).r == 0xbf) by {
        reveal_strlit("#bf616a");
        lemma_red("#bf616a"@);
    }
    assert(color_of("#a3be8c"@).r == 0xa3) by {
        reveal_strlit("#a3be8c");
        lemma_red("#a3be8c"@);
    }
}

proof fn lemma_gruvbox_reds()
    ensures
        color_of("#282828"@).r == 0x28,
        color_of("#ebdbb2"@).r == 0xeb,
        color_of("#bdae93"@).r == 0xbd,
        color_of("#d79921"@).r == 0xd7,
        color_of("#cc241d"@).r == 0xcc,
        color_of("#98971a"@).r == 0x98,
{
    assert(color_of("#282828"@).r == 0x28) by {
        reveal_strlit("#282828");
        lemma_red("#282828"@);
    }
    assert(color_of("#ebdbb2"@).r == 0xeb) by {
        reveal_strlit("#ebdbb2");
        lemma_red("#ebdbb2"@);
    }
    assert(color_of("#bdae93"@).r == 0xbd) by {
        reveal_strlit("#bdae93");
        lemma_red("#bdae93"@);
    }
    assert(color_of("#d79921"@).r == 0xd7) by {
        reveal_strlit("#d79921");
        lemma_red("#d79921"@);
    }
    assert(color_of("#cc241d"@).r == 0xcc) by {
        reveal_strlit("#cc241d");
        lemma_red("#cc241d"@);
    }
    assert(color_of("#98971a"@).r == 0x98) by {
        reveal_strlit("#98971a");
        lemma_red("#98971a"@);
    }
}

/// Catppuccin Mocha has its own colors, whatever the palette file holds.
pub proof fn catppuccin_mocha_looks_like_itself(p: Palette, custom: Option<Palette>)
    requires
        is_choice(p, "Catppuccin Mocha"@, custom),
    ensures
        p.background@ == "#1e1e2e"@ && p.surface@ == "#181825"@,
        p.surface_alt@ == "#313244"@ && p.text@ == "#cdd6f4"@,
        p.text_muted@ == "#a6adc8"@ && p.accent@ == "#89b4fa"@,
        p.accent_text@ == "#11111b"@ && p.danger@ == "#f38ba8"@,
        p.success@ == "#a6e3a1"@ && p.border@ == "#45475a"@,
{
    reveal_strlit("custom");
    reveal_strlit("Catppuccin Mocha");
    reveal_strlit("Nord");
    reveal_strlit("Gruvbox Dark");
    assert("custom"@.len() == 6 && "Catppuccin Mocha"@.len() == 16);
    assert("Nord"@.len() == 4 && "Gruvbox Dark"@.len() == 12);
    let c = mocha_colors();
    let a = p.colors();
    assert(a == c);
    assert(a[0] == c[0] && a[1] == c[1] && a[2] == c[2] && a[3] == c[3] && a[4] == c[4]);
    assert(a[5] == c[5] && a[6] == c[6] && a[7] == c[7] && a[8] == c[8] && a[9] == c[9]);
}

/// Nord has its own colors, whatever the palette file holds.
pub proof fn nord_looks_like_itself(p: Palette, custom: Option<Palette>)
    requires
        is_choice(p, "Nord"@, custom),
    ensures
        p.background@ == "#2e3440"@ && p.surface@ == "#3b4252"@,
        p.surface_alt@ == "#434c5e"@ && p.text@ == "#eceff4"@,
        p.text_muted@ == "#d8dee9"@ && p.accent@ == "#88c0d0"@,
        p.accent_text@ == "#2e3440"@ && p.danger@ == "#bf616a"@,
        p.success@ == "#a3be8c"@ && p.border@ == "#4c566a"@,
{
    reveal_strlit("custom");
    reveal_strlit("Catppuccin Mocha");
    reveal_strlit("Nord");
    reveal_strlit("Gruvbox Dark");
    assert("custom"@.len() == 6 && "Catppuccin Mocha"@.len() == 16);
    assert("Nord"@.len() == 4 && "Gruvbox Dark"@.len() == 12);
    let c = nord_colors();
    let a = p.colors();
    assert(a == c);
    assert(a[0] == c[0] && a[1] == c[1] && a[2] == c[2] && a[3] == c[3] && a[4] == c[4]);
    assert(a[5] == c[5] && a[6] == c[6] && a[7] == c[7] && a[8] == c[8] && a[9] == c[9]);
}

/// Gruvbox Dark has its own colors, whatever the palette file holds.
pub proof fn gruvbox_dark_looks_like_itself(p: Palette, custom: Option<Palette>)
    requires
        is_choice(p, "Gruvbox Dark"@, custom),
    ensures
        p.background@ == "#282828"@ && p.surface@ == "#3c3836"@,
        p.surface_alt@ == "#504945"@ && p.text@ == "#ebdbb2"@,
        p.text_muted@ == "#bdae93"@ && p.accent@ == "#d79921"@,
        p.accent_text@ == "#282828"@ && p.danger@ == "#cc241d"@,
        p.success@ == "#98971a"@ && p.border@ == "#665c54"@,
{
    reveal_strlit("custom");
    reveal_strlit("Catppuccin Mocha");
    reveal_strlit("Nord");
    reveal_strlit("Gruvbox Dark");
    assert("custom"@.len() == 6 && "Catppuccin Mocha"@.len() == 16);
    assert("Nord"@.len() == 4 && "Gruvbox Dark"@.len() == 12);
    let c = gruvbox_colors();
    let a = p.colors();
    assert(a == c);
    assert(a[0] == c[0] && a[1] == c[1] && a[2] == c[2] && a[3] == c[3] && a[4] == c[4]);
    assert(a[5] == c[5] && a[6] == c[6] && a[7] == c[7] && a[8] == c[8] && a[9] == c[9]);
}

/// The pairs of a color text lie between characters: none is cut in two where a pair starts
/// or ends.
pub proof fn pairs_lie_between_characters(s: Seq<char>, bytes: Seq<u8>)
    requires
        is_color_text(s),
        bytes == after_hashes(vstd::utf8::encode_utf8(s)),
    ensures
        bytes.len() >= 6,
        !vstd::utf8::is_continuation_byte(bytes[2]),
        !vstd::utf8::is_continuation_byte(bytes[4]),
        bytes.len() > 6 ==> !vstd::utf8::is_continuation_byte(bytes[6]),
{
}

} // verus!
