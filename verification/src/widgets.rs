//! The pieces that the screens are made of.

use vstd::prelude::*;
use vstd::string::*;

use crate::text;
use crate::theme::Color;
use crate::theme::Palette;

verus! {

/// Which color of the palette a text has.
#[derive(Debug, Clone, Copy, PartialEq, Eq, Structural)]
pub enum Tone {
    /// Whatever the widget's own style says.
    Plain,
    Text,
    Muted,
    Accent,
    AccentText,
    Danger,
}

/// The palette's text for a tone's color.
pub open spec fn tone_text(palette: Palette, tone: Tone) -> Option<Seq<char>> {
    match tone {
        Tone::Plain => None,
        Tone::Text => Some(palette.text@),
        Tone::Muted => Some(palette.text_muted@),
        Tone::Accent => Some(palette.accent@),
        Tone::AccentText => Some(palette.accent_text@),
        Tone::Danger => Some(palette.danger@),
    }
}

impl Tone {
    /// The tone's color in a palette.
    pub fn color(self, palette: &Palette) -> (r: Option<Color>)
        requires
            palette.wf(),
        ensures
            r == match tone_text(*palette, self) {
                Some(hex) => Some(crate::theme::color_of(hex)),
                None => None,
            },
    {
        match self {
            Tone::Plain => None,
            Tone::Text => Some(palette.text()),
            Tone::Muted => Some(palette.text_muted()),
            Tone::Accent => Some(palette.accent()),
            Tone::AccentText => Some(palette.accent_text()),
            Tone::Danger => Some(palette.danger()),
        }
    }
}

/// A text on screen.
#[derive(Debug, PartialEq, Eq)]
pub struct Line {
    pub content: String,
    pub size: u16,
    pub tone: Tone,
}

impl Line {
    pub open spec fn shows(self, content: Seq<char>, size: int, tone: Tone) -> bool {
        self.content@ == content && self.size == size && self.tone == tone
    }

    pub fn new(content: String, size: u16, tone: Tone) -> (r: Self)
        ensures
            r.shows(content@, size as int, tone),
    {
        Line { content, size, tone }
    }

    pub(crate) fn of(content: &str, size: u16, tone: Tone) -> (r: Self)
        ensures
            r.shows(content@, size as int, tone),
    {
        Line { content: content.to_owned(), size, tone }
    }
}

/// `line` is there exactly where `content` is, and shows it.
pub open spec fn shows_option(
    line: Option<Line>,
    content: Option<String>,
    size: int,
    tone: Tone,
) -> bool {
    match (line, content) {
        (Some(line), Some(content)) => line.shows(content@, size, tone),
        (None, None) => true,
        _ => false,
    }
}

/// The line for a text that may be there.
pub(crate) fn line_option(content: &Option<String>, size: u16, tone: Tone) -> (r: Option<Line>)
    ensures
        shows_option(r, *content, size as int, tone),
{
    match content {
        Some(content) => Some(Line::of(content.as_str(), size, tone)),
        None => None,
    }
}

/// What the user asks for by pressing a button.
#[derive(Debug, Clone, PartialEq, Eq)]
pub enum Press {
    LoginSubmitted,
    RoomSelected(String),
    SendMessage,
    AcceptVerification,
    ConfirmVerification,
    CancelVerification,
    ToggleSettings,
    ThemeChosen(String),
    LogOut,
    PlaceCall,
    AcceptCall,
    HangUp,
    ToggleMute,
    ToggleDeafen,
    SetupBackup,
    RestoreBackup,
}

/// A button; one that cannot be pressed now asks for nothing.
#[derive(Debug, PartialEq, Eq)]
pub struct Control {
    pub label: String,
    pub press: Option<Press>,
}

impl Control {
    pub open spec fn offers(self, label: Seq<char>, press: Press) -> bool {
        self.label@ == label && self.press == Some(press)
    }

    /// Shows its label and cannot be pressed.
    pub open spec fn is_idle(self, label: Seq<char>) -> bool {
        self.label@ == label && self.press is None
    }

    pub(crate) fn of(label: &str, press: Press) -> (r: Self)
        ensures
            r.offers(label@, press),
    {
        Control { label: label.to_owned(), press: Some(press) }
    }

    pub(crate) fn idle(label: &str) -> (r: Self)
        ensures
            r.is_idle(label@),
    {
        Control { label: label.to_owned(), press: None }
    }
}

// ---------------------------------------------------------------------------
// Avatars

/// A default avatar: a colored circle with an initial.
#[derive(Debug, PartialEq, Eq)]
pub struct Avatar {
    pub initial: String,
    pub color: Color,
}

/// The initial of a name: its first letter or digit in upper case, or a question
/// mark where it has none.
pub open spec fn initial_of(name: Seq<char>) -> Seq<char>
    decreases name.len(),
{
    if name.len() == 0 {
        "?"@
    } else if text::is_alnum(name[0]) {
        text::upper_case(name[0])
    } else {
        initial_of(name.drop_first())
    }
}

/// The sum of some bytes.
pub open spec fn byte_sum(bytes: Seq<u8>) -> nat
    decreases bytes.len(),
{
    if bytes.len() == 0 {
        0
    } else {
        byte_sum(bytes.drop_last()) + bytes.last() as nat
    }
}

/// The colors of avatars.
pub open spec fn avatar_palette() -> Seq<Color> {
    seq![
        Color { r: 88, g: 101, b: 242 },
        Color { r: 87, g: 171, b: 111 },
        Color { r: 240, g: 171, b: 64 },
        Color { r: 237, g: 102, b: 105 },
        Color { r: 155, g: 120, b: 205 },
        Color { r: 64, g: 166, b: 214 },
    ]
}

/// The color of the avatar for a name: the colors in turn, by the sum of the
/// name's bytes.
pub open spec fn color_of_name(name: Seq<char>) -> Color {
    avatar_palette()[byte_sum(vstd::utf8::encode_utf8(name)) as int % 6]
}

/// Deterministic avatar color from a name.
pub fn avatar_color(name: &str) -> (r: Color)
    ensures
        r == color_of_name(name@),
{
    let bytes = name.as_bytes();
    let mut turn: usize = 0;
    let mut i: usize = 0;
    proof {
        assert(bytes@.take(0) =~= Seq::empty());
    }
    while i < bytes.len()
        invariant
            i <= bytes.len(),
            turn < 6,
            turn == byte_sum(bytes@.take(i as int)) as int % 6,
        decreases bytes.len() - i,
    {
        proof {
            assert(bytes@.take(i + 1).drop_last() =~= bytes@.take(i as int));
        }
        turn = (turn + bytes[i] as usize) % 6;
        i += 1;
    }
    proof {
        assert(bytes@.take(bytes@.len() as int) =~= bytes@);
    }
    match turn {
        0 => Color { r: 88, g: 101, b: 242 },
        1 => Color { r: 87, g: 171, b: 111 },
        2 => Color { r: 240, g: 171, b: 64 },
        3 => Color { r: 237, g: 102, b: 105 },
        4 => Color { r: 155, g: 120, b: 205 },
        _ => Color { r: 64, g: 166, b: 214 },
    }
}

fn initial(name: &str) -> (r: String)
    ensures
        r@ == initial_of(name@),
{
    let chars = text::chars_of(name);
    let mut i: usize = 0;
    proof {
        assert(chars@.skip(0) =~= chars@);
    }
    while i < chars.len()
        invariant
            i <= chars.len(),
            chars@ == name@,
            initial_of(chars@) == initial_of(chars@.skip(i as int)),
        decreases chars.len() - i,
    {
        proof {
            assert(chars@.skip(i as int)[0] == chars@[i as int]);
            assert(chars@.skip(i as int).drop_first() =~= chars@.skip(i + 1));
        }
        if text::char_is_alphanumeric(chars[i]) {
            return text::char_to_uppercase(chars[i]);
        }
        i += 1;
    }
    "?".to_owned()
}

impl Avatar {
    /// The avatar that stands for this name.
    pub open spec fn stands_for(self, name: Seq<char>) -> bool {
        self.initial@ == initial_of(name) && self.color == color_of_name(name)
    }
}

/// A default avatar: a colored circle with the first initial.
pub fn avatar(name: &str) -> (r: Avatar)
    ensures
        r.stands_for(name@),
{
    Avatar { initial: initial(name), color: avatar_color(name) }
}

// ---------------------------------------------------------------------------
// Laws

/// Every tone has the color that the palette has for it; a plain text has none of its
/// own. Widgets and texts agree on the colors they share.
pub proof fn a_tone_has_its_color(palette: Palette, theme: crate::theme::WidgetTheme)
    requires
        theme.wears(palette),
    ensures
        tone_text(palette, Tone::Plain) is None,
        tone_text(palette, Tone::Text) == Some(palette.text@),
        tone_text(palette, Tone::Muted) == Some(palette.text_muted@),
        tone_text(palette, Tone::Accent) == Some(palette.accent@),
        tone_text(palette, Tone::AccentText) == Some(palette.accent_text@),
        tone_text(palette, Tone::Danger) == Some(palette.danger@),
        tone_text(palette, Tone::Text) matches Some(hex) && crate::theme::color_of(hex)
            == theme.text,
        tone_text(palette, Tone::Accent) matches Some(hex) && crate::theme::color_of(hex)
            == theme.primary,
        tone_text(palette, Tone::Danger) matches Some(hex) && crate::theme::color_of(hex)
            == theme.danger,
{
}

/// A line says exactly what it is to show, in the size and tone it is to have.
pub proof fn a_line_says_what_it_shows(
    line: Line,
    content: Seq<char>,
    size: int,
    tone: Tone,
    maybe: Option<Line>,
    said: Option<String>,
)
    requires
        line.shows(content, size, tone),
        shows_option(maybe, said, size, tone),
    ensures
        line.content@ == content && line.size == size && line.tone == tone,
        maybe is Some <==> said is Some,
        maybe matches Some(shown) ==> text::opt_text(said) == Some(shown.content@) && shown.size
            == size && shown.tone == tone,
{
}

/// A button bears its label and asks for what it offers; an idle one asks for nothing.
pub proof fn a_button_asks_for_what_it_offers(
    button: Control,
    idle: Control,
    label: Seq<char>,
    press: Press,
)
    requires
        button.offers(label, press),
        idle.is_idle(label),
    ensures
        button.label@ == label && button.press == Some(press),
        idle.label@ == label && idle.press is None,
{
}

/// The initial of a name is its first letter or digit, in upper case.
pub proof fn the_initial_is_the_first_letter_or_digit(name: Seq<char>, i: int)
    requires
        0 <= i < name.len(),
        text::is_alnum(name[i]),
        forall|k: int| 0 <= k < i ==> !text::is_alnum(#[trigger] name[k]),
    ensures
        initial_of(name) == text::upper_case(name[i]),
    decreases i,
{
    if i > 0 {
        let rest = name.drop_first();
        assert(!text::is_alnum(name[0]));
        assert forall|k: int| 0 <= k < i - 1 implies !text::is_alnum(#[trigger] rest[k]) by {
            assert(rest[k] == name[k + 1]);
        }
        the_initial_is_the_first_letter_or_digit(rest, i - 1);
    }
}

/// A name without any letter or digit has a question mark for its initial.
pub proof fn a_name_without_letters_has_a_question_mark(name: Seq<char>)
    requires
        forall|k: int| 0 <= k < name.len() ==> !text::is_alnum(#[trigger] name[k]),
    ensures
        initial_of(name) == "?"@,
    decreases name.len(),
{
    if name.len() > 0 {
        let rest = name.drop_first();
        assert(!text::is_alnum(name[0]));
        assert forall|k: int| 0 <= k < rest.len() implies !text::is_alnum(#[trigger] rest[k]) by {
            assert(rest[k] == name[k + 1]);
        }
        a_name_without_letters_has_a_question_mark(rest);
    }
}

/// The bytes of a text add up, whatever parts it is taken in.
pub proof fn bytes_add_up(a: Seq<u8>, b: Seq<u8>, byte: u8)
    ensures
        byte_sum(a + b) == byte_sum(a) + byte_sum(b),
        byte_sum(seq![byte]) == byte,
        byte_sum(Seq::<u8>::empty()) == 0,
    decreases b.len(),
{
    if b.len() == 0 {
        assert(a + b =~= a);
    } else {
        bytes_add_up(a, b.drop_last(), byte);
        assert((a + b).drop_last() =~= a + b.drop_last());
        assert((a + b).last() == b.last());
    }
    let one = seq![byte];
    assert(one.drop_last() =~= Seq::empty());
    assert(one.last() == byte);
    assert(byte_sum(one.drop_last()) == 0);
}

/// Two names have avatars of one color exactly if the sums of their bytes leave the same
/// rest by the number of colors: the six colors take turns.
pub proof fn avatar_colors_take_turns(a: Seq<char>, b: Seq<char>)
    ensures
        color_of_name(a) == color_of_name(b) <==> byte_sum(vstd::utf8::encode_utf8(a)) % 6
            == byte_sum(vstd::utf8::encode_utf8(b)) % 6,
        avatar_palette().len() == 6,
        avatar_palette().contains(color_of_name(a)),
{
    let colors = avatar_palette();
    let i = byte_sum(vstd::utf8::encode_utf8(a)) as int % 6;
    let j = byte_sum(vstd::utf8::encode_utf8(b)) as int % 6;
    assert(colors[i] == color_of_name(a));
    assert(colors[0].r == 88 && colors[1].r == 87 && colors[2].r == 240);
    assert(colors[3].r == 237 && colors[4].r == 155 && colors[5].r == 64);
    assert(colors[i] == colors[j] ==> i == j);
}

/// An avatar bears the initial of the name it stands for, in the color for that name.
pub proof fn an_avatar_stands_for_its_name(avatar: Avatar, name: Seq<char>)
    requires
        avatar.stands_for(name),
    ensures
        avatar.initial@ == initial_of(name),
        avatar.color == color_of_name(name),
{
}

} // verus!
