use std::sync::atomic::{AtomicU8, Ordering};
use vstd::prelude::*;

verus! {

/// The colour themes a user can cycle through.
#[derive(Debug, Clone, Copy, PartialEq, Eq, Structural)]
pub enum ThemeKind {
    Day,
    Night,
}

/// How many themes there are.
pub const THEME_COUNT: u8 = 2;

/// A terminal colour: the terminal's own default, or an RGB triple.
#[derive(Debug, Clone, Copy, PartialEq, Eq, Structural)]
pub enum Color {
    Reset,
    Rgb(u8, u8, u8),
}

/// The colours a theme paints with.
#[derive(Debug, Clone, Copy)]
pub struct Theme {
    pub bg: Color,
    pub fg: Color,
    pub primary: Color,
    pub secondary: Color,
    pub accent: Color,
    pub success: Color,
    pub warning: Color,
    pub danger: Color,
    pub dim: Color,
    pub border: Color,
    /// Latency gradient from low (green) to high (deep red).
    pub gradient: [Color; 6],
}

/// Healthy: emerald green, the same in every theme.
pub open spec fn semantic_success() -> Color {
    Color::Rgb(46, 204, 113)
}

/// High latency: sunflower yellow, the same in every theme.
pub open spec fn semantic_warning() -> Color {
    Color::Rgb(241, 196, 15)
}

/// Packet loss: alizarin red, the same in every theme.
pub open spec fn semantic_danger() -> Color {
    Color::Rgb(231, 76, 60)
}

/// The latency gradient shared by every theme: green, lime, yellow, orange, red, deep red.
pub open spec fn rtt_gradient() -> Seq<Color> {
    seq![
        Color::Rgb(46, 204, 113),
        Color::Rgb(130, 224, 80),
        Color::Rgb(241, 196, 15),
        Color::Rgb(230, 126, 34),
        Color::Rgb(231, 76, 60),
        Color::Rgb(192, 57, 43),
    ]
}

impl Theme {
    /// The colours that are the same in every theme.
    pub open spec fn has_semantic_colors(self) -> bool {
        &&& self.success == semantic_success()
        &&& self.warning == semantic_warning()
        &&& self.danger == semantic_danger()
        &&& self.gradient@ == rtt_gradient()
    }

    /// `self` is the palette of theme `kind`.
    pub open spec fn is_palette_of(self, kind: ThemeKind) -> bool {
        &&& self.has_semantic_colors()
        &&& match kind {
            ThemeKind::Day => {
                &&& self.bg == Color::Reset
                &&& self.fg == Color::Reset
                &&& self.primary == Color::Rgb(38, 139, 210)
                &&& self.secondary == Color::Rgb(42, 161, 152)
                &&& self.accent == Color::Rgb(108, 113, 196)
                &&& self.dim == Color::Rgb(147, 161, 161)
                &&& self.border == Color::Rgb(147, 161, 161)
            },
            ThemeKind::Night => {
                &&& self.bg == Color::Rgb(0, 0, 0)
                &&& self.fg == Color::Rgb(220, 220, 220)
                &&& self.primary == Color::Rgb(125, 207, 255)
                &&& self.secondary == Color::Rgb(122, 162, 247)
                &&& self.accent == Color::Rgb(187, 154, 247)
                &&& self.dim == Color::Rgb(120, 130, 160)
                &&& self.border == Color::Rgb(90, 100, 130)
            },
        }
    }
}

/// The latency gradient shared by every theme.
fn make_rtt_gradient() -> (r: [Color; 6])
    ensures
        r@ == rtt_gradient(),
{
    let r = [
        Color::Rgb(46, 204, 113),
        Color::Rgb(130, 224, 80),
        Color::Rgb(241, 196, 15),
        Color::Rgb(230, 126, 34),
        Color::Rgb(231, 76, 60),
        Color::Rgb(192, 57, 43),
    ];
    assert(r@ =~= rtt_gradient());
    r
}

impl ThemeKind {
    /// The byte that stands for a theme in a shared slot.
    pub open spec fn code(self) -> u8 {
        match self {
            ThemeKind::Day => 0,
            ThemeKind::Night => 1,
        }
    }

    /// The theme a byte stands for; unknown bytes fall back to the day theme.
    pub open spec fn of_code(v: u8) -> ThemeKind {
        if v == 1 {
            ThemeKind::Night
        } else {
            ThemeKind::Day
        }
    }

    /// The other theme.
    pub open spec fn successor(self) -> ThemeKind {
        match self {
            ThemeKind::Day => ThemeKind::Night,
            ThemeKind::Night => ThemeKind::Day,
        }
    }

    /// The lower-case name of a theme.
    pub open spec fn label(self) -> Seq<char> {
        match self {
            ThemeKind::Day => "day"@,
            ThemeKind::Night => "night"@,
        }
    }

    /// Decodes a theme from its byte; unknown bytes give the day theme.
    pub fn from_u8(v: u8) -> (r: ThemeKind)
        ensures
            r == ThemeKind::of_code(v),
    {
        match v {
            0 => ThemeKind::Day,
            1 => ThemeKind::Night,
            _ => ThemeKind::Day,
        }
    }

    /// Encodes a theme as its byte.
    pub fn to_u8(self) -> (r: u8)
        ensures
            r == self.code(),
    {
        match self {
            ThemeKind::Day => 0,
            ThemeKind::Night => 1,
        }
    }

    /// The next theme, found by decoding the following byte modulo the number of themes.
    pub fn next(self) -> (r: ThemeKind)
        ensures
            r == self.successor(),
            r == ThemeKind::of_code(((self.code() + 1) % (THEME_COUNT as int)) as u8),
    {
        let c = self.to_u8();
        ThemeKind::from_u8((c + 1) % THEME_COUNT)
    }

    /// The lower-case name of the theme.
    pub fn name(self) -> (r: &'static str)
        ensures
            r@ == self.label(),
    {
        match self {
            ThemeKind::Day => "day",
            ThemeKind::Night => "night",
        }
    }

    /// The colours of the theme.
    pub fn palette(self) -> (r: Theme)
        ensures
            r.is_palette_of(self),
    {
        let gradient = make_rtt_gradient();
        match self {
            ThemeKind::Day => Theme {
                bg: Color::Reset,
                fg: Color::Reset,
                primary: Color::Rgb(38, 139, 210),
                secondary: Color::Rgb(42, 161, 152),
                accent: Color::Rgb(108, 113, 196),
                dim: Color::Rgb(147, 161, 161),
                border: Color::Rgb(147, 161, 161),
                success: Color::Rgb(46, 204, 113),
                warning: Color::Rgb(241, 196, 15),
                danger: Color::Rgb(231, 76, 60),
                gradient,
            },
            ThemeKind::Night => Theme {
                bg: Color::Rgb(0, 0, 0),
                fg: Color::Rgb(220, 220, 220),
                primary: Color::Rgb(125, 207, 255),
                secondary: Color::Rgb(122, 162, 247),
                accent: Color::Rgb(187, 154, 247),
                dim: Color::Rgb(120, 130, 160),
                border: Color::Rgb(90, 100, 130),
                success: Color::Rgb(46, 204, 113),
                warning: Color::Rgb(241, 196, 15),
                danger: Color::Rgb(231, 76, 60),
                gradient,
            },
        }
    }
}

/// Reads the palette of the theme held in a shared slot.
///
/// The slot's byte is set by other threads and is not modelled, so all that is
/// known is that the result is the palette of some theme.
pub fn load_theme(slot: &AtomicU8) -> (r: Theme)
    ensures
        exists|k: ThemeKind| r.is_palette_of(k),
{
    let b = slot.load(Ordering::Relaxed);
    ThemeKind::from_u8(b).palette()
}

/// Reads the theme held in a shared slot: the theme its byte decodes to.
///
/// The slot's byte is not modelled, so no clause states which theme comes
/// back; `ThemeKind::from_u8` states the decoding.
pub fn load_theme_kind(slot: &AtomicU8) -> ThemeKind {
    let b = slot.load(Ordering::Relaxed);
    ThemeKind::from_u8(b)
}

/// Writes the byte of `kind` into a shared slot.
///
/// The slot's content is not modelled, so no clause states what it holds
/// afterwards; `ThemeKind::to_u8` states the byte written.
pub fn store_theme(slot: &AtomicU8, kind: ThemeKind) {
    let b = kind.to_u8();
    slot.store(b, Ordering::Relaxed);
}

/// Decoding the byte of a theme gives the theme back: what `store_theme`
/// writes, `load_theme_kind` reads as the same theme.
pub proof fn lemma_theme_code_roundtrip(k: ThemeKind)
    ensures
        ThemeKind::of_code(k.code()) == k,
{
}

/// Switching theme twice comes back to the starting theme, and once never does.
pub proof fn lemma_theme_cycle(k: ThemeKind)
    ensures
        k.successor().successor() == k,
        k.successor() != k,
{
}

/// The two themes differ only in their own colours: the status colours and the
/// latency gradient are the same in both.
pub proof fn lemma_semantic_colors_shared(a: Theme, b: Theme, ka: ThemeKind, kb: ThemeKind)
    requires
        a.is_palette_of(ka),
        b.is_palette_of(kb),
    ensures
        a.success == b.success,
        a.warning == b.warning,
        a.danger == b.danger,
        a.gradient@ == b.gradient@,
{
}

} // verus!
