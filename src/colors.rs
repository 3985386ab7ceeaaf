//! Terminal colors, themes, and their conversion to native pixel colors.

use embedded_graphics::pixelcolor as eg;
use vstd::prelude::*;

verus! {

/// A 24-bit color with one byte per channel.
#[derive(Clone, Copy, PartialEq, Eq, Structural, Debug)]
pub struct Rgb {
    pub r: u8,
    pub g: u8,
    pub b: u8,
}

pub open spec fn rgb(r: u8, g: u8, b: u8) -> Rgb {
    Rgb { r, g, b }
}

pub open spec fn black() -> Rgb {
    rgb(0, 0, 0)
}

pub open spec fn white() -> Rgb {
    rgb(255, 255, 255)
}

pub open spec fn red() -> Rgb {
    rgb(255, 0, 0)
}

impl Rgb {
    pub fn new(r: u8, g: u8, b: u8) -> (c: Rgb)
        ensures
            c == rgb(r, g, b),
    {
        Rgb { r, g, b }
    }
}

/// An abstract terminal color, as a cell of the grid carries it.
#[derive(Clone, Copy, PartialEq, Eq, Structural, Debug)]
pub enum Color {
    Reset,
    Black,
    Red,
    Green,
    Yellow,
    Blue,
    Magenta,
    Cyan,
    Gray,
    DarkGray,
    LightRed,
    LightGreen,
    LightYellow,
    LightBlue,
    LightMagenta,
    LightCyan,
    White,
    Rgb(u8, u8, u8),
    Indexed(u8),
}

/// The role a color plays in a cell.
#[derive(Clone, Copy, PartialEq, Eq, Structural, Debug)]
pub enum TermColorType {
    Foreground,
    Background,
}

/// Defines how terminal colors are mapped to concrete colors.
#[derive(Clone, Copy, PartialEq, Eq, Structural, Debug)]
pub struct ColorTheme {
    /// Default foreground color when `Color::Reset` is used.
    pub foreground: Rgb,
    /// Default background color when `Color::Reset` is used.
    pub background: Rgb,
    pub white: Rgb,
    pub black: Rgb,
    pub red: Rgb,
    pub green: Rgb,
    pub yellow: Rgb,
    pub blue: Rgb,
    pub magenta: Rgb,
    pub cyan: Rgb,
    pub light_red: Rgb,
    pub light_green: Rgb,
    pub light_yellow: Rgb,
    pub light_blue: Rgb,
    pub light_magenta: Rgb,
    pub light_cyan: Rgb,
    pub gray: Rgb,
    pub dark_gray: Rgb,
}

/// The ANSI palette: primaries at full intensity, bright variants with the
/// other channels at half intensity.
pub open spec fn ansi_theme() -> ColorTheme {
    ColorTheme {
        foreground: white(),
        background: black(),
        white: white(),
        black: black(),
        red: red(),
        green: rgb(0, 255, 0),
        yellow: rgb(255, 255, 0),
        blue: rgb(0, 0, 255),
        magenta: rgb(255, 0, 255),
        cyan: rgb(0, 255, 255),
        light_red: rgb(255, 127, 127),
        light_green: rgb(127, 255, 127),
        light_yellow: rgb(255, 255, 127),
        light_blue: rgb(127, 127, 255),
        light_magenta: rgb(255, 127, 255),
        light_cyan: rgb(127, 255, 255),
        gray: rgb(127, 127, 127),
        dark_gray: rgb(170, 170, 170),
    }
}

/// The concrete color a theme gives to a terminal color in a role.
pub open spec fn resolve_spec(theme: ColorTheme, color: Color, role: TermColorType) -> Rgb {
    match color {
        Color::Reset => match role {
            TermColorType::Foreground => theme.foreground,
            TermColorType::Background => theme.background,
        },
        Color::White => theme.white,
        Color::Black => theme.black,
        Color::Red => theme.red,
        Color::Green => theme.green,
        Color::Yellow => theme.yellow,
        Color::Blue => theme.blue,
        Color::Magenta => theme.magenta,
        Color::Cyan => theme.cyan,
        Color::LightRed => theme.light_red,
        Color::LightGreen => theme.light_green,
        Color::LightYellow => theme.light_yellow,
        Color::LightBlue => theme.light_blue,
        Color::LightMagenta => theme.light_magenta,
        Color::LightCyan => theme.light_cyan,
        Color::Gray => theme.gray,
        Color::DarkGray => theme.dark_gray,
        Color::Rgb(r, g, b) => rgb(r, g, b),
        Color::Indexed(_) => black(),
    }
}

impl Default for ColorTheme {
    fn default() -> (t: ColorTheme)
        ensures
            t == ansi_theme(),
    {
        ColorTheme::ansi()
    }
}

impl ColorTheme {
    /// ANSI color palette used by default.
    pub fn ansi() -> (t: ColorTheme)
        ensures
            t == ansi_theme(),
    {
        ColorTheme {
            foreground: Rgb::new(255, 255, 255),
            background: Rgb::new(0, 0, 0),
            white: Rgb::new(255, 255, 255),
            black: Rgb::new(0, 0, 0),
            red: Rgb::new(255, 0, 0),
            green: Rgb::new(0, 255, 0),
            yellow: Rgb::new(255, 255, 0),
            blue: Rgb::new(0, 0, 255),
            magenta: Rgb::new(255, 0, 255),
            cyan: Rgb::new(0, 255, 255),
            light_red: Rgb::new(255, 127, 127),
            light_green: Rgb::new(127, 255, 127),
            light_yellow: Rgb::new(255, 255, 127),
            light_blue: Rgb::new(127, 127, 255),
            light_magenta: Rgb::new(255, 127, 255),
            light_cyan: Rgb::new(127, 255, 255),
            gray: Rgb::new(127, 127, 127),
            dark_gray: Rgb::new(170, 170, 170),
        }
    }

    /// Tokyo Night: a dark theme with blue and purple tones. The bright
    /// variants repeat the base colors.
    pub fn tokyo_night() -> (t: ColorTheme)
        ensures
            t.foreground == rgb(0xa9, 0xb1, 0xd6),
            t.background == rgb(0x1a, 0x1b, 0x26),
            t.white == rgb(0xc0, 0xca, 0xf5),
            t.black == rgb(0x41, 0x48, 0x68),
            t.red == rgb(0xf7, 0x76, 0x8e),
            t.green == rgb(0x73, 0xda, 0xca),
            t.yellow == rgb(0xe0, 0xaf, 0x68),
            t.blue == rgb(0x7a, 0xa2, 0xf7),
            t.magenta == rgb(0xbb, 0x9a, 0xf7),
            t.cyan == rgb(0x7d, 0xcf, 0xff),
            t.light_red == t.red,
            t.light_green == t.green,
            t.light_yellow == t.yellow,
            t.light_blue == t.blue,
            t.light_magenta == t.magenta,
            t.light_cyan == t.cyan,
            t.gray == t.white,
            t.dark_gray == t.black,
    {
        ColorTheme {
            foreground: Rgb::new(0xa9, 0xb1, 0xd6),
            background: Rgb::new(0x1a, 0x1b, 0x26),
            white: Rgb::new(0xc0, 0xca, 0xf5),
            black: Rgb::new(0x41, 0x48, 0x68),
            red: Rgb::new(0xf7, 0x76, 0x8e),
            green: Rgb::new(0x73, 0xda, 0xca),
            yellow: Rgb::new(0xe0, 0xaf, 0x68),
            blue: Rgb::new(0x7a, 0xa2, 0xf7),
            magenta: Rgb::new(0xbb, 0x9a, 0xf7),
            cyan: Rgb::new(0x7d, 0xcf, 0xff),
            light_red: Rgb::new(0xf7, 0x76, 0x8e),
            light_green: Rgb::new(0x73, 0xda, 0xca),
            light_yellow: Rgb::new(0xe0, 0xaf, 0x68),
            light_blue: Rgb::new(0x7a, 0xa2, 0xf7),
            light_magenta: Rgb::new(0xbb, 0x9a, 0xf7),
            light_cyan: Rgb::new(0x7d, 0xcf, 0xff),
            gray: Rgb::new(0xc0, 0xca, 0xf5),
            dark_gray: Rgb::new(0x41, 0x48, 0x68),
        }
    }

    /// The concrete color of `color` in the role `color_type`.
    pub fn resolve(&self, color: Color, color_type: TermColorType) -> (c: Rgb)
        ensures
            c == resolve_spec(*self, color, color_type),
    {
        match color {
            Color::Reset => match color_type {
                TermColorType::Foreground => self.foreground,
                TermColorType::Background => self.background,
            },
            Color::White => self.white,
            Color::Black => self.black,
            Color::Red => self.red,
            Color::Green => self.green,
            Color::Yellow => self.yellow,
            Color::Blue => self.blue,
            Color::Magenta => self.magenta,
            Color::Cyan => self.cyan,
            Color::LightRed => self.light_red,
            Color::LightGreen => self.light_green,
            Color::LightYellow => self.light_yellow,
            Color::LightBlue => self.light_blue,
            Color::LightMagenta => self.light_magenta,
            Color::LightCyan => self.light_cyan,
            Color::Gray => self.gray,
            Color::DarkGray => self.dark_gray,
            Color::Rgb(r, g, b) => Rgb::new(r, g, b),
            Color::Indexed(_) => Rgb::new(0, 0, 0),
        }
    }
}

/// A terminal color together with its role and the theme that resolves it.
#[derive(Clone, Copy)]
pub struct TermColor<'a>(pub Color, pub TermColorType, pub &'a ColorTheme);

impl<'a> TermColor<'a> {
    pub fn new(color: Color, color_type: TermColorType, theme: &'a ColorTheme) -> (t: Self)
        ensures
            t.0 == color,
            t.1 == color_type,
            *t.2 == *theme,
    {
        TermColor(color, color_type, theme)
    }

    /// The theme-resolved 24-bit color.
    pub fn to_rgb888(&self) -> (c: Rgb)
        ensures
            c == resolve_spec(*self.2, self.0, self.1),
    {
        self.2.resolve(self.0, self.1)
    }
}

/// Halves one channel, rounding down.
pub open spec fn dim_channel(v: u8) -> u8 {
    (v / 2) as u8
}

/// Each channel halved, rounding down.
pub open spec fn dim_rgb(c: Rgb) -> Rgb {
    rgb(dim_channel(c.r), dim_channel(c.g), dim_channel(c.b))
}

/// Halves a single channel value by shifting it right by one bit.
pub fn dim_u8(v: u8) -> (r: u8)
    ensures
        r == dim_channel(v),
        r as int == v as int / 2,
{
    let r = v >> 1u8;
    assert(r == v / 2) by (bit_vector)
        requires
            r == v >> 1u8,
    ;
    r
}

/// A monochrome pixel: `Off` is dark, `On` is lit.
#[derive(Clone, Copy, PartialEq, Eq, Structural, Debug)]
pub enum BinaryColor {
    Off,
    On,
}

/// A pixel of a three-color (white, black, accent) e-paper panel.
#[derive(Clone, Copy, PartialEq, Eq, Structural, Debug)]
pub enum TriColor {
    White,
    Black,
    Red,
}

/// Brightness after ITU-R BT.601, in fixed point, rounded.
pub open spec fn luma(c: Rgb) -> int {
    (c.r as int * 77 + c.g as int * 150 + c.b as int * 29 + 128) / 256
}

/// The monochrome pixel of a 24-bit color: lit when its brightness is at
/// least half.
pub open spec fn binary_of_rgb(c: Rgb) -> BinaryColor {
    if luma(c) >= 128 {
        BinaryColor::On
    } else {
        BinaryColor::Off
    }
}

/// Relies on embedded-graphics' `From<Rgb888> for BinaryColor`: `On` exactly
/// when the BT.601 luma of the color is at least 128.
#[verifier::external_body]
fn binary_from_rgb(c: Rgb) -> (r: BinaryColor)
    ensures
        r == binary_of_rgb(c),
{
    match eg::BinaryColor::from(eg::Rgb888::new(c.r, c.g, c.b)) {
        eg::BinaryColor::Off => BinaryColor::Off,
        eg::BinaryColor::On => BinaryColor::On,
    }
}

/// A monochrome surface: exact black is off and exact white is on; any other
/// color is lit as a foreground and dark as a background.
pub open spec fn binary_themed(c: Rgb, role: TermColorType) -> BinaryColor {
    if c == black() {
        BinaryColor::Off
    } else if c == white() {
        BinaryColor::On
    } else {
        match role {
            TermColorType::Foreground => BinaryColor::On,
            TermColorType::Background => BinaryColor::Off,
        }
    }
}

/// A three-color surface: exact white,
/// black and red map to their entries; any other color is black as a
/// foreground and white as a background.
pub open spec fn tri_themed(c: Rgb, role: TermColorType) -> TriColor {
    if c == white() {
        TriColor::White
    } else if c == black() {
        TriColor::Black
    } else if c == red() {
        TriColor::Red
    } else {
        match role {
            TermColorType::Foreground => TriColor::Black,
            TermColorType::Background => TriColor::White,
        }
    }
}

impl<'a> TermColor<'a> {
    /// The pixel of a three-color (white, black, accent) panel.
    pub fn to_tri_color(&self) -> (t: TriColor)
        ensures
            t == tri_themed(resolve_spec(*self.2, self.0, self.1), self.1),
    {
        let c = self.to_rgb888();
        if c == Rgb::new(255, 255, 255) {
            TriColor::White
        } else if c == Rgb::new(0, 0, 0) {
            TriColor::Black
        } else if c == Rgb::new(255, 0, 0) {
            TriColor::Red
        } else {
            match self.1 {
                TermColorType::Foreground => TriColor::Black,
                TermColorType::Background => TriColor::White,
            }
        }
    }
}

/// A native pixel color that a themed terminal color converts to, and that
/// goes to and from 24-bit color.
pub trait FromThemedColor: Sized + Copy {
    /// The pixel that a terminal color in a role becomes under a theme.
    spec fn themed(color: Color, role: TermColorType, theme: ColorTheme) -> Self;

    /// The 24-bit color of the pixel.
    spec fn rgb_of(self) -> Rgb;

    /// The pixel nearest to a 24-bit color.
    spec fn of_rgb(c: Rgb) -> Self;

    fn from_term_color(color: &TermColor) -> (r: Self)
        ensures
            r == Self::themed(color.0, color.1, *color.2),
    ;

    fn to_rgb888(self) -> (r: Rgb)
        ensures
            r == self.rgb_of(),
    ;

    fn from_rgb888(c: Rgb) -> (r: Self)
        ensures
            r == Self::of_rgb(c),
    ;
}

impl FromThemedColor for Rgb {
    open spec fn themed(color: Color, role: TermColorType, theme: ColorTheme) -> Rgb {
        resolve_spec(theme, color, role)
    }

    open spec fn rgb_of(self) -> Rgb {
        self
    }

    open spec fn of_rgb(c: Rgb) -> Rgb {
        c
    }

    fn from_term_color(color: &TermColor) -> (r: Rgb) {
        color.to_rgb888()
    }

    fn to_rgb888(self) -> (r: Rgb) {
        self
    }

    fn from_rgb888(c: Rgb) -> (r: Rgb) {
        c
    }
}

impl FromThemedColor for BinaryColor {
    open spec fn themed(color: Color, role: TermColorType, theme: ColorTheme) -> BinaryColor {
        binary_themed(resolve_spec(theme, color, role), role)
    }

    open spec fn rgb_of(self) -> Rgb {
        match self {
            BinaryColor::Off => black(),
            BinaryColor::On => white(),
        }
    }

    open spec fn of_rgb(c: Rgb) -> BinaryColor {
        binary_of_rgb(c)
    }

    fn from_term_color(color: &TermColor) -> (r: BinaryColor) {
        let c = color.to_rgb888();
        if c == Rgb::new(0, 0, 0) {
            BinaryColor::Off
        } else if c == Rgb::new(255, 255, 255) {
            BinaryColor::On
        } else {
            match color.1 {
                TermColorType::Foreground => BinaryColor::On,
                TermColorType::Background => BinaryColor::Off,
            }
        }
    }

    fn to_rgb888(self) -> (r: Rgb) {
        match self {
            BinaryColor::Off => Rgb::new(0, 0, 0),
            BinaryColor::On => Rgb::new(255, 255, 255),
        }
    }

    fn from_rgb888(c: Rgb) -> (r: BinaryColor) {
        binary_from_rgb(c)
    }
}

/// A channel value moved between bit depths as embedded-graphics does it:
/// `round(value * to_max / from_max)` in 8.24 fixed point. It is exact for
/// channel values up to `from_max`.
pub open spec fn channel_conversion(value: u8, from_max: u8, to_max: u8) -> u8 {
    if from_max == to_max {
        value
    } else if from_max == 0 {
        0
    } else {
        let factor = (to_max as int * 0x1000000) / from_max as int;
        ((value as int * factor + 0x800000) / 0x1000000) as u8
    }
}

/// Moves a channel value from a depth whose largest value is `from_max` to
/// one whose largest value is `to_max`.
pub fn convert_channel(value: u8, from_max: u8, to_max: u8) -> (r: u8)
    ensures
        r == channel_conversion(value, from_max, to_max),
{
    if from_max == to_max {
        value
    } else if from_max == 0 {
        0
    } else {
        let factor: u64 = (to_max as u64 * 0x1000000) / from_max as u64;
        assert(value as u64 * factor <= 255 * (255 * 0x1000000)) by (nonlinear_arith)
            requires
                value <= 255,
                factor <= 255 * 0x1000000,
        ;
        ((value as u64 * factor + 0x800000) / 0x1000000) as u8
    }
}

/// An RGB pixel of reduced depth: `MR`, `MG` and `MB` are the largest values
/// of its red, green and blue channels.
#[derive(Clone, Copy, Debug, PartialEq, Eq)]
pub struct PackedRgb<const MR: u8, const MG: u8, const MB: u8> {
    pub r: u8,
    pub g: u8,
    pub b: u8,
}

/// 16-bit color: five bits of red and blue, six of green.
pub type Rgb565 = PackedRgb<31, 63, 31>;

/// 15-bit color: five bits per channel.
pub type Rgb555 = PackedRgb<31, 31, 31>;

/// 18-bit color: six bits per channel.
pub type Rgb666 = PackedRgb<63, 63, 63>;

impl<const MR: u8, const MG: u8, const MB: u8> FromThemedColor for PackedRgb<MR, MG, MB> {
    open spec fn themed(color: Color, role: TermColorType, theme: ColorTheme) -> Self {
        Self::of_rgb(resolve_spec(theme, color, role))
    }

    open spec fn rgb_of(self) -> Rgb {
        rgb(
            channel_conversion(self.r, MR, 255),
            channel_conversion(self.g, MG, 255),
            channel_conversion(self.b, MB, 255),
        )
    }

    open spec fn of_rgb(c: Rgb) -> Self {
        PackedRgb {
            r: channel_conversion(c.r, 255, MR),
            g: channel_conversion(c.g, 255, MG),
            b: channel_conversion(c.b, 255, MB),
        }
    }

    fn from_term_color(color: &TermColor) -> (r: Self) {
        Self::from_rgb888(color.to_rgb888())
    }

    fn to_rgb888(self) -> (r: Rgb) {
        Rgb::new(
            convert_channel(self.r, MR, 255),
            convert_channel(self.g, MG, 255),
            convert_channel(self.b, MB, 255),
        )
    }

    fn from_rgb888(c: Rgb) -> (r: Self) {
        PackedRgb {
            r: convert_channel(c.r, 255, MR),
            g: convert_channel(c.g, 255, MG),
            b: convert_channel(c.b, 255, MB),
        }
    }
}

/// The pixel with each channel of its 24-bit color halved.
pub open spec fn dim_spec<C: FromThemedColor>(color: C) -> C {
    C::of_rgb(dim_rgb(color.rgb_of()))
}

/// Dims a color by halving each channel of its 24-bit color.
pub fn dim_color<C: FromThemedColor>(color: C) -> (r: C)
    ensures
        r == dim_spec(color),
{
    let c = color.to_rgb888();
    C::from_rgb888(Rgb::new(dim_u8(c.r), dim_u8(c.g), dim_u8(c.b)))
}

/// `Reset` resolves to the theme's default foreground in the foreground role
/// and to its default background in the background role.
pub proof fn lemma_reset_resolves_to_defaults(theme: ColorTheme)
    ensures
        resolve_spec(theme, Color::Reset, TermColorType::Foreground) == theme.foreground,
        resolve_spec(theme, Color::Reset, TermColorType::Background) == theme.background,
        resolve_spec(ansi_theme(), Color::Reset, TermColorType::Foreground) == white(),
        resolve_spec(ansi_theme(), Color::Reset, TermColorType::Background) == black(),
{
}

/// Dimming halves each channel, rounding down, whatever role the color had.
pub proof fn lemma_dim_halves_channels(c: Rgb)
    ensures
        dim_spec(c) == rgb(c.r / 2, c.g / 2, c.b / 2),
{
}

/// On a monochrome surface pure black is off and pure white is on in either
/// role, and under the default theme `Reset` is on as a foreground and off as
/// a background.
pub proof fn lemma_binary_extremes(theme: ColorTheme, role: TermColorType)
    ensures
        BinaryColor::themed(Color::Rgb(0, 0, 0), role, theme) == BinaryColor::Off,
        BinaryColor::themed(Color::Rgb(255, 255, 255), role, theme) == BinaryColor::On,
        BinaryColor::themed(Color::Black, role, ansi_theme()) == BinaryColor::Off,
        BinaryColor::themed(Color::White, role, ansi_theme()) == BinaryColor::On,
        BinaryColor::themed(Color::Reset, TermColorType::Foreground, ansi_theme())
            == BinaryColor::On,
        BinaryColor::themed(Color::Reset, TermColorType::Background, ansi_theme())
            == BinaryColor::Off,
{
}

} // verus!
