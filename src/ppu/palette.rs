use vstd::prelude::*;

verus! {

/// The four shades of the monochrome display.
#[derive(Debug, Clone, Copy, PartialEq, Eq, Structural)]
pub enum Color {
    White,
    LightGrey,
    DarkGrey,
    Black,
}

/// The shade with number `v` (0 to 3; larger values are Black).
pub open spec fn shade(v: u8) -> Color {
    if v == 0 {
        Color::White
    } else if v == 1 {
        Color::LightGrey
    } else if v == 2 {
        Color::DarkGrey
    } else {
        Color::Black
    }
}

/// The number of a shade.
pub open spec fn shade_number(c: Color) -> u8 {
    match c {
        Color::White => 0,
        Color::LightGrey => 1,
        Color::DarkGrey => 2,
        Color::Black => 3,
    }
}

impl Color {
    pub fn from_number(value: u8) -> (r: Color)
        ensures
            r == shade(value),
    {
        if value == 0 {
            Color::White
        } else if value == 1 {
            Color::LightGrey
        } else if value == 2 {
            Color::DarkGrey
        } else {
            Color::Black
        }
    }

    pub fn number(&self) -> (r: u8)
        ensures
            r == shade_number(*self),
    {
        match self {
            Color::White => 0,
            Color::LightGrey => 1,
            Color::DarkGrey => 2,
            Color::Black => 3,
        }
    }

    /// The red, green and blue intensities of the shade.
    pub fn rgb(&self) -> (r: (u8, u8, u8))
        ensures
            r == (match *self {
                Color::White => (255u8, 255u8, 255u8),
                Color::LightGrey => (192u8, 192u8, 192u8),
                Color::DarkGrey => (96u8, 96u8, 96u8),
                Color::Black => (0u8, 0u8, 0u8),
            }),
    {
        match self {
            Color::White => (255, 255, 255),
            Color::LightGrey => (192, 192, 192),
            Color::DarkGrey => (96, 96, 96),
            Color::Black => (0, 0, 0),
        }
    }
}

/// The two bits of `value` that give the shade of color number `i` (0 to 3).
pub open spec fn field(value: u8, i: int) -> u8 {
    if i == 0 {
        value % 4
    } else if i == 1 {
        value / 4 % 4
    } else if i == 2 {
        value / 16 % 4
    } else {
        value / 64 % 4
    }
}

/// A palette register: a shade for each of the four color numbers.
#[derive(Debug, Clone, Copy, PartialEq, Eq)]
pub struct Palette {
    data: [Color; 4],
}

impl View for Palette {
    type V = Seq<Color>;

    closed spec fn view(&self) -> Seq<Color> {
        self.data@
    }
}

/// The shades a palette register byte selects.
pub open spec fn shades_of(value: u8) -> Seq<Color> {
    seq![shade(field(value, 0)), shade(field(value, 1)), shade(field(value, 2)), shade(field(value, 3))]
}

/// The register byte that selects the given four shades.
pub open spec fn register_of(s: Seq<Color>) -> u8 {
    (shade_number(s[0]) as int + 4 * shade_number(s[1]) as int + 16 * shade_number(s[2]) as int + 64
        * shade_number(s[3]) as int) as u8
}

fn shades(value: u8) -> (r: [Color; 4])
    ensures
        r@ == shades_of(value),
{
    let r = [
        Color::from_number(value % 4),
        Color::from_number(value / 4 % 4),
        Color::from_number(value / 16 % 4),
        Color::from_number(value / 64 % 4),
    ];
    assert(r@ =~= shades_of(value));
    r
}

impl Palette {
    pub fn new(value: u8) -> (r: Self)
        ensures
            r@ == shades_of(value),
    {
        Palette { data: shades(value) }
    }

    pub fn pixel_color(&self, color: u8) -> (r: Color)
        requires
            color < 4,
        ensures
            self@.len() == 4,
            r == self@[color as int],
    {
        self.data[color as usize]
    }

    pub fn write(&mut self, value: u8)
        ensures
            final(self)@ == shades_of(value),
    {
        self.data = shades(value);
    }

    pub fn read(&self) -> (r: u8)
        ensures
            r == register_of(self@),
    {
        let d0 = self.data[0].number();
        let d1 = self.data[1].number();
        let d2 = self.data[2].number();
        let d3 = self.data[3].number();
        d0 + 4 * d1 + 16 * d2 + 64 * d3
    }
}

/// Reading a palette register back gives the byte written.
pub proof fn lemma_palette_round_trip(value: u8)
    ensures
        register_of(shades_of(value)) == value,
{
    assert(value == value % 4 + 4 * (value / 4 % 4) + 16 * (value / 16 % 4) + 64 * (value / 64 % 4))
        by (bit_vector);
    assert(value % 4 < 4 && value / 4 % 4 < 4 && value / 16 % 4 < 4 && value / 64 % 4 < 4);
    let s = shades_of(value);
    assert(shade_number(s[0]) == value % 4);
    assert(shade_number(s[1]) == value / 4 % 4);
    assert(shade_number(s[2]) == value / 16 % 4);
    assert(shade_number(s[3]) == value / 64 % 4);
}

/// The color number of pixel `pixel_index` of a tile row: bit `pixel_index` of
/// `byte1` is the low bit, the same bit of `byte2` the high bit.
pub fn color_index(byte1: u8, byte2: u8, pixel_index: u8) -> (r: u8)
    requires
        pixel_index < 8,
    ensures
        r == ((byte2 >> pixel_index) & 1) * 2 + ((byte1 >> pixel_index) & 1),
        r < 4,
{
    let lsb = (byte1 >> pixel_index) & 1;
    let msb = (byte2 >> pixel_index) & 1;
    assert(lsb <= 1 && msb <= 1) by (bit_vector)
        requires
            lsb == (byte1 >> pixel_index) & 1,
            msb == (byte2 >> pixel_index) & 1,
    ;
    msb * 2 + lsb
}

} // verus!
