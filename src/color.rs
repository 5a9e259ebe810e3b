use vstd::prelude::*;

verus! {

/// Number of entries in the palette.
pub const PALETTE_SIZE: u32 = 11;

/// The fixed palette a logo is tinted with.
#[derive(Debug, Clone, Copy, PartialEq, Eq, Hash, Structural)]
pub enum Color {
    YellowishBronze,
    Teal,
    Aqua,
    Lime,
    Purple,
    Gray,
    White,
    Red,
    Maroon,
    Green,
    Blue,
}

/// The palette entry at position `i`, in palette order.
pub open spec fn palette(i: int) -> Color {
    if i == 0 {
        Color::YellowishBronze
    } else if i == 1 {
        Color::Teal
    } else if i == 2 {
        Color::Aqua
    } else if i == 3 {
        Color::Lime
    } else if i == 4 {
        Color::Purple
    } else if i == 5 {
        Color::Gray
    } else if i == 6 {
        Color::White
    } else if i == 7 {
        Color::Red
    } else if i == 8 {
        Color::Maroon
    } else if i == 9 {
        Color::Green
    } else {
        Color::Blue
    }
}

/// The CSS colour value that tints a logo of colour `c`.
pub open spec fn web_color(c: Color) -> Seq<char> {
    match c {
        Color::YellowishBronze => "#666c2b"@,
        Color::Teal => "teal"@,
        Color::Aqua => "aqua"@,
        Color::Lime => "lime"@,
        Color::Purple => "purple"@,
        Color::Gray => "gray"@,
        Color::White => "white"@,
        Color::Red => "red"@,
        Color::Maroon => "maroon"@,
        Color::Green => "green"@,
        Color::Blue => "blue"@,
    }
}

/// The palette entry at position `i`; every colour appears exactly once.
pub fn color_at(i: u32) -> (c: Color)
    requires
        i < PALETTE_SIZE,
    ensures
        c == palette(i as int),
{
    if i == 0 {
        Color::YellowishBronze
    } else if i == 1 {
        Color::Teal
    } else if i == 2 {
        Color::Aqua
    } else if i == 3 {
        Color::Lime
    } else if i == 4 {
        Color::Purple
    } else if i == 5 {
        Color::Gray
    } else if i == 6 {
        Color::White
    } else if i == 7 {
        Color::Red
    } else if i == 8 {
        Color::Maroon
    } else if i == 9 {
        Color::Green
    } else {
        Color::Blue
    }
}

impl Color {
    /// The CSS colour value used to tint the logo image.
    pub fn as_web_color(&self) -> (r: &'static str)
        ensures
            r@ == web_color(*self),
    {
        match self {
            Color::YellowishBronze => "#666c2b",
            Color::Teal => "teal",
            Color::Aqua => "aqua",
            Color::Lime => "lime",
            Color::Purple => "purple",
            Color::Gray => "gray",
            Color::White => "white",
            Color::Red => "red",
            Color::Maroon => "maroon",
            Color::Green => "green",
            Color::Blue => "blue",
        }
    }
}

/// Every colour stands at some palette position.
pub proof fn palette_covers(c: Color)
    ensures
        exists|i: int| 0 <= i < PALETTE_SIZE && palette(i) == c,
{
    let i: int = match c {
        Color::YellowishBronze => 0,
        Color::Teal => 1,
        Color::Aqua => 2,
        Color::Lime => 3,
        Color::Purple => 4,
        Color::Gray => 5,
        Color::White => 6,
        Color::Red => 7,
        Color::Maroon => 8,
        Color::Green => 9,
        Color::Blue => 10,
    };
    assert(palette(i) == c);
}

} // verus!
