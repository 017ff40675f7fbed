//! Rendering cards as text: a glyph per shape and shade, a letter per color,
//! and the count written as its rank.

use crate::card::{spec_properties_of, Card, CardProperties, Color, Count, Shade, Shape};
use vstd::prelude::*;
use vstd::string::StringExecFns;

verus! {

/// The glyph drawn for a shape filled with a shade.
pub open spec fn spec_symbol(shape: Shape, shade: Shade) -> Seq<char> {
    match shape {
        Shape::Diamond => match shade {
            Shade::Solid => "\u{25C6}"@,
            Shade::Striped => "\u{2B16}"@,
            Shade::Open => "\u{25C7}"@,
        },
        Shape::Oval => match shade {
            Shade::Solid => "\u{25CF}"@,
            Shade::Striped => "\u{25D0}"@,
            Shade::Open => "\u{25CB}"@,
        },
        Shape::Squiggle => match shade {
            Shade::Solid => "\u{29D3}"@,
            Shade::Striped => "\u{29D1}"@,
            Shade::Open => "\u{22C8}"@,
        },
    }
}

/// The digit written for a count: its rank.
pub open spec fn spec_count_digit(count: Count) -> Seq<char> {
    match count {
        Count::One => "0"@,
        Count::Two => "1"@,
        Count::Three => "2"@,
    }
}

/// The letter written for a color.
pub open spec fn spec_color_letter(color: Color) -> Seq<char> {
    match color {
        Color::Red => "R"@,
        Color::Green => "G"@,
        Color::Purple => "P"@,
    }
}

/// A card's text tile: the count digit, the color letter and the glyph,
/// between bars.
pub open spec fn spec_card_text(properties: CardProperties) -> Seq<char> {
    "| "@ + spec_count_digit(properties.count) + spec_color_letter(properties.color) + spec_symbol(
        properties.shape,
        properties.shade,
    ) + " |"@
}

/// The row of glyphs drawn on a card: the symbol as often as the count says,
/// padded to a fixed width.
pub open spec fn spec_glyph_row(properties: CardProperties) -> Seq<char> {
    let symbol = spec_symbol(properties.shape, properties.shade);
    match properties.count {
        Count::One => symbol + "    "@,
        Count::Two => symbol + " "@ + symbol + "  "@,
        Count::Three => symbol + " "@ + symbol + " "@ + symbol,
    }
}

impl CardProperties {
    /// The glyph for this card's shape and shade.
    pub fn symbol(&self) -> (symbol: &'static str)
        ensures
            symbol@ == spec_symbol(self.shape, self.shade),
    {
        match self.shape {
            Shape::Diamond => match self.shade {
                Shade::Solid => "\u{25C6}",
                Shade::Striped => "\u{2B16}",
                Shade::Open => "\u{25C7}",
            },
            Shape::Oval => match self.shade {
                Shade::Solid => "\u{25CF}",
                Shade::Striped => "\u{25D0}",
                Shade::Open => "\u{25CB}",
            },
            Shape::Squiggle => match self.shade {
                Shade::Solid => "\u{29D3}",
                Shade::Striped => "\u{29D1}",
                Shade::Open => "\u{22C8}",
            },
        }
    }

    /// Render the card as its text tile.
    pub fn text(&self) -> (text: String)
        ensures
            text@ == spec_card_text(*self),
    {
        let mut text = String::new();
        text.append("| ");
        text.append(
            match self.count {
                Count::One => "0",
                Count::Two => "1",
                Count::Three => "2",
            },
        );
        text.append(
            match self.color {
                Color::Red => "R",
                Color::Green => "G",
                Color::Purple => "P",
            },
        );
        text.append(self.symbol());
        text.append(" |");
        proof {
            assert(text@ =~= spec_card_text(*self));
        }
        text
    }

    /// Render the row of glyphs drawn on the card.
    pub fn glyph_row(&self) -> (row: String)
        ensures
            row@ == spec_glyph_row(*self),
    {
        let symbol = self.symbol();
        let mut row = String::new();
        row.append(symbol);
        match self.count {
            Count::One => {
                row.append("    ");
            },
            Count::Two => {
                row.append(" ");
                row.append(symbol);
                row.append("  ");
            },
            Count::Three => {
                row.append(" ");
                row.append(symbol);
                row.append(" ");
                row.append(symbol);
            },
        }
        proof {
            assert(row@ =~= spec_glyph_row(*self));
        }
        row
    }
}

impl Card {
    /// Render the card as its text tile: its decoded attributes rendered.
    pub fn text(&self) -> (text: String)
        ensures
            text@ == spec_card_text(spec_properties_of(*self)),
    {
        CardProperties::from(*self).text()
    }
}

} // verus!
