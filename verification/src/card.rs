//! Cards and their four attributes.
//!
//! A card is a compact number below `DECK_SIZE`; the four attributes are the
//! base-three digits of that number. `CardProperties` is the decoded,
//! attribute-struct form of the same card.

use crate::DECK_SIZE;
use vstd::arithmetic::div_mod::lemma_fundamental_div_mod;
use vstd::prelude::*;

verus! {

/// Weight of the color digit in a card's number.
pub const RANK_COLOR: u8 = 27;

/// Weight of the count digit in a card's number.
pub const RANK_COUNT: u8 = 9;

/// Weight of the shade digit in a card's number.
pub const RANK_SHADE: u8 = 3;

/// One of the three card colors.
#[derive(Debug, PartialEq, Eq, Structural, Clone, Copy)]
pub enum Color {
    Red,
    Green,
    Purple,
}

/// How many symbols the card shows.
#[derive(Debug, PartialEq, Eq, Structural, Clone, Copy)]
pub enum Count {
    One,
    Two,
    Three,
}

/// The fill style of the card's symbols.
#[derive(Debug, PartialEq, Eq, Structural, Clone, Copy)]
pub enum Shade {
    Solid,
    Striped,
    Open,
}

/// The outline of the card's symbols.
#[derive(Debug, PartialEq, Eq, Structural, Clone, Copy)]
pub enum Shape {
    Diamond,
    Squiggle,
    Oval,
}

/// The rank of a color in the numeric encoding.
pub open spec fn color_index(color: Color) -> int {
    match color {
        Color::Red => 0,
        Color::Green => 1,
        Color::Purple => 2,
    }
}

/// The rank of a count in the numeric encoding.
pub open spec fn count_index(count: Count) -> int {
    match count {
        Count::One => 0,
        Count::Two => 1,
        Count::Three => 2,
    }
}

/// The rank of a shade in the numeric encoding.
pub open spec fn shade_index(shade: Shade) -> int {
    match shade {
        Shade::Solid => 0,
        Shade::Striped => 1,
        Shade::Open => 2,
    }
}

/// The rank of a shape in the numeric encoding.
pub open spec fn shape_index(shape: Shape) -> int {
    match shape {
        Shape::Diamond => 0,
        Shape::Squiggle => 1,
        Shape::Oval => 2,
    }
}

/// The color with the given rank; ranks outside the three are read as the last.
pub open spec fn color_of_index(index: int) -> Color {
    if index == 0 {
        Color::Red
    } else if index == 1 {
        Color::Green
    } else {
        Color::Purple
    }
}

/// The count with the given rank; ranks outside the three are read as the last.
pub open spec fn count_of_index(index: int) -> Count {
    if index == 0 {
        Count::One
    } else if index == 1 {
        Count::Two
    } else {
        Count::Three
    }
}

/// The shade with the given rank; ranks outside the three are read as the last.
pub open spec fn shade_of_index(index: int) -> Shade {
    if index == 0 {
        Shade::Solid
    } else if index == 1 {
        Shade::Striped
    } else {
        Shade::Open
    }
}

/// The shape with the given rank; ranks outside the three are read as the last.
pub open spec fn shape_of_index(index: int) -> Shape {
    if index == 0 {
        Shape::Diamond
    } else if index == 1 {
        Shape::Squiggle
    } else {
        Shape::Oval
    }
}

impl Color {
    /// The color's rank as a machine integer.
    pub fn to_u8(self) -> (rank: u8)
        ensures
            rank as int == color_index(self),
    {
        match self {
            Color::Red => 0,
            Color::Green => 1,
            Color::Purple => 2,
        }
    }

    /// The color with the given rank.
    pub fn from_u8(rank: u8) -> (color: Color)
        requires
            rank < 3,
        ensures
            color == color_of_index(rank as int),
    {
        if rank == 0 {
            Color::Red
        } else if rank == 1 {
            Color::Green
        } else {
            Color::Purple
        }
    }
}

impl Count {
    /// The count's rank as a machine integer.
    pub fn to_u8(self) -> (rank: u8)
        ensures
            rank as int == count_index(self),
    {
        match self {
            Count::One => 0,
            Count::Two => 1,
            Count::Three => 2,
        }
    }

    /// The count with the given rank.
    pub fn from_u8(rank: u8) -> (count: Count)
        requires
            rank < 3,
        ensures
            count == count_of_index(rank as int),
    {
        if rank == 0 {
            Count::One
        } else if rank == 1 {
            Count::Two
        } else {
            Count::Three
        }
    }
}

impl Shade {
    /// The shade's rank as a machine integer.
    pub fn to_u8(self) -> (rank: u8)
        ensures
            rank as int == shade_index(self),
    {
        match self {
            Shade::Solid => 0,
            Shade::Striped => 1,
            Shade::Open => 2,
        }
    }

    /// The shade with the given rank.
    pub fn from_u8(rank: u8) -> (shade: Shade)
        requires
            rank < 3,
        ensures
            shade == shade_of_index(rank as int),
    {
        if rank == 0 {
            Shade::Solid
        } else if rank == 1 {
            Shade::Striped
        } else {
            Shade::Open
        }
    }
}

impl Shape {
    /// The shape's rank as a machine integer.
    pub fn to_u8(self) -> (rank: u8)
        ensures
            rank as int == shape_index(self),
    {
        match self {
            Shape::Diamond => 0,
            Shape::Squiggle => 1,
            Shape::Oval => 2,
        }
    }

    /// The shape with the given rank.
    pub fn from_u8(rank: u8) -> (shape: Shape)
        requires
            rank < 3,
        ensures
            shape == shape_of_index(rank as int),
    {
        if rank == 0 {
            Shape::Diamond
        } else if rank == 1 {
            Shape::Squiggle
        } else {
            Shape::Oval
        }
    }
}

/// A card, stored as its numeric encoding: a value below `DECK_SIZE`.
#[derive(Debug, PartialEq, Clone, Copy, Eq, Structural, PartialOrd, Ord)]
pub struct Card(u8);

impl Card {
    /// Every card's number lies below the deck size.
    #[verifier::type_invariant]
    spec fn inv(self) -> bool {
        self.0 < DECK_SIZE
    }

    /// The numeric encoding of this card.
    pub closed spec fn value(self) -> int {
        self.0 as int
    }

    /// Two cards are the same card exactly when their numbers agree.
    pub proof fn lemma_eq_by_value(self, other: Card)
        ensures
            (self == other) <==> (self.value() == other.value()),
    {
    }

    /// Make the card with the given number.
    pub fn new(value: u8) -> (card: Card)
        requires
            value < DECK_SIZE,
        ensures
            card.value() == value as int,
    {
        Card(value)
    }

    /// The card's number, as stored.
    pub fn number(&self) -> (value: u8)
        ensures
            value as int == self.value(),
            value < DECK_SIZE,
    {
        proof {
            use_type_invariant(self);
        }
        self.0
    }
}

/// The card whose number is the two cards' numbers added, wrapped around the
/// deck size.
pub closed spec fn spec_card_add(a: Card, b: Card) -> Card {
    Card(((a.value() + b.value()) % (DECK_SIZE as int)) as u8)
}

/// The card whose number is the two cards' numbers subtracted, wrapped around
/// the deck size.
pub closed spec fn spec_card_sub(a: Card, b: Card) -> Card {
    Card(
        (if a.value() >= b.value() {
            a.value() - b.value()
        } else {
            a.value() + (DECK_SIZE as int) - b.value()
        }) as u8,
    )
}

/// The number of a wrapped sum of cards is the wrapped sum of their numbers.
pub proof fn lemma_card_add_value(a: Card, b: Card)
    requires
        0 <= a.value() < DECK_SIZE,
        0 <= b.value() < DECK_SIZE,
    ensures
        spec_card_add(a, b).value() == (a.value() + b.value()) % (DECK_SIZE as int),
{
}

/// The number of a wrapped difference of cards is the wrapped difference of
/// their numbers.
pub proof fn lemma_card_sub_value(a: Card, b: Card)
    requires
        0 <= a.value() < DECK_SIZE,
        0 <= b.value() < DECK_SIZE,
    ensures
        spec_card_sub(a, b).value() == if a.value() >= b.value() {
            a.value() - b.value()
        } else {
            a.value() + (DECK_SIZE as int) - b.value()
        },
{
}

impl core::ops::Add for Card {
    type Output = Card;

    /// Add the cards' numbers, wrapping around the deck size.
    fn add(self, other: Card) -> (sum: Card) {
        proof {
            use_type_invariant(self);
            use_type_invariant(other);
        }
        Card((self.0 + other.0) % DECK_SIZE)
    }
}

impl vstd::std_specs::ops::AddSpecImpl for Card {
    open spec fn obeys_add_spec() -> bool {
        true
    }

    open spec fn add_req(self, rhs: Card) -> bool {
        true
    }

    open spec fn add_spec(self, rhs: Card) -> Self::Output {
        spec_card_add(self, rhs)
    }
}

impl core::ops::Sub for Card {
    type Output = Card;

    /// Subtract the cards' numbers, wrapping around the deck size.
    fn sub(self, other: Card) -> (difference: Card) {
        proof {
            use_type_invariant(self);
            use_type_invariant(other);
        }
        Card(
            (if self.0 < other.0 {
                self.0 + DECK_SIZE
            } else {
                self.0
            }) - other.0,
        )
    }
}

impl vstd::std_specs::ops::SubSpecImpl for Card {
    open spec fn obeys_sub_spec() -> bool {
        true
    }

    open spec fn sub_req(self, rhs: Card) -> bool {
        true
    }

    open spec fn sub_spec(self, rhs: Card) -> Self::Output {
        spec_card_sub(self, rhs)
    }
}

/// A card in its decoded form: one value for each of the four attributes.
///
/// Names drawn from https://en.wikipedia.org/wiki/Set_(card_game)
#[derive(Debug, PartialEq, Eq, Structural, Clone, Copy)]
pub struct CardProperties {
    pub color: Color,
    pub count: Count,
    pub shade: Shade,
    pub shape: Shape,
}

/// The number that encodes the given attributes: their ranks read as the
/// base-three digits of the number, color highest.
pub open spec fn encode_value(properties: CardProperties) -> int {
    color_index(properties.color) * (RANK_COLOR as int)
        + count_index(properties.count) * (RANK_COUNT as int)
        + shade_index(properties.shade) * (RANK_SHADE as int)
        + shape_index(properties.shape)
}

/// The attributes whose ranks are the base-three digits of the given number.
pub open spec fn decode_value(value: int) -> CardProperties {
    CardProperties {
        color: color_of_index(value / (RANK_COLOR as int)),
        count: count_of_index((value % (RANK_COLOR as int)) / (RANK_COUNT as int)),
        shade: shade_of_index(
            ((value % (RANK_COLOR as int)) % (RANK_COUNT as int)) / (RANK_SHADE as int),
        ),
        shape: shape_of_index(((value % (RANK_COLOR as int)) % (RANK_COUNT as int)) % (RANK_SHADE as int)),
    }
}

/// The card that encodes the given attributes.
pub closed spec fn spec_card_of(properties: CardProperties) -> Card {
    Card(encode_value(properties) as u8)
}

/// The attributes of the given card.
pub open spec fn spec_properties_of(card: Card) -> CardProperties {
    decode_value(card.value())
}

/// Every attribute combination encodes to a number below the deck size, and
/// that number is the encoding card's number.
pub proof fn lemma_encode_in_range(properties: CardProperties)
    ensures
        0 <= encode_value(properties) < DECK_SIZE,
        spec_card_of(properties).value() == encode_value(properties),
{
}

impl From<CardProperties> for Card {
    /// Encode four attributes as a card.
    fn from(properties: CardProperties) -> (card: Self) {
        let CardProperties { color, count, shade, shape } = properties;
        Card(
            (color.to_u8() * RANK_COLOR) + (count.to_u8() * RANK_COUNT)
                + (shade.to_u8() * RANK_SHADE) + shape.to_u8(),
        )
    }
}

impl vstd::std_specs::convert::FromSpecImpl<CardProperties> for Card {
    open spec fn obeys_from_spec() -> bool {
        true
    }

    open spec fn from_spec(properties: CardProperties) -> Card {
        spec_card_of(properties)
    }
}

impl From<Card> for CardProperties {
    /// Decode a card into its four attributes.
    fn from(card: Card) -> (properties: Self) {
        proof {
            use_type_invariant(card);
        }
        let color = Color::from_u8(card.0 / RANK_COLOR);
        let remainder = card.0 % RANK_COLOR;
        let count = Count::from_u8(remainder / RANK_COUNT);
        let remainder = remainder % RANK_COUNT;
        let shade = Shade::from_u8(remainder / RANK_SHADE);
        let shape = Shape::from_u8(remainder % RANK_SHADE);
        CardProperties { color, count, shade, shape }
    }
}

impl vstd::std_specs::convert::FromSpecImpl<Card> for CardProperties {
    open spec fn obeys_from_spec() -> bool {
        true
    }

    open spec fn from_spec(card: Card) -> CardProperties {
        spec_properties_of(card)
    }
}

/// Decoding a card and encoding the result gives the card back: on numbers
/// below the deck size the encoding is a bijection, card side.
pub proof fn lemma_card_roundtrip(card: Card)
    requires
        0 <= card.value() < DECK_SIZE,
    ensures
        spec_card_of(spec_properties_of(card)) == card,
{
    let v = card.value();
    lemma_fundamental_div_mod(v, 27);
    lemma_fundamental_div_mod(v % 27, 9);
    lemma_fundamental_div_mod((v % 27) % 9, 3);
}

/// Encoding four attributes and decoding the result gives the attributes
/// back: the encoding is a bijection, attribute side.
pub proof fn lemma_properties_roundtrip(properties: CardProperties)
    ensures
        spec_properties_of(spec_card_of(properties)) == properties,
{
    let c = color_index(properties.color);
    let n = count_index(properties.count);
    let s = shade_index(properties.shade);
    let h = shape_index(properties.shape);
    let v = encode_value(properties);
    lemma_encode_in_range(properties);
    assert(v == 27 * c + (9 * n + 3 * s + h));
    assert((27 * c + (9 * n + 3 * s + h)) / 27 == c && (27 * c + (9 * n + 3 * s + h)) % 27 == 9
        * n + 3 * s + h) by (nonlinear_arith)
        requires
            0 <= c,
            0 <= 9 * n + 3 * s + h < 27,
    ;
    assert((9 * n + (3 * s + h)) / 9 == n && (9 * n + (3 * s + h)) % 9 == 3 * s + h)
        by (nonlinear_arith)
        requires
            0 <= n,
            0 <= 3 * s + h < 9,
    ;
    assert((3 * s + h) / 3 == s && (3 * s + h) % 3 == h) by (nonlinear_arith)
        requires
            0 <= s,
            0 <= h < 3,
    ;
}

} // verus!
