//! Triples of cards and the set-matching rule.

use crate::card::{spec_properties_of, Card, CardProperties};
use vstd::prelude::*;

verus! {

/// A selection of three cards.
#[derive(Debug, PartialEq, Clone, Copy)]
pub struct Triple {
    pub cards: (Card, Card, Card),
}

/// For one attribute: the three values are all the same, or pairwise distinct.
/// A mix, exactly two equal and one different, fails.
pub open spec fn all_same_or_all_distinct<T>(x: T, y: T, z: T) -> bool {
    (x == y && y == z) || (x != y && y != z && x != z)
}

/// Three decoded cards form a set when each of the four attributes,
/// independently, is either shared by all three cards or pairwise distinct
/// across them.
pub open spec fn spec_is_set(a: CardProperties, b: CardProperties, c: CardProperties) -> bool {
    all_same_or_all_distinct(a.color, b.color, c.color)
        && all_same_or_all_distinct(a.count, b.count, c.count)
        && all_same_or_all_distinct(a.shade, b.shade, c.shade)
        && all_same_or_all_distinct(a.shape, b.shape, c.shape)
}

/// The set rule does not depend on the order in which the three cards are
/// given: every permutation of the inputs yields the same answer.
pub proof fn lemma_is_set_permutation_invariant(
    a: CardProperties,
    b: CardProperties,
    c: CardProperties,
)
    ensures
        spec_is_set(a, b, c) == spec_is_set(a, c, b),
        spec_is_set(a, b, c) == spec_is_set(b, a, c),
        spec_is_set(a, b, c) == spec_is_set(b, c, a),
        spec_is_set(a, b, c) == spec_is_set(c, a, b),
        spec_is_set(a, b, c) == spec_is_set(c, b, a),
{
}

/// Three copies of one card always form a set: every attribute is shared by
/// all three.
pub proof fn lemma_is_set_identical(properties: CardProperties)
    ensures
        spec_is_set(properties, properties, properties),
{
}

impl Triple {
    /// The three cards selected, in the order they were given.
    pub open spec fn spec_cards(self) -> (Card, Card, Card) {
        self.cards
    }

    /// The three cards selected, in the order they were given.
    pub fn cards(&self) -> (cards: (Card, Card, Card))
        ensures
            cards == self.spec_cards(),
    {
        self.cards
    }

    /// Return whether the three given cards are a set.
    pub fn is_set(&self) -> (result: bool)
        ensures
            result == spec_is_set(
                spec_properties_of(self.spec_cards().0),
                spec_properties_of(self.spec_cards().1),
                spec_properties_of(self.spec_cards().2),
            ),
    {
        let (a, b, c) = self.cards;
        let a = CardProperties::from(a);
        let b = CardProperties::from(b);
        let c = CardProperties::from(c);
        let color_ok = (a.color == b.color && b.color == c.color) || (a.color != b.color
            && b.color != c.color && a.color != c.color);
        let count_ok = (a.count == b.count && b.count == c.count) || (a.count != b.count
            && b.count != c.count && a.count != c.count);
        let shade_ok = (a.shade == b.shade && b.shade == c.shade) || (a.shade != b.shade
            && b.shade != c.shade && a.shade != c.shade);
        let shape_ok = (a.shape == b.shape && b.shape == c.shape) || (a.shape != b.shape
            && b.shape != c.shape && a.shape != c.shape);
        color_ok && count_ok && shade_ok && shape_ok
    }
}

impl From<(Card, Card, Card)> for Triple {
    /// Select the three given cards as a triple.
    fn from(cards: (Card, Card, Card)) -> (triple: Self) {
        Triple { cards }
    }
}

impl vstd::std_specs::convert::FromSpecImpl<(Card, Card, Card)> for Triple {
    open spec fn obeys_from_spec() -> bool {
        true
    }

    open spec fn from_spec(cards: (Card, Card, Card)) -> Triple {
        Triple { cards }
    }
}

} // verus!
