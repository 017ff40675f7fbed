//! The full game state: the undealt deck and the dealt board.

use crate::card::{spec_card_of, Card, CardProperties};
use crate::DECK_SIZE;
use rand::seq::SliceRandom;
use rand::SeedableRng;
use vstd::prelude::*;
use vstd::seq_lib::group_to_multiset_ensures;

verus! {

/// What the seeded shuffle of the outside crates returns: a fixed function of
/// the values and the seed alone.
pub uninterp spec fn shuffled_of(values: Seq<u8>, seed: u64) -> Seq<u8>;

/// Relies on rand::seq::SliceRandom::shuffle, driven by a rand_pcg::Pcg64
/// seeded from `seed`: a Fisher-Yates pass that permutes the slice in place.
/// Both are deterministic, so the result depends on the values and the seed
/// alone.
#[verifier::external_body]
fn shuffle_values(values: Vec<u8>, seed: u64) -> (shuffled: Vec<u8>)
    ensures
        shuffled@ == shuffled_of(values@, seed),
        shuffled@.to_multiset() == values@.to_multiset(),
        shuffled@.len() == values@.len(),
{
    let mut values = values;
    let mut rng = rand_pcg::Pcg64::seed_from_u64(seed);
    values.shuffle(&mut rng);
    values
}

/// The numbers of the full deck in canonical order: every number below the
/// deck size, ascending.
pub open spec fn canonical_values() -> Seq<u8> {
    Seq::new(DECK_SIZE as nat, |i: int| i as u8)
}

/// The numbers of the given cards, in order.
pub open spec fn card_numbers(cards: Seq<Card>) -> Seq<u8> {
    cards.map_values(|card: Card| card.value() as u8)
}

/// The cards hold every attribute combination exactly once.
pub open spec fn is_complete_deck(cards: Seq<Card>) -> bool {
    &&& cards.len() == DECK_SIZE
    &&& cards.no_duplicates()
    &&& forall|properties: CardProperties| cards.contains(spec_card_of(properties))
}

/// Deal out the full deck in canonical order: the card with number `i` stands
/// at position `i`, so each of the 81 cards appears exactly once.
pub fn full_deck() -> (deck: Vec<Card>)
    ensures
        deck@.len() == DECK_SIZE,
        forall|i: int| 0 <= i < deck@.len() ==> (#[trigger] deck@[i]).value() == i,
{
    let mut deck: Vec<Card> = Vec::new();
    let mut value: u8 = 0;
    while value < DECK_SIZE
        invariant
            value <= DECK_SIZE,
            deck@.len() == value,
            forall|i: int| 0 <= i < deck@.len() ==> (#[trigger] deck@[i]).value() == i,
        decreases DECK_SIZE - value,
    {
        deck.push(Card::new(value));
        value = value + 1;
    }
    deck
}

/// A deck in canonical order is complete: it holds no card twice, and every
/// attribute combination encodes to the card at exactly one position.
pub proof fn lemma_canonical_deck_complete(deck: Seq<Card>)
    requires
        deck.len() == DECK_SIZE,
        forall|i: int| 0 <= i < deck.len() ==> (#[trigger] deck[i]).value() == i,
    ensures
        is_complete_deck(deck),
        forall|i: int, j: int|
            0 <= i < deck.len() && 0 <= j < deck.len()
                && crate::card::spec_properties_of(#[trigger] deck[i])
                == crate::card::spec_properties_of(#[trigger] deck[j]) ==> i == j,
{
    assert forall|i: int, j: int| 0 <= i < deck.len() && 0 <= j < deck.len() && i != j implies deck[i]
        != deck[j] by {
        deck[i].lemma_eq_by_value(deck[j]);
    }
    assert forall|properties: CardProperties| deck.contains(spec_card_of(properties)) by {
        crate::card::lemma_encode_in_range(properties);
        let v = crate::card::encode_value(properties);
        deck[v].lemma_eq_by_value(spec_card_of(properties));
        assert(deck[v] == spec_card_of(properties));
    }
    assert forall|i: int, j: int|
        0 <= i < deck.len() && 0 <= j < deck.len()
            && crate::card::spec_properties_of(#[trigger] deck[i])
            == crate::card::spec_properties_of(#[trigger] deck[j]) implies i == j by {
        crate::card::lemma_card_roundtrip(deck[i]);
        crate::card::lemma_card_roundtrip(deck[j]);
    }
}

/// Values with the multiset of the canonical numbers all lie below the deck
/// size and hold no number twice.
proof fn lemma_permuted_values_in_range(values: Seq<u8>)
    requires
        values.to_multiset() == canonical_values().to_multiset(),
    ensures
        forall|i: int| 0 <= i < values.len() ==> values[i] < DECK_SIZE,
        values.no_duplicates(),
{
    broadcast use group_to_multiset_ensures;

    assert forall|i: int| 0 <= i < values.len() implies values[i] < DECK_SIZE by {
        assert(values.contains(values[i]));
        assert(values.to_multiset().count(values[i]) > 0);
        assert(canonical_values().to_multiset().count(values[i]) > 0);
        assert(canonical_values().contains(values[i]));
        let j = choose|j: int|
            0 <= j < canonical_values().len() && canonical_values()[j] == values[i];
        assert(values[i] == j as u8);
    }
    assert(canonical_values().no_duplicates());
    canonical_values().lemma_multiset_has_no_duplicates();
    values.lemma_multiset_has_no_duplicates_conv();
}

/// The full game state.
pub struct Table {
    deck: Vec<Card>,
    board: Vec<Card>,
}

impl Table {
    /// The cards still undealt, bottom of the pile first: dealing takes the
    /// last.
    pub closed spec fn spec_deck(self) -> Seq<Card> {
        self.deck@
    }

    /// The cards dealt so far.
    pub closed spec fn spec_board(self) -> Seq<Card> {
        self.board@
    }

    /// Set up a new game, specifying the deck order.
    pub fn new(deck: Vec<Card>) -> (table: Table)
        ensures
            table.spec_deck() == deck@,
            table.spec_board() == Seq::<Card>::empty(),
    {
        Table { deck, board: Vec::new() }
    }

    /// Helper for setting up a fresh board without listing the deck order:
    /// the full deck, permuted by the seeded shuffle, and an empty board.
    pub fn new_from_seed(seed: u64) -> (table: Table)
        ensures
            table.spec_board() == Seq::<Card>::empty(),
            card_numbers(table.spec_deck()) == shuffled_of(canonical_values(), seed),
            is_complete_deck(table.spec_deck()),
    {
        let ordered = full_deck();
        let mut values: Vec<u8> = Vec::new();
        let mut index: usize = 0;
        while index < ordered.len()
            invariant
                index <= ordered@.len(),
                ordered@.len() == DECK_SIZE,
                forall|i: int| 0 <= i < ordered@.len() ==> (#[trigger] ordered@[i]).value() == i,
                values@.len() == index,
                forall|i: int| 0 <= i < values@.len() ==> values@[i] == i as u8,
            decreases ordered@.len() - index,
        {
            values.push(ordered[index].number());
            index = index + 1;
        }
        assert(values@ =~= canonical_values());
        let shuffled = shuffle_values(values, seed);
        proof {
            lemma_permuted_values_in_range(shuffled@);
        }
        let mut deck: Vec<Card> = Vec::new();
        let mut index: usize = 0;
        while index < shuffled.len()
            invariant
                index <= shuffled@.len(),
                shuffled@.len() == DECK_SIZE,
                forall|i: int| 0 <= i < shuffled@.len() ==> shuffled@[i] < DECK_SIZE,
                deck@.len() == index,
                forall|i: int| 0 <= i < deck@.len() ==> (#[trigger] deck@[i]).value() == shuffled@[i] as int,
            decreases shuffled@.len() - index,
        {
            deck.push(Card::new(shuffled[index]));
            index = index + 1;
        }
        proof {
            assert(card_numbers(deck@) =~= shuffled@);
            lemma_complete_from_permuted(deck@, shuffled@);
        }
        Table { deck, board: Vec::new() }
    }

    /// Allow an external entity to manipulate the board.
    pub fn board(&self) -> (board: &Vec<Card>)
        ensures
            board@ == self.spec_board(),
    {
        &self.board
    }

    /// Allow an external entity to manipulate the board.
    pub fn board_mut(&mut self) -> (board: &mut Vec<Card>)
        ensures
            (*board)@ == old(self).spec_board(),
            final(self).spec_board() == (*final(board))@,
            final(self).spec_deck() == old(self).spec_deck(),
    {
        &mut self.board
    }

    /// Deal a single card from the deck: the last of the remaining cards, or
    /// nothing once the deck is exhausted. The board is left as it is.
    pub fn deal(&mut self) -> (card: Option<Card>)
        ensures
            old(self).spec_deck().len() > 0 ==> card == Some(old(self).spec_deck().last())
                && final(self).spec_deck() == old(self).spec_deck().drop_last(),
            old(self).spec_deck().len() == 0 ==> card == None::<Card> && final(self).spec_deck()
                == old(self).spec_deck(),
            final(self).spec_board() == old(self).spec_board(),
    {
        self.deck.pop()
    }
}

/// Cards whose numbers are a permutation of the canonical numbers form a
/// complete deck.
proof fn lemma_complete_from_permuted(deck: Seq<Card>, values: Seq<u8>)
    requires
        deck.len() == DECK_SIZE,
        forall|i: int| 0 <= i < deck.len() ==> 0 <= (#[trigger] deck[i]).value() < DECK_SIZE,
        card_numbers(deck) == values,
        values.to_multiset() == canonical_values().to_multiset(),
    ensures
        is_complete_deck(deck),
{
    broadcast use group_to_multiset_ensures;

    lemma_permuted_values_in_range(values);
    assert forall|i: int, j: int| 0 <= i < deck.len() && 0 <= j < deck.len() && i != j implies deck[i]
        != deck[j] by {
        assert(card_numbers(deck)[i] == deck[i].value() as u8);
        assert(card_numbers(deck)[j] == deck[j].value() as u8);
        deck[i].lemma_eq_by_value(deck[j]);
    }
    assert forall|properties: CardProperties| deck.contains(spec_card_of(properties)) by {
        crate::card::lemma_encode_in_range(properties);
        let v = crate::card::encode_value(properties);
        assert(canonical_values()[v] == v as u8);
        assert(canonical_values().contains(v as u8));
        assert(canonical_values().to_multiset().count(v as u8) > 0);
        assert(values.to_multiset().count(v as u8) > 0);
        assert(values.contains(v as u8));
        let i = choose|i: int| 0 <= i < values.len() && values[i] == v as u8;
        assert(card_numbers(deck)[i] == deck[i].value() as u8);
        assert(deck[i].value() == v);
        deck[i].lemma_eq_by_value(spec_card_of(properties));
        assert(deck.contains(deck[i]));
    }
}

} // verus!
