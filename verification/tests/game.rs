use set_game_solver::card::{Card, CardProperties, Color, Count, Shade, Shape};
use set_game_solver::table::{full_deck, Table};
use set_game_solver::triple::Triple;
use set_game_solver::DECK_SIZE;

/// All orders in which the triple's three cards can be given.
fn permutations(triple: &Triple) -> Vec<Triple> {
    let (a, b, c) = triple.cards();
    vec![
        Triple::from((a, b, c)),
        Triple::from((a, c, b)),
        Triple::from((b, a, c)),
        Triple::from((b, c, a)),
        Triple::from((c, a, b)),
        Triple::from((c, b, a)),
    ]
}

fn assert_all_permutations_is_set(triple: Triple, is_set: bool) {
    for triple in permutations(&triple) {
        assert_eq!(triple.is_set(), is_set);
    }
}

#[test]
fn triple_permutations() {
    let expected = vec![
        Triple::from((Card::new(0), Card::new(1), Card::new(2))),
        Triple::from((Card::new(0), Card::new(2), Card::new(1))),
        Triple::from((Card::new(1), Card::new(0), Card::new(2))),
        Triple::from((Card::new(1), Card::new(2), Card::new(0))),
        Triple::from((Card::new(2), Card::new(0), Card::new(1))),
        Triple::from((Card::new(2), Card::new(1), Card::new(0))),
    ];
    let actual: Vec<_> = permutations(&Triple::from((Card::new(0), Card::new(1), Card::new(2))));
    assert_eq!(expected, actual);
}

#[test]
fn is_set_works() {
    let red_one_solid_diamond = Card::new(0);
    let green_two_solid_diamond = Card::new(36);
    let purple_three_solid_diamond = Card::new(72);
    let green_two_striped_squiggle = Card::new(40);
    let purple_three_open_oval = Card::new(80);

    // All the same card is technically a set
    assert_all_permutations_is_set(
        Triple::from((red_one_solid_diamond, red_one_solid_diamond, red_one_solid_diamond)),
        true,
    );
    // A mixed set
    assert_all_permutations_is_set(
        Triple::from((green_two_solid_diamond, red_one_solid_diamond, purple_three_solid_diamond)),
        true,
    );
    // All different set
    assert_all_permutations_is_set(
        Triple::from((red_one_solid_diamond, green_two_striped_squiggle, purple_three_open_oval)),
        true,
    );
    // Not sets
    assert_all_permutations_is_set(
        Triple::from((red_one_solid_diamond, red_one_solid_diamond, purple_three_solid_diamond)),
        false,
    );
    assert_all_permutations_is_set(
        Triple::from((red_one_solid_diamond, green_two_solid_diamond, purple_three_open_oval)),
        false,
    );
}

#[test]
fn example_set_from_properties() {
    let a = Card::from(CardProperties {
        color: Color::Red,
        count: Count::One,
        shade: Shade::Solid,
        shape: Shape::Diamond,
    });
    let b = Card::from(CardProperties {
        color: Color::Green,
        count: Count::Two,
        shade: Shade::Solid,
        shape: Shape::Diamond,
    });
    let c = Card::from(CardProperties {
        color: Color::Purple,
        count: Count::Three,
        shade: Shade::Solid,
        shape: Shape::Diamond,
    });
    assert!(Triple::from((a, b, c)).is_set());
}

#[test]
fn mix_on_one_attribute_is_no_set() {
    // Two cards share a shade and the third differs; the other attributes all
    // obey the rule, yet the triple is no set.
    let a = Card::new(1);
    let b = Card::new(3);
    let c = Card::new(5);
    assert_all_permutations_is_set(Triple::from((a, b, c)), false);
}

#[test]
fn full_deck_complete() {
    let deck = full_deck();
    assert_eq!(deck.len(), DECK_SIZE as usize);
    for i in 0..deck.len() {
        for j in 0..i {
            assert_ne!(deck[i], deck[j]);
        }
    }
    for color in [Color::Red, Color::Green, Color::Purple] {
        for count in [Count::One, Count::Two, Count::Three] {
            for shade in [Shade::Solid, Shade::Striped, Shade::Open] {
                for shape in [Shape::Diamond, Shape::Squiggle, Shape::Oval] {
                    let card = Card::from(CardProperties { color, count, shade, shape });
                    assert!(deck.contains(&card));
                }
            }
        }
    }
}

#[test]
fn deal_exhausts_deck() {
    let mut table = Table::new(full_deck());
    for _ in 0..DECK_SIZE {
        assert!(table.deal().is_some());
    }
    assert!(table.deal().is_none());
    assert!(table.deal().is_none());
}

#[test]
fn deal_takes_the_last_card() {
    let mut table = Table::new(full_deck());
    assert_eq!(table.deal(), Some(Card::new(80)));
    assert_eq!(table.deal(), Some(Card::new(79)));
}

#[test]
fn board_holds_dealt_cards() {
    let mut table = Table::new(full_deck());
    let card = table.deal().expect("a fresh deck deals a card");
    table.board_mut().push(card);
    assert_eq!(table.board().len(), 1);
    assert_eq!(table.board()[0], Card::new(80));
}

#[test]
fn new_from_seed_deals_whole_deck() {
    let mut table = Table::new_from_seed(7);
    let mut numbers = Vec::new();
    for _ in 0..DECK_SIZE {
        numbers.push(table.deal().expect("a shuffled full deck deals 81 cards").number());
    }
    assert!(table.deal().is_none());
    let mut sorted = numbers.clone();
    sorted.sort();
    let expected: Vec<u8> = (0..DECK_SIZE).collect();
    assert_eq!(sorted, expected);
}

#[test]
fn new_from_seed_permutes_and_is_reproducible() {
    let deal_all = |seed: u64| {
        let mut table = Table::new_from_seed(seed);
        let mut numbers = Vec::new();
        for _ in 0..DECK_SIZE {
            numbers.push(table.deal().expect("a shuffled full deck deals 81 cards").number());
        }
        numbers
    };
    let first = deal_all(7);
    let again = deal_all(7);
    assert_eq!(first, again);
    let canonical_deal_order: Vec<u8> = (0..DECK_SIZE).rev().collect();
    assert_ne!(first, canonical_deal_order);
}
