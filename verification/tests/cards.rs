use set_game_solver::card::{Card, CardProperties, Color, Count, Shade, Shape};
use set_game_solver::table::full_deck;
use set_game_solver::DECK_SIZE;

#[test]
fn card_display() {
    let mut buf = String::new();
    for card in full_deck().into_iter() {
        buf.push_str(&card.text());
    }
    assert_eq!(buf.chars().count(), 81 * 7);
    assert!(buf.starts_with("| 0R\u{25C6} |"));
    assert!(buf.contains("| 1G\u{29D1} |"));
    assert!(buf.ends_with("| 2P\u{25CB} |"));
}

#[test]
fn card_text_tiles() {
    assert_eq!(Card::new(0).text(), "| 0R\u{25C6} |");
    assert_eq!(Card::new(40).text(), "| 1G\u{29D1} |");
    assert_eq!(Card::new(80).text(), "| 2P\u{25CB} |");
}

#[test]
fn glyph_rows_repeat_symbol() {
    let one = CardProperties {
        color: Color::Red,
        count: Count::One,
        shade: Shade::Solid,
        shape: Shape::Diamond,
    };
    let two = CardProperties { count: Count::Two, ..one };
    let three = CardProperties { count: Count::Three, ..one };
    assert_eq!(one.glyph_row(), "\u{25C6}    ");
    assert_eq!(two.glyph_row(), "\u{25C6} \u{25C6}  ");
    assert_eq!(three.glyph_row(), "\u{25C6} \u{25C6} \u{25C6}");
}

#[test]
fn card_add() {
    assert_eq!(Card::new(0) + Card::new(40), Card::new(40));
    assert_eq!(Card::new(40) + Card::new(40), Card::new(80));
    assert_eq!(Card::new(80) + Card::new(40), Card::new(39));
    assert_eq!(Card::new(80) + Card::new(1), Card::new(0));
}

#[test]
fn card_sub() {
    assert_eq!(Card::new(80) - Card::new(40), Card::new(40));
    assert_eq!(Card::new(40) - Card::new(40), Card::new(0));
    assert_eq!(Card::new(0) - Card::new(40), Card::new(41));
    assert_eq!(Card::new(0) - Card::new(1), Card::new(80));
}

#[test]
fn card_sub_exhaustive() {
    for a in 0..DECK_SIZE {
        for b in 0..DECK_SIZE {
            let expected = if a < b { a + DECK_SIZE - b } else { a - b };
            assert_eq!(Card::new(a) - Card::new(b), Card::new(expected));
        }
    }
}

#[test]
fn card_into_properties() {
    assert_eq!(
        CardProperties::from(Card::new(0)),
        CardProperties {
            color: Color::Red,
            count: Count::One,
            shade: Shade::Solid,
            shape: Shape::Diamond
        }
    );
    assert_eq!(
        CardProperties::from(Card::new(40)),
        CardProperties {
            color: Color::Green,
            count: Count::Two,
            shade: Shade::Striped,
            shape: Shape::Squiggle
        }
    );
    assert_eq!(
        CardProperties::from(Card::new(80)),
        CardProperties {
            color: Color::Purple,
            count: Count::Three,
            shade: Shade::Open,
            shape: Shape::Oval
        }
    );
}

#[test]
fn card_properties_roundtrip_exhaustive() {
    for card in full_deck().iter() {
        assert_eq!(Card::from(CardProperties::from(card.clone())), card.clone());
    }
}

#[test]
fn conversion_helpers_roundtrip() {
    for rank in 0..3u8 {
        assert_eq!(Color::from_u8(rank).to_u8(), rank);
        assert_eq!(Count::from_u8(rank).to_u8(), rank);
        assert_eq!(Shade::from_u8(rank).to_u8(), rank);
        assert_eq!(Shape::from_u8(rank).to_u8(), rank);
    }
}

#[test]
fn card_number_roundtrip() {
    for value in 0..DECK_SIZE {
        assert_eq!(Card::new(value).number(), value);
    }
}
