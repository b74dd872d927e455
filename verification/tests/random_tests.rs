use portfolio_scan::random::{get_char, get_color, PaletteColor};

#[test]
fn get_char_success() {
    let character = get_char();
    assert_ne!(character, ' ');
}

#[test]
fn get_color_success() {
    let _color = get_color();
    assert!(true);
}

#[test]
fn every_character_is_a_letter_or_a_digit() {
    for _ in 0..500 {
        let character = get_char();
        assert!(character.is_ascii_alphanumeric());
    }
}

#[test]
fn every_colour_is_below_255() {
    let mut seen_more_than_one = false;
    let mut first: Option<u8> = None;
    for _ in 0..500 {
        let index = get_color().index;
        assert!(index < 255);
        match first {
            None => first = Some(index),
            Some(other) => seen_more_than_one = seen_more_than_one || other != index,
        }
    }
    assert!(seen_more_than_one);
}

#[test]
fn a_colour_is_at_the_index_it_is_given() {
    for index in [0u8, 1, 17, 254, 255] {
        assert_eq!(PaletteColor::at(index), PaletteColor { index });
        assert_eq!(PaletteColor::at(index).index, index);
    }
}
