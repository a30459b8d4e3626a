use decrypt_effect::metrics::{display_width, MAX_WIDTH};

#[test]
fn ordinary_characters_take_one_column() {
    assert_eq!(display_width('A'), 1);
    assert_eq!(display_width('~'), 1);
    assert_eq!(display_width(' '), 1);
    assert_eq!(display_width('é'), 1);
}

#[test]
fn wide_characters_take_two_columns() {
    assert_eq!(display_width('世'), 2);
    assert_eq!(display_width('界'), 2);
    assert_eq!(display_width('Ａ'), 2);
}

#[test]
fn characters_without_a_width_take_none() {
    assert_eq!(display_width('\n'), 0);
    assert_eq!(display_width('\t'), 0);
    assert_eq!(display_width('\u{7f}'), 0);
    assert_eq!(display_width('\0'), 0);
    assert_eq!(display_width('\u{301}'), 0);
}

#[test]
fn no_character_is_wider_than_two_columns() {
    let mut code: u32 = 0;
    while code <= 0x10FFFF {
        if let Some(c) = char::from_u32(code) {
            assert!(display_width(c) <= MAX_WIDTH);
        }
        code += 1;
    }
}
