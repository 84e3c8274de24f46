use timeir::{convert_farsi_date_to_english_date, transliterate_char};

#[test]
fn test_convert_farsi_date_to_english_date() {
    assert_eq!(
        "1399/04/27",
        convert_farsi_date_to_english_date("۱۳۹۹/۰۴/۲۷".to_string())
    );
    assert_eq!(
        "1399/04/25",
        convert_farsi_date_to_english_date("۱۳۹۹/۰۴/۲۵".to_string())
    );
    assert_ne!(
        "1399/04/0۲",
        convert_farsi_date_to_english_date("۱۳۹۹/۰۴/۰۲".to_string())
    );
    assert_eq!(
        "1399/04/03",
        convert_farsi_date_to_english_date("۱۳۹۹/۰۴/۰3".to_string())
    );
}

#[test]
fn leading_zero_day_is_transliterated() {
    assert_eq!(
        "1399/04/02",
        convert_farsi_date_to_english_date("۱۳۹۹/۰۴/۰۲".to_string())
    );
}

#[test]
fn ascii_text_passes_through() {
    assert_eq!("2024-01-15", convert_farsi_date_to_english_date("2024-01-15".to_string()));
    assert_eq!("abc XYZ ~!", convert_farsi_date_to_english_date("abc XYZ ~!".to_string()));
}

#[test]
fn empty_text_stays_empty() {
    assert_eq!("", convert_farsi_date_to_english_date(String::new()));
}

#[test]
fn every_farsi_digit_maps_to_its_ascii_digit() {
    for d in 0u32..10 {
        let farsi = char::from_u32(0x06F0 + d).unwrap();
        let ascii = char::from_digit(d, 10).unwrap();
        assert_eq!(ascii, transliterate_char(farsi));
        assert_eq!(ascii.to_string(), convert_farsi_date_to_english_date(farsi.to_string()));
    }
}

#[test]
fn arabic_indic_digits_are_kept() {
    let arabic: String = (0x0660u32..=0x0669).map(|c| char::from_u32(c).unwrap()).collect();
    assert_eq!(arabic, convert_farsi_date_to_english_date(arabic.clone()));
}

#[test]
fn transliteration_is_idempotent() {
    let once = convert_farsi_date_to_english_date("۱۴۰۲/۱۲/۰۹ and ٣ é".to_string());
    let twice = convert_farsi_date_to_english_date(once.clone());
    assert_eq!(once, twice);
    assert_eq!("1402/12/09 and ٣ é", once);
}

#[test]
fn transliteration_keeps_character_count() {
    let input = "تاریخ ۱۳۹۹/۰۴/۲۷ 🙂".to_string();
    let n = input.chars().count();
    assert_eq!(n, convert_farsi_date_to_english_date(input).chars().count());
}
