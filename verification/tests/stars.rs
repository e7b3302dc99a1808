use astraea::star::{
    declination_fields, is_separator, right_ascension_fields, star_position, StarData,
};

fn star(ra: &str, dec: &str) -> StarData {
    StarData {
        dec: dec.to_string(),
        hr: "15".to_string(),
        k: Some("13000".to_string()),
        ra: ra.to_string(),
        v: "2.07".to_string(),
        constellation: Some("And".to_string()),
        f: Some("21".to_string()),
        bayer_designation: Some("α".to_string()),
        name: Some("Alpheratz".to_string()),
    }
}

#[test]
fn right_ascension_is_cut_at_its_columns() {
    let f = right_ascension_fields("00h 08m 23.3s").unwrap();
    assert_eq!(f.whole, "00");
    assert_eq!(f.minutes, "08");
    assert_eq!(f.seconds, "23.3");
}

#[test]
fn right_ascension_ignores_what_is_between_the_columns() {
    let f = right_ascension_fields("23xx59yy59.9 and more").unwrap();
    assert_eq!(f.whole, "23");
    assert_eq!(f.minutes, "59");
    assert_eq!(f.seconds, "59.9");
    let f = right_ascension_fields("abcdefghijkl").unwrap();
    assert_eq!(f.whole, "ab");
    assert_eq!(f.minutes, "ef");
    assert_eq!(f.seconds, "ijkl");
}

#[test]
fn right_ascension_of_exactly_twelve_bytes() {
    let f = right_ascension_fields("00h 08m 23.3").unwrap();
    assert_eq!(f.seconds, "23.3");
}

#[test]
fn right_ascension_too_short_is_refused() {
    assert!(right_ascension_fields("").is_none());
    assert!(right_ascension_fields("00h 08m 23.").is_none());
}

#[test]
fn right_ascension_cut_inside_a_character_is_refused() {
    // The degree sign takes two bytes, so a cut falls between them.
    assert!(right_ascension_fields("0°h 08m 23.3s").is_none());
    assert!(right_ascension_fields("00h 08m 23.°s").is_none());
}

#[test]
fn right_ascension_with_wide_characters_between_cuts() {
    // Two bytes at columns 2 and 3: every cut still falls between characters.
    let f = right_ascension_fields("00°08m 23.3s").unwrap();
    assert_eq!(f.whole, "00");
    assert_eq!(f.minutes, "08");
    assert_eq!(f.seconds, "23.3");
}

#[test]
fn declination_is_cut_at_its_signs() {
    let f = declination_fields("+45° 13′ 45″").unwrap();
    assert_eq!(f.whole, "+45");
    assert_eq!(f.minutes, "13");
    assert_eq!(f.seconds, "45");
}

#[test]
fn declination_without_blanks() {
    let f = declination_fields("-08°12′05.9″").unwrap();
    assert_eq!(f.whole, "-08");
    assert_eq!(f.minutes, "12");
    assert_eq!(f.seconds, "05.9");
}

#[test]
fn declination_with_blanks_around_and_more_fields() {
    let f = declination_fields(" \t+89°\u{00A0}15′ 51″ N 2000").unwrap();
    assert_eq!(f.whole, "+89");
    assert_eq!(f.minutes, "15");
    assert_eq!(f.seconds, "51");
}

#[test]
fn declination_with_fewer_than_three_fields_is_refused() {
    assert!(declination_fields("").is_none());
    assert!(declination_fields("   ").is_none());
    assert!(declination_fields("°′″").is_none());
    assert!(declination_fields("+45").is_none());
    assert!(declination_fields("+45° 13′").is_none());
    assert!(declination_fields("+45° 13′ ″ ").is_none());
}

#[test]
fn declination_agrees_with_replacing_and_splitting() {
    let texts = [
        "+45° 13′ 45″",
        "-00°00′00″",
        "12 34 56",
        "a°b′c″d",
        "  x\u{2003}y\u{3000}z  ",
        "one two",
        "′′1″″2°°3",
        "+29° 05′ 26″ ",
    ];
    for text in texts {
        let replaced = text.replace("°", " ").replace("′", " ").replace("″", " ");
        let parts: Vec<&str> = replaced.split_whitespace().collect();
        match declination_fields(text) {
            Some(f) => {
                assert!(parts.len() >= 3);
                assert_eq!(f.whole, parts[0]);
                assert_eq!(f.minutes, parts[1]);
                assert_eq!(f.seconds, parts[2]);
            }
            None => assert!(parts.len() < 3),
        }
    }
}

#[test]
fn separators_are_white_space_and_the_three_signs() {
    let mut code: u32 = 0;
    while code <= 0x10FFFF {
        if let Some(c) = char::from_u32(code) {
            let expected = c.is_whitespace() || c == '°' || c == '′' || c == '″';
            assert_eq!(is_separator(c), expected, "U+{:04X}", code);
        }
        code += 1;
    }
}

#[test]
fn star_position_cuts_both_coordinates() {
    let s = star("00h 08m 23.3s", "+29° 05′ 26″");
    let f = star_position(&s).unwrap();
    assert_eq!(f.ra.whole, "00");
    assert_eq!(f.ra.minutes, "08");
    assert_eq!(f.ra.seconds, "23.3");
    assert_eq!(f.dec.whole, "+29");
    assert_eq!(f.dec.minutes, "05");
    assert_eq!(f.dec.seconds, "26");
}

#[test]
fn star_position_needs_both_coordinates() {
    assert!(star_position(&star("00h 08m", "+29° 05′ 26″")).is_none());
    assert!(star_position(&star("00h 08m 23.3s", "+29° 05′")).is_none());
    assert!(star_position(&star("", "")).is_none());
}
