use shuangshuang::{
    get_tones_from_pinyin, get_tones_only_from_pronounced_pinyin, Tone, ToneError,
};

#[test]
fn strict_parse_accepts_one_to_five() {
    assert_eq!(Tone::from_str("1"), Ok(Tone::Tone1));
    assert_eq!(Tone::from_str("2"), Ok(Tone::Tone2));
    assert_eq!(Tone::from_str("3"), Ok(Tone::Tone3));
    assert_eq!(Tone::from_str("4"), Ok(Tone::Tone4));
    assert_eq!(Tone::from_str("5"), Ok(Tone::NeutralTone));
}

#[test]
fn strict_parse_rejects_other_strings() {
    assert_eq!(Tone::from_str("0"), Err(ToneError::ParseToneError));
    assert_eq!(Tone::from_str("6"), Err(ToneError::ParseToneError));
    assert_eq!(Tone::from_str(""), Err(ToneError::ParseToneError));
    assert_eq!(Tone::from_str("12"), Err(ToneError::ParseToneError));
    assert_eq!(Tone::from_str("a"), Err(ToneError::ParseToneError));
}

#[test]
fn lenient_char_reading_falls_back_to_neutral() {
    assert_eq!(Tone::from('1'), Tone::Tone1);
    assert_eq!(Tone::from('4'), Tone::Tone4);
    assert_eq!(Tone::from('5'), Tone::NeutralTone);
    assert_eq!(Tone::from('x'), Tone::NeutralTone);
    assert_eq!(Tone::from_char('0'), Tone::NeutralTone);
    assert_eq!(Tone::from_char('3'), Tone::Tone3);
}

#[test]
fn tone_digits_and_default() {
    assert_eq!(Tone::Tone1.to_string(), "1");
    assert_eq!(Tone::Tone2.to_string(), "2");
    assert_eq!(Tone::Tone3.to_string(), "3");
    assert_eq!(Tone::Tone4.to_string(), "4");
    assert_eq!(Tone::NeutralTone.to_string(), "5");
    assert_eq!(Tone::default(), Tone::NeutralTone);
    assert_eq!(Tone::Tone2.digit(), '2');
    assert_eq!(Tone::from_digit('7'), None);
}

#[test]
fn two_digit_pinyin_gives_two_tones_with_the_same_digits() {
    for p in ["ni3hao3", "yan2su4", "bu2yao4", "ma1ma5", "xie4xie5"] {
        let tones = get_tones_from_pinyin(p);
        assert_eq!(tones.len(), 2);
        let digits: String = tones.iter().map(|t| t.to_string()).collect();
        let stripped: String = p.chars().filter(|c| !c.is_alphabetic()).collect();
        assert_eq!(digits, stripped);
    }
}

#[test]
fn lone_digit_gets_a_neutral_tone() {
    assert_eq!(
        get_tones_from_pinyin("ma1ma"),
        vec![Tone::Tone1, Tone::NeutralTone]
    );
    assert_eq!(get_tones_only_from_pronounced_pinyin("ma1ma"), "15");
}

#[test]
fn no_digit_gives_no_tone() {
    assert_eq!(get_tones_from_pinyin("mama"), Vec::<Tone>::new());
    assert_eq!(get_tones_only_from_pronounced_pinyin("mama"), "");
}

#[test]
fn tones_only_reads_back_to_the_tones() {
    for p in ["ni2hao3", "yi4dian3", "ma1ma", "xie4xie5", "ren2"] {
        let only = get_tones_only_from_pronounced_pinyin(p);
        let read: Vec<Tone> = only
            .chars()
            .map(|c| Tone::from_str(&c.to_string()).unwrap())
            .collect();
        assert_eq!(read, get_tones_from_pinyin(p));
    }
}

#[test]
fn tones_only_strips_letters() {
    assert_eq!(get_tones_only_from_pronounced_pinyin("ni2hao3"), "23");
    assert_eq!(get_tones_only_from_pronounced_pinyin("lü4se4"), "44");
}
