use pinyin::ToPinyin;
use shuangshuang::{get_pronounced_pinyin, get_tones_from_pinyin, Tone};

fn get_pinyin_from_chinese_word(word: &str) -> Option<String> {
    let mut pinyin_output = String::new();
    for pinyin in word.to_pinyin() {
        if let Some(pinyin) = pinyin {
            pinyin_output.push_str(pinyin.with_tone_num_end());
        }
    }
    if pinyin_output.len() > 0 {
        Some(pinyin_output)
    } else {
        None
    }
}

#[test]
fn get_tones_from_pinyin_works() {
    let pinyin_with_nums = "ni3hao3";
    let expected_tones = vec![Tone::Tone3, Tone::Tone3];
    let result_tones = get_tones_from_pinyin(pinyin_with_nums);
    assert_eq!(expected_tones, result_tones);
}

#[test]
fn test_no_tone_change_works() {
    let chinese_word = "严肃";
    let expected_pinyin = "yan2su4";
    let tone_pair = (Tone::Tone2, Tone::Tone4);
    let normal_pinyin = get_pinyin_from_chinese_word(chinese_word);
    let result_pinyin = get_pronounced_pinyin(
        chinese_word,
        &normal_pinyin.expect("No pinyin detected"),
        &tone_pair,
    );
    assert_eq!(expected_pinyin, &result_pinyin);
}

#[test]
fn test_third_tone_change_works() {
    let chinese_word = "你好";
    let expected_pinyin = "ni2hao3";
    let tone_pair = (Tone::Tone3, Tone::Tone3);
    let normal_pinyin = get_pinyin_from_chinese_word(chinese_word);
    let result_pinyin = get_pronounced_pinyin(
        chinese_word,
        &normal_pinyin.expect("No pinyin detected"),
        &tone_pair,
    );
    assert_eq!(expected_pinyin, &result_pinyin);
}

#[test]
fn test_yi_1_2_tone_change_works() {
    let chinese_word = "一会";
    let expected_pinyin = "yi2hui4";
    let tone_pair = (Tone::Tone1, Tone::Tone4);
    let normal_pinyin = get_pinyin_from_chinese_word(chinese_word);
    let result_pinyin = get_pronounced_pinyin(
        chinese_word,
        &normal_pinyin.expect("No pinyin detected"),
        &tone_pair,
    );
    assert_eq!(expected_pinyin, &result_pinyin);
}

#[test]
fn test_yi_1_4_tone_change_works() {
    let chinese_word = "一点";
    let expected_pinyin = "yi4dian3";
    let tone_pair = (Tone::Tone1, Tone::Tone3);
    let normal_pinyin = get_pinyin_from_chinese_word(chinese_word);
    let result_pinyin = get_pronounced_pinyin(
        chinese_word,
        &normal_pinyin.expect("No pinyin detected"),
        &tone_pair,
    );
    assert_eq!(expected_pinyin, &result_pinyin);
}

#[test]
fn test_bu_4_2_tone_change_works() {
    let chinese_word = "不要";
    let expected_pinyin = "bu2yao4";
    let tone_pair = (Tone::Tone4, Tone::Tone4);
    let normal_pinyin = get_pinyin_from_chinese_word(chinese_word);
    let result_pinyin = get_pronounced_pinyin(
        chinese_word,
        &normal_pinyin.expect("No pinyin detected"),
        &tone_pair,
    );
    assert_eq!(expected_pinyin, &result_pinyin);
}
