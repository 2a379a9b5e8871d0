use shuangshuang::{
    expected_answer, format_toned_syllable_url, format_word_url, grade_answer, AudioQuality,
    ExerciseError, ExerciseParams, ExerciseType, HanziPair, InputStyle, ShuffleMode,
};

fn pair(line: &str) -> HanziPair {
    HanziPair::from_corpus_line(line).unwrap()
}

#[test]
fn exercise_type_names_round_trip() {
    for t in [ExerciseType::ToneOnly, ExerciseType::NoTonePinyin, ExerciseType::Pinyin] {
        assert_eq!(ExerciseType::from_str(&t.to_string()), Ok(t));
    }
    assert_eq!(ExerciseType::ToneOnly.to_string(), "tone_only");
    assert_eq!(ExerciseType::NoTonePinyin.to_string(), "no_tone_pinyin");
    assert_eq!(
        ExerciseType::from_str("tones"),
        Err(ExerciseError::ParseExerciseTypeError)
    );
}

#[test]
fn input_style_names_round_trip() {
    assert_eq!(InputStyle::from_str("keyboard"), Ok(InputStyle::Keyboard));
    assert_eq!(InputStyle::from_str("touch"), Ok(InputStyle::Touch));
    assert_eq!(InputStyle::Touch.to_string(), "touch");
    assert_eq!(
        InputStyle::from_str("mouse"),
        Err(ExerciseError::ParseInputStyleError)
    );
}

#[test]
fn audio_quality_names_round_trip() {
    for q in [
        AudioQuality::Q18k,
        AudioQuality::Q24k,
        AudioQuality::Q64k,
        AudioQuality::Q96k,
    ] {
        assert_eq!(AudioQuality::from_str(&q.to_string()), Ok(q));
    }
    assert_eq!(AudioQuality::Q18k.to_string(), "18k-abr");
    assert_eq!(
        AudioQuality::from_str("128k"),
        Err(ExerciseError::ParseAudioQualityError)
    );
}

#[test]
fn shuffle_mode_names_round_trip() {
    assert_eq!(ShuffleMode::from_str("random"), Ok(ShuffleMode::Random));
    assert_eq!(ShuffleMode::from_str("even"), Ok(ShuffleMode::Even));
    assert_eq!(ShuffleMode::Even.to_string(), "even");
    assert_eq!(
        ShuffleMode::from_str("odd"),
        Err(ExerciseError::ParseShuffleModeError)
    );
}

#[test]
fn default_params() {
    let p = ExerciseParams::default();
    assert_eq!(p.exercise_size, 10);
    assert_eq!(p.exercise_type, ExerciseType::ToneOnly);
    assert_eq!(p.input_style, InputStyle::Keyboard);
    assert!(!p.timer_on);
    assert_eq!(p.audio_quality, AudioQuality::Q64k);
}

#[test]
fn expected_answers_per_exercise_type() {
    assert_eq!(expected_answer("ni2hao3", ExerciseType::ToneOnly), "23");
    assert_eq!(expected_answer("ni2hao3", ExerciseType::NoTonePinyin), "nihao");
    assert_eq!(expected_answer("ni2hao3", ExerciseType::Pinyin), "ni2hao3");
    assert_eq!(expected_answer("ma1ma", ExerciseType::ToneOnly), "15");
}

#[test]
fn answers_are_graded_against_the_pronounced_form() {
    let p = pair("你好 ni3hao3 33");
    assert!(grade_answer(&p, ExerciseType::ToneOnly, "23"));
    assert!(!grade_answer(&p, ExerciseType::ToneOnly, "33"));
    assert!(grade_answer(&p, ExerciseType::NoTonePinyin, "nihao"));
    assert!(!grade_answer(&p, ExerciseType::NoTonePinyin, "ni2hao3"));
    assert!(grade_answer(&p, ExerciseType::Pinyin, "ni2hao3"));
    assert!(!grade_answer(&p, ExerciseType::Pinyin, "ni3hao3"));
}

#[test]
fn word_url_is_exact() {
    assert_eq!(
        format_word_url("你好", AudioQuality::Q24k),
        "https://github.com/hugolpz/audio-cmn/raw/refs/heads/master/24k-abr/hsk/cmn-你好.mp3"
    );
}

#[test]
fn syllable_url_is_exact() {
    assert_eq!(
        format_toned_syllable_url("ni", "2"),
        "https://github.com/hugolpz/audio-cmn/raw/refs/heads/master/64k/syllabs/cmn-ni2.mp3"
    );
}
