//! Exercise settings, answered items and grading.
use vstd::prelude::*;
use crate::corpus::HanziPair;
use crate::pinyin::{get_tones_only_from_pronounced_pinyin, tones_only};
use crate::text::{str_eq, strip_numeric, without_numeric};

verus! {

/// Error raised when a string names no setting of an exercise.
#[derive(Clone, Copy, PartialEq, Eq, Debug, Structural)]
pub enum ExerciseError {
    ParseExerciseTypeError,
    ParseInputStyleError,
    ParseAudioQualityError,
    ParseShuffleModeError,
    Unknown,
}

/// What the learner is asked to give for each word.
#[derive(Clone, Copy, PartialEq, Eq, Debug, Structural)]
pub enum ExerciseType {
    /// The two tone digits.
    ToneOnly,
    /// The pinyin without tone digits.
    NoTonePinyin,
    /// The pinyin with tone digits.
    Pinyin,
}

/// How the learner enters answers.
#[derive(Clone, Copy, PartialEq, Eq, Debug, Structural)]
pub enum InputStyle {
    Keyboard,
    Touch,
}

/// The bit rate of the recordings played to the learner.
#[derive(Clone, Copy, PartialEq, Eq, Debug, Structural)]
pub enum AudioQuality {
    Q18k,
    Q24k,
    Q64k,
    Q96k,
}

/// The settings of one exercise session.
#[derive(Clone, Copy, PartialEq, Eq, Debug, Structural)]
pub struct ExerciseParams {
    pub exercise_size: u32,
    pub exercise_type: ExerciseType,
    pub input_style: InputStyle,
    pub timer_on: bool,
    pub audio_quality: AudioQuality,
}

/// One answered item: the pair presented, the answer given, and whether it was right.
#[derive(Clone, PartialEq, Eq, Debug)]
pub struct ShuangElement {
    pub hanzi_pair: HanziPair,
    pub user_answer: String,
    pub is_correct: bool,
}

/// The name under which an exercise type is stored.
pub open spec fn exercise_type_name(t: ExerciseType) -> Seq<char> {
    match t {
        ExerciseType::ToneOnly => "tone_only"@,
        ExerciseType::NoTonePinyin => "no_tone_pinyin"@,
        ExerciseType::Pinyin => "pinyin"@,
    }
}

/// The name under which an input style is stored.
pub open spec fn input_style_name(s: InputStyle) -> Seq<char> {
    match s {
        InputStyle::Keyboard => "keyboard"@,
        InputStyle::Touch => "touch"@,
    }
}

/// The name of an audio quality, as it appears in the recordings' addresses.
pub open spec fn audio_quality_name(q: AudioQuality) -> Seq<char> {
    match q {
        AudioQuality::Q18k => "18k-abr"@,
        AudioQuality::Q24k => "24k-abr"@,
        AudioQuality::Q64k => "64k"@,
        AudioQuality::Q96k => "96k"@,
    }
}

/// The answer expected for a word with the given pronounced pinyin.
pub open spec fn expected_answer_of(pronounced: Seq<char>, t: ExerciseType) -> Seq<char> {
    match t {
        ExerciseType::ToneOnly => tones_only(pronounced),
        ExerciseType::NoTonePinyin => without_numeric(pronounced),
        ExerciseType::Pinyin => pronounced,
    }
}

impl ExerciseType {
    /// The stored name of this exercise type.
    pub fn to_string(&self) -> (r: String)
        ensures
            r@ == exercise_type_name(*self),
    {
        match self {
            ExerciseType::ToneOnly => String::from_str("tone_only"),
            ExerciseType::NoTonePinyin => String::from_str("no_tone_pinyin"),
            ExerciseType::Pinyin => String::from_str("pinyin"),
        }
    }

    /// The exercise type stored under `s`.
    pub fn from_str(s: &str) -> (r: Result<ExerciseType, ExerciseError>)
        ensures
            match r {
                Ok(t) => exercise_type_name(t) == s@,
                Err(e) => e == ExerciseError::ParseExerciseTypeError && forall|t: ExerciseType|
                    exercise_type_name(t) != s@,
            },
    {
        if str_eq(s, "tone_only") {
            Ok(ExerciseType::ToneOnly)
        } else if str_eq(s, "no_tone_pinyin") {
            Ok(ExerciseType::NoTonePinyin)
        } else if str_eq(s, "pinyin") {
            Ok(ExerciseType::Pinyin)
        } else {
            Err(ExerciseError::ParseExerciseTypeError)
        }
    }
}

impl InputStyle {
    /// The stored name of this input style.
    pub fn to_string(&self) -> (r: String)
        ensures
            r@ == input_style_name(*self),
    {
        match self {
            InputStyle::Keyboard => String::from_str("keyboard"),
            InputStyle::Touch => String::from_str("touch"),
        }
    }

    /// The input style stored under `s`.
    pub fn from_str(s: &str) -> (r: Result<InputStyle, ExerciseError>)
        ensures
            match r {
                Ok(t) => input_style_name(t) == s@,
                Err(e) => e == ExerciseError::ParseInputStyleError && forall|t: InputStyle|
                    input_style_name(t) != s@,
            },
    {
        if str_eq(s, "keyboard") {
            Ok(InputStyle::Keyboard)
        } else if str_eq(s, "touch") {
            Ok(InputStyle::Touch)
        } else {
            Err(ExerciseError::ParseInputStyleError)
        }
    }
}

impl AudioQuality {
    /// The name of this audio quality.
    pub fn to_string(&self) -> (r: String)
        ensures
            r@ == audio_quality_name(*self),
    {
        match self {
            AudioQuality::Q18k => String::from_str("18k-abr"),
            AudioQuality::Q24k => String::from_str("24k-abr"),
            AudioQuality::Q64k => String::from_str("64k"),
            AudioQuality::Q96k => String::from_str("96k"),
        }
    }

    /// The audio quality named `s`.
    pub fn from_str(s: &str) -> (r: Result<AudioQuality, ExerciseError>)
        ensures
            match r {
                Ok(q) => audio_quality_name(q) == s@,
                Err(e) => e == ExerciseError::ParseAudioQualityError && forall|q: AudioQuality|
                    audio_quality_name(q) != s@,
            },
    {
        if str_eq(s, "18k-abr") {
            Ok(AudioQuality::Q18k)
        } else if str_eq(s, "24k-abr") {
            Ok(AudioQuality::Q24k)
        } else if str_eq(s, "64k") {
            Ok(AudioQuality::Q64k)
        } else if str_eq(s, "96k") {
            Ok(AudioQuality::Q96k)
        } else {
            Err(ExerciseError::ParseAudioQualityError)
        }
    }
}

impl Default for ExerciseType {
    fn default() -> (r: ExerciseType)
        ensures
            r == ExerciseType::ToneOnly,
    {
        ExerciseType::ToneOnly
    }
}

impl Default for InputStyle {
    fn default() -> (r: InputStyle)
        ensures
            r == InputStyle::Keyboard,
    {
        InputStyle::Keyboard
    }
}

impl Default for AudioQuality {
    fn default() -> (r: AudioQuality)
        ensures
            r == AudioQuality::Q64k,
    {
        AudioQuality::Q64k
    }
}

impl Default for ExerciseParams {
    fn default() -> (r: ExerciseParams)
        ensures
            r == (ExerciseParams {
                exercise_size: 10,
                exercise_type: ExerciseType::ToneOnly,
                input_style: InputStyle::Keyboard,
                timer_on: false,
                audio_quality: AudioQuality::Q64k,
            }),
    {
        ExerciseParams {
            exercise_size: 10,
            exercise_type: ExerciseType::ToneOnly,
            input_style: InputStyle::Keyboard,
            timer_on: false,
            audio_quality: AudioQuality::Q64k,
        }
    }
}

/// The answer expected for a word with the given pronounced pinyin: its tone
/// digits, its letters without the digits, or the whole pinyin.
pub fn expected_answer(pronounced_pinyin: &str, exercise_type: ExerciseType) -> (r: String)
    ensures
        r@ == expected_answer_of(pronounced_pinyin@, exercise_type),
{
    match exercise_type {
        ExerciseType::ToneOnly => get_tones_only_from_pronounced_pinyin(pronounced_pinyin),
        ExerciseType::NoTonePinyin => strip_numeric(pronounced_pinyin),
        ExerciseType::Pinyin => String::from_str(pronounced_pinyin),
    }
}

/// Whether `answer` is the answer expected for `hanzi_pair` in this exercise type.
pub fn grade_answer(hanzi_pair: &HanziPair, exercise_type: ExerciseType, answer: &str) -> (r: bool)
    ensures
        r == (answer@ == expected_answer_of(hanzi_pair.pronounced_pinyin@, exercise_type)),
{
    let expected = expected_answer(hanzi_pair.pronounced_pinyin.as_str(), exercise_type);
    str_eq(answer, expected.as_str())
}

} // verus!
