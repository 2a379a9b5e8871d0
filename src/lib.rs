//! Tone-sandhi and exercise engine for a Mandarin two-syllable pronunciation drill.
//!
//! The library turns corpus lines into Hanzi pairs, applies the tone-change rules
//! that give the pronounced form of each pair, derives tones from pinyin with tone
//! digits, draws exercise sequences from a corpus, and scores finished sessions.
pub mod audio;
pub mod corpus;
pub mod exercise;
pub mod pinyin;
pub mod sampling;
pub mod summary;
pub mod text;
pub mod tone;

pub use audio::{format_toned_syllable_url, format_word_url};
pub use corpus::{build_corpus, CorpusParseError, HanziPair, TextHandlingError};
pub use exercise::{
    expected_answer, grade_answer, AudioQuality, ExerciseError, ExerciseParams, ExerciseType,
    InputStyle, ShuangElement,
};
pub use pinyin::{
    bu_is_first_hanzi, get_pronounced_pinyin, get_tones_from_pinyin,
    get_tones_only_from_pronounced_pinyin, yi_is_first_hanzi,
};
pub use sampling::{
    get_random_hanzi_pairs_idxs, group_by_pronounced_tone_pair, ShuffleMode, ToneGroup,
    WHILE_BREAK_LIMIT,
};
pub use summary::{ExerciseSummary, UserData};
pub use text::get_length_of_chinese_string;
pub use tone::{Tone, ToneError};
