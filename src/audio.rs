//! Addresses of the recordings played during an exercise.
use vstd::prelude::*;
use crate::exercise::{audio_quality_name, AudioQuality};

verus! {

/// The address of the recording of a whole word, at the given quality.
pub open spec fn word_url(word: Seq<char>, quality: AudioQuality) -> Seq<char> {
    "https://github.com/hugolpz/audio-cmn/raw/refs/heads/master/"@ + audio_quality_name(quality)
        + "/hsk/cmn-"@ + word + ".mp3"@
}

/// The address of the recording of one syllable said in one tone.
pub open spec fn toned_syllable_url(syllable: Seq<char>, tone: Seq<char>) -> Seq<char> {
    "https://github.com/hugolpz/audio-cmn/raw/refs/heads/master/64k/syllabs/cmn-"@ + syllable + tone
        + ".mp3"@
}

/// The address of the recording of `chinese_word` at the given quality.
pub fn format_word_url(chinese_word: &str, audio_quality: AudioQuality) -> (r: String)
    ensures
        r@ == word_url(chinese_word@, audio_quality),
{
    let mut r = String::from_str("https://github.com/hugolpz/audio-cmn/raw/refs/heads/master/");
    let quality = audio_quality.to_string();
    r.append(quality.as_str());
    r.append("/hsk/cmn-");
    r.append(chinese_word);
    r.append(".mp3");
    r
}

/// The address of the recording of `syllable` said in `tone`, a tone digit.
pub fn format_toned_syllable_url(syllable: &str, tone: &str) -> (r: String)
    ensures
        r@ == toned_syllable_url(syllable@, tone@),
{
    let mut r = String::from_str(
        "https://github.com/hugolpz/audio-cmn/raw/refs/heads/master/64k/syllabs/cmn-",
    );
    r.append(syllable);
    r.append(tone);
    r.append(".mp3");
    r
}

} // verus!
