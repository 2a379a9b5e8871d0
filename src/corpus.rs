//! Hanzi pairs and the corpus lines they are read from.
use vstd::prelude::*;
use crate::pinyin::{
    all_tone_digits, get_pronounced_pinyin, get_tones_from_pinyin, pinyin_tones, sandhi,
    only_tone_digits,
};
use crate::text::{chars_of, split_fields, split_on, strip_alphabetic, without_alphabetic};
use crate::tone::{lenient_tone, Tone};

verus! {

/// Error raised when the text of a word does not give a usable pair.
#[derive(Clone, Copy, PartialEq, Eq, Debug, Structural)]
pub enum TextHandlingError {
    WordIsNotTwoHanziLong,
    PinyinToneNumbersUnmatch,
    Unknown,
}

/// Error raised by a corpus line that cannot be read into a pair.
#[derive(Clone, Copy, PartialEq, Eq, Debug, Structural)]
pub enum CorpusParseError {
    /// The line has fewer than three space-separated fields.
    MissingField,
    /// The tone field has fewer than two characters.
    ToneFieldTooShort,
    /// The pronounced pinyin does not give exactly two tones.
    PinyinToneNumbersUnmatch,
}

/// One corpus entry: a two-character word, its dictionary pinyin and tones, and the
/// pinyin and tones it is pronounced with.
#[derive(PartialEq, Eq, Debug)]
pub struct HanziPair {
    pub characters: String,
    pub pinyin: String,
    pub pronounced_pinyin: String,
    pub tone_pair: (Tone, Tone),
    pub pronounced_tone_pair: (Tone, Tone),
}

/// Whether a pronounced pinyin gives exactly two tones: its non-letter characters
/// are one or two tone digits.
pub open spec fn gives_two_tones(pronounced: Seq<char>) -> bool {
    let d = without_alphabetic(pronounced);
    &&& all_tone_digits(d)
    &&& 1 <= d.len() <= 2
}

/// What a corpus line is read into: its characters, its pinyin and its dictionary
/// tones, or the error that it raises.
pub open spec fn line_outcome(line: Seq<char>) -> Result<
    (Seq<char>, Seq<char>, (Tone, Tone)),
    CorpusParseError,
> {
    let f = split_on(line, ' ');
    if f.len() < 3 {
        Err(CorpusParseError::MissingField)
    } else if f[2].len() < 2 {
        Err(CorpusParseError::ToneFieldTooShort)
    } else {
        let tone_pair = (lenient_tone(f[2][0]), lenient_tone(f[2][1]));
        if gives_two_tones(sandhi(f[0], f[1], tone_pair)) {
            Ok((f[0], f[1], tone_pair))
        } else {
            Err(CorpusParseError::PinyinToneNumbersUnmatch)
        }
    }
}

impl HanziPair {
    /// The pronounced fields are those derived from the dictionary fields.
    pub open spec fn wf(&self) -> bool {
        &&& self.pronounced_pinyin@ == sandhi(self.characters@, self.pinyin@, self.tone_pair)
        &&& gives_two_tones(self.pronounced_pinyin@)
        &&& pinyin_tones(self.pronounced_pinyin@) == seq![
            self.pronounced_tone_pair.0,
            self.pronounced_tone_pair.1,
        ]
    }

    /// Whether this pair holds the given characters, pinyin and dictionary tones,
    /// with the pronounced fields derived from them.
    pub open spec fn is_pair_of(&self, parts: (Seq<char>, Seq<char>, (Tone, Tone))) -> bool {
        &&& self.characters@ == parts.0
        &&& self.pinyin@ == parts.1
        &&& self.tone_pair == parts.2
        &&& self.wf()
    }

    /// Builds a pair from its dictionary form, deriving the pronounced pinyin and
    /// the tones read back from it.
    pub fn new(characters: String, pinyin: String, tone_pair: (Tone, Tone)) -> (r: Result<
        HanziPair,
        TextHandlingError,
    >)
        ensures
            gives_two_tones(sandhi(characters@, pinyin@, tone_pair)) ==> r is Ok && r->Ok_0.is_pair_of(
                (characters@, pinyin@, tone_pair),
            ),
            !gives_two_tones(sandhi(characters@, pinyin@, tone_pair)) ==> r == Err::<
                HanziPair,
                TextHandlingError,
            >(TextHandlingError::PinyinToneNumbersUnmatch),
    {
        let pronounced_pinyin = get_pronounced_pinyin(characters.as_str(), pinyin.as_str(), &tone_pair);
        let digits = strip_alphabetic(pronounced_pinyin.as_str());
        let n = digits.as_str().unicode_len();
        if !only_tone_digits(digits.as_str()) || n < 1 || n > 2 {
            return Err(TextHandlingError::PinyinToneNumbersUnmatch);
        }
        let tones = get_tones_from_pinyin(pronounced_pinyin.as_str());
        let pronounced_tone_pair = (tones[0], tones[1]);
        assert(tones@ =~= seq![pronounced_tone_pair.0, pronounced_tone_pair.1]);
        Ok(HanziPair { characters, pinyin, pronounced_pinyin, tone_pair, pronounced_tone_pair })
    }

    /// Reads one corpus line: the characters, the pinyin and the two tone digits,
    /// separated by spaces. A tone digit other than '1' to '4' reads as the neutral
    /// tone.
    pub fn from_corpus_line(line: &str) -> (r: Result<HanziPair, CorpusParseError>)
        ensures
            match line_outcome(line@) {
                Ok(parts) => r is Ok && r->Ok_0.is_pair_of(parts),
                Err(e) => r == Err::<HanziPair, CorpusParseError>(e),
            },
    {
        let fields = split_fields(line, ' ');
        proof {
            assert(fields@.map_values(|f: String| f@).len() == fields@.len());
        }
        if fields.len() < 3 {
            return Err(CorpusParseError::MissingField);
        }
        proof {
            assert(fields@.map_values(|f: String| f@)[2] == fields@[2]@);
            assert(fields@.map_values(|f: String| f@)[1] == fields@[1]@);
            assert(fields@.map_values(|f: String| f@)[0] == fields@[0]@);
        }
        let tones = chars_of(fields[2].as_str());
        if tones.len() < 2 {
            return Err(CorpusParseError::ToneFieldTooShort);
        }
        let tone_pair = (Tone::from_char(tones[0]), Tone::from_char(tones[1]));
        let characters = fields[0].clone();
        let pinyin = fields[1].clone();
        match HanziPair::new(characters, pinyin, tone_pair) {
            Ok(pair) => Ok(pair),
            Err(_) => Err(CorpusParseError::PinyinToneNumbersUnmatch),
        }
    }
}

/// Reads every line of a corpus into a pair, stopping at the first line that
/// raises an error.
pub fn build_corpus(lines: &Vec<String>) -> (r: Result<Vec<HanziPair>, CorpusParseError>)
    ensures
        r is Ok <==> forall|i: int| 0 <= i < lines@.len() ==> (#[trigger] line_outcome(lines@[i]@)) is Ok,
        r is Ok ==> r->Ok_0@.len() == lines@.len() && forall|i: int|
            0 <= i < lines@.len() ==> (#[trigger] r->Ok_0@[i]).is_pair_of(
                line_outcome(lines@[i]@)->Ok_0,
            ),
        r is Err ==> exists|i: int|
            0 <= i < lines@.len() && line_outcome(lines@[i]@) == Err::<
                (Seq<char>, Seq<char>, (Tone, Tone)),
                CorpusParseError,
            >(r->Err_0) && forall|j: int| 0 <= j < i ==> (#[trigger] line_outcome(lines@[j]@)) is Ok,
{
    let mut pairs: Vec<HanziPair> = Vec::new();
    let mut i: usize = 0;
    while i < lines.len()
        invariant
            i <= lines@.len(),
            pairs@.len() == i,
            forall|j: int| 0 <= j < i ==> (#[trigger] line_outcome(lines@[j]@)) is Ok,
            forall|j: int|
                0 <= j < i ==> (#[trigger] pairs@[j]).is_pair_of(line_outcome(lines@[j]@)->Ok_0),
        decreases lines@.len() - i,
    {
        match HanziPair::from_corpus_line(lines[i].as_str()) {
            Ok(pair) => pairs.push(pair),
            Err(e) => {
                assert(line_outcome(lines@[i as int]@) is Err);
                return Err(e);
            },
        }
        i = i + 1;
    }
    Ok(pairs)
}

impl Clone for HanziPair {
    fn clone(&self) -> (r: HanziPair)
        ensures
            r == *self,
    {
        HanziPair {
            characters: self.characters.clone(),
            pinyin: self.pinyin.clone(),
            pronounced_pinyin: self.pronounced_pinyin.clone(),
            tone_pair: self.tone_pair,
            pronounced_tone_pair: self.pronounced_tone_pair,
        }
    }
}

impl Default for HanziPair {
    fn default() -> (r: HanziPair)
        ensures
            r.characters@.len() == 0,
            r.pinyin@.len() == 0,
            r.pronounced_pinyin@.len() == 0,
            r.tone_pair == (Tone::NeutralTone, Tone::NeutralTone),
            r.pronounced_tone_pair == (Tone::NeutralTone, Tone::NeutralTone),
    {
        HanziPair {
            characters: String::new(),
            pinyin: String::new(),
            pronounced_pinyin: String::new(),
            tone_pair: (Tone::NeutralTone, Tone::NeutralTone),
            pronounced_tone_pair: (Tone::NeutralTone, Tone::NeutralTone),
        }
    }
}

} // verus!
