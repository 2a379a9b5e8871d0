//! Pronounced forms of two-syllable words, and tones read from pinyin with digits.
use vstd::prelude::*;
use crate::text::{
    chars_of, push_char, replace_first, replace_first_in, string_of, strip_alphabetic,
    without_alphabetic,
};
use crate::tone::{digit_tone, is_tone_digit, lemma_tone_digit_readings, lenient_tone, tone_digit, Tone};

verus! {

/// The character 不 (bu).
pub const BU: char = '\u{4e0d}';

/// The character 一 (yi).
pub const YI: char = '\u{4e00}';

/// Whether the first character of `word` is `c`.
pub open spec fn starts_with(word: Seq<char>, c: char) -> bool {
    word.len() > 0 && word[0] == c
}

/// The pronounced pinyin of a word: the tone-change rules applied in turn to its
/// dictionary pinyin, each rule deciding on the word and the dictionary tones.
pub open spec fn sandhi(word: Seq<char>, pinyin: Seq<char>, tone_pair: (Tone, Tone)) -> Seq<char> {
    let after_bu = if starts_with(word, BU) && tone_pair.1 == Tone::Tone4 {
        replace_first(pinyin, '4', '2')
    } else {
        pinyin
    };
    let after_yi = if starts_with(word, YI) {
        if tone_pair.1 == Tone::Tone4 {
            replace_first(after_bu, '1', '2')
        } else {
            replace_first(after_bu, '1', '4')
        }
    } else {
        after_bu
    };
    if tone_pair.0 == Tone::Tone3 && tone_pair.1 == Tone::Tone3 {
        replace_first(after_yi, '3', '2')
    } else {
        after_yi
    }
}

/// Whether every character of `d` is a tone digit.
pub open spec fn all_tone_digits(d: Seq<char>) -> bool {
    forall|i: int| 0 <= i < d.len() ==> is_tone_digit(#[trigger] d[i])
}

/// The tones that a sequence of tone digits writes.
pub open spec fn tones_of_digits(d: Seq<char>) -> Seq<Tone> {
    d.map_values(|c: char| lenient_tone(c))
}

/// A lone tone stands for a syllable followed by one whose neutral tone was left
/// unwritten: the neutral tone is added after it.
pub open spec fn with_neutral(ts: Seq<Tone>) -> Seq<Tone> {
    if ts.len() == 1 {
        ts.push(Tone::NeutralTone)
    } else {
        ts
    }
}

/// The tones of a pinyin string with tone digits.
pub open spec fn pinyin_tones(p: Seq<char>) -> Seq<Tone> {
    with_neutral(tones_of_digits(without_alphabetic(p)))
}

/// The tone digits of a pinyin string, with '5' added after a lone digit.
pub open spec fn tones_only(p: Seq<char>) -> Seq<char> {
    let d = without_alphabetic(p);
    if d.len() == 1 {
        d.push('5')
    } else {
        d
    }
}

/// Whether the first character of `word` is 不.
pub fn bu_is_first_hanzi(word: &str) -> (r: bool)
    ensures
        r == starts_with(word@, BU),
{
    word.unicode_len() > 0 && word.get_char(0) == BU
}

/// Whether the first character of `word` is 一.
pub fn yi_is_first_hanzi(word: &str) -> (r: bool)
    ensures
        r == starts_with(word@, YI),
{
    word.unicode_len() > 0 && word.get_char(0) == YI
}

/// The pinyin of `word` as it is pronounced, from its dictionary pinyin and tones.
pub fn get_pronounced_pinyin(word: &str, pinyin: &str, tone_pair: &(Tone, Tone)) -> (r: String)
    ensures
        r@ == sandhi(word@, pinyin@, *tone_pair),
{
    let mut v = chars_of(pinyin);
    // 不 before a fourth tone is said in the second tone.
    if bu_is_first_hanzi(word) && tone_pair.1 == Tone::Tone4 {
        replace_first_in(&mut v, Tone::Tone4.digit(), Tone::Tone2.digit());
    }
    if yi_is_first_hanzi(word) {
        if tone_pair.1 == Tone::Tone4 {
            // 一 before a fourth tone is said in the second tone.
            replace_first_in(&mut v, Tone::Tone1.digit(), Tone::Tone2.digit());
        } else {
            // 一 before any other tone is said in the fourth tone; the corpus holds
            // no word where it is an ordinal.
            replace_first_in(&mut v, Tone::Tone1.digit(), Tone::Tone4.digit());
        }
    }
    // A third tone before a third tone is said in the second tone.
    if tone_pair.0 == Tone::Tone3 && tone_pair.1 == Tone::Tone3 {
        replace_first_in(&mut v, Tone::Tone3.digit(), Tone::Tone2.digit());
    }
    string_of(&v, 0, v.len())
}

/// Whether every character of `s` is a tone digit.
pub fn only_tone_digits(s: &str) -> (r: bool)
    ensures
        r == all_tone_digits(s@),
{
    let v = chars_of(s);
    let mut i: usize = 0;
    while i < v.len()
        invariant
            v@ == s@,
            i <= v@.len(),
            forall|j: int| 0 <= j < i ==> is_tone_digit(#[trigger] v@[j]),
        decreases v@.len() - i,
    {
        if Tone::from_digit(v[i]).is_none() {
            return false;
        }
        i = i + 1;
    }
    true
}

/// The tones of a pinyin string: the tone digits that remain once the letters are
/// taken out, with the neutral tone added after a lone digit.
pub fn get_tones_from_pinyin(pinyin_with_nums: &str) -> (r: Vec<Tone>)
    requires
        all_tone_digits(without_alphabetic(pinyin_with_nums@)),
    ensures
        r@ == pinyin_tones(pinyin_with_nums@),
{
    let digits = strip_alphabetic(pinyin_with_nums);
    let v = chars_of(digits.as_str());
    let ghost d = without_alphabetic(pinyin_with_nums@);
    let mut tones: Vec<Tone> = Vec::new();
    let mut i: usize = 0;
    while i < v.len()
        invariant
            v@ == d,
            all_tone_digits(d),
            i <= v@.len(),
            tones@ == tones_of_digits(d.take(i as int)),
        decreases v@.len() - i,
    {
        proof {
            lemma_tone_digit_readings(v@[i as int]);
        }
        match Tone::from_digit(v[i]) {
            Some(t) => tones.push(t),
            None => {},
        }
        i = i + 1;
        assert(tones@ =~= tones_of_digits(d.take(i as int)));
    }
    assert(d.take(v@.len() as int) =~= d);
    if tones.len() == 1 {
        tones.push(Tone::NeutralTone);
    }
    tones
}

/// The answer expected in the tone-only exercise: the tone digits of a pronounced
/// pinyin, with the neutral tone's '5' added after a lone digit.
pub fn get_tones_only_from_pronounced_pinyin(pinyin: &str) -> (r: String)
    ensures
        r@ == tones_only(pinyin@),
{
    let mut digits = strip_alphabetic(pinyin);
    if digits.as_str().unicode_len() == 1 {
        push_char(&mut digits, Tone::NeutralTone.digit());
    }
    digits
}

/// Writing back the digits of the tones of a pinyin string whose non-letter
/// characters are tone digits gives its tone-only answer.
pub proof fn lemma_tones_digits_are_tones_only(p: Seq<char>)
    ensures
        all_tone_digits(without_alphabetic(p)) ==> pinyin_tones(p).map_values(
            |t: Tone| tone_digit(t),
        ) == tones_only(p),
{
    let d = without_alphabetic(p);
    if all_tone_digits(d) {
        assert forall|i: int| 0 <= i < d.len() implies tone_digit(
            #[trigger] tones_of_digits(d)[i],
        ) == d[i] by {
            lemma_tone_digit_readings(d[i]);
        }
        assert(pinyin_tones(p).map_values(|t: Tone| tone_digit(t)) =~= tones_only(p));
    }
}

/// A pinyin string whose non-letter characters are two tone digits gives exactly
/// two tones, and writing their digits back gives those two characters in order.
pub proof fn lemma_two_digit_pinyin_tones(p: Seq<char>)
    ensures
        without_alphabetic(p).len() == 2 && all_tone_digits(without_alphabetic(p)) ==> {
            &&& pinyin_tones(p).len() == 2
            &&& pinyin_tones(p).map_values(|t: Tone| tone_digit(t)) == without_alphabetic(p)
        },
{
    lemma_tones_digits_are_tones_only(p);
}

/// Where the non-letter characters of a pinyin string are tone digits, reading
/// each character of its tone-only answer as a tone gives the tones of the string.
pub proof fn lemma_tones_only_reads_back(p: Seq<char>)
    ensures
        all_tone_digits(without_alphabetic(p)) ==> {
            &&& tones_only(p).len() == pinyin_tones(p).len()
            &&& forall|i: int|
                0 <= i < tones_only(p).len() ==> digit_tone(#[trigger] tones_only(p)[i]) == Some(
                    pinyin_tones(p)[i],
                )
        },
{
    let d = without_alphabetic(p);
    if all_tone_digits(d) {
        assert forall|i: int| 0 <= i < tones_only(p).len() implies digit_tone(
            #[trigger] tones_only(p)[i],
        ) == Some(pinyin_tones(p)[i]) by {
            if i < d.len() {
                lemma_tone_digit_readings(d[i]);
            }
        }
    }
}

} // verus!
