//! The five lexical tones and their one-digit notation.
use vstd::prelude::*;

verus! {

/// Error raised when a string does not name a tone.
#[derive(Clone, Copy, PartialEq, Eq, Debug, Structural)]
pub enum ToneError {
    ParseToneError,
    Unknown,
}

/// A Mandarin tone: the four lexical tones and the neutral tone.
#[derive(Clone, Copy, PartialEq, Eq, Debug, Hash, Structural)]
pub enum Tone {
    Tone1,
    Tone2,
    Tone3,
    Tone4,
    NeutralTone,
}

/// The digit that writes a tone: '1' to '4', and '5' for the neutral tone.
pub open spec fn tone_digit(t: Tone) -> char {
    match t {
        Tone::Tone1 => '1',
        Tone::Tone2 => '2',
        Tone::Tone3 => '3',
        Tone::Tone4 => '4',
        Tone::NeutralTone => '5',
    }
}

/// Whether `c` is one of the tone digits '1' to '5'.
pub open spec fn is_tone_digit(c: char) -> bool {
    '1' <= c && c <= '5'
}

/// The tone that a digit writes, where it writes one.
pub open spec fn digit_tone(c: char) -> Option<Tone> {
    if c == '1' {
        Some(Tone::Tone1)
    } else if c == '2' {
        Some(Tone::Tone2)
    } else if c == '3' {
        Some(Tone::Tone3)
    } else if c == '4' {
        Some(Tone::Tone4)
    } else if c == '5' {
        Some(Tone::NeutralTone)
    } else {
        None
    }
}

/// The lenient reading of a character: '1' to '4' give their tone, anything else
/// the neutral tone.
pub open spec fn lenient_tone(c: char) -> Tone {
    if c == '1' {
        Tone::Tone1
    } else if c == '2' {
        Tone::Tone2
    } else if c == '3' {
        Tone::Tone3
    } else if c == '4' {
        Tone::Tone4
    } else {
        Tone::NeutralTone
    }
}

/// The strict reading of a string: exactly one tone digit.
pub open spec fn parse_tone(s: Seq<char>) -> Option<Tone> {
    if s.len() == 1 {
        digit_tone(s[0])
    } else {
        None
    }
}

/// On tone digits the strict and the lenient readings agree, and the digit is
/// written back unchanged.
pub proof fn lemma_tone_digit_readings(c: char)
    requires
        is_tone_digit(c),
    ensures
        digit_tone(c) == Some(lenient_tone(c)),
        tone_digit(lenient_tone(c)) == c,
{
}

impl Tone {
    /// Reads a tone strictly: the string must be one digit from '1' to '5'.
    pub fn from_str(s: &str) -> (r: Result<Tone, ToneError>)
        ensures
            parse_tone(s@) is Some ==> r == Ok::<Tone, ToneError>(parse_tone(s@)->Some_0),
            parse_tone(s@) is None ==> r == Err::<Tone, ToneError>(ToneError::ParseToneError),
    {
        if s.unicode_len() != 1 {
            return Err(ToneError::ParseToneError);
        }
        match Tone::from_digit(s.get_char(0)) {
            Some(t) => Ok(t),
            None => Err(ToneError::ParseToneError),
        }
    }

    /// Reads one character strictly: `None` unless it is a digit from '1' to '5'.
    pub fn from_digit(c: char) -> (r: Option<Tone>)
        ensures
            r == digit_tone(c),
    {
        match c {
            '1' => Some(Tone::Tone1),
            '2' => Some(Tone::Tone2),
            '3' => Some(Tone::Tone3),
            '4' => Some(Tone::Tone4),
            '5' => Some(Tone::NeutralTone),
            _ => None,
        }
    }

    /// Reads one character leniently: anything but '1' to '4' is the neutral tone.
    pub fn from_char(c: char) -> (r: Tone)
        ensures
            r == lenient_tone(c),
    {
        match c {
            '1' => Tone::Tone1,
            '2' => Tone::Tone2,
            '3' => Tone::Tone3,
            '4' => Tone::Tone4,
            _ => Tone::NeutralTone,
        }
    }

    /// The digit that writes this tone.
    pub fn digit(&self) -> (r: char)
        ensures
            r == tone_digit(*self),
    {
        match self {
            Tone::Tone1 => '1',
            Tone::Tone2 => '2',
            Tone::Tone3 => '3',
            Tone::Tone4 => '4',
            Tone::NeutralTone => '5',
        }
    }

    /// The one-digit string that writes this tone.
    pub fn to_string(&self) -> (r: String)
        ensures
            r@ == seq![tone_digit(*self)],
    {
        let r = match self {
            Tone::Tone1 => "1",
            Tone::Tone2 => "2",
            Tone::Tone3 => "3",
            Tone::Tone4 => "4",
            Tone::NeutralTone => "5",
        };
        proof {
            reveal_strlit("1");
            reveal_strlit("2");
            reveal_strlit("3");
            reveal_strlit("4");
            reveal_strlit("5");
        }
        String::from_str(r)
    }
}

impl Default for Tone {
    fn default() -> (r: Tone)
        ensures
            r == Tone::NeutralTone,
    {
        Tone::NeutralTone
    }
}

impl From<char> for Tone {
    fn from(value: char) -> (r: Tone) {
        Tone::from_char(value)
    }
}

impl vstd::std_specs::convert::FromSpecImpl<char> for Tone {
    open spec fn obeys_from_spec() -> bool {
        true
    }

    open spec fn from_spec(v: char) -> Tone {
        lenient_tone(v)
    }
}

} // verus!
