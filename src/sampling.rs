//! Drawing the sequence of words of an exercise from a corpus.
use vstd::prelude::*;
use rand::rngs::ThreadRng;
use rand::Rng;
use crate::corpus::HanziPair;
use crate::exercise::ExerciseError;
use crate::text::str_eq;
use crate::tone::Tone;

verus! {

/// How many times a draw that hits an index already used is repeated before the
/// index is taken anyway.
pub const WHILE_BREAK_LIMIT: u32 = 50;

/// How the words of an exercise are drawn.
#[derive(Clone, Copy, PartialEq, Eq, Debug, Structural)]
pub enum ShuffleMode {
    /// Uniformly over the whole corpus.
    Random,
    /// First a pronounced tone pair, uniformly over those present, then a word
    /// with that tone pair.
    Even,
}

/// The indices of a corpus whose words are pronounced with one tone pair.
pub struct ToneGroup {
    pub tone_pair: (Tone, Tone),
    pub indices: Vec<usize>,
}

#[verifier::external_type_specification]
#[verifier::external_body]
pub struct ExThreadRng(ThreadRng);

/// Relies on `rand::rng`: a handle on the generator of the current thread.
pub assume_specification[ rand::rng ]() -> ThreadRng;

/// Relies on `rand::Rng::random_range`: a value drawn from `0..n`; it panics on an
/// empty range.
#[verifier::external_body]
fn random_below(rng: &mut ThreadRng, n: usize) -> (r: usize)
    requires
        n > 0,
    ensures
        r < n,
{
    rng.random_range(0..n)
}

/// The name under which a shuffle mode is stored.
pub open spec fn shuffle_mode_name(m: ShuffleMode) -> Seq<char> {
    match m {
        ShuffleMode::Random => "random"@,
        ShuffleMode::Even => "even"@,
    }
}

/// The indices of the words of `s` pronounced with the tone pair `k`, in increasing
/// order.
pub open spec fn indices_with(s: Seq<HanziPair>, k: (Tone, Tone)) -> Seq<usize>
    decreases s.len(),
{
    if s.len() == 0 {
        Seq::empty()
    } else if s.last().pronounced_tone_pair == k {
        indices_with(s.drop_last(), k).push((s.len() - 1) as usize)
    } else {
        indices_with(s.drop_last(), k)
    }
}

/// The pronounced tone pairs of `s`, each once, in the order of their first word.
pub open spec fn distinct_pairs(s: Seq<HanziPair>) -> Seq<(Tone, Tone)>
    decreases s.len(),
{
    if s.len() == 0 {
        Seq::empty()
    } else if distinct_pairs(s.drop_last()).contains(s.last().pronounced_tone_pair) {
        distinct_pairs(s.drop_last())
    } else {
        distinct_pairs(s.drop_last()).push(s.last().pronounced_tone_pair)
    }
}

/// Every index with a tone pair lies in the corpus.
pub proof fn lemma_indices_in_range(s: Seq<HanziPair>, k: (Tone, Tone))
    requires
        s.len() <= usize::MAX,
    ensures
        forall|t: int|
            0 <= t < indices_with(s, k).len() ==> (#[trigger] indices_with(s, k)[t]) < s.len(),
    decreases s.len(),
{
    if s.len() > 0 {
        let prev = indices_with(s.drop_last(), k);
        lemma_indices_in_range(s.drop_last(), k);
        assert forall|t: int| 0 <= t < indices_with(s, k).len() implies (#[trigger] indices_with(
            s,
            k,
        )[t]) < s.len() by {
            if t < prev.len() {
                assert(indices_with(s, k)[t] == prev[t]);
            }
        }
    }
}

/// A tone pair that occurs in the corpus has at least one index, and a corpus with
/// a word has a tone pair.
pub proof fn lemma_groups_not_empty(s: Seq<HanziPair>, k: (Tone, Tone))
    ensures
        distinct_pairs(s).contains(k) ==> indices_with(s, k).len() > 0,
        s.len() > 0 ==> distinct_pairs(s).len() > 0,
    decreases s.len(),
{
    if s.len() > 0 {
        lemma_groups_not_empty(s.drop_last(), k);
        let prev = distinct_pairs(s.drop_last());
        if distinct_pairs(s).contains(k) && s.last().pronounced_tone_pair != k {
            if !prev.contains(s.last().pronounced_tone_pair) {
                let t = choose|t: int| 0 <= t < distinct_pairs(s).len() && distinct_pairs(s)[t] == k;
                assert(prev[t] == k);
            }
        }
        if !prev.contains(s.last().pronounced_tone_pair) {
            assert(distinct_pairs(s).len() == prev.len() + 1);
        }
    }
}

impl ShuffleMode {
    /// The stored name of this shuffle mode.
    pub fn to_string(&self) -> (r: String)
        ensures
            r@ == shuffle_mode_name(*self),
    {
        match self {
            ShuffleMode::Random => String::from_str("random"),
            ShuffleMode::Even => String::from_str("even"),
        }
    }

    /// The shuffle mode stored under `s`.
    pub fn from_str(s: &str) -> (r: Result<ShuffleMode, ExerciseError>)
        ensures
            match r {
                Ok(m) => shuffle_mode_name(m) == s@,
                Err(e) => e == ExerciseError::ParseShuffleModeError && forall|m: ShuffleMode|
                    shuffle_mode_name(m) != s@,
            },
    {
        if str_eq(s, "random") {
            Ok(ShuffleMode::Random)
        } else if str_eq(s, "even") {
            Ok(ShuffleMode::Even)
        } else {
            Err(ExerciseError::ParseShuffleModeError)
        }
    }
}

impl Default for ShuffleMode {
    fn default() -> (r: ShuffleMode)
        ensures
            r == ShuffleMode::Random,
    {
        ShuffleMode::Random
    }
}

/// Whether `pairs` holds the tone pair `k`.
fn holds_pair(pairs: &Vec<(Tone, Tone)>, k: (Tone, Tone)) -> (r: bool)
    ensures
        r == pairs@.contains(k),
{
    let mut j: usize = 0;
    while j < pairs.len()
        invariant
            j <= pairs@.len(),
            forall|t: int| 0 <= t < j ==> pairs@[t] != k,
        decreases pairs@.len() - j,
    {
        if pairs[j].0 == k.0 && pairs[j].1 == k.1 {
            return true;
        }
        j = j + 1;
    }
    false
}

/// Groups the indices of a corpus by the pronounced tone pair of their words: one
/// group per tone pair present, in the order of its first word, each holding the
/// indices of that tone pair in increasing order.
pub fn group_by_pronounced_tone_pair(hanzi_pairs: &Vec<HanziPair>) -> (r: Vec<ToneGroup>)
    ensures
        r@.len() == distinct_pairs(hanzi_pairs@).len(),
        forall|j: int|
            0 <= j < r@.len() ==> (#[trigger] r@[j]).tone_pair == distinct_pairs(hanzi_pairs@)[j]
                && r@[j].indices@ == indices_with(hanzi_pairs@, r@[j].tone_pair),
{
    let ghost s = hanzi_pairs@;
    let mut keys: Vec<(Tone, Tone)> = Vec::new();
    let mut i: usize = 0;
    while i < hanzi_pairs.len()
        invariant
            s == hanzi_pairs@,
            i <= s.len(),
            keys@ == distinct_pairs(s.take(i as int)),
        decreases s.len() - i,
    {
        assert(s.take(i + 1).drop_last() =~= s.take(i as int));
        let k = hanzi_pairs[i].pronounced_tone_pair;
        if !holds_pair(&keys, k) {
            keys.push(k);
        }
        i = i + 1;
    }
    assert(s.take(s.len() as int) =~= s);
    let mut groups: Vec<ToneGroup> = Vec::new();
    let mut j: usize = 0;
    while j < keys.len()
        invariant
            s == hanzi_pairs@,
            keys@ == distinct_pairs(s),
            j <= keys@.len(),
            groups@.len() == j,
            forall|t: int|
                0 <= t < j ==> (#[trigger] groups@[t]).tone_pair == keys@[t]
                    && groups@[t].indices@ == indices_with(s, groups@[t].tone_pair),
        decreases keys@.len() - j,
    {
        let k = keys[j];
        let mut indices: Vec<usize> = Vec::new();
        let mut i: usize = 0;
        while i < hanzi_pairs.len()
            invariant
                s == hanzi_pairs@,
                i <= s.len(),
                indices@ == indices_with(s.take(i as int), k),
            decreases s.len() - i,
        {
            assert(s.take(i + 1).drop_last() =~= s.take(i as int));
            if hanzi_pairs[i].pronounced_tone_pair.0 == k.0
                && hanzi_pairs[i].pronounced_tone_pair.1 == k.1 {
                indices.push(i);
            }
            i = i + 1;
        }
        assert(s.take(s.len() as int) =~= s);
        groups.push(ToneGroup { tone_pair: k, indices });
        j = j + 1;
    }
    groups
}

/// Draws an index of `pool`, drawing again while it hits an index marked in
/// `used`, at most `WHILE_BREAK_LIMIT` times. Returns the index and the number of
/// draws repeated: the index is a fresh one unless every repetition was spent.
fn draw_slot(rng: &mut ThreadRng, pool: &Vec<usize>, used: &Vec<bool>) -> (r: (usize, u32))
    requires
        pool@.len() > 0,
        forall|t: int| 0 <= t < pool@.len() ==> #[trigger] pool@[t] < used@.len(),
    ensures
        pool@.contains(r.0),
        r.1 <= WHILE_BREAK_LIMIT,
        used@[r.0 as int] ==> r.1 == WHILE_BREAK_LIMIT,
{
    let first = random_below(rng, pool.len());
    let mut idx = pool[first];
    let mut retries: u32 = 0;
    while used[idx] && retries < WHILE_BREAK_LIMIT
        invariant
            pool@.len() > 0,
            forall|t: int| 0 <= t < pool@.len() ==> #[trigger] pool@[t] < used@.len(),
            pool@.contains(idx),
            retries <= WHILE_BREAK_LIMIT,
        decreases WHILE_BREAK_LIMIT - retries,
    {
        let t = random_below(rng, pool.len());
        idx = pool[t];
        retries = retries + 1;
    }
    (idx, retries)
}

/// Draws `nb_elements` indices of `hanzi_pairs` under the given shuffle mode,
/// avoiding an index already drawn as long as the repeated draws allow.
pub fn get_random_hanzi_pairs_idxs(
    nb_elements: u32,
    hanzi_pairs: &Vec<HanziPair>,
    shuffle_mode: ShuffleMode,
) -> (r: Vec<usize>)
    requires
        nb_elements == 0 || hanzi_pairs@.len() > 0,
    ensures
        r@.len() == nb_elements,
        forall|k: int| 0 <= k < r@.len() ==> #[trigger] r@[k] < hanzi_pairs@.len(),
{
    let n = hanzi_pairs.len();
    let mut used: Vec<bool> = Vec::new();
    let mut all: Vec<usize> = Vec::new();
    let mut i: usize = 0;
    while i < n
        invariant
            n == hanzi_pairs@.len(),
            i <= n,
            used@.len() == i,
            all@.len() == i,
            forall|t: int| 0 <= t < i ==> #[trigger] all@[t] == t,
        decreases n - i,
    {
        used.push(false);
        all.push(i);
        i = i + 1;
    }
    let mut rng = rand::rng();
    let mut idxs: Vec<usize> = Vec::new();
    match shuffle_mode {
        ShuffleMode::Random => {
            let mut slot: u32 = 0;
            while slot < nb_elements
                invariant
                    n == hanzi_pairs@.len(),
                    nb_elements == 0 || n > 0,
                    used@.len() == n,
                    all@.len() == n,
                    forall|t: int| 0 <= t < n ==> #[trigger] all@[t] == t,
                    slot <= nb_elements,
                    idxs@.len() == slot,
                    forall|k: int| 0 <= k < idxs@.len() ==> #[trigger] idxs@[k] < n,
                decreases nb_elements - slot,
            {
                let (idx, _) = draw_slot(&mut rng, &all, &used);
                idxs.push(idx);
                used.set(idx, true);
                slot = slot + 1;
            }
        },
        ShuffleMode::Even => {
            let groups = group_by_pronounced_tone_pair(hanzi_pairs);
            proof {
                lemma_groups_not_empty(hanzi_pairs@, (Tone::NeutralTone, Tone::NeutralTone));
                assert forall|g: int| 0 <= g < groups@.len() implies (#[trigger] groups@[g]).indices@.len()
                    > 0 && forall|t: int|
                    0 <= t < groups@[g].indices@.len() ==> #[trigger] groups@[g].indices@[t] < n by {
                    let k = groups@[g].tone_pair;
                    assert(distinct_pairs(hanzi_pairs@)[g] == k);
                    lemma_groups_not_empty(hanzi_pairs@, k);
                    lemma_indices_in_range(hanzi_pairs@, k);
                }
            }
            let mut slot: u32 = 0;
            while slot < nb_elements
                invariant
                    n == hanzi_pairs@.len(),
                    nb_elements == 0 || groups@.len() > 0,
                    used@.len() == n,
                    forall|g: int|
                        0 <= g < groups@.len() ==> (#[trigger] groups@[g]).indices@.len() > 0
                            && forall|t: int|
                            0 <= t < groups@[g].indices@.len() ==> #[trigger] groups@[g].indices@[t]
                                < n,
                    slot <= nb_elements,
                    idxs@.len() == slot,
                    forall|k: int| 0 <= k < idxs@.len() ==> #[trigger] idxs@[k] < n,
                decreases nb_elements - slot,
            {
                let g = random_below(&mut rng, groups.len());
                let (idx, _) = draw_slot(&mut rng, &groups[g].indices, &used);
                idxs.push(idx);
                used.set(idx, true);
                slot = slot + 1;
            }
        },
    }
    idxs
}

} // verus!
