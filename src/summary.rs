//! The summary of a finished exercise session.
use vstd::prelude::*;
use crate::exercise::ShuangElement;
use crate::tone::Tone;

verus! {

/// The results of a finished session: how many answers were right, the answered
/// items in the order they were presented, and for each tone pair that was
/// missed at least once, how many times it was missed.
#[derive(Clone, PartialEq, Eq, Debug)]
pub struct ExerciseSummary {
    pub correct_answers: u32,
    pub test_elements: Vec<ShuangElement>,
    /// One entry per tone pair with at least one mistake, each pair once.
    pub tone_pair_mistakes: Vec<((Tone, Tone), u32)>,
}

/// Answer counts kept for a learner, per pronounced tone pair.
pub struct UserData {
    pub tone_pairs_correct_answers: Vec<((Tone, Tone), u32)>,
    pub tone_pairs_incorrect_answers: Vec<((Tone, Tone), u32)>,
}

/// The number of right answers among `s`.
pub open spec fn count_correct(s: Seq<ShuangElement>) -> nat
    decreases s.len(),
{
    if s.len() == 0 {
        0
    } else {
        count_correct(s.drop_last()) + if s.last().is_correct {
            1nat
        } else {
            0nat
        }
    }
}

/// The number of wrong answers among `s` on words pronounced with the tone pair `k`.
pub open spec fn mistakes_for(s: Seq<ShuangElement>, k: (Tone, Tone)) -> nat
    decreases s.len(),
{
    if s.len() == 0 {
        0
    } else {
        mistakes_for(s.drop_last(), k) + if !s.last().is_correct
            && s.last().hanzi_pair.pronounced_tone_pair == k {
            1nat
        } else {
            0nat
        }
    }
}

/// The sum of the counts of `m`.
pub open spec fn total_count(m: Seq<((Tone, Tone), u32)>) -> nat
    decreases m.len(),
{
    if m.len() == 0 {
        0
    } else {
        total_count(m.drop_last()) + m.last().1 as nat
    }
}

/// Whether `m` holds, once each, every tone pair missed in `s`, with the number of
/// times it was missed, and no other pair.
pub open spec fn records_mistakes(m: Seq<((Tone, Tone), u32)>, s: Seq<ShuangElement>) -> bool {
    &&& forall|i: int, j: int| 0 <= i < j < m.len() ==> m[i].0 != m[j].0
    &&& forall|i: int|
        0 <= i < m.len() ==> (#[trigger] m[i]).1 > 0 && m[i].1 == mistakes_for(s, m[i].0)
    &&& forall|k: (Tone, Tone)|
        #[trigger] mistakes_for(s, k) > 0 ==> exists|i: int| 0 <= i < m.len() && m[i].0 == k
}

proof fn lemma_counts_bounded(s: Seq<ShuangElement>, k: (Tone, Tone))
    ensures
        mistakes_for(s, k) <= s.len(),
        count_correct(s) <= s.len(),
    decreases s.len(),
{
    if s.len() > 0 {
        lemma_counts_bounded(s.drop_last(), k);
    }
}

proof fn lemma_total_update(m: Seq<((Tone, Tone), u32)>, j: int, e: ((Tone, Tone), u32))
    requires
        0 <= j < m.len(),
    ensures
        total_count(m.update(j, e)) + m[j].1 == total_count(m) + e.1,
    decreases m.len(),
{
    let u = m.update(j, e);
    if j < m.len() - 1 {
        assert(u.drop_last() =~= m.drop_last().update(j, e));
        lemma_total_update(m.drop_last(), j, e);
    } else {
        assert(u.drop_last() =~= m.drop_last());
    }
}

impl ExerciseSummary {
    /// The right-answer count and the mistake entries agree with the answered items.
    pub open spec fn wf(&self) -> bool {
        &&& self.correct_answers == count_correct(self.test_elements@)
        &&& records_mistakes(self.tone_pair_mistakes@, self.test_elements@)
    }

    /// Scores a finished session. The mistake counts add up to the number of wrong
    /// answers.
    pub fn from(value: Vec<ShuangElement>) -> (r: ExerciseSummary)
        requires
            value@.len() <= u32::MAX,
        ensures
            r.test_elements@ == value@,
            r.wf(),
            total_count(r.tone_pair_mistakes@) == value@.len() - r.correct_answers,
    {
        let mut mistakes: Vec<((Tone, Tone), u32)> = Vec::new();
        let mut correct: u32 = 0;
        let mut i: usize = 0;
        while i < value.len()
            invariant
                i <= value@.len() <= u32::MAX,
                correct == count_correct(value@.take(i as int)),
                records_mistakes(mistakes@, value@.take(i as int)),
                total_count(mistakes@) + correct == i,
            decreases value@.len() - i,
        {
            let ghost prev = value@.take(i as int);
            let ghost next = value@.take(i + 1);
            assert(next.drop_last() =~= prev);
            proof {
                lemma_counts_bounded(prev, value@[i as int].hanzi_pair.pronounced_tone_pair);
            }
            if value[i].is_correct {
                correct = correct + 1;
                assert forall|k: (Tone, Tone)| mistakes_for(next, k) == mistakes_for(prev, k) by {}
            } else {
                let key = value[i].hanzi_pair.pronounced_tone_pair;
                assert forall|k: (Tone, Tone)|
                    mistakes_for(next, k) == mistakes_for(prev, k) + if k == key {
                        1nat
                    } else {
                        0nat
                    } by {}
                let mut j: usize = 0;
                while j < mistakes.len() && !(mistakes[j].0.0 == key.0 && mistakes[j].0.1 == key.1)
                    invariant
                        j <= mistakes@.len(),
                        forall|t: int| 0 <= t < j ==> mistakes@[t].0 != key,
                    decreases mistakes@.len() - j,
                {
                    j = j + 1;
                }
                let ghost old_m = mistakes@;
                if j < mistakes.len() {
                    let c = mistakes[j].1;
                    mistakes.set(j, (key, c + 1));
                    proof {
                        lemma_total_update(old_m, j as int, (key, (c + 1) as u32));
                        assert forall|k: (Tone, Tone)| #[trigger]
                            mistakes_for(next, k) > 0 implies exists|t: int|
                            0 <= t < mistakes@.len() && mistakes@[t].0 == k by {
                            if k != key {
                                let t = choose|t: int| 0 <= t < old_m.len() && old_m[t].0 == k;
                                assert(mistakes@[t].0 == k);
                            } else {
                                assert(mistakes@[j as int].0 == k);
                            }
                        }
                    }
                } else {
                    mistakes.push((key, 1));
                    proof {
                        assert(mistakes@.drop_last() =~= old_m);
                        if mistakes_for(prev, key) > 0 {
                            let t = choose|t: int| 0 <= t < old_m.len() && old_m[t].0 == key;
                            assert(false);
                        }
                        assert forall|k: (Tone, Tone)| #[trigger]
                            mistakes_for(next, k) > 0 implies exists|t: int|
                            0 <= t < mistakes@.len() && mistakes@[t].0 == k by {
                            if k != key {
                                let t = choose|t: int| 0 <= t < old_m.len() && old_m[t].0 == k;
                                assert(mistakes@[t].0 == k);
                            } else {
                                assert(mistakes@[old_m.len() as int].0 == k);
                            }
                        }
                    }
                }
            }
            i = i + 1;
        }
        assert(value@.take(value@.len() as int) =~= value@);
        ExerciseSummary { correct_answers: correct, test_elements: value, tone_pair_mistakes: mistakes }
    }

    /// How many times words pronounced with `tone_pair` were missed in this session.
    pub fn mistakes_for_pair(&self, tone_pair: (Tone, Tone)) -> (r: u32)
        requires
            self.wf(),
        ensures
            r == mistakes_for(self.test_elements@, tone_pair),
    {
        let mut j: usize = 0;
        while j < self.tone_pair_mistakes.len()
            invariant
                self.wf(),
                j <= self.tone_pair_mistakes@.len(),
                forall|t: int| 0 <= t < j ==> self.tone_pair_mistakes@[t].0 != tone_pair,
            decreases self.tone_pair_mistakes@.len() - j,
        {
            let entry = self.tone_pair_mistakes[j];
            if entry.0.0 == tone_pair.0 && entry.0.1 == tone_pair.1 {
                return entry.1;
            }
            j = j + 1;
        }
        proof {
            if mistakes_for(self.test_elements@, tone_pair) > 0 {
                assert(exists|t: int|
                    0 <= t < self.tone_pair_mistakes@.len() && self.tone_pair_mistakes@[t].0
                        == tone_pair);
            }
        }
        0
    }
}

} // verus!
