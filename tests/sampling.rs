use std::collections::HashSet;

use shuangshuang::{
    get_random_hanzi_pairs_idxs, group_by_pronounced_tone_pair, HanziPair, ShuffleMode, Tone,
};

fn corpus(lines: &[&str]) -> Vec<HanziPair> {
    lines
        .iter()
        .map(|l| HanziPair::from_corpus_line(l).unwrap())
        .collect()
}

fn big_corpus(n: usize) -> Vec<HanziPair> {
    let lines = ["你好 ni3hao3 33", "严肃 yan2su4 24", "妈妈 ma1ma 15", "一点 yi1dian3 13"];
    (0..n)
        .map(|i| HanziPair::from_corpus_line(lines[i % lines.len()]).unwrap())
        .collect()
}

#[test]
fn indices_stay_in_range() {
    let c = corpus(&["你好 ni3hao3 33", "严肃 yan2su4 24", "不要 bu4yao4 44"]);
    for mode in [ShuffleMode::Random, ShuffleMode::Even] {
        for _ in 0..50 {
            let idxs = get_random_hanzi_pairs_idxs(7, &c, mode);
            assert_eq!(idxs.len(), 7);
            assert!(idxs.iter().all(|&i| i < c.len()));
        }
    }
}

#[test]
fn zero_elements_from_an_empty_corpus() {
    let empty: Vec<HanziPair> = Vec::new();
    assert!(get_random_hanzi_pairs_idxs(0, &empty, ShuffleMode::Random).is_empty());
    assert!(get_random_hanzi_pairs_idxs(0, &empty, ShuffleMode::Even).is_empty());
}

#[test]
fn random_mode_avoids_repeats_in_a_large_corpus() {
    let c = big_corpus(200);
    for _ in 0..20 {
        let idxs = get_random_hanzi_pairs_idxs(10, &c, ShuffleMode::Random);
        let distinct: HashSet<usize> = idxs.iter().copied().collect();
        assert_eq!(distinct.len(), 10);
    }
}

#[test]
fn more_elements_than_corpus_gives_repeats() {
    let c = corpus(&["你好 ni3hao3 33", "严肃 yan2su4 24"]);
    let idxs = get_random_hanzi_pairs_idxs(5, &c, ShuffleMode::Random);
    assert_eq!(idxs.len(), 5);
    let distinct: HashSet<usize> = idxs.iter().copied().collect();
    assert_eq!(distinct.len(), 2);
}

#[test]
fn even_mode_reaches_every_tone_pair() {
    let mut lines = vec!["你好 ni3hao3 33"; 30];
    lines.push("严肃 yan2su4 24");
    lines.push("妈妈 ma1ma 15");
    let c = corpus(&lines);
    let mut seen: HashSet<(Tone, Tone)> = HashSet::new();
    for _ in 0..200 {
        for i in get_random_hanzi_pairs_idxs(3, &c, ShuffleMode::Even) {
            seen.insert(c[i].pronounced_tone_pair);
        }
    }
    assert_eq!(seen.len(), 3);
}

#[test]
fn groups_follow_pronounced_tone_pairs() {
    let c = corpus(&[
        "你好 ni3hao3 33",
        "严肃 yan2su4 24",
        "很好 hen3hao3 33",
        "学习 xue2xi2 22",
    ]);
    let groups = group_by_pronounced_tone_pair(&c);
    assert_eq!(groups.len(), 3);
    assert_eq!(groups[0].tone_pair, (Tone::Tone2, Tone::Tone3));
    assert_eq!(groups[0].indices, vec![0, 2]);
    assert_eq!(groups[1].tone_pair, (Tone::Tone2, Tone::Tone4));
    assert_eq!(groups[1].indices, vec![1]);
    assert_eq!(groups[2].tone_pair, (Tone::Tone2, Tone::Tone2));
    assert_eq!(groups[2].indices, vec![3]);
}
