use shuangshuang::{ExerciseSummary, HanziPair, ShuangElement, Tone};

fn element(line: &str, answer: &str, is_correct: bool) -> ShuangElement {
    ShuangElement {
        hanzi_pair: HanziPair::from_corpus_line(line).unwrap(),
        user_answer: answer.to_string(),
        is_correct,
    }
}

#[test]
fn summary_counts_correct_answers_and_mistakes() {
    let elements = vec![
        element("你好 ni3hao3 33", "23", true),
        element("你好 ni3hao3 33", "33", false),
        element("很好 hen3hao3 33", "33", false),
        element("严肃 yan2su4 24", "22", false),
        element("妈妈 ma1ma 15", "15", true),
    ];
    let summary = ExerciseSummary::from(elements.clone());
    assert_eq!(summary.correct_answers, 2);
    assert_eq!(summary.test_elements, elements);
    assert_eq!(summary.tone_pair_mistakes.len(), 2);
    assert_eq!(summary.mistakes_for_pair((Tone::Tone2, Tone::Tone3)), 2);
    assert_eq!(summary.mistakes_for_pair((Tone::Tone2, Tone::Tone4)), 1);
    assert_eq!(summary.mistakes_for_pair((Tone::Tone1, Tone::NeutralTone)), 0);
    let total: u32 = summary.tone_pair_mistakes.iter().map(|e| e.1).sum();
    assert_eq!(total, 5 - 2);
}

#[test]
fn all_correct_has_no_mistake_entries() {
    let summary = ExerciseSummary::from(vec![element("你好 ni3hao3 33", "23", true)]);
    assert_eq!(summary.correct_answers, 1);
    assert!(summary.tone_pair_mistakes.is_empty());
}

#[test]
fn empty_session_summary() {
    let summary = ExerciseSummary::from(Vec::new());
    assert_eq!(summary.correct_answers, 0);
    assert!(summary.tone_pair_mistakes.is_empty());
}
