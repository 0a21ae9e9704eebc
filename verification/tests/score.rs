use flashquiz::score::Score;

#[test]
fn a_new_score_is_zero() {
    let score = Score::new();
    assert_eq!(score.correct, 0);
    assert_eq!(score.incorrect, 0);
}

#[test]
fn recording_counts_right_and_wrong_apart() {
    let mut score = Score::new();
    score.record(true);
    assert_eq!(score, Score { correct: 1, incorrect: 0 });
    score.record(false);
    assert_eq!(score, Score { correct: 1, incorrect: 1 });
    score.record(false);
    assert_eq!(score, Score { correct: 1, incorrect: 2 });
    score.record(true);
    assert_eq!(score, Score { correct: 2, incorrect: 2 });
}

#[test]
fn no_answers_give_no_percentage() {
    assert_eq!(Score::new().percentage(), None);
    assert_eq!(Score { correct: 0, incorrect: 0 }.percentage(), None);
}

#[test]
fn all_right_is_one_hundred_percent() {
    assert_eq!(Score { correct: 1, incorrect: 0 }.percentage(), Some(100));
    assert_eq!(Score { correct: 37, incorrect: 0 }.percentage(), Some(100));
}

#[test]
fn all_wrong_is_zero_percent() {
    assert_eq!(Score { correct: 0, incorrect: 1 }.percentage(), Some(0));
    assert_eq!(Score { correct: 0, incorrect: 12 }.percentage(), Some(0));
}

#[test]
fn the_percentage_is_rounded_down() {
    assert_eq!(Score { correct: 1, incorrect: 1 }.percentage(), Some(50));
    assert_eq!(Score { correct: 2, incorrect: 1 }.percentage(), Some(66));
    assert_eq!(Score { correct: 1, incorrect: 2 }.percentage(), Some(33));
    assert_eq!(Score { correct: 3, incorrect: 1 }.percentage(), Some(75));
    assert_eq!(Score { correct: 199, incorrect: 1 }.percentage(), Some(99));
    assert_eq!(Score { correct: 1, incorrect: 199 }.percentage(), Some(0));
}

#[test]
fn the_percentage_does_not_overflow() {
    assert_eq!(Score { correct: u64::MAX, incorrect: 0 }.percentage(), Some(100));
    assert_eq!(Score { correct: u64::MAX, incorrect: u64::MAX }.percentage(), Some(50));
    assert_eq!(Score { correct: 0, incorrect: u64::MAX }.percentage(), Some(0));
}
