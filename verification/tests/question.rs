use flashquiz::question::Question;

#[test]
fn a_new_question_holds_what_it_was_given() {
    let question = Question::new("2+2=4".to_string(), None, true);
    assert_eq!(question.text, "2+2=4");
    assert_eq!(question.code, None);
    assert!(question.answer);
    let with_code = Question::new("Q".to_string(), Some("x".to_string()), false);
    assert_eq!(with_code.code, Some("x".to_string()));
    assert!(!with_code.answer);
}

#[test]
fn questions_compare_field_by_field() {
    let a = Question::new("Q".to_string(), None, true);
    assert_eq!(a, a.clone());
    assert_ne!(a, Question::new("Q".to_string(), None, false));
    assert_ne!(a, Question::new("Q".to_string(), Some(String::new()), true));
    assert_ne!(a, Question::new("q".to_string(), None, true));
}
