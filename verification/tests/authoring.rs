use flashquiz::authoring::{
    answer_of_reply, author_question, block_complete, code_of_block, ends_authoring, says_true,
    Awaiting, Collector, TERMINATOR,
};
use flashquiz::question::Question;

#[test]
fn the_terminator_is_the_at_sign() {
    assert_eq!(TERMINATOR, '@');
}

#[test]
fn an_empty_text_ends_authoring() {
    assert!(ends_authoring(""));
}

#[test]
fn a_whitespace_text_ends_authoring() {
    assert!(ends_authoring("   "));
    assert!(ends_authoring("\t \u{A0}"));
}

#[test]
fn a_text_with_content_does_not_end_authoring() {
    assert!(!ends_authoring("Is the sky blue?"));
    assert!(!ends_authoring("  ?  "));
}

#[test]
fn a_block_is_complete_once_it_holds_the_terminator() {
    assert!(!block_complete(""));
    assert!(!block_complete("let x = 1;\n"));
    assert!(block_complete("let x = 1;\n@\n"));
    assert!(block_complete("@\n"));
    assert!(block_complete("let x = 1; @ trailing\n"));
}

#[test]
fn a_block_without_content_has_no_code() {
    assert_eq!(code_of_block("@\n"), None);
    assert_eq!(code_of_block("@"), None);
    assert_eq!(code_of_block("\n\n  @  \n"), None);
    assert_eq!(code_of_block(""), None);
}

#[test]
fn a_block_with_content_is_stripped_of_terminator_and_outer_whitespace() {
    assert_eq!(code_of_block("let x = 1;\n@\n"), Some("let x = 1;".to_string()));
    assert_eq!(
        code_of_block("fn f() {\n    g();\n}\n@\n"),
        Some("fn f() {\n    g();\n}".to_string())
    );
    assert_eq!(code_of_block("  a @ b  \n"), Some("a  b".to_string()));
    assert_eq!(code_of_block("x@@y@\n"), Some("xy".to_string()));
}

#[test]
fn a_lowercase_reply_says_true_when_it_holds_the_word() {
    assert!(says_true("true"));
    assert!(says_true("yes, true"));
    assert!(says_true("untrue"));
    assert!(!says_true("True"));
    assert!(!says_true("ture"));
    assert!(!says_true("false"));
    assert!(!says_true(""));
}

#[test]
fn a_reply_is_read_whatever_its_case() {
    assert!(answer_of_reply("true"));
    assert!(answer_of_reply("True"));
    assert!(answer_of_reply("TRUE"));
    assert!(answer_of_reply("tRuE"));
    assert!(answer_of_reply("  It is TRUE.  "));
}

#[test]
fn a_reply_without_the_word_is_false() {
    assert!(!answer_of_reply("false"));
    assert!(!answer_of_reply("ture"));
    assert!(!answer_of_reply("t"));
    assert!(!answer_of_reply("yes"));
    assert!(!answer_of_reply("1"));
    assert!(!answer_of_reply(""));
    assert!(!answer_of_reply("tr ue"));
}

#[test]
fn a_reply_matches_by_substring_not_by_equality() {
    assert!(answer_of_reply("not true"));
    assert!(answer_of_reply("untrue"));
    assert!(answer_of_reply("truetrue"));
}

#[test]
fn authoring_the_sky_question() {
    let question = author_question("Is the sky blue?".to_string(), "@\n", "True");
    assert_eq!(
        question,
        Some(Question { text: "Is the sky blue?".to_string(), code: None, answer: true })
    );
}

#[test]
fn authoring_with_code_and_a_false_answer() {
    let question = author_question(
        "Does this compile?".to_string(),
        "let x: u8 = 256;\n@\n",
        "no",
    );
    assert_eq!(
        question,
        Some(Question {
            text: "Does this compile?".to_string(),
            code: Some("let x: u8 = 256;".to_string()),
            answer: false,
        })
    );
}

#[test]
fn authoring_keeps_the_text_as_typed() {
    let question = author_question("  padded text  ".to_string(), "@", "true").unwrap();
    assert_eq!(question.text, "  padded text  ");
}

#[test]
fn authoring_with_a_blank_text_makes_no_question() {
    assert_eq!(author_question("".to_string(), "code\n@\n", "true"), None);
    assert_eq!(author_question("  \t".to_string(), "code\n@\n", "true"), None);
}

fn two_plus_two() -> Question {
    Question { text: "2+2=4".to_string(), code: None, answer: true }
}

#[test]
fn the_collector_starts_by_awaiting_a_text() {
    let collector = Collector::start(vec![two_plus_two()]);
    assert_eq!(collector.awaiting(), Awaiting::Text);
    assert_eq!(collector.questions(), &vec![two_plus_two()]);
}

#[test]
fn collecting_the_sky_question() {
    let mut collector = Collector::start(vec![two_plus_two()]);
    assert!(!collector.feed("Is the sky blue?"));
    assert_eq!(collector.awaiting(), Awaiting::Code);
    assert!(!collector.feed("@\n"));
    assert_eq!(collector.awaiting(), Awaiting::Answer);
    assert_eq!(collector.questions(), &vec![two_plus_two()]);
    assert!(collector.feed("True"));
    assert_eq!(collector.awaiting(), Awaiting::Text);
    assert_eq!(
        collector.questions(),
        &vec![
            two_plus_two(),
            Question { text: "Is the sky blue?".to_string(), code: None, answer: true },
        ]
    );
}

#[test]
fn collecting_code_over_several_lines() {
    let mut collector = Collector::start(Vec::new());
    assert!(!collector.feed("Does this print 3?"));
    assert!(!collector.feed("let a = 1;\n"));
    assert_eq!(collector.awaiting(), Awaiting::MoreCode);
    assert!(!collector.feed("let b = 2;\n"));
    assert_eq!(collector.awaiting(), Awaiting::MoreCode);
    assert!(!collector.feed("\n"));
    assert_eq!(collector.awaiting(), Awaiting::MoreCode);
    assert!(!collector.feed("println!(\"{}\", a + b);@\n"));
    assert_eq!(collector.awaiting(), Awaiting::Answer);
    assert!(collector.feed("true"));
    assert_eq!(
        collector.questions(),
        &vec![Question {
            text: "Does this print 3?".to_string(),
            code: Some("let a = 1;\nlet b = 2;\n\nprintln!(\"{}\", a + b);".to_string()),
            answer: true,
        }]
    );
}

#[test]
fn a_blank_text_ends_collecting() {
    let mut collector = Collector::start(vec![two_plus_two()]);
    assert!(!collector.feed(""));
    assert_eq!(collector.awaiting(), Awaiting::Nothing);
    assert_eq!(collector.questions(), &vec![two_plus_two()]);
    let mut spaced = Collector::start(Vec::new());
    assert!(!spaced.feed("   "));
    assert_eq!(spaced.awaiting(), Awaiting::Nothing);
    assert!(spaced.questions().is_empty());
}

#[test]
fn a_collector_that_has_ended_ignores_input() {
    let mut collector = Collector::start(vec![two_plus_two()]);
    collector.feed(" ");
    for input in ["A question?", "@\n", "true", ""] {
        assert!(!collector.feed(input));
        assert_eq!(collector.awaiting(), Awaiting::Nothing);
        assert_eq!(collector.questions(), &vec![two_plus_two()]);
    }
}

#[test]
fn the_questions_are_written_out_once_for_each_question_authored() {
    let mut collector = Collector::start(Vec::new());
    let inputs = [
        "First?", "x\n", "@\n", "true", "Second?", "@\n", "false", "Third?", "a\n", "b\n",
        "c @\n", "TRUE", "",
    ];
    let mut saves = 0;
    let mut held = 0;
    for input in inputs {
        let save = collector.feed(input);
        let now = collector.questions().len();
        if save {
            saves += 1;
            assert_eq!(now, held + 1);
        } else {
            assert_eq!(now, held);
        }
        held = now;
    }
    assert_eq!(saves, 3);
    assert_eq!(collector.awaiting(), Awaiting::Nothing);
    assert_eq!(
        collector.questions(),
        &vec![
            Question { text: "First?".to_string(), code: Some("x".to_string()), answer: true },
            Question { text: "Second?".to_string(), code: None, answer: false },
            Question {
                text: "Third?".to_string(),
                code: Some("a\nb\nc".to_string()),
                answer: true,
            },
        ]
    );
}

#[test]
fn the_collector_keeps_the_text_as_typed_and_permits_duplicates() {
    let mut collector = Collector::start(Vec::new());
    for _ in 0..2 {
        collector.feed("  Same?  ");
        collector.feed("@");
        collector.feed("true");
    }
    let questions = collector.questions();
    assert_eq!(questions.len(), 2);
    assert_eq!(questions[0], questions[1]);
    assert_eq!(questions[0].text, "  Same?  ");
}

#[test]
fn a_reply_is_lowered_before_it_is_searched() {
    assert!(!says_true("TRUE"));
    assert!(answer_of_reply("TRUE"));
    let mut collector = Collector::start(Vec::new());
    collector.feed("Q");
    collector.feed("@");
    collector.feed("TRUE");
    assert!(collector.questions()[0].answer);
}
