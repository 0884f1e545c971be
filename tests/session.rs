use annotator::navigation::{get_answer_from_alphanum_option, next_index, previous_index};
use annotator::progress::{get_num_answered, record_if_new, was_annotated};
use annotator::question::{set_classification, set_human_answer, Mode, Question, StoreError};
use annotator::session::{
    command_for_key, App, Command, Effect, Key, QuestionStatus, SaveError, SessionError,
};

fn question(prompt: &str, options: &[&str]) -> Question {
    Question {
        question: prompt.to_string(),
        options: options.iter().map(|o| o.to_string()).collect(),
        answer: options[0].to_string(),
        is_higher_order: None,
        human_answer: None,
    }
}

fn three_questions() -> Vec<Question> {
    vec![
        question("q0", &["a0", "b0", "c0"]),
        question("q1", &["a1", "b1", "c1", "d1"]),
        question("q2", &["a2", "b2"]),
    ]
}

#[test]
fn scenario_answer_mode_sequence() {
    let qs = three_questions();
    let mut app = App::new(qs.clone(), Mode::Answer).unwrap();
    for cmd in [
        Command::Next,
        Command::SelectOption('1'),
        Command::Previous,
        Command::SelectOption('2'),
    ] {
        assert_eq!(app.apply(cmd), Effect::Nothing);
    }
    assert_eq!(app.question_index(), 0);
    assert_eq!(app.questions()[0].human_answer, Some(qs[0].options[1].clone()));
    assert_eq!(app.questions()[1].human_answer, Some(qs[1].options[0].clone()));
    assert_eq!(app.questions()[2].human_answer, None);
    assert_eq!(app.num_answered(), 2);
}

#[test]
fn scenario_reclassify_keeps_count() {
    let mut qs = three_questions();
    qs[0].is_higher_order = Some(true);
    let mut app = App::new(qs, Mode::Classify).unwrap();
    assert_eq!(app.num_answered(), 1);
    assert_eq!(app.apply(Command::ClassifyFalse), Effect::Nothing);
    assert_eq!(app.questions()[0].is_higher_order, Some(false));
    assert_eq!(app.num_answered(), 1);
}

#[test]
fn scenario_quit_with_failed_write() {
    let mut app = App::new(three_questions(), Mode::Answer).unwrap();
    assert_eq!(app.apply(Command::Quit), Effect::SaveAndExit);
    assert!(app.is_terminated());
    let failure = SaveError::Io("disk full".to_string());
    assert_eq!(app.record_save(Err(failure.clone())), Err(failure));
    assert!(app.is_terminated());
    assert_eq!(app.message(), "");
}

#[test]
fn index_stays_in_range_under_any_commands() {
    let mut app = App::new(three_questions(), Mode::Answer).unwrap();
    let cmds = [
        Command::Previous,
        Command::Previous,
        Command::Next,
        Command::SelectOption('6'),
        Command::Previous,
        Command::Previous,
        Command::Previous,
        Command::Next,
        Command::Next,
        Command::Next,
        Command::Next,
        Command::ClassifyTrue,
        Command::Unknown,
        Command::Save,
    ];
    for cmd in cmds {
        app.apply(cmd);
        assert!(app.question_index() < app.questions().len());
    }
}

#[test]
fn reannotation_counts_once() {
    let mut app = App::new(three_questions(), Mode::Answer).unwrap();
    app.apply(Command::SelectOption('1'));
    assert_eq!(app.num_answered(), 1);
    app.apply(Command::SelectOption('2'));
    app.apply(Command::SelectOption('2'));
    assert_eq!(app.num_answered(), 1);
    assert_eq!(app.questions()[0].human_answer, Some("b0".to_string()));

    let mut app = App::new(three_questions(), Mode::Classify).unwrap();
    app.apply(Command::ClassifyTrue);
    app.apply(Command::ClassifyTrue);
    app.apply(Command::ClassifyFalse);
    assert_eq!(app.num_answered(), 1);
    app.apply(Command::Next);
    app.apply(Command::ClassifyFalse);
    assert_eq!(app.num_answered(), 2);
}

#[test]
fn navigation_wraps_both_ways() {
    for len in 1..6usize {
        assert_eq!(previous_index(0, len), len - 1);
        assert_eq!(next_index(len - 1, len), 0);
    }
    assert_eq!(next_index(1, 3), 2);
    assert_eq!(previous_index(2, 3), 1);

    let mut app = App::new(three_questions(), Mode::Classify).unwrap();
    app.apply(Command::Previous);
    assert_eq!(app.question_index(), 2);
    app.apply(Command::Next);
    assert_eq!(app.question_index(), 0);

    let mut single = App::new(vec![question("only", &["x"])], Mode::Answer).unwrap();
    single.apply(Command::Next);
    assert_eq!(single.question_index(), 0);
    single.apply(Command::Previous);
    assert_eq!(single.question_index(), 0);
}

#[test]
fn shortcut_past_options_changes_nothing() {
    let mut app = App::new(three_questions(), Mode::Answer).unwrap();
    let before = app.questions().clone();
    assert_eq!(app.apply(Command::SelectOption('4')), Effect::Nothing);
    assert_eq!(app.apply(Command::SelectOption('9')), Effect::Nothing);
    assert_eq!(app.questions(), &before);
    assert_eq!(app.question_index(), 0);
    assert_eq!(app.num_answered(), 0);
    assert_eq!(app.message(), "");
    assert!(!app.is_terminated());
}

#[test]
fn commands_of_other_mode_are_ignored() {
    let mut app = App::new(three_questions(), Mode::Answer).unwrap();
    app.apply(Command::ClassifyTrue);
    assert_eq!(app.questions()[0].is_higher_order, None);
    assert_eq!(app.num_answered(), 0);

    let mut app = App::new(three_questions(), Mode::Classify).unwrap();
    app.apply(Command::SelectOption('1'));
    assert_eq!(app.questions()[0].human_answer, None);
    assert_eq!(app.num_answered(), 0);
}

#[test]
fn input_after_quit_is_discarded() {
    let mut app = App::new(three_questions(), Mode::Answer).unwrap();
    assert_eq!(app.apply(Command::Quit), Effect::SaveAndExit);
    assert_eq!(app.apply(Command::Next), Effect::Nothing);
    assert_eq!(app.apply(Command::SelectOption('1')), Effect::Nothing);
    assert_eq!(app.apply(Command::Save), Effect::Nothing);
    assert_eq!(app.question_index(), 0);
    assert_eq!(app.questions()[0].human_answer, None);
}

#[test]
fn save_command_asks_for_a_write() {
    let mut app = App::new(three_questions(), Mode::Answer).unwrap();
    assert_eq!(app.apply(Command::Save), Effect::Save);
    assert!(!app.is_terminated());
}

#[test]
fn successful_save_sets_confirmation() {
    let mut app = App::new(three_questions(), Mode::Answer).unwrap();
    app.record_save_at("2024-05-01 10:00:00 UTC");
    assert_eq!(app.message(), "Progress saved at 2024-05-01 10:00:00 UTC");

    let mut app = App::new(three_questions(), Mode::Answer).unwrap();
    assert_eq!(app.record_save(Ok(())), Ok(()));
    let prefix = "Progress saved at ";
    assert!(app.message().starts_with(prefix));
    assert!(app.message().len() > prefix.len());
    assert!(app.message().ends_with("UTC"));
}

#[test]
fn failed_save_keeps_message() {
    let mut app = App::new(three_questions(), Mode::Answer).unwrap();
    app.record_save_at("t1");
    let failure = SaveError::Serialization("bad".to_string());
    assert_eq!(app.record_save(Err(failure.clone())), Err(failure));
    assert_eq!(app.message(), "Progress saved at t1");
    assert!(!app.is_terminated());
}

#[test]
fn empty_set_is_rejected() {
    assert_eq!(App::new(Vec::new(), Mode::Answer).unwrap_err(), SessionError::NoQuestions);
}

#[test]
fn resumed_set_counts_prior_annotations() {
    let mut qs = three_questions();
    qs[1].human_answer = Some("b1".to_string());
    qs[2].is_higher_order = Some(false);
    assert_eq!(get_num_answered(&Mode::Answer, &qs), 1);
    assert_eq!(get_num_answered(&Mode::Classify, &qs), 1);
    qs[0].is_higher_order = Some(true);
    assert_eq!(get_num_answered(&Mode::Classify, &qs), 2);
    assert_eq!(App::new(qs, Mode::Classify).unwrap().num_answered(), 2);
    assert_eq!(get_num_answered(&Mode::Answer, &Vec::new()), 0);
}

#[test]
fn annotation_check_and_record() {
    let mut q = question("q", &["a", "b"]);
    assert!(!was_annotated(&q, Mode::Answer));
    let mut count: usize = 3;
    record_if_new(&q, Mode::Answer, &mut count);
    assert_eq!(count, 4);
    q.human_answer = Some("a".to_string());
    assert!(was_annotated(&q, Mode::Answer));
    assert!(!was_annotated(&q, Mode::Classify));
    record_if_new(&q, Mode::Answer, &mut count);
    assert_eq!(count, 4);
}

#[test]
fn option_resolution() {
    let q = question("q", &["a", "b", "c"]);
    assert_eq!(get_answer_from_alphanum_option('1', &q), Some("a".to_string()));
    assert_eq!(get_answer_from_alphanum_option('3', &q), Some("c".to_string()));
    assert_eq!(get_answer_from_alphanum_option('4', &q), None);
    assert_eq!(get_answer_from_alphanum_option('0', &q), None);
    assert_eq!(get_answer_from_alphanum_option('a', &q), None);
    let six = question("q", &["1", "2", "3", "4", "5", "6", "7"]);
    assert_eq!(get_answer_from_alphanum_option('6', &six), Some("6".to_string()));
    assert_eq!(get_answer_from_alphanum_option('7', &six), None);
}

#[test]
fn store_mutators() {
    let mut qs = three_questions();
    assert_eq!(set_classification(&mut qs, 3, true), Err(StoreError::OutOfRange));
    assert_eq!(set_classification(&mut qs, 2, true), Ok(()));
    assert_eq!(qs[2].is_higher_order, Some(true));
    assert_eq!(
        set_human_answer(&mut qs, 5, "a0".to_string()),
        Err(StoreError::OutOfRange)
    );
    assert_eq!(
        set_human_answer(&mut qs, 0, "a1".to_string()),
        Err(StoreError::InvalidOption)
    );
    assert_eq!(qs[0].human_answer, None);
    assert_eq!(set_human_answer(&mut qs, 0, "c0".to_string()), Ok(()));
    assert_eq!(qs[0].human_answer, Some("c0".to_string()));
    let mut empty_answer = vec![question("q", &["", "x"])];
    assert_eq!(set_human_answer(&mut empty_answer, 0, String::new()), Ok(()));
    assert_eq!(empty_answer[0].human_answer, Some(String::new()));
}

#[test]
fn mode_selector() {
    assert_eq!(Mode::from_name("classify"), Some(Mode::Classify));
    assert_eq!(Mode::from_name("answer"), Some(Mode::Answer));
    assert_eq!(Mode::from_name("Answer"), None);
    assert_eq!(Mode::from_name(""), None);
}

#[test]
fn key_bindings() {
    assert_eq!(command_for_key(Key::Char('q')), Command::Quit);
    assert_eq!(command_for_key(Key::Char('s')), Command::Save);
    assert_eq!(command_for_key(Key::Left), Command::Previous);
    assert_eq!(command_for_key(Key::Right), Command::Next);
    assert_eq!(command_for_key(Key::Char('t')), Command::ClassifyTrue);
    assert_eq!(command_for_key(Key::Char('f')), Command::ClassifyFalse);
    assert_eq!(command_for_key(Key::Char('5')), Command::SelectOption('5'));
    assert_eq!(command_for_key(Key::Char('7')), Command::Unknown);
    assert_eq!(command_for_key(Key::Other), Command::Unknown);
}

#[test]
fn status_of_current_question() {
    let mut app = App::new(three_questions(), Mode::Classify).unwrap();
    assert_eq!(app.current_status(), QuestionStatus::MissingClassification);
    app.apply(Command::ClassifyTrue);
    assert_eq!(app.current_status(), QuestionStatus::Classified(true));
    let mut app = App::new(three_questions(), Mode::Answer).unwrap();
    assert_eq!(app.current_status(), QuestionStatus::MissingAnswer);
    app.apply(Command::SelectOption('2'));
    assert_eq!(app.current_status(), QuestionStatus::Answered);
    assert_eq!(app.current_question().human_answer, Some("b0".to_string()));
    assert_eq!(app.mode(), Mode::Answer);
}
