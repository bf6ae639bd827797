use question::Answer;
use question::Question;

fn written(q: &Question) -> String {
    String::from_utf8(q.output().clone()).expect("Not UTF-8")
}

#[test]
fn the_prompt_ends_with_a_space() {
    let mut q = Question::new("Continue?");
    q.build_prompt();
    assert_eq!("Continue? ", q.prompt());
    assert_eq!("Continue?", q.question());
}

#[test]
fn the_hint_shows_a_default_of_yes() {
    let mut q = Question::new("Continue?");
    q.default(Answer::YES).show_defaults();
    q.build_prompt();
    assert_eq!("Continue? (Y/n) ", q.prompt());
}

#[test]
fn the_hint_shows_a_default_of_no() {
    let mut q = Question::new("Continue?");
    q.default(Answer::NO).show_defaults();
    q.build_prompt();
    assert_eq!("Continue? (y/N) ", q.prompt());
}

#[test]
fn the_hint_shows_that_no_default_is_set() {
    let mut q = Question::new("Continue?");
    q.show_defaults();
    q.build_prompt();
    assert_eq!("Continue? (y/n) ", q.prompt());
}

#[test]
fn the_hint_shows_a_default_of_free_text() {
    let mut q = Question::new("Meaning?");
    q.default(Answer::RESPONSE(String::from("42"))).show_defaults();
    q.build_prompt();
    assert_eq!("Meaning? (42) ", q.prompt());
}

#[test]
fn a_default_is_not_shown_unless_asked_for() {
    let mut q = Question::new("Continue?");
    q.default(Answer::YES);
    q.build_prompt();
    assert_eq!("Continue? ", q.prompt());
}

#[test]
fn building_the_prompt_twice_decorates_twice() {
    let mut q = Question::new("Continue?");
    q.show_defaults();
    q.build_prompt();
    q.build_prompt();
    assert_eq!("Continue? (y/n)  (y/n) ", q.prompt());
}

#[test]
fn the_clarification_goes_before_the_question() {
    let mut q = Question::new("Continue?");
    q.default(Answer::YES).show_defaults().clarification("Please enter either 'yes' or 'no'");
    q.build_prompt();
    q.build_clarification();
    assert_eq!("Please enter either 'yes' or 'no'\nContinue? (Y/n) ", q.prompt());
    q.build_clarification();
    assert_eq!("Please enter either 'yes' or 'no'\nContinue? (Y/n) ", q.prompt());
}

#[test]
fn without_a_clarification_the_prompt_stays() {
    let mut q = Question::new("Continue?");
    q.show_defaults();
    q.build_prompt();
    q.build_clarification();
    assert_eq!("Continue? (y/n) ", q.prompt());
}

#[test]
fn asking_shows_the_hint() {
    let mut q = Question::with_cursor("Continue?", String::from("y\n").into_bytes(), Vec::new());
    q.yes_no().until_acceptable().default(Answer::YES).show_defaults();
    assert_eq!(Some(Answer::YES), q.ask());
    assert_eq!("Continue? (Y/n) ", q.prompt());
    assert_eq!("Continue? (Y/n) ", written(&q));
    assert_eq!("Continue?", q.question());
    assert_eq!(Some(&Answer::YES), q.default_answer());
}

#[test]
fn a_reply_that_is_not_accepted_is_followed_by_the_clarification() {
    let mut q = Question::with_cursor("Continue?", String::from("wat\nhm\nno\n").into_bytes(), Vec::new());
    q.yes_no().until_acceptable().show_defaults().clarification("Please respond with yes/no");
    assert_eq!(Some(Answer::NO), q.ask());
    assert_eq!(
        "Continue? (y/n) Please respond with yes/no\nContinue? (y/n) Please respond with yes/no\nContinue? (y/n) ",
        written(&q)
    );
}

#[test]
fn the_last_failed_try_still_sets_the_clarification() {
    let mut q = Question::with_cursor("Continue?", String::from("a\nb\n").into_bytes(), Vec::new());
    q.yes_no().tries(2).clarification("yes or no");
    assert_eq!(None, q.ask());
    assert_eq!("Continue? yes or no\nContinue? ", written(&q));
    assert_eq!("yes or no\nContinue? ", q.prompt());
}

#[test]
fn prompts_are_written_behind_what_the_output_holds() {
    let mut q = Question::with_cursor("Name?", String::from("x\n").into_bytes(), String::from("> ").into_bytes());
    assert_eq!(Some(Answer::RESPONSE(String::from("x"))), q.ask());
    assert_eq!("> Name? ", written(&q));
}

#[test]
fn prompts_beyond_ascii_are_written_as_utf8() {
    let mut q = Question::with_cursor("\u{00bf}S\u{00ed}?", Vec::new(), Vec::new());
    assert_eq!(Ok(String::new()), q.prompt_user("\u{00bf}S\u{00ed}?"));
    assert_eq!(vec![0xc2, 0xbf, b'S', 0xc3, 0xad, b'?'], q.output().clone());
}
