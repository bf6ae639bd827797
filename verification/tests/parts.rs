use question::lines::Source;
use question::Answer;
use question::IoFailure;
use question::Question;
use question::Responses;

#[test]
fn a_source_hands_out_its_lines_in_order() {
    let mut source = Source::new(String::from("one\ntwo\n\nlast").into_bytes());
    assert_eq!(false, source.is_empty());
    assert_eq!(String::from("one\n").into_bytes(), source.next_line());
    assert_eq!(String::from("two\n").into_bytes(), source.next_line());
    assert_eq!(String::from("\n").into_bytes(), source.next_line());
    assert_eq!(false, source.is_empty());
    assert_eq!(String::from("last").into_bytes(), source.next_line());
    assert_eq!(true, source.is_empty());
    assert_eq!(Vec::<u8>::new(), source.next_line());
    assert_eq!(Vec::<u8>::new(), source.next_line());
    assert_eq!(true, source.is_empty());
}

#[test]
fn an_empty_source_hands_out_empty_lines() {
    let mut source = Source::new(Vec::new());
    assert_eq!(true, source.is_empty());
    assert_eq!(Vec::<u8>::new(), source.next_line());
    assert_eq!(Ok(String::new()), source.read_line());
}

#[test]
fn a_read_line_comes_without_its_line_break() {
    let mut source = Source::new(String::from("  a b \t\r\n\n x").into_bytes());
    assert_eq!(Ok(String::from("  a b \t\r")), source.read_line());
    assert_eq!(Ok(String::new()), source.read_line());
    assert_eq!(Ok(String::from(" x")), source.read_line());
    assert_eq!(Ok(String::new()), source.read_line());
}

#[test]
fn a_line_that_is_not_utf8_fails_and_is_taken() {
    let mut source = Source::new(vec![b'a', 0x80, b'\n', b'b', b'\n', 0xe2, 0x82]);
    assert_eq!(Err(IoFailure {}), source.read_line());
    assert_eq!(Ok(String::from("b")), source.read_line());
    assert_eq!(Err(IoFailure {}), source.read_line());
    assert_eq!(true, source.is_empty());
    assert_eq!(Ok(String::new()), source.read_line());
}

#[test]
fn the_rest_of_a_source_is_a_source_of_its_own() {
    let mut source = Source::new(String::from("one\ntwo\n").into_bytes());
    source.next_line();
    let mut rest = source.rest();
    let mut copy = source.clone();
    assert_eq!(Ok(String::from("two")), rest.read_line());
    assert_eq!(true, rest.is_empty());
    assert_eq!(false, source.is_empty());
    assert_eq!(Ok(String::from("two")), source.read_line());
    assert_eq!(Ok(String::from("two")), copy.read_line());
    assert_eq!(true, copy.is_empty());
}

#[test]
fn responses_hold_what_was_filed_last() {
    let mut valid = Responses::new();
    assert_eq!(None, valid.get("yes"));
    valid.insert(String::from("yes"), Answer::YES);
    valid.insert(String::from("si"), Answer::YES);
    assert_eq!(Some(Answer::YES), valid.get("yes"));
    assert_eq!(Some(Answer::YES), valid.get("si"));
    assert_eq!(None, valid.get("no"));
    assert_eq!(None, valid.get("YES"));
    valid.insert(String::from("yes"), Answer::RESPONSE(String::from("sure")));
    assert_eq!(Some(Answer::RESPONSE(String::from("sure"))), valid.get("yes"));
    assert_eq!(Some(Answer::YES), valid.get("si"));
    let copy = valid.clone();
    valid.insert(String::from("si"), Answer::NO);
    assert_eq!(Some(Answer::YES), copy.get("si"));
    assert_eq!(Some(Answer::NO), valid.get("si"));
    assert_eq!(Some(Answer::RESPONSE(String::from("sure"))), copy.get("yes"));
}

#[test]
fn a_copy_of_a_question_is_asked_on_its_own() {
    let mut q = Question::with_cursor("Continue?", String::from("wat\nno\n").into_bytes(), Vec::new());
    q.yes_no().tries(2).accept("x").default(Answer::YES).show_defaults().clarification("yes or no");
    let mut copy = q.clone();
    assert_eq!(Some(Answer::NO), q.ask());
    assert_eq!("Continue?", copy.prompt());
    assert_eq!(Vec::<u8>::new(), copy.output().clone());
    assert_eq!(Some(Answer::NO), copy.ask());
    assert_eq!(q.prompt(), copy.prompt());
    assert_eq!(q.output(), copy.output());
    assert_eq!(q.accepted(), copy.accepted());
    assert_eq!(q.max_attempts(), copy.max_attempts());
    assert_eq!(q.clarification_text(), copy.clarification_text());
    assert_eq!(q.default_answer(), copy.default_answer());
}

fn free_text(reply: String) -> String {
    match Question::new("Name?").interpret(Ok(reply)) {
        Ok(Answer::RESPONSE(text)) => text,
        _ => panic!("free text expected"),
    }
}

#[test]
fn free_text_loses_every_kind_of_white_space_at_its_ends() {
    let mut white: Vec<u32> = vec![0x20, 0x85, 0xa0, 0x1680, 0x2028, 0x2029, 0x202f, 0x205f, 0x3000];
    for code in 0x09..=0x0d {
        white.push(code);
    }
    for code in 0x2000..=0x200a {
        white.push(code);
    }
    assert_eq!(25, white.len());
    for code in white {
        let c = char::from_u32(code).unwrap();
        assert_eq!("a b", free_text(format!("{}a b{}", c, c)));
        assert_eq!("a{}b".replace("{}", &c.to_string()), free_text(format!("a{}b", c)));
        assert_eq!("", free_text(format!("{}{}", c, c)));
    }
}

#[test]
fn free_text_keeps_what_is_no_white_space() {
    for code in [0x08u32, 0x0e, 0x1c, 0x1f, 0x21, 0x7f, 0x84, 0x86, 0x9f, 0xa1, 0x167f, 0x1681, 0x180e, 0x1fff, 0x200b, 0x200d, 0x2027, 0x202a, 0x202e, 0x2030, 0x205e, 0x2060, 0x2fff, 0x3001, 0xfeff] {
        let c = char::from_u32(code).unwrap();
        let reply = format!("{}a{}", c, c);
        assert_eq!(reply.clone(), free_text(reply));
    }
}
