use interpose::command::{parse, starts_with, Command, CommandError};
use interpose::text::{copy_bytes, copy_range, same_bytes, spells, token_at};

#[test]
fn ordinary_chat_is_no_command() {
    assert_eq!(parse(b"hello there"), Ok(None));
    assert_eq!(parse(b""), Ok(None));
    assert_eq!(parse(b"!hack"), Ok(None));
    assert_eq!(parse(b"!hackposition"), Ok(None));
    assert_eq!(parse(b" !hack position"), Ok(None));
    assert_eq!(parse(b"!Hack position"), Ok(None));
}

#[test]
fn toggles_are_recognised() {
    assert_eq!(parse(b"!hack position"), Ok(Some(Command::TogglePosition)));
    assert_eq!(parse(b"!hack velocity"), Ok(Some(Command::ToggleVelocity)));
    assert_eq!(parse(b"!hack float"), Ok(Some(Command::ToggleFloat)));
}

#[test]
fn words_after_a_toggle_are_ignored() {
    assert_eq!(parse(b"!hack position now please"), Ok(Some(Command::TogglePosition)));
    assert_eq!(parse(b"!hack float "), Ok(Some(Command::ToggleFloat)));
}

#[test]
fn bogus_command_is_an_error() {
    assert_eq!(parse(b"!hack bogus"), Err(CommandError::UnknownCommand));
}

#[test]
fn empty_command_word_is_an_error() {
    assert_eq!(parse(b"!hack "), Err(CommandError::UnknownCommand));
    assert_eq!(parse(b"!hack  position"), Err(CommandError::UnknownCommand));
    assert_eq!(parse(b"!hack positions"), Err(CommandError::UnknownCommand));
    assert_eq!(parse(b"!hack POSITION"), Err(CommandError::UnknownCommand));
}

#[test]
fn teleport_takes_three_words() {
    assert_eq!(
        parse(b"!hack tp 10 20 30"),
        Ok(Some(Command::Teleport { x: b"10".to_vec(), y: b"20".to_vec(), z: b"30".to_vec() }))
    );
    assert_eq!(
        parse(b"!hack tp -1.5 2e3 abc rest"),
        Ok(Some(Command::Teleport { x: b"-1.5".to_vec(), y: b"2e3".to_vec(), z: b"abc".to_vec() }))
    );
}

#[test]
fn teleport_with_two_spaces_has_an_empty_word() {
    assert_eq!(
        parse(b"!hack tp 1  2"),
        Ok(Some(Command::Teleport { x: b"1".to_vec(), y: b"".to_vec(), z: b"2".to_vec() }))
    );
}

#[test]
fn teleport_with_too_few_words_is_an_error() {
    assert_eq!(parse(b"!hack tp"), Err(CommandError::MissingArgument));
    assert_eq!(parse(b"!hack tp 10"), Err(CommandError::MissingArgument));
    assert_eq!(parse(b"!hack tp 10 20"), Err(CommandError::MissingArgument));
}

#[test]
fn fast_travel_names_end_in_nul() {
    assert_eq!(
        parse(b"!hack ft Town Cave"),
        Ok(Some(Command::FastTravel { from: b"Town\0".to_vec(), to: b"Cave\0".to_vec() }))
    );
    assert_eq!(
        parse(b"!hack ft Town "),
        Ok(Some(Command::FastTravel { from: b"Town\0".to_vec(), to: b"\0".to_vec() }))
    );
}

#[test]
fn fast_travel_with_too_few_words_is_an_error() {
    assert_eq!(parse(b"!hack ft"), Err(CommandError::MissingArgument));
    assert_eq!(parse(b"!hack ft Town"), Err(CommandError::MissingArgument));
}

#[test]
fn command_text_may_hold_any_bytes() {
    assert_eq!(
        parse(b"!hack ft \xc3\xa9 \xff"),
        Ok(Some(Command::FastTravel { from: b"\xc3\xa9\0".to_vec(), to: b"\xff\0".to_vec() }))
    );
}

#[test]
fn tokens_split_on_single_spaces() {
    assert_eq!(token_at(b"a b c", 0), Some(b"a".to_vec()));
    assert_eq!(token_at(b"a b c", 1), Some(b"b".to_vec()));
    assert_eq!(token_at(b"a b c", 2), Some(b"c".to_vec()));
    assert_eq!(token_at(b"a b c", 3), None);
    assert_eq!(token_at(b"", 0), Some(b"".to_vec()));
    assert_eq!(token_at(b"", 1), None);
    assert_eq!(token_at(b" ", 0), Some(b"".to_vec()));
    assert_eq!(token_at(b" ", 1), Some(b"".to_vec()));
    assert_eq!(token_at(b" ", 2), None);
    assert_eq!(token_at(b"ab  cd", 1), Some(b"".to_vec()));
    assert_eq!(token_at(b"ab  cd", 2), Some(b"cd".to_vec()));
    assert_eq!(token_at(b"a\tb", 0), Some(b"a\tb".to_vec()));
}

#[test]
fn tokens_agree_with_split() {
    let lines: [&str; 6] = ["!hack tp 1 2 3", "", " ", "a  b ", "  ", "one"];
    for line in lines {
        let words: Vec<&str> = line.split(' ').collect();
        for k in 0..words.len() + 2 {
            let expected = words.get(k).map(|w| w.as_bytes().to_vec());
            assert_eq!(token_at(line.as_bytes(), k), expected);
        }
    }
}

#[test]
fn byte_helpers() {
    assert!(starts_with(b"!hack x", b"!hack "));
    assert!(starts_with(b"abc", b""));
    assert!(!starts_with(b"ab", b"abc"));
    assert!(!starts_with(b"abd", b"abc"));
    assert!(same_bytes(b"abc", b"abc"));
    assert!(!same_bytes(b"abc", b"abd"));
    assert!(!same_bytes(b"abc", b"ab"));
    assert!(spells(b"tp", "tp"));
    assert!(!spells(b"tp ", "tp"));
    assert_eq!(copy_bytes(b"xyz"), b"xyz".to_vec());
    assert_eq!(copy_range(b"hello", 1, 3), b"el".to_vec());
    assert_eq!(copy_range(b"hello", 2, 2), Vec::<u8>::new());
}
