use sporespawn::{parse_command, Command};

fn read(content: &str) -> (Command, String) {
    parse_command(content)
}

fn plain(command: Command) -> (Command, String) {
    (command, String::new())
}

#[test]
fn every_command_word_is_known() {
    assert_eq!(read("%stop"), plain(Command::Stop));
    assert_eq!(read("%quit"), plain(Command::Quit));
    assert_eq!(read("%join"), plain(Command::Join));
    assert_eq!(read("%play"), plain(Command::Play));
    assert_eq!(read("%skip"), plain(Command::Skip));
    assert_eq!(read("%undo"), plain(Command::Undo));
    assert_eq!(read("%list"), plain(Command::List));
    assert_eq!(read("%now"), plain(Command::Now));
    assert_eq!(read("%help"), plain(Command::Help));
}

#[test]
fn the_argument_is_all_that_follows_the_first_space() {
    assert_eq!(read("%play darude sandstorm"), (Command::Play, "darude sandstorm".to_string()));
    assert_eq!(read("%play  two"), (Command::Play, " two".to_string()));
    assert_eq!(read("%play "), (Command::Play, String::new()));
    assert_eq!(read("%skip now please"), (Command::Skip, "now please".to_string()));
    assert_eq!(read("%play https://example.org/é 夜"), (Command::Play, "https://example.org/é 夜".to_string()));
}

#[test]
fn the_case_of_the_command_word_does_not_count() {
    assert_eq!(read("%PLAY Abc"), (Command::Play, "Abc".to_string()));
    assert_eq!(read("%Stop"), plain(Command::Stop));
    assert_eq!(read("%nOw"), plain(Command::Now));
    assert_eq!(read("%HELP"), plain(Command::Help));
}

#[test]
fn other_words_are_no_command() {
    assert_eq!(read(""), plain(Command::Other));
    assert_eq!(read("hello there"), (Command::Other, "there".to_string()));
    assert_eq!(read("%plays x"), (Command::Other, "x".to_string()));
    assert_eq!(read("%pla"), plain(Command::Other));
    assert_eq!(read(" %play x"), (Command::Other, "%play x".to_string()));
    assert_eq!(read("play"), plain(Command::Other));
    assert_eq!(read("%play\tx"), plain(Command::Other));
    assert_eq!(read("%stöp"), plain(Command::Other));
}

#[test]
fn only_ascii_letters_fold() {
    // '%' + 32 is 'E', '0' + 32 is 'P': neither stands for the other.
    assert_eq!(read("Estop"), plain(Command::Other));
    assert_eq!(read("%sto0"), plain(Command::Other));
    // '@' is the character before 'A', '[' the one after 'Z'.
    assert_eq!(read("%h@lp"), plain(Command::Other));
    assert_eq!(read("%[elp"), plain(Command::Other));
    // 0x130 folds to 'i' in Unicode, and is no ASCII letter.
    assert_eq!(read("%l\u{130}st"), plain(Command::Other));
}
