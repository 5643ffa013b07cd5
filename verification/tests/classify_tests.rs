use photopack::classify::{classify, Command};
use photopack::session::check_blank;

fn c(text: &str) -> Option<Command> {
    classify(&text.as_bytes().to_vec(), &b"photobot".to_vec())
}

#[test]
fn bare_commands_are_recognized() {
    assert_eq!(c("/start"), Some(Command::Start));
    assert_eq!(c("/help"), Some(Command::Help));
    assert_eq!(c("/startcollect"), Some(Command::StartCollect));
    assert_eq!(c("/stopcollect"), Some(Command::StopCollect));
    assert_eq!(c("/version"), Some(Command::Version));
    assert_eq!(c("/filename"), Some(Command::FileName));
}

#[test]
fn qualified_commands_match_only_the_own_bot() {
    assert_eq!(c("/stopcollect@photobot"), Some(Command::StopCollect));
    assert_eq!(c("/stopcollect@otherbot"), None);
    assert_eq!(c("/filename@photobot"), Some(Command::FileName));
}

#[test]
fn regular_content_is_not_a_command() {
    assert_eq!(c("hello"), None);
    assert_eq!(c(""), None);
    assert_eq!(c("/unknown"), None);
    assert_eq!(c("/startcollects"), None);
    assert_eq!(c("stopcollect"), None);
    assert_eq!(c("/STOPCOLLECT"), None, "commands are registered lowercase");
}

#[test]
fn blank_detection_trims_whitespace() {
    assert!(check_blank(&Vec::new()));
    assert!(check_blank(&b"  \t\r\n".to_vec()));
    assert!(!check_blank(&b"  a  ".to_vec()));
    assert!(!check_blank(&b"name".to_vec()));
}
