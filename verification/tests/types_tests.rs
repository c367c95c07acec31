use cliprust::types::{Command, ContentType};

#[test]
fn content_type_names() {
    assert_eq!(ContentType::Text.as_str(), "text");
    assert_eq!(ContentType::Image.as_str(), "image");
    assert_eq!(ContentType::File.as_str(), "file");
}

#[test]
fn content_type_name_round_trip() {
    for c in [ContentType::Text, ContentType::Image, ContentType::File] {
        assert_eq!(ContentType::from_str(c.as_str()), Some(c));
    }
}

#[test]
fn content_type_unknown_names() {
    assert_eq!(ContentType::from_str("Text"), None);
    assert_eq!(ContentType::from_str(""), None);
    assert_eq!(ContentType::from_str("text "), None);
    assert_eq!(ContentType::from_str("files"), None);
}

#[test]
fn extractor_indices() {
    assert_eq!(ContentType::File.extractor_index(), 0);
    assert_eq!(ContentType::Image.extractor_index(), 1);
    assert_eq!(ContentType::Text.extractor_index(), 2);
}

#[test]
fn parse_simple_commands() {
    assert_eq!(Command::parse("list"), Command::List);
    assert_eq!(Command::parse("help"), Command::Help);
    assert_eq!(Command::parse("exit"), Command::Exit);
    assert_eq!(Command::parse("quit"), Command::Exit);
    assert_eq!(Command::parse("clear"), Command::Clear);
}

#[test]
fn parse_commands_with_ids() {
    assert_eq!(Command::parse("pin 42"), Command::Pin(42));
    assert_eq!(Command::parse("unpin 7"), Command::Unpin(7));
    assert_eq!(Command::parse("copy 3"), Command::Copy(3));
    assert_eq!(Command::parse("copy -5"), Command::Copy(-5));
    assert_eq!(Command::parse("copy +7"), Command::Copy(7));
    assert_eq!(Command::parse("copy 00012"), Command::Copy(12));
}

#[test]
fn parse_ignores_extra_whitespace_and_words() {
    assert_eq!(Command::parse("   pin \t 42   extra words"), Command::Pin(42));
    assert_eq!(Command::parse("\n list \n"), Command::List);
    assert_eq!(Command::parse("help me"), Command::Help);
    assert_eq!(Command::parse("pin\u{3000}3"), Command::Pin(3));
}

#[test]
fn parse_unknown_inputs() {
    assert_eq!(Command::parse(""), Command::Unknown);
    assert_eq!(Command::parse("   "), Command::Unknown);
    assert_eq!(Command::parse("LIST"), Command::Unknown);
    assert_eq!(Command::parse("listpinned"), Command::Unknown);
    assert_eq!(Command::parse("pin"), Command::Unknown);
    assert_eq!(Command::parse("pin x"), Command::Unknown);
    assert_eq!(Command::parse("copy -"), Command::Unknown);
    assert_eq!(Command::parse("copy +"), Command::Unknown);
    assert_eq!(Command::parse("copy 1_000"), Command::Unknown);
    assert_eq!(Command::parse("copy 12a"), Command::Unknown);
    assert_eq!(Command::parse("copy \u{0661}"), Command::Unknown);
}

#[test]
fn parse_id_limits() {
    assert_eq!(Command::parse("unpin 9223372036854775807"), Command::Unpin(i64::MAX));
    assert_eq!(Command::parse("copy -9223372036854775808"), Command::Copy(i64::MIN));
    assert_eq!(Command::parse("copy 9223372036854775808"), Command::Unknown);
    assert_eq!(Command::parse("copy -9223372036854775809"), Command::Unknown);
    assert_eq!(
        Command::parse("pin 0000000000000000000000000000000000000000001"),
        Command::Pin(1)
    );
    assert_eq!(Command::parse("pin 99999999999999999999999999999"), Command::Unknown);
}

#[test]
fn parse_agrees_with_std_integer_parsing() {
    for word in ["0", "-0", "+0", "15", "-15", "+-1", "-+1", "--1", "9223372036854775807", "x1", "1x"] {
        let expected = match word.parse::<i64>() {
            Ok(id) => Command::Copy(id),
            Err(_) => Command::Unknown,
        };
        assert_eq!(Command::parse(&format!("copy {}", word)), expected, "word {:?}", word);
    }
}

#[test]
fn words_after_a_command_are_ignored() {
    for (line, tail) in [
        ("copy 7", "and more"),
        ("pin -3", "x y z"),
        ("unpin +12", "99"),
        ("list", "everything"),
        ("clear", "12"),
        ("quit", "now"),
    ] {
        let joined = format!("{} {}", line, tail);
        assert_ne!(Command::parse(line), Command::Unknown);
        assert_eq!(Command::parse(&joined), Command::parse(line), "{}", joined);
    }
}

#[test]
fn toggle_pin_is_never_typed() {
    assert_eq!(Command::parse("togglepin 3"), Command::Unknown);
    assert_eq!(Command::parse("TogglePin 3"), Command::Unknown);
}
