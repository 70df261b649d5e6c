use segment_utils::command::{command_from_line, expected_shape, kind_of, Command, CommandKind};
use segment_utils::errors::{ExpectedShape, TokenizeError};

#[test]
fn builder_keeps_caller_order() {
    let mut cmd = Command::new();
    assert!(!cmd.is_valid());
    assert_eq!(cmd.len(), 0);
    cmd.arg(String::from("set"));
    cmd.arg(String::from("key"));
    cmd.arg(String::from("value"));
    assert!(cmd.is_valid());
    assert_eq!(cmd.len(), 3);
    assert_eq!(
        cmd.tokens(),
        &vec![String::from("set"), String::from("key"), String::from("value")]
    );
}

#[test]
fn kind_lookup_is_case_insensitive() {
    assert_eq!(kind_of(&String::from("create")), CommandKind::Create);
    assert_eq!(kind_of(&String::from("CREATE")), CommandKind::Create);
    assert_eq!(kind_of(&String::from("Create")), CommandKind::Create);
    assert_eq!(kind_of(&String::from("KeySpaces")), CommandKind::Keyspaces);
    assert_eq!(kind_of(&String::from("TtL")), CommandKind::Ttl);
    assert_eq!(kind_of(&String::from("PING")), CommandKind::Ping);
}

#[test]
fn whole_vocabulary_is_reachable() {
    assert_eq!(kind_of(&String::from("set")), CommandKind::SetValue);
    assert_eq!(kind_of(&String::from("get")), CommandKind::GetValue);
    assert_eq!(kind_of(&String::from("del")), CommandKind::Del);
    assert_eq!(kind_of(&String::from("drop")), CommandKind::DropKeyspace);
    assert_eq!(kind_of(&String::from("count")), CommandKind::Count);
}

#[test]
fn unknown_names_get_the_unknown_kind() {
    assert_eq!(kind_of(&String::from("flush")), CommandKind::Unknown);
    assert_eq!(kind_of(&String::from("")), CommandKind::Unknown);
    assert_eq!(kind_of(&String::from("créate")), CommandKind::Unknown);
}

#[test]
fn command_kind_reads_the_first_token() {
    let mut cmd = Command::new();
    cmd.arg(String::from("COUNT"));
    cmd.arg(String::from("ks"));
    assert_eq!(cmd.kind(), CommandKind::Count);
}

#[test]
fn vocabulary_decode_shapes() {
    assert_eq!(expected_shape(CommandKind::Create), Some(ExpectedShape::Boolean));
    assert_eq!(expected_shape(CommandKind::SetValue), Some(ExpectedShape::Boolean));
    assert_eq!(expected_shape(CommandKind::GetValue), Some(ExpectedShape::OptionalStr));
    assert_eq!(expected_shape(CommandKind::Del), Some(ExpectedShape::Boolean));
    assert_eq!(expected_shape(CommandKind::DropKeyspace), Some(ExpectedShape::Boolean));
    assert_eq!(expected_shape(CommandKind::Count), Some(ExpectedShape::Integer));
    assert_eq!(expected_shape(CommandKind::Ttl), Some(ExpectedShape::OptionalInt));
    assert_eq!(expected_shape(CommandKind::Ping), Some(ExpectedShape::Str));
    assert_eq!(expected_shape(CommandKind::Keyspaces), Some(ExpectedShape::MappingList));
    assert_eq!(expected_shape(CommandKind::Unknown), None);
}

#[test]
fn command_from_line_tokenizes_whole_line() {
    let cmd = command_from_line(String::from("get foo")).unwrap();
    assert!(cmd.is_valid());
    assert_eq!(cmd.tokens(), &vec![String::from("get"), String::from("foo")]);
}

#[test]
fn command_from_line_rejects_malformed_input() {
    let r = command_from_line(String::from("create \"broken"));
    assert!(matches!(r, Err(TokenizeError::MalformedInput)));
}

#[test]
fn command_from_blank_line_is_empty_and_invalid() {
    let cmd = command_from_line(String::from("   ")).unwrap();
    assert!(!cmd.is_valid());
}
