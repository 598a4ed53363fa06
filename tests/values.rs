use cmd_args::command_line::cmd_args;
use cmd_args::error::CommandLineArgError;
use cmd_args::options::QuoteStyle;
use cmd_args::text::{apply_format, decimal, join, shell_quote, signed_decimal};
use cmd_args::value::{Artifact, TargetLabel, Value, ValueAsCommandLineLike};

#[test]
fn dispatch_accepts_argument_like_values() {
    assert!(Value::Str("a".to_string()).as_command_line().is_some());
    assert!(Value::Artifact(Artifact { id: 1 }).as_command_line().is_some());
    let c = cmd_args(vec![], None, None, None, None).unwrap();
    assert!(Value::CommandLine(c).as_command_line().is_some());
    assert!(Value::Int(1).as_command_line().is_none());
    assert!(Value::List(vec![]).as_command_line().is_none());
}

#[test]
fn dispatch_error_carries_repr() {
    let v = Value::List(vec![Value::Int(1), Value::Str("a".to_string()), Value::Artifact(Artifact { id: 7 })]);
    match v.as_command_line_err() {
        Err(CommandLineArgError::InvalidItemType { repr }) => {
            assert_eq!(repr, "[1, \"a\", <artifact 7>]")
        }
        _ => panic!("expected InvalidItemType"),
    }
    assert!(Value::Str("a".to_string()).as_command_line_err().is_ok());
}

#[test]
fn frozen_dispatch_rejects_labels() {
    let label = TargetLabel {
        cell: "c".to_string(),
        package: "p".to_string(),
        name: "n".to_string(),
    };
    let l = Value::Label(label);
    assert!(l.as_command_line().is_some());
    assert!(l.freeze().as_frozen_command_line().is_none());
    let f = Value::OutputArtifact(Artifact { id: 3 }).freeze();
    assert!(f.as_frozen_command_line().is_some());
    assert!(Value::Bool(true).freeze().as_frozen_command_line().is_none());
}

#[test]
fn quote_style_parses_shell_only() {
    assert_eq!(QuoteStyle::parse("shell").unwrap(), QuoteStyle::Shell);
    assert!(matches!(QuoteStyle::parse("Shell"), Err(CommandLineArgError::InvalidQuoteStyle { .. })));
    assert!(QuoteStyle::parse("").is_err());
}

#[test]
fn text_helpers() {
    assert_eq!(apply_format("a{}b", "X"), "aXb");
    assert_eq!(apply_format("{", "X"), "{");
    assert_eq!(apply_format("{}", "X"), "X");
    assert_eq!(join(&vec!["a".to_string(), "b".to_string(), "c".to_string()], ", "), "a, b, c");
    assert_eq!(join(&vec![], ","), "");
    assert_eq!(decimal(0), "0");
    assert_eq!(decimal(u64::MAX), "18446744073709551615");
    assert_eq!(signed_decimal(-120), "-120");
    assert_eq!(shell_quote("a b"), "'a b'");
    assert_eq!(shell_quote("ok"), "ok");
    assert_eq!(shell_quote("$HOME"), "'$HOME'");
}

#[test]
fn error_messages() {
    let e = Value::Int(5).as_command_line_err().unwrap_err();
    assert_eq!(
        e.message(),
        "expected command line item to be a string, artifact, or label, or list thereof, not `5`"
    );
    let q = QuoteStyle::parse("posix").unwrap_err();
    assert_eq!(q.message(), "expected quote style to be `shell`, not `posix`");
    assert_eq!(
        CommandLineArgError::UnresolvedArtifact { id: 12 }.message(),
        "no path is known for artifact 12"
    );
}
