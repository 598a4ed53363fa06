use cmd_args::command_line::{cmd_args, expand, single_arg, CommandLine};
use cmd_args::context::{PathEntry, PathSeparator, ResolutionContext};
use cmd_args::error::CommandLineArgError;
use cmd_args::value::{Artifact, RootRelativePath, TargetLabel, Value};

fn s(x: &str) -> Value {
    Value::Str(x.to_string())
}

fn strs(xs: &[&str]) -> Vec<String> {
    xs.iter().map(|x| x.to_string()).collect()
}

fn ctx(sep: PathSeparator) -> ResolutionContext {
    ResolutionContext {
        entries: vec![
            PathEntry { artifact: 1, components: strs(&["buck-out", "v2", "foo.o"]) },
            PathEntry { artifact: 2, components: strs(&["src", "main.c"]) },
            PathEntry { artifact: 1, components: strs(&["shadowed"]) },
        ],
        separator: sep,
    }
}

fn unix() -> ResolutionContext {
    ctx(PathSeparator::Unix)
}

fn build(
    args: Vec<Value>,
    delimiter: Option<&str>,
    format: Option<&str>,
    prepend: Option<&str>,
    quote: Option<&str>,
) -> CommandLine {
    cmd_args(
        args,
        delimiter.map(|d| d.to_string()),
        format.map(|f| f.to_string()),
        prepend.map(|p| p.to_string()),
        quote,
    )
    .unwrap()
}

fn resolve(c: &CommandLine) -> Vec<String> {
    c.resolve(&unix()).unwrap()
}

#[test]
fn literals_resolve_in_order() {
    let c = build(vec![s("--foo"), s("bar")], None, None, None, None);
    assert_eq!(resolve(&c), strs(&["--foo", "bar"]));
}

#[test]
fn empty_delimiter_joins_a_list() {
    let c = build(vec![Value::List(vec![s("a"), s("b")])], Some(""), None, None, None);
    assert_eq!(resolve(&c), strs(&["ab"]));
}

#[test]
fn format_applies_to_a_literal() {
    let c = build(vec![s("v")], None, Some("--args={}"), None, None);
    assert_eq!(resolve(&c), strs(&["--args=v"]));
}

#[test]
fn format_applies_to_each_list_element() {
    let c = build(vec![Value::List(vec![s("a"), s("b")])], None, Some("--args={}"), None, None);
    assert_eq!(resolve(&c), strs(&["--args=a", "--args=b"]));
}

#[test]
fn format_without_placeholder_keeps_template() {
    let c = build(vec![s("a"), s("b")], None, Some("fixed"), None, None);
    assert_eq!(resolve(&c), strs(&["fixed", "fixed"]));
}

#[test]
fn format_replaces_only_first_placeholder() {
    let c = build(vec![s("x")], None, Some("{}={}"), None, None);
    assert_eq!(resolve(&c), strs(&["x={}"]));
}

#[test]
fn prepend_precedes_each_argument() {
    let c = build(vec![Value::List(vec![s("inc1"), s("inc2")])], None, None, Some("-I"), None);
    assert_eq!(resolve(&c), strs(&["-I", "inc1", "-I", "inc2"]));
}

#[test]
fn prepend_precedes_each_argument_of_nested_line() {
    let inner = build(vec![s("inc1"), s("inc2")], None, None, None, None);
    let c = build(vec![Value::CommandLine(inner)], None, None, Some("-I"), None);
    assert_eq!(resolve(&c), strs(&["-I", "inc1", "-I", "inc2"]));
}

#[test]
fn prepend_with_delimiter_precedes_joined_argument() {
    let c = build(vec![Value::List(vec![s("a"), s("b")])], Some(","), None, Some("--x"), None);
    assert_eq!(resolve(&c), strs(&["--x", "a,b"]));
}

#[test]
fn shell_quote_wraps_whitespace() {
    let c = build(vec![s("a b")], None, None, None, Some("shell"));
    assert_eq!(resolve(&c), strs(&["'a b'"]));
}

#[test]
fn shell_quote_keeps_safe_words() {
    let c = build(vec![s("--out=a/b.o"), s("")], None, None, None, Some("shell"));
    assert_eq!(resolve(&c), strs(&["--out=a/b.o", "''"]));
}

#[test]
fn shell_quote_escapes_single_quotes() {
    let c = build(vec![s("it's")], None, None, None, Some("shell"));
    assert_eq!(resolve(&c), strs(&["'it'\\''s'"]));
}

#[test]
fn shell_quote_applies_after_prepend_and_format() {
    let c = build(vec![s("a b")], None, Some("--m={}"), Some("-p q"), Some("shell"));
    assert_eq!(resolve(&c), strs(&["'-p q'", "'--m=a b'"]));
}

#[test]
fn unknown_quote_style_is_rejected() {
    let r = cmd_args(vec![s("a")], None, None, None, Some("bash"));
    assert!(matches!(r, Err(CommandLineArgError::InvalidQuoteStyle { ref value }) if value == "bash"));
}

#[test]
fn empty_command_line_resolves_to_nothing() {
    let c = build(vec![], None, None, None, None);
    assert_eq!(resolve(&c), Vec::<String>::new());
    let d = build(vec![], Some(","), Some("x{}"), Some("-p"), Some("shell"));
    assert_eq!(resolve(&d), Vec::<String>::new());
}

#[test]
fn delimiter_on_empty_item_gives_one_empty_argument() {
    let c = build(vec![Value::List(vec![])], Some(","), None, None, None);
    assert_eq!(resolve(&c), strs(&[""]));
}

#[test]
fn integer_item_is_rejected() {
    let c = build(vec![s("ok"), Value::Int(42)], None, None, None, None);
    let r = c.resolve(&unix());
    assert!(matches!(r, Err(CommandLineArgError::InvalidItemType { ref repr }) if repr == "42"));
}

#[test]
fn negative_integer_repr() {
    let c = build(vec![Value::Int(i64::MIN)], None, None, None, None);
    let r = c.resolve(&unix());
    assert!(matches!(r, Err(CommandLineArgError::InvalidItemType { ref repr }) if repr == "-9223372036854775808"));
}

#[test]
fn bool_and_none_items_are_rejected() {
    let c = build(vec![Value::List(vec![Value::Bool(true)])], None, None, None, None);
    assert!(matches!(c.resolve(&unix()), Err(CommandLineArgError::InvalidItemType { ref repr }) if repr == "True"));
    let d = build(vec![Value::NoneValue, Value::Bool(false)], None, None, None, None);
    assert!(matches!(d.resolve(&unix()), Err(CommandLineArgError::InvalidItemType { ref repr }) if repr == "None"));
}

#[test]
fn artifacts_resolve_to_paths() {
    let c = build(
        vec![Value::Artifact(Artifact { id: 1 }), Value::OutputArtifact(Artifact { id: 2 })],
        None,
        None,
        None,
        None,
    );
    assert_eq!(resolve(&c), strs(&["buck-out/v2/foo.o", "src/main.c"]));
    assert_eq!(
        c.resolve(&ctx(PathSeparator::Windows)).unwrap(),
        strs(&["buck-out\\v2\\foo.o", "src\\main.c"])
    );
}

#[test]
fn unknown_artifact_fails() {
    let c = build(vec![s("a"), Value::Artifact(Artifact { id: 9 })], None, None, None, None);
    assert!(matches!(c.resolve(&unix()), Err(CommandLineArgError::UnresolvedArtifact { id: 9 })));
}

#[test]
fn labels_and_relative_paths_render() {
    let label = TargetLabel {
        cell: "root".to_string(),
        package: "foo/bar".to_string(),
        name: "baz".to_string(),
    };
    let rel = RootRelativePath { root: "gen".to_string(), path: "out.txt".to_string() };
    let c = build(vec![Value::Label(label), Value::RelativePath(rel)], None, None, None, None);
    assert_eq!(resolve(&c), strs(&["root//foo/bar:baz", "gen/out.txt"]));
}

#[test]
fn macro_string_is_one_argument() {
    let m = Value::MacroString(vec![s("-L"), Value::Artifact(Artifact { id: 2 })]);
    let c = build(vec![m], None, None, None, None);
    assert_eq!(resolve(&c), strs(&["-Lsrc/main.c"]));
}

#[test]
fn projection_and_run_info_expand_in_order() {
    let run = build(vec![s("tool"), s("--flag")], None, None, None, None);
    let proj = Value::Projection(vec![s("x"), Value::List(vec![s("y"), s("z")])]);
    let c = build(vec![Value::RunInfo(run), proj], None, Some("<{}>"), None, None);
    assert_eq!(resolve(&c), strs(&["<tool>", "<--flag>", "<x>", "<y>", "<z>"]));
}

#[test]
fn nested_options_apply_before_outer_ones() {
    let inner = build(vec![Value::List(vec![s("a"), s("b")]), s("d")], Some("+"), None, None, None);
    let c = build(vec![Value::CommandLine(inner), s("c")], None, Some("[{}]"), None, None);
    assert_eq!(resolve(&c), strs(&["[a+b]", "[d]", "[c]"]));
}

#[test]
fn add_appends_items() {
    let mut c = build(vec![s("a")], None, Some("-{}"), None, None);
    c.add(s("b"));
    assert_eq!(c.len(), 2);
    assert_eq!(resolve(&c), strs(&["-a", "-b"]));
}

#[test]
fn new_command_line_is_empty() {
    let mut c = CommandLine::new();
    assert_eq!(resolve(&c), Vec::<String>::new());
    c.add(s("x"));
    assert_eq!(resolve(&c), strs(&["x"]));
}

#[test]
fn resolving_twice_gives_same_output() {
    let c = build(
        vec![s("a b"), Value::Artifact(Artifact { id: 1 })],
        None,
        Some("={}"),
        Some("-p"),
        Some("shell"),
    );
    let first = resolve(&c);
    let second = resolve(&c);
    assert_eq!(first, second);
    assert_eq!(first, strs(&["-p", "'=a b'", "-p", "=buck-out/v2/foo.o"]));
}

#[test]
fn frozen_resolves_as_before() {
    let c = build(vec![Value::List(vec![s("a"), s("b")])], Some(" "), Some("{}!"), None, Some("shell"));
    let before = resolve(&c);
    let frozen = c.freeze();
    assert_eq!(frozen.resolve(&unix()).unwrap(), before);
    assert_eq!(before, strs(&["'a! b!'"]));
    assert_eq!(frozen.command_line().len(), 1);
}

#[test]
fn single_arg_counts_arguments() {
    let one = single_arg(&s("x"), &unix()).unwrap();
    assert_eq!(one, Some("x".to_string()));
    let two = single_arg(&Value::List(vec![s("x"), s("y")]), &unix()).unwrap();
    assert_eq!(two, None);
    assert!(single_arg(&Value::Int(3), &unix()).is_err());
}

#[test]
fn expand_list_of_artifacts() {
    let v = Value::List(vec![Value::Artifact(Artifact { id: 2 }), s("k")]);
    assert_eq!(expand(&v, &unix()).unwrap(), strs(&["src/main.c", "k"]));
}

#[test]
fn concatenated_items_resolve_in_order() {
    let first = build(vec![s("a"), Value::Artifact(Artifact { id: 2 })], None, Some("-{}"), Some("p"), None);
    let second = build(vec![Value::List(vec![s("b"), s("c")])], None, Some("-{}"), Some("p"), None);
    let both = build(
        vec![s("a"), Value::Artifact(Artifact { id: 2 }), Value::List(vec![s("b"), s("c")])],
        None,
        Some("-{}"),
        Some("p"),
        None,
    );
    let mut expected = resolve(&first);
    expected.extend(resolve(&second));
    assert_eq!(resolve(&both), expected);
    assert_eq!(expected, strs(&["p", "-a", "p", "-src/main.c", "p", "-b", "p", "-c"]));
}
