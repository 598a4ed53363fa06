//! The values that rule authors hand to a command line, and the dispatch
//! that decides which of them can contribute arguments.
use vstd::prelude::*;
use crate::command_line::CommandLine;
use crate::error::{ArgErrorModel, CommandLineArgError};
use crate::text::{decimal, decimal_spec, signed_decimal, signed_decimal_spec};

verus! {

/// A build artifact, known by its identity until a resolution context gives
/// it a path.
#[derive(Debug, Clone, Copy, PartialEq, Eq, Structural)]
pub struct Artifact {
    pub id: u64,
}

/// A build target: `cell//package:name`.
#[derive(Debug)]
pub struct TargetLabel {
    pub cell: String,
    pub package: String,
    pub name: String,
}

/// A path relative to a named root.
#[derive(Debug)]
pub struct RootRelativePath {
    pub root: String,
    pub path: String,
}

/// A value of the rule language, as far as command lines are concerned.
#[derive(Debug)]
pub enum Value {
    /// A literal string.
    Str(String),
    /// An integer; never an argument.
    Int(i64),
    /// A boolean; never an argument.
    Bool(bool),
    /// The absent value; never an argument.
    NoneValue,
    /// An artifact used as an input.
    Artifact(Artifact),
    /// An artifact declared as an output of the action.
    OutputArtifact(Artifact),
    /// A build target.
    Label(TargetLabel),
    /// A path relative to a named root.
    RelativePath(RootRelativePath),
    /// A string assembled from parts, each of which is expanded: one argument.
    MacroString(Vec<Value>),
    /// A nested command line.
    CommandLine(CommandLine),
    /// A run-info provider: the command line that runs a tool.
    RunInfo(CommandLine),
    /// A projection over a dependency set: its elements in the set's order.
    Projection(Vec<Value>),
    /// A list of values, expanded element by element.
    List(Vec<Value>),
}

/// The text of a target label: `cell//package:name`.
pub open spec fn label_text_spec(l: TargetLabel) -> Seq<char> {
    l.cell@ + seq!['/', '/'] + l.package@ + seq![':'] + l.name@
}

impl TargetLabel {
    /// The text of this label: `cell//package:name`.
    pub fn text(&self) -> (r: String)
        ensures
            r@ == label_text_spec(*self),
    {
        proof {
            reveal_strlit("//");
            reveal_strlit(":");
        }
        let mut r = self.cell.clone();
        r.append("//");
        r.append(self.package.as_str());
        r.append(":");
        r.append(self.name.as_str());
        r
    }
}

/// Whether a mutable value carries the argument-like capability: literal
/// strings, artifacts (plain or declared as outputs), target labels,
/// root-relative paths, macro strings, nested command lines, run-info
/// providers and dependency-set projections.
pub open spec fn command_line_like_spec(v: Value) -> bool {
    match v {
        Value::Int(_) | Value::Bool(_) | Value::NoneValue | Value::List(_) => false,
        _ => true,
    }
}

/// Whether a frozen value carries the frozen argument-like capability: as for
/// mutable values, except that a target label does not.
pub open spec fn frozen_command_line_like_spec(v: Value) -> bool {
    match v {
        Value::Label(_) => false,
        _ => command_line_like_spec(v),
    }
}

/// The text of a literal in the rule language: the string between double
/// quotes.
pub open spec fn quoted_spec(s: Seq<char>) -> Seq<char> {
    seq!['"'] + s + seq!['"']
}

/// A human-readable representation of a value, as shown in diagnostics.
pub open spec fn repr_spec(v: Value) -> Seq<char>
    decreases v, 0nat,
{
    match v {
        Value::Str(s) => quoted_spec(s@),
        Value::Int(i) => signed_decimal_spec(i as int),
        Value::Bool(b) => if b {
            seq!['T', 'r', 'u', 'e']
        } else {
            seq!['F', 'a', 'l', 's', 'e']
        },
        Value::NoneValue => seq!['N', 'o', 'n', 'e'],
        Value::Artifact(a) => seq!['<', 'a', 'r', 't', 'i', 'f', 'a', 'c', 't', ' '] + decimal_spec(
            a.id as nat,
        ) + seq!['>'],
        Value::OutputArtifact(a) => seq!['<', 'o', 'u', 't', 'p', 'u', 't', ' '] + decimal_spec(
            a.id as nat,
        ) + seq!['>'],
        Value::Label(l) => label_text_spec(l),
        Value::RelativePath(p) => p.root@ + seq!['/'] + p.path@,
        Value::MacroString(_) => seq!['<', 'm', 'a', 'c', 'r', 'o', 's', '>'],
        Value::CommandLine(_) => seq!['<', 'c', 'm', 'd', '_', 'a', 'r', 'g', 's', '>'],
        Value::RunInfo(_) => seq!['<', 'r', 'u', 'n', '_', 'i', 'n', 'f', 'o', '>'],
        Value::Projection(_) => seq!['<', 'p', 'r', 'o', 'j', 'e', 'c', 't', 'i', 'o', 'n', '>'],
        Value::List(vs) => seq!['['] + repr_items_spec(vs@, vs.len() as nat) + seq![']'],
    }
}

/// The representations of the first `n` values of `vs`, separated by `, `.
pub open spec fn repr_items_spec(vs: Seq<Value>, n: nat) -> Seq<char>
    decreases vs, n,
{
    if n == 0 || n > vs.len() {
        seq![]
    } else if n == 1 {
        repr_spec(vs[0])
    } else {
        repr_items_spec(vs, (n - 1) as nat) + seq![',', ' '] + repr_spec(vs[n - 1])
    }
}

/// Appends `lit` to `out`, where the text of `lit` is `text`.
fn append_lit(out: &mut String, lit: &str, text: Ghost<Seq<char>>)
    requires
        lit@ == text@,
    ensures
        final(out)@ == old(out)@ + text@,
{
    out.append(lit);
}

impl Value {
    /// The representation of this value, as [`repr_spec`] gives it.
    pub fn repr(&self) -> (r: String)
        ensures
            r@ == repr_spec(*self),
        decreases self, 0nat,
    {
        match self {
            Value::Str(s) => {
                proof {
                    reveal_strlit("\"");
                }
                let mut r = String::from_str("\"");
                r.append(s.as_str());
                r.append("\"");
                r
            },
            Value::Int(i) => signed_decimal(*i),
            Value::Bool(b) => {
                if *b {
                    proof {
                        reveal_strlit("True");
                    }
                    String::from_str("True")
                } else {
                    proof {
                        reveal_strlit("False");
                    }
                    String::from_str("False")
                }
            },
            Value::NoneValue => {
                proof {
                    reveal_strlit("None");
                }
                String::from_str("None")
            },
            Value::Artifact(a) => {
                proof {
                    reveal_strlit("<artifact ");
                    reveal_strlit(">");
                }
                let mut r = String::from_str("<artifact ");
                let d = decimal(a.id);
                r.append(d.as_str());
                r.append(">");
                r
            },
            Value::OutputArtifact(a) => {
                proof {
                    reveal_strlit("<output ");
                    reveal_strlit(">");
                }
                let mut r = String::from_str("<output ");
                let d = decimal(a.id);
                r.append(d.as_str());
                r.append(">");
                r
            },
            Value::Label(l) => l.text(),
            Value::RelativePath(p) => {
                proof {
                    reveal_strlit("/");
                }
                let mut r = p.root.clone();
                r.append("/");
                r.append(p.path.as_str());
                r
            },
            Value::MacroString(_) => {
                proof {
                    reveal_strlit("<macros>");
                }
                String::from_str("<macros>")
            },
            Value::CommandLine(_) => {
                proof {
                    reveal_strlit("<cmd_args>");
                }
                String::from_str("<cmd_args>")
            },
            Value::RunInfo(_) => {
                proof {
                    reveal_strlit("<run_info>");
                }
                String::from_str("<run_info>")
            },
            Value::Projection(_) => {
                proof {
                    reveal_strlit("<projection>");
                }
                String::from_str("<projection>")
            },
            Value::List(vs) => {
                proof {
                    reveal_strlit("[");
                }
                let mut r = String::from_str("[");
                let mut i: usize = 0;
                while i < vs.len()
                    invariant
                        i <= vs.len(),
                        r@ == seq!['['] + repr_items_spec(vs@, i as nat),
                        *self == Value::List(*vs),
                    decreases vs.len() - i,
                {
                    proof {
                        reveal_strlit(", ");
                    }
                    let ghost before = r@;
                    if i > 0 {
                        r.append(", ");
                    }
                    proof {
                        vstd::std_specs::vec::axiom_vec_index_decreases(*vs, i as int);
                        assert(decreases_to!(*self => (*self)->List_0));
                        assert((*self)->List_0 == *vs);
                        assert(decreases_to!(*self => vs@[i as int]));
                    }
                    let item = vs[i].repr();
                    r.append(item.as_str());
                    proof {
                        if i == 0 {
                            assert(r@ =~= seq!['['] + repr_items_spec(vs@, 1));
                        } else {
                            assert(r@ =~= before + seq![',', ' '] + repr_spec(vs@[i as int]));
                            assert(r@ =~= seq!['['] + repr_items_spec(vs@, (i + 1) as nat));
                        }
                    }
                    i += 1;
                }
                proof {
                    reveal_strlit("]");
                }
                r.append("]");
                r
            },
        }
    }
}

/// The dispatch that finds the argument-like capability of a value.
pub trait ValueAsCommandLineLike: Sized {
    /// Whether the value carries the capability.
    spec fn command_line_like(&self) -> bool;

    /// The representation shown when the value is rejected.
    spec fn repr_view(&self) -> Seq<char>;

    /// The value as an argument-like item, or `None` when it is not one.
    fn as_command_line(&self) -> (r: Option<&Self>)
        ensures
            self.command_line_like() ==> r == Some(self),
            !self.command_line_like() ==> r is None,
    ;

    /// The value as an argument-like item, or `InvalidItemType` with its
    /// representation when it is not one.
    fn as_command_line_err(&self) -> (r: Result<&Self, CommandLineArgError>)
        ensures
            self.command_line_like() ==> r == Ok::<&Self, CommandLineArgError>(self),
            !self.command_line_like() ==> (r matches Err(e) && e@ == ArgErrorModel::InvalidItemType(
                self.repr_view(),
            )),
    ;
}

impl ValueAsCommandLineLike for Value {
    open spec fn command_line_like(&self) -> bool {
        command_line_like_spec(*self)
    }

    open spec fn repr_view(&self) -> Seq<char> {
        repr_spec(*self)
    }

    fn as_command_line(&self) -> (r: Option<&Value>) {
        match self {
            Value::Int(_) | Value::Bool(_) | Value::NoneValue | Value::List(_) => None,
            _ => Some(self),
        }
    }

    fn as_command_line_err(&self) -> (r: Result<&Value, CommandLineArgError>) {
        match self.as_command_line() {
            Some(v) => Ok(v),
            None => Err(CommandLineArgError::InvalidItemType { repr: self.repr() }),
        }
    }
}

/// A value after freezing: it can be read and resolved, never changed.
#[derive(Debug)]
pub struct FrozenValue {
    value: Value,
}

impl View for FrozenValue {
    type V = Value;

    closed spec fn view(&self) -> Value {
        self.value
    }
}

impl Value {
    /// Freezes this value for good.
    pub fn freeze(self) -> (r: FrozenValue)
        ensures
            r@ == self,
    {
        FrozenValue { value: self }
    }
}

impl FrozenValue {
    /// The frozen value as an argument-like item, or `None` when it does not
    /// carry the frozen capability.
    pub fn as_frozen_command_line(&self) -> (r: Option<&Value>)
        ensures
            frozen_command_line_like_spec(self@) ==> r == Some(&self@),
            !frozen_command_line_like_spec(self@) ==> r is None,
    {
        match &self.value {
            Value::Label(_) => None,
            v => v.as_command_line(),
        }
    }

    /// The value that was frozen.
    pub fn value(&self) -> (r: &Value)
        ensures
            *r == self@,
    {
        &self.value
    }
}

} // verus!
