//! Failures of command-line construction and resolution.
use vstd::prelude::*;
use crate::text::decimal_spec;
use crate::text::decimal;

verus! {

/// Why a command line could not be built or resolved.
#[derive(Debug)]
pub enum CommandLineArgError {
    /// A value that is neither argument-like nor a list of such values,
    /// with its textual representation.
    InvalidItemType { repr: String },
    /// An artifact that the resolution context cannot translate to a path.
    UnresolvedArtifact { id: u64 },
    /// A quoting mode other than `shell`.
    InvalidQuoteStyle { value: String },
}

/// The mathematical form of a [`CommandLineArgError`].
pub enum ArgErrorModel {
    InvalidItemType(Seq<char>),
    UnresolvedArtifact(u64),
    InvalidQuoteStyle(Seq<char>),
}

impl View for CommandLineArgError {
    type V = ArgErrorModel;

    open spec fn view(&self) -> ArgErrorModel {
        match self {
            CommandLineArgError::InvalidItemType { repr } => ArgErrorModel::InvalidItemType(repr@),
            CommandLineArgError::UnresolvedArtifact { id } => ArgErrorModel::UnresolvedArtifact(*id),
            CommandLineArgError::InvalidQuoteStyle { value } => ArgErrorModel::InvalidQuoteStyle(
                value@,
            ),
        }
    }
}

/// The message that describes an error to a build author.
pub open spec fn message_spec(e: ArgErrorModel) -> Seq<char> {
    match e {
        ArgErrorModel::InvalidItemType(repr) => invalid_item_prefix() + repr + seq!['`'],
        ArgErrorModel::UnresolvedArtifact(id) => unresolved_prefix() + decimal_spec(id as nat),
        ArgErrorModel::InvalidQuoteStyle(v) => invalid_quote_prefix() + v + seq!['`'],
    }
}

/// The opening words of the message for a rejected item.
pub open spec fn invalid_item_prefix() -> Seq<char> {
    "expected command line item to be a string, artifact, or label, or list thereof, not `"@
}

/// The opening words of the message for an artifact without a path.
pub open spec fn unresolved_prefix() -> Seq<char> {
    "no path is known for artifact "@
}

/// The opening words of the message for an unknown quoting mode.
pub open spec fn invalid_quote_prefix() -> Seq<char> {
    "expected quote style to be `shell`, not `"@
}

impl CommandLineArgError {
    /// The message that describes this error to a build author.
    pub fn message(&self) -> (r: String)
        ensures
            r@ == message_spec(self@),
    {
        match self {
            CommandLineArgError::InvalidItemType { repr } => {
                let mut r = String::from_str(
                    "expected command line item to be a string, artifact, or label, or list thereof, not `",
                );
                r.append(repr.as_str());
                r.append("`");
                proof {
                    reveal_strlit("`");
                }
                r
            },
            CommandLineArgError::UnresolvedArtifact { id } => {
                let mut r = String::from_str("no path is known for artifact ");
                let d = decimal(*id);
                r.append(d.as_str());
                r
            },
            CommandLineArgError::InvalidQuoteStyle { value } => {
                let mut r = String::from_str("expected quote style to be `shell`, not `");
                r.append(value.as_str());
                r.append("`");
                proof {
                    reveal_strlit("`");
                }
                r
            },
        }
    }
}

} // verus!
