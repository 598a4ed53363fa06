//! Rendering options of a command line.
use vstd::prelude::*;
use crate::error::{ArgErrorModel, CommandLineArgError};

verus! {

/// How each emitted argument is escaped.
#[derive(Debug, Clone, Copy, PartialEq, Eq, Structural)]
pub enum QuoteStyle {
    /// Escape for a POSIX shell.
    Shell,
}

impl QuoteStyle {
    /// Reads a quoting mode: `shell` is the only one.
    pub fn parse(s: &str) -> (r: Result<QuoteStyle, CommandLineArgError>)
        ensures
            s@ == seq!['s', 'h', 'e', 'l', 'l'] ==> r == Ok::<QuoteStyle, CommandLineArgError>(
                QuoteStyle::Shell,
            ),
            s@ != seq!['s', 'h', 'e', 'l', 'l'] ==> (r matches Err(e)
                && e@ == ArgErrorModel::InvalidQuoteStyle(s@)),
    {
        let given = String::from_str(s);
        let shell = String::from_str("shell");
        proof {
            reveal_strlit("shell");
        }
        assert(given@ == s@);
        assert(shell@ == seq!['s', 'h', 'e', 'l', 'l']);
        if given.eq(&shell) {
            Ok(QuoteStyle::Shell)
        } else {
            Err(CommandLineArgError::InvalidQuoteStyle { value: given })
        }
    }
}

/// The four optional modifiers of a command line.
#[derive(Debug)]
pub struct CommandLineOptions {
    /// Joins the strings of one item into a single argument.
    pub delimiter: Option<String>,
    /// A template whose `{}` each rendered string replaces.
    pub format: Option<String>,
    /// An argument emitted before each argument of an item.
    pub prepend: Option<String>,
    /// How each emitted argument is escaped.
    pub quote: Option<QuoteStyle>,
}

/// The mathematical form of [`CommandLineOptions`].
pub struct OptionsModel {
    pub delimiter: Option<Seq<char>>,
    pub format: Option<Seq<char>>,
    pub prepend: Option<Seq<char>>,
    pub quote: Option<QuoteStyle>,
}

/// The view of an optional string.
pub open spec fn opt_view(o: Option<String>) -> Option<Seq<char>> {
    match o {
        Some(s) => Some(s@),
        None => None,
    }
}

impl View for CommandLineOptions {
    type V = OptionsModel;

    open spec fn view(&self) -> OptionsModel {
        OptionsModel {
            delimiter: opt_view(self.delimiter),
            format: opt_view(self.format),
            prepend: opt_view(self.prepend),
            quote: self.quote,
        }
    }
}

/// No modifier set: each string is its own argument, unchanged.
pub open spec fn plain_options() -> OptionsModel {
    OptionsModel { delimiter: None, format: None, prepend: None, quote: None }
}

impl CommandLineOptions {
    /// Options with no modifier set.
    pub fn plain() -> (r: CommandLineOptions)
        ensures
            r@ == plain_options(),
    {
        CommandLineOptions { delimiter: None, format: None, prepend: None, quote: None }
    }
}

} // verus!
