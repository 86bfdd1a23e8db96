//! What a parse ends with: a configuration, a message, or an error.
use vstd::prelude::*;
use crate::catalog::{ArgumentCatalog, CatalogModel};
use crate::help::help_text;

verus! {

/// The character sequences of a sequence of strings.
pub open spec fn strings_view(v: Seq<String>) -> Seq<Seq<char>> {
    v.map_values(|s: String| s@)
}

/// The model of the recorded values: one entry per definition, `None` for a
/// flag that did not occur, else the value tokens of its last occurrence.
pub open spec fn values_view(v: Seq<Option<Vec<String>>>) -> Seq<Option<Seq<Seq<char>>>> {
    v.map_values(
        |o: Option<Vec<String>>|
            match o {
                Some(w) => Some(strings_view(w@)),
                None => None,
            },
    )
}

/// Why a parse failed.
pub enum ParseError {
    /// No token followed the program name, and the catalog forbids that.
    NoArguments,
    /// The token selects no definition.
    UnsupportedArgument(String),
    /// The flag is not followed by as many tokens as it takes.
    InsufficientValues(String),
    /// The names of the required flags that never occurred, in catalog order.
    MissingRequired(Vec<String>),
}

/// Mathematical model of a [`ParseError`].
pub enum ErrorModel {
    NoArguments,
    UnsupportedArgument(Seq<char>),
    InsufficientValues(Seq<char>),
    MissingRequired(Seq<Seq<char>>),
}

impl View for ParseError {
    type V = ErrorModel;

    open spec fn view(&self) -> ErrorModel {
        match self {
            ParseError::NoArguments => ErrorModel::NoArguments,
            ParseError::UnsupportedArgument(t) => ErrorModel::UnsupportedArgument(t@),
            ParseError::InsufficientValues(t) => ErrorModel::InsufficientValues(t@),
            ParseError::MissingRequired(ns) => ErrorModel::MissingRequired(strings_view(ns@)),
        }
    }
}

/// The result of one parse.
pub enum ParseOutcome {
    /// Success: the recorded values, one entry per definition.
    Parsed(Vec<Option<Vec<String>>>),
    /// Success with a text to show: the help text or the version.
    Message(String),
    /// Failure.
    Error(ParseError),
}

/// Mathematical model of a [`ParseOutcome`].
pub enum OutcomeModel {
    Parsed(Seq<Option<Seq<Seq<char>>>>),
    Message(Seq<char>),
    Error(ErrorModel),
}

impl View for ParseOutcome {
    type V = OutcomeModel;

    open spec fn view(&self) -> OutcomeModel {
        match self {
            ParseOutcome::Parsed(v) => OutcomeModel::Parsed(values_view(v@)),
            ParseOutcome::Message(m) => OutcomeModel::Message(m@),
            ParseOutcome::Error(e) => OutcomeModel::Error(e@),
        }
    }
}

/// The items, with `sep` between each two.
pub open spec fn joined(items: Seq<Seq<char>>, sep: Seq<char>) -> Seq<char>
    decreases items.len(),
{
    if items.len() == 0 {
        Seq::empty()
    } else if items.len() == 1 {
        items[0]
    } else {
        joined(items.drop_last(), sep) + sep + items.last()
    }
}

/// The line that ends every error about a token or a flag.
pub open spec fn help_hint() -> Seq<char> {
    "\nUse --help to see the list of supported arguments"@
}

/// The text shown for an error.
pub open spec fn error_text(e: ErrorModel, c: CatalogModel) -> Seq<char> {
    match e {
        ErrorModel::NoArguments => "No arguments provided\n"@ + help_text(c),
        ErrorModel::UnsupportedArgument(t) => "Unsupported argument: "@ + t + help_hint(),
        ErrorModel::InsufficientValues(t) => "Not enough arguments for "@ + t + help_hint(),
        ErrorModel::MissingRequired(ns) => "Missing required arguments: "@ + joined(ns, ", "@)
            + help_hint(),
    }
}

/// Joins the items with `sep` between each two.
pub fn join(items: &Vec<String>, sep: &str) -> (r: String)
    ensures
        r@ == joined(strings_view(items@), sep@),
{
    let ghost all = strings_view(items@);
    let mut text = String::new();
    let mut i: usize = 0;
    while i < items.len()
        invariant
            all == strings_view(items@),
            i <= items.len(),
            text@ == joined(all.subrange(0, i as int), sep@),
        decreases items.len() - i,
    {
        let ghost before = text@;
        if i > 0 {
            text.append(sep);
        }
        text.append(items[i].as_str());
        proof {
            let s = all.subrange(0, i + 1);
            assert(s.drop_last() =~= all.subrange(0, i as int));
            assert(s.last() == items@[i as int]@);
            if i == 0 {
                assert(before =~= Seq::<char>::empty());
                assert(text@ =~= s[0]);
            }
        }
        i = i + 1;
    }
    assert(all.subrange(0, items.len() as int) =~= all);
    text
}

impl ParseError {
    /// The text shown for this error: a description naming the offending
    /// token or flags and a pointer to the help flag, or the help text itself
    /// when nothing was supplied.
    pub fn text(&self, catalog: &ArgumentCatalog) -> (r: String)
        ensures
            r@ == error_text(self@, catalog@),
    {
        match self {
            ParseError::NoArguments => {
                let help = catalog.help_text();
                String::from_str("No arguments provided\n").concat(help.as_str())
            },
            ParseError::UnsupportedArgument(t) => {
                String::from_str("Unsupported argument: ").concat(t.as_str()).concat(
                    "\nUse --help to see the list of supported arguments",
                )
            },
            ParseError::InsufficientValues(t) => {
                String::from_str("Not enough arguments for ").concat(t.as_str()).concat(
                    "\nUse --help to see the list of supported arguments",
                )
            },
            ParseError::MissingRequired(ns) => {
                let list = join(ns, ", ");
                String::from_str("Missing required arguments: ").concat(list.as_str()).concat(
                    "\nUse --help to see the list of supported arguments",
                )
            },
        }
    }
}

} // verus!
