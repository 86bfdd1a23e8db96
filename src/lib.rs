//! A small command-line argument parser driven by a declarative catalog of
//! accepted flags.
//!
//! A catalog lists the accepted flags in order; the scanner consumes the
//! tokens of one invocation against it in a single left-to-right pass and
//! ends with a configuration, a message to show, or an error.
use vstd::prelude::*;

pub mod app_arguments;
pub mod catalog;
pub mod help;
pub mod laws;
pub mod outcome;
pub mod scanner;

pub use app_arguments::{
    app_catalog, config_catalog, get_app_arguments, get_help_text, AppArguments,
    ArgumentsParsingResult,
};
pub use catalog::{ArgumentCatalog, ArgumentDefinition, ArgumentRole};
pub use outcome::{join, ParseError, ParseOutcome};

verus! {

} // verus!
