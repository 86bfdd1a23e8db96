//! The application's own flags and the configuration they produce.
use vstd::prelude::*;
use crate::catalog::{ArgumentCatalog, ArgumentDefinition, ArgumentRole, CatalogModel, DefinitionModel};
use crate::help::help_text;
use crate::outcome::{error_text, strings_view, OutcomeModel, ParseOutcome};
use crate::scanner::parse;

verus! {

/// The paths that the application was started with.
pub struct AppArguments {
    pub templates_path: Option<String>,
    pub definitions_path: Option<String>,
    pub results_root_path: Option<String>,
}

/// Mathematical model of [`AppArguments`].
pub struct AppArgumentsModel {
    pub templates_path: Option<Seq<char>>,
    pub definitions_path: Option<Seq<char>>,
    pub results_root_path: Option<Seq<char>>,
}

impl View for AppArguments {
    type V = AppArgumentsModel;

    open spec fn view(&self) -> AppArgumentsModel {
        AppArgumentsModel {
            templates_path: self.templates_path.deep_view(),
            definitions_path: self.definitions_path.deep_view(),
            results_root_path: self.results_root_path.deep_view(),
        }
    }
}

/// No path set.
pub open spec fn no_paths() -> AppArgumentsModel {
    AppArgumentsModel { templates_path: None, definitions_path: None, results_root_path: None }
}

impl Default for AppArguments {
    fn default() -> (r: Self)
        ensures
            r@ == no_paths(),
    {
        AppArguments { templates_path: None, definitions_path: None, results_root_path: None }
    }
}

/// What the application does after parsing: go on with the arguments, or
/// show the message and exit, with a failure status when `is_error` is set.
pub struct ArgumentsParsingResult {
    pub app_arguments: AppArguments,
    pub message: Option<String>,
    pub is_error: bool,
}

/// Mathematical model of an [`ArgumentsParsingResult`].
pub struct ParsingResultModel {
    pub app_arguments: AppArgumentsModel,
    pub message: Option<Seq<char>>,
    pub is_error: bool,
}

impl View for ArgumentsParsingResult {
    type V = ParsingResultModel;

    open spec fn view(&self) -> ParsingResultModel {
        ParsingResultModel {
            app_arguments: self.app_arguments@,
            message: self.message.deep_view(),
            is_error: self.is_error,
        }
    }
}

impl ArgumentsParsingResult {
    /// A successful parse with the given arguments.
    pub fn parsed(app_arguments: AppArguments) -> (r: Self)
        ensures
            r@ == (ParsingResultModel { app_arguments: app_arguments@, message: None, is_error: false }),
    {
        Self { app_arguments, message: None, is_error: false }
    }

    /// A failed parse with the text to show.
    pub fn error(message: String) -> (r: Self)
        ensures
            r@ == (ParsingResultModel { app_arguments: no_paths(), message: Some(message@), is_error: true }),
    {
        Self { app_arguments: AppArguments::default(), message: Some(message), is_error: true }
    }

    /// An informational message, such as the help text or the version.
    pub fn message(message: String) -> (r: Self)
        ensures
            r@ == (ParsingResultModel { app_arguments: no_paths(), message: Some(message@), is_error: false }),
    {
        Self { app_arguments: AppArguments::default(), message: Some(message), is_error: false }
    }
}

/// A definition given by its parts.
pub open spec fn definition_model(
    name: Seq<char>,
    syntax: Seq<char>,
    shorthand: Option<Seq<char>>,
    description: Seq<char>,
    arity: nat,
    required: bool,
    role: ArgumentRole,
) -> DefinitionModel {
    DefinitionModel { name, syntax, shorthand, description, arity, required, role }
}

/// Builds a definition from text.
pub fn definition(
    name: &str,
    syntax: &str,
    shorthand: Option<&str>,
    description: &str,
    number_of_args: usize,
    is_required: bool,
    role: ArgumentRole,
) -> (r: ArgumentDefinition)
    ensures
        r@ == definition_model(
            name@,
            syntax@,
            match shorthand {
                Some(s) => Some(s@),
                None => None,
            },
            description@,
            number_of_args as nat,
            is_required,
            role,
        ),
{
    let shorthand = match shorthand {
        Some(s) => Some(String::from_str(s)),
        None => None,
    };
    ArgumentDefinition {
        name: String::from_str(name),
        syntax: String::from_str(syntax),
        shorthand,
        description: String::from_str(description),
        number_of_args,
        is_required,
        role,
    }
}

/// The application's catalog: help, version, and three paths of which the
/// first two are required.
pub open spec fn app_catalog_model() -> CatalogModel {
    CatalogModel {
        definitions: seq![
            definition_model("--help"@, "--help"@, Some("-h"@), "Show this help"@, 0, false, ArgumentRole::Help),
            definition_model("--version"@, "--version"@, Some("-v"@), "Show the application version"@, 0, false, ArgumentRole::Version),
            definition_model("--templates-path"@, "--templates-path <path>"@, Some("-t"@), "Set path to the templates directory"@, 1, true, ArgumentRole::Value),
            definition_model("--definitions-path"@, "--definitions-path <path>"@, Some("-d"@), "Set path to the directory with definitions"@, 1, true, ArgumentRole::Value),
            definition_model("--results-root-path"@, "--results-root-path <path>"@, Some("-r"@), "Set root directory for results, default is the current directory"@, 1, false, ArgumentRole::Value),
        ],
        example: "Example: recoder --config-path C:\\config.json --logs-path C:\\logs --work-path C:\\work --env VAR1 value1 --env VAR2 value2"@,
        error_on_empty: false,
    }
}

/// The application's catalog.
pub fn app_catalog() -> (r: ArgumentCatalog)
    ensures
        r@ == app_catalog_model(),
{
    let definitions = vec![
        definition("--help", "--help", Some("-h"), "Show this help", 0, false, ArgumentRole::Help),
        definition("--version", "--version", Some("-v"), "Show the application version", 0, false, ArgumentRole::Version),
        definition("--templates-path", "--templates-path <path>", Some("-t"), "Set path to the templates directory", 1, true, ArgumentRole::Value),
        definition("--definitions-path", "--definitions-path <path>", Some("-d"), "Set path to the directory with definitions", 1, true, ArgumentRole::Value),
        definition("--results-root-path", "--results-root-path <path>", Some("-r"), "Set root directory for results, default is the current directory", 1, false, ArgumentRole::Value),
    ];
    let r = ArgumentCatalog {
        definitions,
        example: String::from_str("Example: recoder --config-path C:\\config.json --logs-path C:\\logs --work-path C:\\work --env VAR1 value1 --env VAR2 value2"),
        error_on_empty: false,
    };
    assert(r@.definitions =~= app_catalog_model().definitions);
    r
}

/// The catalog of a tool that reads one configuration file: help, version
/// and an optional path, where an invocation without tokens is an error.
pub open spec fn config_catalog_model() -> CatalogModel {
    CatalogModel {
        definitions: seq![
            definition_model("--help"@, "--help"@, None, "Show this help"@, 0, false, ArgumentRole::Help),
            definition_model("--version"@, "--version"@, None, "Show the application version"@, 0, false, ArgumentRole::Version),
            definition_model("--config"@, "--config <path>"@, None, "Set path to the configuration file"@, 1, false, ArgumentRole::Value),
        ],
        example: "Example: recoder --config C:\\config.json"@,
        error_on_empty: true,
    }
}

/// The catalog of a tool that reads one configuration file.
pub fn config_catalog() -> (r: ArgumentCatalog)
    ensures
        r@ == config_catalog_model(),
{
    let definitions = vec![
        definition("--help", "--help", None, "Show this help", 0, false, ArgumentRole::Help),
        definition("--version", "--version", None, "Show the application version", 0, false, ArgumentRole::Version),
        definition("--config", "--config <path>", None, "Set path to the configuration file", 1, false, ArgumentRole::Value),
    ];
    let r = ArgumentCatalog {
        definitions,
        example: String::from_str("Example: recoder --config C:\\config.json"),
        error_on_empty: true,
    };
    assert(r@.definitions =~= config_catalog_model().definitions);
    r
}

/// The first value recorded for a flag, if any.
pub open spec fn first_value(o: Option<Seq<Seq<char>>>) -> Option<Seq<char>> {
    match o {
        Some(vs) => if vs.len() > 0 {
            Some(vs[0])
        } else {
            None
        },
        None => None,
    }
}

/// The arguments that the values recorded against the application's catalog
/// give.
pub open spec fn app_arguments_of(vals: Seq<Option<Seq<Seq<char>>>>) -> AppArgumentsModel {
    AppArgumentsModel {
        templates_path: first_value(vals[2]),
        definitions_path: first_value(vals[3]),
        results_root_path: first_value(vals[4]),
    }
}

/// What the application is handed for a parse outcome against its catalog.
pub open spec fn parsing_result_of(o: OutcomeModel) -> ParsingResultModel {
    match o {
        OutcomeModel::Parsed(vals) => ParsingResultModel {
            app_arguments: app_arguments_of(vals),
            message: None,
            is_error: false,
        },
        OutcomeModel::Message(t) => ParsingResultModel {
            app_arguments: no_paths(),
            message: Some(t),
            is_error: false,
        },
        OutcomeModel::Error(e) => ParsingResultModel {
            app_arguments: no_paths(),
            message: Some(error_text(e, app_catalog_model())),
            is_error: true,
        },
    }
}

/// The first value recorded for a flag, if any.
fn first_recorded(o: &Option<Vec<String>>) -> (r: Option<String>)
    ensures
        r.deep_view() == first_value(
            match o {
                Some(w) => Some(strings_view(w@)),
                None => None,
            },
        ),
{
    match o {
        Some(w) => if w.len() > 0 {
            Some(w[0].clone())
        } else {
            None
        },
        None => None,
    }
}

/// Parses the application's tokens, the first of which is the program name;
/// `version` is the text that the version flag shows.
pub fn get_app_arguments(args: &Vec<String>, version: &str) -> (r: ArgumentsParsingResult)
    ensures
        r@ == parsing_result_of(parse(app_catalog_model(), strings_view(args@), version@)),
{
    let catalog = app_catalog();
    match catalog.parse(args, version) {
        ParseOutcome::Parsed(values) => {
            let app_arguments = AppArguments {
                templates_path: first_recorded(&values[2]),
                definitions_path: first_recorded(&values[3]),
                results_root_path: first_recorded(&values[4]),
            };
            ArgumentsParsingResult::parsed(app_arguments)
        },
        ParseOutcome::Message(m) => ArgumentsParsingResult::message(m),
        ParseOutcome::Error(e) => ArgumentsParsingResult::error(e.text(&catalog)),
    }
}

/// The help text of the application's catalog.
pub fn get_help_text() -> (r: String)
    ensures
        r@ == help_text(app_catalog_model()),
{
    app_catalog().help_text()
}

} // verus!

verus! {

/// The application's catalog is well formed.
pub proof fn lemma_app_catalog_wf()
    ensures
        app_catalog_model().wf(),
{
    reveal_strlit("--help");
    reveal_strlit("--version");
    reveal_strlit("--templates-path");
    reveal_strlit("--definitions-path");
    reveal_strlit("--results-root-path");
    reveal_strlit("-h");
    reveal_strlit("-v");
    reveal_strlit("-t");
    reveal_strlit("-d");
    reveal_strlit("-r");
    let defs = app_catalog_model().definitions;
    assert forall|i: int, j: int|
        0 <= i < defs.len() && 0 <= j < defs.len() && i != j implies #[trigger] defs[i].name
        != #[trigger] defs[j].name by {
        assert(defs[i].name.len() != defs[j].name.len());
    }
    assert forall|i: int, j: int|
        0 <= i < defs.len() && 0 <= j < defs.len() && i != j && (#[trigger] defs[i]).shorthand is Some
            implies defs[i].shorthand != (#[trigger] defs[j]).shorthand by {
        assert(defs[i].shorthand.unwrap()[1] != defs[j].shorthand.unwrap()[1]);
    }
}

/// The configuration-file catalog is well formed.
pub proof fn lemma_config_catalog_wf()
    ensures
        config_catalog_model().wf(),
{
    reveal_strlit("--help");
    reveal_strlit("--version");
    reveal_strlit("--config");
    let defs = config_catalog_model().definitions;
    assert forall|i: int, j: int|
        0 <= i < defs.len() && 0 <= j < defs.len() && i != j implies #[trigger] defs[i].name
        != #[trigger] defs[j].name by {
        assert(defs[i].name.len() != defs[j].name.len());
    }
}

} // verus!
