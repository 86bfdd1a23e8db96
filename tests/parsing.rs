use app_args::{
    app_catalog, config_catalog, get_app_arguments, get_help_text, join, AppArguments,
    ArgumentCatalog, ArgumentDefinition, ArgumentRole, ArgumentsParsingResult, ParseError,
    ParseOutcome,
};

const HINT: &str = "\nUse --help to see the list of supported arguments";

fn tokens(items: &[&str]) -> Vec<String> {
    items.iter().map(|s| s.to_string()).collect()
}

fn config_help() -> String {
    "Supported arguments:\n\
     --help          Show this help\n\
     --version       Show the application version\n\
     --config <path> Set path to the configuration file\n\
     \n\
     Example: recoder --config C:\\config.json"
        .to_string()
}

fn app_help() -> String {
    let lines = [
        ("--help", "Show this help"),
        ("--version", "Show the application version"),
        ("--templates-path <path>", "Set path to the templates directory"),
        ("--definitions-path <path>", "Set path to the directory with definitions"),
        (
            "--results-root-path <path>",
            "Set root directory for results, default is the current directory",
        ),
    ];
    let mut text = "Supported arguments:\n".to_string();
    for (syntax, description) in lines {
        text.push_str(&format!("{:<27}{}\n", syntax, description));
    }
    text.push('\n');
    text.push_str("Example: recoder --config-path C:\\config.json --logs-path C:\\logs --work-path C:\\work --env VAR1 value1 --env VAR2 value2");
    text
}

fn error_text(outcome: &ParseOutcome, catalog: &ArgumentCatalog) -> String {
    match outcome {
        ParseOutcome::Error(e) => e.text(catalog),
        _ => panic!("expected an error"),
    }
}

#[test]
fn config_empty_invocation_is_an_error() {
    let catalog = config_catalog();
    let outcome = catalog.parse(&tokens(&["prog"]), "1.0.0");
    assert!(matches!(outcome, ParseOutcome::Error(ParseError::NoArguments)));
    let text = error_text(&outcome, &catalog);
    assert_eq!(text, format!("No arguments provided\n{}", config_help()));
}

#[test]
fn config_flag_without_value() {
    let catalog = config_catalog();
    let outcome = catalog.parse(&tokens(&["prog", "--config"]), "1.0.0");
    match &outcome {
        ParseOutcome::Error(ParseError::InsufficientValues(t)) => assert_eq!(t, "--config"),
        _ => panic!("expected InsufficientValues"),
    }
    assert_eq!(
        error_text(&outcome, &catalog),
        format!("Not enough arguments for --config{}", HINT)
    );
}

#[test]
fn config_flag_with_value() {
    let catalog = config_catalog();
    let outcome = catalog.parse(&tokens(&["prog", "--config", "x.json"]), "1.0.0");
    match outcome {
        ParseOutcome::Parsed(values) => {
            assert_eq!(values.len(), 3);
            assert_eq!(values[0], None);
            assert_eq!(values[1], None);
            assert_eq!(values[2], Some(vec!["x.json".to_string()]));
        }
        _ => panic!("expected Parsed"),
    }
}

#[test]
fn config_help_flag() {
    let catalog = config_catalog();
    let outcome = catalog.parse(&tokens(&["prog", "--help"]), "1.0.0");
    match outcome {
        ParseOutcome::Message(m) => assert_eq!(m, config_help()),
        _ => panic!("expected Message"),
    }
}

#[test]
fn config_help_text_is_aligned() {
    assert_eq!(config_catalog().help_text(), config_help());
}

#[test]
fn app_help_text_is_aligned() {
    assert_eq!(get_help_text(), app_help());
    assert_eq!(app_catalog().help_text(), app_help());
}

#[test]
fn widest_syntax_of_catalogs() {
    assert_eq!(app_catalog().widest_syntax(), 26);
    assert_eq!(config_catalog().widest_syntax(), 15);
}

#[test]
fn app_shorthands_with_required_values() {
    let r = get_app_arguments(&tokens(&["prog", "-t", "T", "-d", "D"]), "1.0.0");
    assert!(!r.is_error);
    assert_eq!(r.message, None);
    assert_eq!(r.app_arguments.templates_path, Some("T".to_string()));
    assert_eq!(r.app_arguments.definitions_path, Some("D".to_string()));
    assert_eq!(r.app_arguments.results_root_path, None);
}

#[test]
fn app_long_names_with_all_values() {
    let r = get_app_arguments(
        &tokens(&[
            "prog",
            "--results-root-path",
            "R",
            "--definitions-path",
            "D",
            "--templates-path",
            "T",
        ]),
        "1.0.0",
    );
    assert!(!r.is_error);
    assert_eq!(r.message, None);
    assert_eq!(r.app_arguments.templates_path, Some("T".to_string()));
    assert_eq!(r.app_arguments.definitions_path, Some("D".to_string()));
    assert_eq!(r.app_arguments.results_root_path, Some("R".to_string()));
}

#[test]
fn app_missing_one_required() {
    let r = get_app_arguments(&tokens(&["prog", "-t", "T"]), "1.0.0");
    assert!(r.is_error);
    assert_eq!(
        r.message,
        Some(format!("Missing required arguments: --definitions-path{}", HINT))
    );
    assert_eq!(r.app_arguments.templates_path, None);
}

#[test]
fn app_missing_all_required_lists_every_one() {
    let r = get_app_arguments(&tokens(&["prog"]), "1.0.0");
    assert!(r.is_error);
    assert_eq!(
        r.message,
        Some(format!(
            "Missing required arguments: --templates-path, --definitions-path{}",
            HINT
        ))
    );
    let outcome = app_catalog().parse(&tokens(&["prog", "-r", "R"]), "1.0.0");
    match outcome {
        ParseOutcome::Error(ParseError::MissingRequired(names)) => {
            assert_eq!(names, vec!["--templates-path".to_string(), "--definitions-path".to_string()])
        }
        _ => panic!("expected MissingRequired"),
    }
}

#[test]
fn help_short_circuits_later_tokens() {
    let r = get_app_arguments(&tokens(&["prog", "-t", "T", "-h", "garbage", "-t"]), "1.0.0");
    assert!(!r.is_error);
    assert_eq!(r.message, Some(app_help()));
    assert_eq!(r.app_arguments.templates_path, None);
    let r = get_app_arguments(&tokens(&["prog", "--help", "--unknown"]), "1.0.0");
    assert_eq!(r.message, Some(app_help()));
    assert!(!r.is_error);
}

#[test]
fn version_flag_shows_version() {
    let r = get_app_arguments(&tokens(&["prog", "-v", "nonsense"]), "2.3.4");
    assert!(!r.is_error);
    assert_eq!(r.message, Some("2.3.4".to_string()));
    let outcome = config_catalog().parse(&tokens(&["prog", "--version"]), "0.9.1");
    match outcome {
        ParseOutcome::Message(m) => assert_eq!(m, "0.9.1"),
        _ => panic!("expected Message"),
    }
}

#[test]
fn unknown_tokens_are_named() {
    for token in ["foo", "--nope", "-x", "--templates-path=T", "--t", "-help", "--HELP", ""] {
        let r = get_app_arguments(&tokens(&["prog", token, "-t", "T", "-d", "D"]), "1.0.0");
        assert!(r.is_error);
        assert_eq!(r.message, Some(format!("Unsupported argument: {}{}", token, HINT)));
        let outcome = app_catalog().parse(&tokens(&["prog", "-t", "T", token]), "1.0.0");
        match outcome {
            ParseOutcome::Error(ParseError::UnsupportedArgument(t)) => assert_eq!(t, token),
            _ => panic!("expected UnsupportedArgument"),
        }
    }
}

#[test]
fn config_shorthand_is_unknown() {
    let outcome = config_catalog().parse(&tokens(&["prog", "-c", "x.json"]), "1.0.0");
    match outcome {
        ParseOutcome::Error(ParseError::UnsupportedArgument(t)) => assert_eq!(t, "-c"),
        _ => panic!("expected UnsupportedArgument"),
    }
}

#[test]
fn trailing_flag_lacks_value() {
    let r = get_app_arguments(&tokens(&["prog", "-d", "D", "-t"]), "1.0.0");
    assert!(r.is_error);
    assert_eq!(r.message, Some(format!("Not enough arguments for -t{}", HINT)));
    let r = get_app_arguments(&tokens(&["prog", "--results-root-path"]), "1.0.0");
    assert_eq!(
        r.message,
        Some(format!("Not enough arguments for --results-root-path{}", HINT))
    );
}

#[test]
fn last_occurrence_wins() {
    let r = get_app_arguments(&tokens(&["prog", "-t", "A", "-d", "D", "--templates-path", "B"]), "1.0.0");
    assert!(!r.is_error);
    assert_eq!(r.app_arguments.templates_path, Some("B".to_string()));
}

#[test]
fn value_token_counts_for_required_check() {
    let r = get_app_arguments(&tokens(&["prog", "-d", "-t"]), "1.0.0");
    assert!(!r.is_error);
    assert_eq!(r.app_arguments.definitions_path, Some("-t".to_string()));
    assert_eq!(r.app_arguments.templates_path, None);
}

#[test]
fn program_name_is_skipped() {
    let r = get_app_arguments(&tokens(&["--templates-path", "-d", "D"]), "1.0.0");
    assert!(r.is_error);
    assert_eq!(
        r.message,
        Some(format!("Missing required arguments: --templates-path{}", HINT))
    );
}

#[test]
fn empty_token_list() {
    let outcome = app_catalog().parse(&Vec::new(), "1.0.0");
    assert!(matches!(outcome, ParseOutcome::Error(ParseError::MissingRequired(_))));
    let outcome = config_catalog().parse(&Vec::new(), "1.0.0");
    assert!(matches!(outcome, ParseOutcome::Error(ParseError::NoArguments)));
}

#[test]
fn reparsing_gives_equal_outcome() {
    let args = tokens(&["prog", "-t", "T", "-d", "D", "-r", "R"]);
    let first = get_app_arguments(&args, "1.0.0");
    let second = get_app_arguments(&args, "1.0.0");
    assert_eq!(first.message, second.message);
    assert_eq!(first.is_error, second.is_error);
    assert_eq!(first.app_arguments.templates_path, second.app_arguments.templates_path);
    assert_eq!(first.app_arguments.definitions_path, second.app_arguments.definitions_path);
    assert_eq!(first.app_arguments.results_root_path, second.app_arguments.results_root_path);
    let bad = tokens(&["prog", "-t"]);
    assert_eq!(get_app_arguments(&bad, "1").message, get_app_arguments(&bad, "1").message);
}

#[test]
fn custom_catalog_with_switch_and_two_values() {
    let catalog = ArgumentCatalog {
        definitions: vec![
            ArgumentDefinition {
                name: "--verbose".to_string(),
                syntax: "--verbose".to_string(),
                shorthand: None,
                description: "Talk more".to_string(),
                number_of_args: 0,
                is_required: false,
                role: ArgumentRole::Value,
            },
            ArgumentDefinition {
                name: "--env".to_string(),
                syntax: "--env <name> <value>".to_string(),
                shorthand: Some("-e".to_string()),
                description: "Set a variable".to_string(),
                number_of_args: 2,
                is_required: true,
                role: ArgumentRole::Value,
            },
        ],
        example: "Example: tool -e A 1".to_string(),
        error_on_empty: false,
    };
    match catalog.parse(&tokens(&["prog", "--verbose", "-e", "A", "1"]), "1") {
        ParseOutcome::Parsed(values) => {
            assert_eq!(values[0], Some(vec![]));
            assert_eq!(values[1], Some(vec!["A".to_string(), "1".to_string()]));
        }
        _ => panic!("expected Parsed"),
    }
    match catalog.parse(&tokens(&["prog", "-e", "A"]), "1") {
        ParseOutcome::Error(ParseError::InsufficientValues(t)) => assert_eq!(t, "-e"),
        _ => panic!("expected InsufficientValues"),
    }
    assert_eq!(
        catalog.help_text(),
        "Supported arguments:\n--verbose            Talk more\n--env <name> <value> Set a variable\n\nExample: tool -e A 1"
    );
}

#[test]
fn join_separates_items() {
    assert_eq!(join(&tokens(&["a", "b", "c"]), ", "), "a, b, c");
    assert_eq!(join(&tokens(&["only"]), ", "), "only");
    assert_eq!(join(&Vec::new(), ", "), "");
}

#[test]
fn error_texts() {
    let catalog = app_catalog();
    assert_eq!(
        ParseError::UnsupportedArgument("x".to_string()).text(&catalog),
        format!("Unsupported argument: x{}", HINT)
    );
    assert_eq!(
        ParseError::InsufficientValues("-t".to_string()).text(&catalog),
        format!("Not enough arguments for -t{}", HINT)
    );
    assert_eq!(
        ParseError::MissingRequired(tokens(&["--a", "--b"])).text(&catalog),
        format!("Missing required arguments: --a, --b{}", HINT)
    );
    assert_eq!(
        ParseError::NoArguments.text(&catalog),
        format!("No arguments provided\n{}", app_help())
    );
}

#[test]
fn result_constructors() {
    let a = AppArguments {
        templates_path: Some("T".to_string()),
        definitions_path: None,
        results_root_path: None,
    };
    let r = ArgumentsParsingResult::parsed(a);
    assert!(!r.is_error);
    assert_eq!(r.message, None);
    assert_eq!(r.app_arguments.templates_path, Some("T".to_string()));
    let r = ArgumentsParsingResult::error("bad".to_string());
    assert!(r.is_error);
    assert_eq!(r.message, Some("bad".to_string()));
    assert_eq!(r.app_arguments.templates_path, None);
    let r = ArgumentsParsingResult::message("hi".to_string());
    assert!(!r.is_error);
    assert_eq!(r.message, Some("hi".to_string()));
    let d = AppArguments::default();
    assert_eq!(d.templates_path, None);
    assert_eq!(d.definitions_path, None);
    assert_eq!(d.results_root_path, None);
}

#[test]
fn lookup_by_shape() {
    let catalog = app_catalog();
    assert_eq!(catalog.find(&"--definitions-path".to_string()), Some(3));
    assert_eq!(catalog.find(&"-r".to_string()), Some(4));
    assert_eq!(catalog.find(&"-help".to_string()), None);
    assert_eq!(catalog.find(&"h".to_string()), None);
    let help = &catalog.definitions[0];
    assert!(help.is_selected_by(&"-h".to_string()));
    assert!(help.is_selected_by(&"--help".to_string()));
    assert!(!help.is_selected_by(&"--h".to_string()));
    assert!(help.is_named_by(&"-h".to_string()));
    assert!(!help.is_named_by(&"help".to_string()));
}

#[test]
fn required_rescan() {
    let catalog = app_catalog();
    let args = tokens(&["-t", "x", "--definitions-path"]);
    assert!(!catalog.definitions[2].appears_in(&args));
    assert!(catalog.definitions[3].appears_in(&args));
    assert_eq!(catalog.missing_required(&args), tokens(&["--templates-path"]));
}
