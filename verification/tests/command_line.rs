use autocxx_gen::cli::{
    interpret, select_command, Arguments, Command, Options, Subcommand, UsageError,
};

fn text(s: &str) -> Option<String> {
    Some(s.to_string())
}

fn gen_cpp(
    pattern: Option<&str>,
    cpp_extension: Option<&str>,
    generate_exact: Option<&str>,
) -> Option<Subcommand> {
    Some(Subcommand::GenCpp {
        pattern: pattern.map(str::to_string),
        cpp_extension: cpp_extension.map(str::to_string),
        generate_exact: generate_exact.map(str::to_string),
    })
}

#[test]
fn gen_cpp_without_options_has_the_defaults() {
    assert_eq!(
        select_command(gen_cpp(None, None, None)),
        Ok(Command::GenCpp {
            pattern: "gen".to_string(),
            cpp_extension: "cc".to_string(),
            generate_exact: None,
        })
    );
}

#[test]
fn gen_cpp_keeps_the_options_given() {
    assert_eq!(
        select_command(gen_cpp(Some("foo"), Some("cpp"), Some("2"))),
        Ok(Command::GenCpp {
            pattern: "foo".to_string(),
            cpp_extension: "cpp".to_string(),
            generate_exact: Some(2),
        })
    );
}

#[test]
fn gen_cpp_takes_zero_files() {
    assert_eq!(
        select_command(gen_cpp(None, None, Some("0"))),
        Ok(Command::GenCpp {
            pattern: "gen".to_string(),
            cpp_extension: "cc".to_string(),
            generate_exact: Some(0),
        })
    );
}

#[test]
fn gen_cpp_keeps_an_empty_pattern() {
    assert_eq!(
        select_command(gen_cpp(Some(""), Some(""), None)),
        Ok(Command::GenCpp {
            pattern: String::new(),
            cpp_extension: String::new(),
            generate_exact: None,
        })
    );
}

#[test]
fn number_of_files_that_is_no_number_is_refused() {
    for bad in ["two", "-1", "", "1.5", "99999999999999999999999999"] {
        assert_eq!(
            select_command(gen_cpp(None, None, Some(bad))),
            Err(UsageError::InvalidGenerateExact)
        );
    }
}

#[test]
fn gen_rs_is_chosen_when_given_alone() {
    assert_eq!(select_command(Some(Subcommand::GenRs)), Ok(Command::GenRs));
}

#[test]
fn missing_subcommand_is_refused() {
    assert_eq!(select_command(None), Err(UsageError::MissingSubcommand));
}

#[test]
fn options_are_defaulted_one_by_one() {
    assert_eq!(
        select_command(gen_cpp(Some("bindings"), None, None)),
        Ok(Command::GenCpp {
            pattern: "bindings".to_string(),
            cpp_extension: "cc".to_string(),
            generate_exact: None,
        })
    );
    assert_eq!(
        select_command(gen_cpp(None, Some("cxx"), Some("+4"))),
        Ok(Command::GenCpp {
            pattern: "gen".to_string(),
            cpp_extension: "cxx".to_string(),
            generate_exact: Some(4),
        })
    );
}

#[test]
fn include_path_is_empty_when_absent() {
    let args = Arguments {
        input: "src/lib.rs".to_string(),
        inc: None,
        subcommand: Some(Subcommand::GenRs),
    };
    assert_eq!(
        interpret(args),
        Ok(Options { input: "src/lib.rs".to_string(), inc: String::new(), command: Command::GenRs })
    );
}

#[test]
fn include_path_is_kept_as_given() {
    let args = Arguments {
        input: "in.rs".to_string(),
        inc: text("a/b:c d"),
        subcommand: gen_cpp(None, None, Some("3")),
    };
    assert_eq!(
        interpret(args),
        Ok(Options {
            input: "in.rs".to_string(),
            inc: "a/b:c d".to_string(),
            command: Command::GenCpp {
                pattern: "gen".to_string(),
                cpp_extension: "cc".to_string(),
                generate_exact: Some(3),
            },
        })
    );
}

#[test]
fn command_line_without_subcommand_is_refused() {
    let args = Arguments { input: "in.rs".to_string(), inc: text("inc"), subcommand: None };
    assert_eq!(interpret(args), Err(UsageError::MissingSubcommand));
}

#[test]
fn command_line_with_bad_number_is_refused() {
    let args = Arguments {
        input: "in.rs".to_string(),
        inc: None,
        subcommand: gen_cpp(None, None, Some("many")),
    };
    assert_eq!(interpret(args), Err(UsageError::InvalidGenerateExact));
}

#[test]
fn usage_errors_say_what_is_wrong() {
    assert_eq!(UsageError::MissingSubcommand.description(), "Must specify a subcommand");
    assert_eq!(
        UsageError::InvalidGenerateExact.description(),
        "Unable to read the number of files to generate"
    );
}
