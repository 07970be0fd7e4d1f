//! What the command line asks for.

use crate::decimal::{count_of, parse_count};
use vstd::prelude::*;

verus! {

/// The subcommand as it was given. Each option of `gen-cpp` is absent or
/// holds the text that came with it.
#[derive(Debug, Clone, PartialEq, Eq)]
pub enum Subcommand {
    /// `gen-cpp`, with its options.
    GenCpp {
        /// `--pattern`: what the names of the implementation files begin with.
        pattern: Option<String>,
        /// `--cpp-extension`: what they end with, after the dot.
        cpp_extension: Option<String>,
        /// `--generate-exact`: how many implementation files there must be.
        generate_exact: Option<String>,
    },
    /// `gen-rs`, which has no options.
    GenRs,
}

/// The command line, taken apart but not yet understood.
#[derive(Debug, Clone, PartialEq, Eq)]
pub struct Arguments {
    /// The source file to read.
    pub input: String,
    /// `--inc`: the include path.
    pub inc: Option<String>,
    /// The subcommand, if one was given.
    pub subcommand: Option<Subcommand>,
}

/// What a run is to produce.
#[derive(Debug, Clone, PartialEq, Eq)]
pub enum Command {
    /// The C++ side: a header and an implementation file for each pair.
    GenCpp {
        /// What the names of the implementation files begin with.
        pattern: String,
        /// What they end with, after the dot.
        cpp_extension: String,
        /// The least number of implementation files to write, if any is asked.
        generate_exact: Option<usize>,
    },
    /// The source file with its bindings expanded.
    GenRs,
}

/// A command line understood. The output directory is not among these: it is
/// a path of the platform, which need not be text, and stays with the caller,
/// who writes each file into it.
#[derive(Debug, Clone, PartialEq, Eq)]
pub struct Options {
    /// The source file to read.
    pub input: String,
    /// The include path, handed to the resolver as it is. Empty if none was given.
    pub inc: String,
    /// What to produce.
    pub command: Command,
}

/// Why a command line cannot be followed.
#[derive(Debug, Clone, Copy, PartialEq, Eq, Structural)]
pub enum UsageError {
    /// Neither subcommand was given.
    MissingSubcommand,
    /// The number of files asked for is no number, or too large a one.
    InvalidGenerateExact,
}

/// The line that tells the user what is wrong with the command line.
pub open spec fn usage_message(error: UsageError) -> Seq<char> {
    match error {
        UsageError::MissingSubcommand => "Must specify a subcommand"@,
        UsageError::InvalidGenerateExact => "Unable to read the number of files to generate"@,
    }
}

impl UsageError {
    /// The line that tells the user what is wrong with the command line.
    pub fn description(&self) -> (text: &'static str)
        ensures
            text@ == usage_message(*self),
    {
        match self {
            UsageError::MissingSubcommand => "Must specify a subcommand",
            UsageError::InvalidGenerateExact => "Unable to read the number of files to generate",
        }
    }
}

/// What a [`Subcommand`] is in contracts.
pub enum SubcommandModel {
    GenCpp {
        pattern: Option<Seq<char>>,
        cpp_extension: Option<Seq<char>>,
        generate_exact: Option<Seq<char>>,
    },
    GenRs,
}

/// What [`Arguments`] are in contracts.
pub struct ArgumentsModel {
    pub input: Seq<char>,
    pub inc: Option<Seq<char>>,
    pub subcommand: Option<SubcommandModel>,
}

/// What a [`Command`] is in contracts.
pub enum CommandModel {
    GenCpp { pattern: Seq<char>, cpp_extension: Seq<char>, generate_exact: Option<nat> },
    GenRs,
}

/// What [`Options`] are in contracts.
pub struct OptionsModel {
    pub input: Seq<char>,
    pub inc: Seq<char>,
    pub command: CommandModel,
}

/// The characters of a text that may be absent.
pub open spec fn text_model(text: Option<String>) -> Option<Seq<char>> {
    match text {
        Some(t) => Some(t@),
        None => None,
    }
}

impl View for Subcommand {
    type V = SubcommandModel;

    open spec fn view(&self) -> SubcommandModel {
        match self {
            Subcommand::GenCpp { pattern, cpp_extension, generate_exact } => {
                SubcommandModel::GenCpp {
                    pattern: text_model(*pattern),
                    cpp_extension: text_model(*cpp_extension),
                    generate_exact: text_model(*generate_exact),
                }
            },
            Subcommand::GenRs => SubcommandModel::GenRs,
        }
    }
}

/// The subcommand that may be absent, as contracts see it.
pub open spec fn subcommand_model(subcommand: Option<Subcommand>) -> Option<SubcommandModel> {
    match subcommand {
        Some(given) => Some(given@),
        None => None,
    }
}

impl View for Arguments {
    type V = ArgumentsModel;

    open spec fn view(&self) -> ArgumentsModel {
        ArgumentsModel {
            input: self.input@,
            inc: text_model(self.inc),
            subcommand: subcommand_model(self.subcommand),
        }
    }
}

impl View for Command {
    type V = CommandModel;

    open spec fn view(&self) -> CommandModel {
        match self {
            Command::GenCpp { pattern, cpp_extension, generate_exact } => CommandModel::GenCpp {
                pattern: pattern@,
                cpp_extension: cpp_extension@,
                generate_exact: match generate_exact {
                    Some(n) => Some(*n as nat),
                    None => None,
                },
            },
            Command::GenRs => CommandModel::GenRs,
        }
    }
}

impl View for Options {
    type V = OptionsModel;

    open spec fn view(&self) -> OptionsModel {
        OptionsModel { input: self.input@, inc: self.inc@, command: self.command@ }
    }
}

/// The pattern of a run that names none.
pub open spec fn default_pattern() -> Seq<char> {
    "gen"@
}

/// The extension of a run that names none.
pub open spec fn default_cpp_extension() -> Seq<char> {
    "cc"@
}

/// The given text, or the other where none is given.
pub open spec fn text_or(text: Option<Seq<char>>, otherwise: Seq<char>) -> Seq<char> {
    match text {
        Some(t) => t,
        None => otherwise,
    }
}

/// What the subcommand asks for. `gen-cpp` is followed with the defaults for
/// the options it leaves out, unless its number of files cannot be read;
/// `gen-rs` is followed as it is. Without a subcommand there is nothing to
/// follow.
pub open spec fn command_of(subcommand: Option<SubcommandModel>) -> Result<
    CommandModel,
    UsageError,
> {
    match subcommand {
        Some(SubcommandModel::GenCpp { pattern, cpp_extension, generate_exact }) => {
            let pattern = text_or(pattern, default_pattern());
            let cpp_extension = text_or(cpp_extension, default_cpp_extension());
            match generate_exact {
                Some(text) => match count_of(text) {
                    Some(n) => Ok(
                        CommandModel::GenCpp {
                            pattern,
                            cpp_extension,
                            generate_exact: Some(n as nat),
                        },
                    ),
                    None => Err(UsageError::InvalidGenerateExact),
                },
                None => Ok(CommandModel::GenCpp { pattern, cpp_extension, generate_exact: None }),
            }
        },
        Some(SubcommandModel::GenRs) => Ok(CommandModel::GenRs),
        None => Err(UsageError::MissingSubcommand),
    }
}

/// What a command line means: its command, with the input file and the
/// include path, which is empty where none was given.
pub open spec fn interpretation(args: ArgumentsModel) -> Result<OptionsModel, UsageError> {
    match command_of(args.subcommand) {
        Ok(command) => Ok(
            OptionsModel {
                input: args.input,
                inc: text_or(args.inc, Seq::empty()),
                command,
            },
        ),
        Err(error) => Err(error),
    }
}

/// The given text, or a copy of the other where none is given.
fn text_or_default(text: Option<String>, otherwise: &str) -> (chosen: String)
    ensures
        chosen@ == text_or(text_model(text), otherwise@),
{
    match text {
        Some(t) => t,
        None => String::from_str(otherwise),
    }
}

/// Decides which command the subcommand asks for.
pub fn select_command(subcommand: Option<Subcommand>) -> (chosen: Result<Command, UsageError>)
    ensures
        match chosen {
            Ok(command) => command_of(subcommand_model(subcommand)) == Ok::<
                CommandModel,
                UsageError,
            >(command@),
            Err(error) => command_of(subcommand_model(subcommand)) == Err::<
                CommandModel,
                UsageError,
            >(error),
        },
{
    match subcommand {
        Some(Subcommand::GenCpp { pattern, cpp_extension, generate_exact }) => {
            let generate_exact = match generate_exact {
                Some(text) => match parse_count(text.as_str()) {
                    Some(n) => Some(n),
                    None => {
                        return Err(UsageError::InvalidGenerateExact);
                    },
                },
                None => None,
            };
            Ok(
                Command::GenCpp {
                    pattern: text_or_default(pattern, "gen"),
                    cpp_extension: text_or_default(cpp_extension, "cc"),
                    generate_exact,
                },
            )
        },
        Some(Subcommand::GenRs) => Ok(Command::GenRs),
        None => Err(UsageError::MissingSubcommand),
    }
}

/// Understands a command line, or says why it cannot be followed.
pub fn interpret(args: Arguments) -> (understood: Result<Options, UsageError>)
    ensures
        match understood {
            Ok(options) => interpretation(args@) == Ok::<OptionsModel, UsageError>(options@),
            Err(error) => interpretation(args@) == Err::<OptionsModel, UsageError>(error),
        },
{
    proof {
        reveal_strlit("");
        assert(""@ =~= Seq::<char>::empty());
    }
    match select_command(args.subcommand) {
        Ok(command) => Ok(
            Options { input: args.input, inc: text_or_default(args.inc, ""), command },
        ),
        Err(error) => Err(error),
    }
}

} // verus!
