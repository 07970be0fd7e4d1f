//! The course of a run: which outside service is called next, and what is
//! written, decided from what the last call gave.
//!
//! The orchestrator moves between states. In each state it waits for the
//! outcome of one [`Action`], which the caller performs: parsing the source
//! file, resolving its bindings, generating the pairs of one binding block,
//! rendering the expanded source, or writing files. The caller reports the
//! outcome as an [`Event`], and [`step`] answers with the next state and the
//! next action. Any failure ends the run; files written before it stay.

use crate::cli::{Command, CommandModel, Options, OptionsModel};
use crate::output::{
    expanded_source, expanded_source_file, file_models, pair_files, pair_models, pair_outputs,
    padding_files, padding_outputs, FileModel, GenerationPair, OutputFile, PairModel,
};
use crate::plan::floor_model;
use vstd::prelude::*;

verus! {

/// The step of writing a file at which the file system refused.
#[derive(Debug, Clone, Copy, PartialEq, Eq, Structural)]
pub enum IoStep {
    /// The file could not be created.
    Create,
    /// Its content could not be written in full.
    Write,
}

/// Why a run ended before its work was done. Each carries what the failing
/// service said, word for word.
#[derive(Debug, Clone, PartialEq, Eq)]
pub enum FatalError {
    /// The source file could not be parsed.
    Parse { message: String },
    /// The bindings could not be resolved against the include path.
    Resolve { message: String },
    /// A binding block could not be generated.
    Generate { message: String },
    /// A file could not be written.
    Io { step: IoStep, message: String },
}

/// What the caller is to do next.
#[derive(Debug, Clone, PartialEq, Eq)]
pub enum Action {
    /// Parse the source file at this path.
    Parse { input: String },
    /// Resolve what was parsed, with this include path and without recording
    /// what it depends on.
    Resolve { inc: String },
    /// Generate the pairs of the binding block with this index, counted from
    /// zero in the order of the source.
    Generate { block: usize },
    /// Render the whole resolved source as text.
    Serialize,
    /// Write these files into the output directory, in this order.
    Write { files: Vec<OutputFile> },
    /// End the run: all is written.
    Finish,
    /// End the run and report this error.
    Abort { error: FatalError },
}

/// How the last action ended.
#[derive(Debug, Clone, PartialEq, Eq)]
pub enum Event {
    /// The source file is parsed.
    Parsed,
    /// The source file could not be parsed.
    ParseFailed { message: String },
    /// The bindings are resolved; the source holds this many binding blocks.
    Resolved { blocks: usize },
    /// The bindings could not be resolved.
    ResolveFailed { message: String },
    /// The binding block gave these pairs, in this order.
    Generated { pairs: Vec<GenerationPair> },
    /// The binding block could not be generated.
    GenerateFailed { message: String },
    /// The resolved source, rendered as text.
    Serialized { text: String },
    /// All files of the last action are written.
    Written,
    /// One of them could not be written; those before it are.
    WriteFailed { step: IoStep, message: String },
}

/// Where generating the C++ side stands.
#[derive(Debug, Clone, Copy, PartialEq, Eq, Structural)]
pub enum CppStage {
    /// Block `block` of `blocks` is being generated.
    Generating { block: usize, blocks: usize },
    /// The files of block `block` of `blocks` are being written.
    WritingBlock { block: usize, blocks: usize },
    /// The placeholder files are being written.
    Padding,
}

/// Where expanding the source stands.
#[derive(Debug, Clone, Copy, PartialEq, Eq, Structural)]
pub enum RsStage {
    /// The source is being rendered.
    Serializing,
    /// The file with the text is being written.
    Writing,
}

/// The state of a run.
#[allow(inconsistent_fields)]
#[derive(Debug, Clone, PartialEq, Eq)]
pub enum State {
    /// The source file is being parsed.
    Start { options: Options },
    /// The source file is parsed, and its bindings are being resolved.
    Parsed { command: Command },
    /// The bindings are resolved, and the C++ side is being generated.
    /// `counter` is the number of implementation files asked to be written so
    /// far, and so the counter of the next one.
    GenCpp {
        pattern: String,
        cpp_extension: String,
        generate_exact: Option<usize>,
        counter: usize,
        stage: CppStage,
    },
    /// The bindings are resolved, and the source is being expanded.
    GenRs { stage: RsStage },
    /// The run has ended, and all is written.
    Done,
    /// The run has ended with an error.
    Failed,
}

/// What a [`FatalError`] is in contracts.
pub enum FatalErrorModel {
    Parse { message: Seq<char> },
    Resolve { message: Seq<char> },
    Generate { message: Seq<char> },
    Io { step: IoStep, message: Seq<char> },
}

/// What an [`Action`] is in contracts.
pub enum ActionModel {
    Parse { input: Seq<char> },
    Resolve { inc: Seq<char> },
    Generate { block: nat },
    Serialize,
    Write { files: Seq<FileModel> },
    Finish,
    Abort { error: FatalErrorModel },
}

/// What an [`Event`] is in contracts.
pub enum EventModel {
    Parsed,
    ParseFailed { message: Seq<char> },
    Resolved { blocks: nat },
    ResolveFailed { message: Seq<char> },
    Generated { pairs: Seq<PairModel> },
    GenerateFailed { message: Seq<char> },
    Serialized { text: Seq<char> },
    Written,
    WriteFailed { step: IoStep, message: Seq<char> },
}

/// What a [`State`] is in contracts.
#[allow(inconsistent_fields)]
pub enum StateModel {
    Start { options: OptionsModel },
    Parsed { command: CommandModel },
    GenCpp {
        pattern: Seq<char>,
        cpp_extension: Seq<char>,
        generate_exact: Option<nat>,
        counter: nat,
        stage: CppStage,
    },
    GenRs { stage: RsStage },
    Done,
    Failed,
}

impl View for FatalError {
    type V = FatalErrorModel;

    open spec fn view(&self) -> FatalErrorModel {
        match self {
            FatalError::Parse { message } => FatalErrorModel::Parse { message: message@ },
            FatalError::Resolve { message } => FatalErrorModel::Resolve { message: message@ },
            FatalError::Generate { message } => FatalErrorModel::Generate { message: message@ },
            FatalError::Io { step, message } => FatalErrorModel::Io {
                step: *step,
                message: message@,
            },
        }
    }
}

impl View for Action {
    type V = ActionModel;

    open spec fn view(&self) -> ActionModel {
        match self {
            Action::Parse { input } => ActionModel::Parse { input: input@ },
            Action::Resolve { inc } => ActionModel::Resolve { inc: inc@ },
            Action::Generate { block } => ActionModel::Generate { block: *block as nat },
            Action::Serialize => ActionModel::Serialize,
            Action::Write { files } => ActionModel::Write { files: file_models(files@) },
            Action::Finish => ActionModel::Finish,
            Action::Abort { error } => ActionModel::Abort { error: error@ },
        }
    }
}

impl View for Event {
    type V = EventModel;

    open spec fn view(&self) -> EventModel {
        match self {
            Event::Parsed => EventModel::Parsed,
            Event::ParseFailed { message } => EventModel::ParseFailed { message: message@ },
            Event::Resolved { blocks } => EventModel::Resolved { blocks: *blocks as nat },
            Event::ResolveFailed { message } => EventModel::ResolveFailed { message: message@ },
            Event::Generated { pairs } => EventModel::Generated { pairs: pair_models(pairs@) },
            Event::GenerateFailed { message } => EventModel::GenerateFailed { message: message@ },
            Event::Serialized { text } => EventModel::Serialized { text: text@ },
            Event::Written => EventModel::Written,
            Event::WriteFailed { step, message } => EventModel::WriteFailed {
                step: *step,
                message: message@,
            },
        }
    }
}

impl View for State {
    type V = StateModel;

    open spec fn view(&self) -> StateModel {
        match self {
            State::Start { options } => StateModel::Start { options: options@ },
            State::Parsed { command } => StateModel::Parsed { command: command@ },
            State::GenCpp { pattern, cpp_extension, generate_exact, counter, stage } => {
                StateModel::GenCpp {
                    pattern: pattern@,
                    cpp_extension: cpp_extension@,
                    generate_exact: match generate_exact {
                        Some(n) => Some(*n as nat),
                        None => None,
                    },
                    counter: *counter as nat,
                    stage: *stage,
                }
            },
            State::GenRs { stage } => StateModel::GenRs { stage: *stage },
            State::Done => StateModel::Done,
            State::Failed => StateModel::Failed,
        }
    }
}

/// The short description of what failed. It does not depend on what the
/// failing service said.
pub open spec fn description_model(error: FatalErrorModel) -> Seq<char> {
    match error {
        FatalErrorModel::Parse { .. } => "Unable to parse Rust file and interpret autocxx macro"@,
        FatalErrorModel::Resolve { .. } => "Unable to resolve macro"@,
        FatalErrorModel::Generate { .. } => "Unable to generate header and C++ code"@,
        FatalErrorModel::Io { step, .. } => match step {
            IoStep::Create => "Unable to create file"@,
            IoStep::Write => "Unable to write file"@,
        },
    }
}

/// What the failing service said.
pub open spec fn message_model(error: FatalErrorModel) -> Seq<char> {
    match error {
        FatalErrorModel::Parse { message } => message,
        FatalErrorModel::Resolve { message } => message,
        FatalErrorModel::Generate { message } => message,
        FatalErrorModel::Io { message, .. } => message,
    }
}

/// The line that reports an error: the description, a colon and a space, and
/// what the failing service said.
pub open spec fn report_model(error: FatalErrorModel) -> Seq<char> {
    description_model(error) + ": "@ + message_model(error)
}

/// The exit code of the process after an action that ends the run: zero after
/// a finished run, one after any error. No error has a code of its own.
pub open spec fn exit_code_model(action: ActionModel) -> Option<i32> {
    match action {
        ActionModel::Finish => Some(0i32),
        ActionModel::Abort { .. } => Some(1i32),
        _ => None,
    }
}

impl FatalError {
    /// The short description of what failed.
    pub fn description(&self) -> (text: &'static str)
        ensures
            text@ == description_model(self@),
    {
        match self {
            FatalError::Parse { .. } => "Unable to parse Rust file and interpret autocxx macro",
            FatalError::Resolve { .. } => "Unable to resolve macro",
            FatalError::Generate { .. } => "Unable to generate header and C++ code",
            FatalError::Io { step, .. } => match step {
                IoStep::Create => "Unable to create file",
                IoStep::Write => "Unable to write file",
            },
        }
    }

    /// What the failing service said.
    pub fn message(&self) -> (text: &str)
        ensures
            text@ == message_model(self@),
    {
        match self {
            FatalError::Parse { message } => message.as_str(),
            FatalError::Resolve { message } => message.as_str(),
            FatalError::Generate { message } => message.as_str(),
            FatalError::Io { message, .. } => message.as_str(),
        }
    }

    /// The line that reports the error.
    pub fn report(&self) -> (text: String)
        ensures
            text@ == report_model(self@),
    {
        let mut text = String::from_str(self.description());
        text.append(": ");
        text.append(self.message());
        text
    }
}

/// The exit code of the process, if the action ends the run.
pub fn exit_code(action: &Action) -> (code: Option<i32>)
    ensures
        code == exit_code_model(action@),
{
    match action {
        Action::Finish => Some(0),
        Action::Abort { .. } => Some(1),
        _ => None,
    }
}

/// How a run begins: the source file is to be parsed.
pub open spec fn start_model(options: OptionsModel) -> (StateModel, ActionModel) {
    (StateModel::Start { options }, ActionModel::Parse { input: options.input })
}

/// How a run ends on an error.
pub open spec fn failure(error: FatalErrorModel) -> (StateModel, ActionModel) {
    (StateModel::Failed, ActionModel::Abort { error })
}

/// What follows the last block, with `counter` implementation files asked for
/// so far: the placeholder files, where a number above `counter` was
/// requested, else the end of the run.
pub open spec fn after_blocks(
    pattern: Seq<char>,
    cpp_extension: Seq<char>,
    generate_exact: Option<nat>,
    counter: nat,
) -> (StateModel, ActionModel) {
    match generate_exact {
        Some(floor) => if counter < floor {
            (
                StateModel::GenCpp {
                    pattern,
                    cpp_extension,
                    generate_exact,
                    counter: floor,
                    stage: CppStage::Padding,
                },
                ActionModel::Write {
                    files: padding_files(pattern, cpp_extension, counter, floor),
                },
            )
        } else {
            (StateModel::Done, ActionModel::Finish)
        },
        None => (StateModel::Done, ActionModel::Finish),
    }
}

/// What follows when the blocks before `next` are dealt with: block `next` is
/// generated if there is one, else the blocks are over.
pub open spec fn enter_block(
    pattern: Seq<char>,
    cpp_extension: Seq<char>,
    generate_exact: Option<nat>,
    counter: nat,
    next: nat,
    blocks: usize,
) -> (StateModel, ActionModel) {
    if next < blocks {
        (
            StateModel::GenCpp {
                pattern,
                cpp_extension,
                generate_exact,
                counter,
                stage: CppStage::Generating { block: next as usize, blocks },
            },
            ActionModel::Generate { block: next },
        )
    } else {
        after_blocks(pattern, cpp_extension, generate_exact, counter)
    }
}

/// The next state and the next action, where the event is one that the state
/// waits for. The pairs of a block are taken only while the counter of the
/// last of them fits the machine's word.
pub open spec fn step_model(state: StateModel, event: EventModel) -> Option<
    (StateModel, ActionModel),
> {
    match state {
        StateModel::Start { options } => match event {
            EventModel::Parsed => Some(
                (
                    StateModel::Parsed { command: options.command },
                    ActionModel::Resolve { inc: options.inc },
                ),
            ),
            EventModel::ParseFailed { message } => Some(
                failure(FatalErrorModel::Parse { message }),
            ),
            _ => None,
        },
        StateModel::Parsed { command } => match event {
            EventModel::Resolved { blocks } => if blocks <= usize::MAX {
                match command {
                    CommandModel::GenCpp { pattern, cpp_extension, generate_exact } => Some(
                        enter_block(
                            pattern,
                            cpp_extension,
                            generate_exact,
                            0,
                            0,
                            blocks as usize,
                        ),
                    ),
                    CommandModel::GenRs => Some(
                        (StateModel::GenRs { stage: RsStage::Serializing }, ActionModel::Serialize),
                    ),
                }
            } else {
                None
            },
            EventModel::ResolveFailed { message } => Some(
                failure(FatalErrorModel::Resolve { message }),
            ),
            _ => None,
        },
        StateModel::GenCpp {
            pattern,
            cpp_extension,
            generate_exact,
            counter,
            stage,
        } => match stage {
            CppStage::Generating { block, blocks } => match event {
                EventModel::Generated { pairs } => if counter + pairs.len() > usize::MAX {
                    None
                } else if pairs.len() == 0 {
                    Some(
                        enter_block(
                            pattern,
                            cpp_extension,
                            generate_exact,
                            counter,
                            (block + 1) as nat,
                            blocks,
                        ),
                    )
                } else {
                    Some(
                        (
                            StateModel::GenCpp {
                                pattern,
                                cpp_extension,
                                generate_exact,
                                counter: counter + pairs.len(),
                                stage: CppStage::WritingBlock { block, blocks },
                            },
                            ActionModel::Write {
                                files: pair_files(pattern, cpp_extension, counter, pairs),
                            },
                        ),
                    )
                },
                EventModel::GenerateFailed { message } => Some(
                    failure(FatalErrorModel::Generate { message }),
                ),
                _ => None,
            },
            CppStage::WritingBlock { block, blocks } => match event {
                EventModel::Written => Some(
                    enter_block(
                        pattern,
                        cpp_extension,
                        generate_exact,
                        counter,
                        (block + 1) as nat,
                        blocks,
                    ),
                ),
                EventModel::WriteFailed { step, message } => Some(
                    failure(FatalErrorModel::Io { step, message }),
                ),
                _ => None,
            },
            CppStage::Padding => match event {
                EventModel::Written => Some((StateModel::Done, ActionModel::Finish)),
                EventModel::WriteFailed { step, message } => Some(
                    failure(FatalErrorModel::Io { step, message }),
                ),
                _ => None,
            },
        },
        StateModel::GenRs { stage } => match stage {
            RsStage::Serializing => match event {
                EventModel::Serialized { text } => Some(
                    (
                        StateModel::GenRs { stage: RsStage::Writing },
                        ActionModel::Write { files: seq![expanded_source(text)] },
                    ),
                ),
                _ => None,
            },
            RsStage::Writing => match event {
                EventModel::Written => Some((StateModel::Done, ActionModel::Finish)),
                EventModel::WriteFailed { step, message } => Some(
                    failure(FatalErrorModel::Io { step, message }),
                ),
                _ => None,
            },
        },
        StateModel::Done => None,
        StateModel::Failed => None,
    }
}

/// The state and the action as contracts see them.
pub open spec fn turn_model(turn: (State, Action)) -> (StateModel, ActionModel) {
    (turn.0@, turn.1@)
}

/// Begins a run with the given options.
pub fn start(options: Options) -> (turn: (State, Action))
    ensures
        turn_model(turn) == start_model(options@),
{
    let input = options.input.clone();
    (State::Start { options }, Action::Parse { input })
}

/// Ends the run on an error.
fn fail(error: FatalError) -> (turn: (State, Action))
    ensures
        turn_model(turn) == failure(error@),
{
    (State::Failed, Action::Abort { error })
}

/// Goes on after the last block.
fn leave_blocks(
    pattern: String,
    cpp_extension: String,
    generate_exact: Option<usize>,
    counter: usize,
) -> (turn: (State, Action))
    ensures
        turn_model(turn) == after_blocks(
            pattern@,
            cpp_extension@,
            floor_model(generate_exact),
            counter as nat,
        ),
{
    match generate_exact {
        Some(floor) => {
            if counter < floor {
                let files = padding_outputs(
                    pattern.as_str(),
                    cpp_extension.as_str(),
                    counter,
                    floor,
                );
                (
                    State::GenCpp {
                        pattern,
                        cpp_extension,
                        generate_exact,
                        counter: floor,
                        stage: CppStage::Padding,
                    },
                    Action::Write { files },
                )
            } else {
                (State::Done, Action::Finish)
            }
        },
        None => (State::Done, Action::Finish),
    }
}

/// Goes on with block `next`, or after the last block.
fn go_to_block(
    pattern: String,
    cpp_extension: String,
    generate_exact: Option<usize>,
    counter: usize,
    next: usize,
    blocks: usize,
) -> (turn: (State, Action))
    ensures
        turn_model(turn) == enter_block(
            pattern@,
            cpp_extension@,
            floor_model(generate_exact),
            counter as nat,
            next as nat,
            blocks,
        ),
{
    if next < blocks {
        (
            State::GenCpp {
                pattern,
                cpp_extension,
                generate_exact,
                counter,
                stage: CppStage::Generating { block: next, blocks },
            },
            Action::Generate { block: next },
        )
    } else {
        leave_blocks(pattern, cpp_extension, generate_exact, counter)
    }
}

/// Goes on with the block after `block`, or after the last block.
fn go_to_next_block(
    pattern: String,
    cpp_extension: String,
    generate_exact: Option<usize>,
    counter: usize,
    block: usize,
    blocks: usize,
) -> (turn: (State, Action))
    ensures
        turn_model(turn) == enter_block(
            pattern@,
            cpp_extension@,
            floor_model(generate_exact),
            counter as nat,
            (block + 1) as nat,
            blocks,
        ),
{
    if block < blocks {
        go_to_block(pattern, cpp_extension, generate_exact, counter, block + 1, blocks)
    } else {
        leave_blocks(pattern, cpp_extension, generate_exact, counter)
    }
}

/// Takes the outcome of the last action and says what to do next. Where the
/// event is none that the state waits for, or would carry the counter past
/// the machine's word, the answer is `None`.
pub fn step(state: State, event: Event) -> (next: Option<(State, Action)>)
    ensures
        match next {
            Some(turn) => step_model(state@, event@) == Some(turn_model(turn)),
            None => step_model(state@, event@) is None,
        },
{
    match state {
        State::Start { options } => match event {
            Event::Parsed => Some(
                (State::Parsed { command: options.command }, Action::Resolve { inc: options.inc }),
            ),
            Event::ParseFailed { message } => Some(fail(FatalError::Parse { message })),
            _ => None,
        },
        State::Parsed { command } => match event {
            Event::Resolved { blocks } => match command {
                Command::GenCpp { pattern, cpp_extension, generate_exact } => Some(
                    go_to_block(pattern, cpp_extension, generate_exact, 0, 0, blocks),
                ),
                Command::GenRs => Some(
                    (State::GenRs { stage: RsStage::Serializing }, Action::Serialize),
                ),
            },
            Event::ResolveFailed { message } => Some(fail(FatalError::Resolve { message })),
            _ => None,
        },
        State::GenCpp { pattern, cpp_extension, generate_exact, counter, stage } => match stage {
            CppStage::Generating { block, blocks } => match event {
                Event::Generated { pairs } => match counter.checked_add(pairs.len()) {
                    None => None,
                    Some(reached) => if pairs.len() == 0 {
                        Some(
                            go_to_next_block(
                                pattern,
                                cpp_extension,
                                generate_exact,
                                counter,
                                block,
                                blocks,
                            ),
                        )
                    } else {
                        let files = pair_outputs(
                            pattern.as_str(),
                            cpp_extension.as_str(),
                            counter,
                            pairs,
                        );
                        Some(
                            (
                                State::GenCpp {
                                    pattern,
                                    cpp_extension,
                                    generate_exact,
                                    counter: reached,
                                    stage: CppStage::WritingBlock { block, blocks },
                                },
                                Action::Write { files },
                            ),
                        )
                    },
                },
                Event::GenerateFailed { message } => Some(fail(FatalError::Generate { message })),
                _ => None,
            },
            CppStage::WritingBlock { block, blocks } => match event {
                Event::Written => Some(
                    go_to_next_block(
                        pattern,
                        cpp_extension,
                        generate_exact,
                        counter,
                        block,
                        blocks,
                    ),
                ),
                Event::WriteFailed { step, message } => Some(
                    fail(FatalError::Io { step, message }),
                ),
                _ => None,
            },
            CppStage::Padding => match event {
                Event::Written => Some((State::Done, Action::Finish)),
                Event::WriteFailed { step, message } => Some(
                    fail(FatalError::Io { step, message }),
                ),
                _ => None,
            },
        },
        State::GenRs { stage } => match stage {
            RsStage::Serializing => match event {
                Event::Serialized { text } => {
                    let file = expanded_source_file(text.as_str());
                    let mut files: Vec<OutputFile> = Vec::new();
                    files.push(file);
                    proof {
                        assert(file_models(files@) =~= seq![expanded_source(text@)]);
                    }
                    Some((State::GenRs { stage: RsStage::Writing }, Action::Write { files }))
                },
                _ => None,
            },
            RsStage::Writing => match event {
                Event::Written => Some((State::Done, Action::Finish)),
                Event::WriteFailed { step, message } => Some(
                    fail(FatalError::Io { step, message }),
                ),
                _ => None,
            },
        },
        State::Done => None,
        State::Failed => None,
    }
}

} // verus!
