//! What a run has done so far, and why a finished run has written exactly
//! what it should.

use crate::cli::{CommandModel, OptionsModel};
use crate::orchestrator::{
    enter_block, start_model, step_model, ActionModel, CppStage, EventModel, RsStage, StateModel,
};
use crate::output::{
    blank_cpp_file, expanded_source_name, header_file, implementation_file, pair_files, FileModel,
    PairModel,
};
use crate::plan::{
    all_pairs, gen_cpp_files, gen_rs_files, implementation_count, lemma_gen_cpp_layout,
    lemma_pair_files_concat,
};
use vstd::prelude::*;
use vstd::utf8::encode_utf8;

verus! {

/// What has happened in a run up to some point.
pub struct History {
    /// The number of binding blocks that resolving found, once it has.
    pub resolved: Option<nat>,
    /// The pairs that each generated block gave, in the order of generating.
    pub blocks: Seq<Seq<PairModel>>,
    /// The text of the expanded source, once it is rendered.
    pub source: Option<Seq<char>>,
    /// The files that were asked to be written, in the order of asking.
    pub written: Seq<FileModel>,
}

/// The history of a run that has just begun.
pub open spec fn no_history() -> History {
    History { resolved: None, blocks: Seq::empty(), source: None, written: Seq::empty() }
}

/// The history after one more event and the action that answered it.
pub open spec fn record(history: History, event: EventModel, action: ActionModel) -> History {
    History {
        resolved: match event {
            EventModel::Resolved { blocks } => Some(blocks),
            _ => history.resolved,
        },
        blocks: match event {
            EventModel::Generated { pairs } => history.blocks.push(pairs),
            _ => history.blocks,
        },
        source: match event {
            EventModel::Serialized { text } => Some(text),
            _ => history.source,
        },
        written: match action {
            ActionModel::Write { files } => history.written + files,
            _ => history.written,
        },
    }
}

/// What a finished run for `command` has done: every block that resolving
/// found was generated, or the source was rendered, and the files asked to be
/// written are those of the whole run, no more and no fewer.
pub open spec fn complete(command: CommandModel, history: History) -> bool {
    match command {
        CommandModel::GenCpp { pattern, cpp_extension, generate_exact } => {
            &&& history.resolved == Some(history.blocks.len())
            &&& history.source is None
            &&& history.written == gen_cpp_files(
                pattern,
                cpp_extension,
                history.blocks,
                generate_exact,
            )
        },
        CommandModel::GenRs => {
            &&& history.blocks.len() == 0
            &&& history.source matches Some(text)
            &&& history.written == gen_rs_files(text)
        },
    }
}

/// What a run for `command` that ended on an error has done: it asked for
/// nothing to be written but what a finished run would have written so far.
/// Generating the C++ side, these are the files of the pairs of the blocks
/// that were generated, and after them the placeholders if the run had come
/// that far. Expanding the source, it is nothing, or the one file.
pub open spec fn partial(command: CommandModel, history: History) -> bool {
    match command {
        CommandModel::GenCpp { pattern, cpp_extension, generate_exact } => {
            ||| history.written == pair_files(
                pattern,
                cpp_extension,
                0,
                all_pairs(history.blocks),
            )
            ||| history.written == gen_cpp_files(
                pattern,
                cpp_extension,
                history.blocks,
                generate_exact,
            )
        },
        CommandModel::GenRs => {
            &&& history.blocks.len() == 0
            &&& history.written.len() == 0 || complete(command, history)
        },
    }
}

/// Nothing is generated, rendered or written before the bindings are resolved.
pub open spec fn resolved_first(history: History) -> bool {
    history.resolved is None ==> {
        &&& history.blocks.len() == 0
        &&& history.source is None
        &&& history.written.len() == 0
    }
}

/// The state of a run for `command` fits its history.
///
/// Before resolving nothing is generated or written. While the C++ side is
/// generated, the blocks so far are the first blocks of the source, the
/// counter is the number of their pairs, and the files asked to be written are
/// the files of those pairs, counted from zero. While the source is expanded,
/// nothing is written before the text is there. A finished run is complete,
/// and a failed one has done a part of what a finished run does.
pub open spec fn consistent(command: CommandModel, state: StateModel, history: History) -> bool {
    &&& resolved_first(history)
    &&& match state {
        StateModel::Start { options } => options.command == command && history == no_history(),
        StateModel::Parsed { command: asked } => asked == command && history == no_history(),
        StateModel::GenCpp { pattern, cpp_extension, generate_exact, counter, stage } => {
            &&& command == CommandModel::GenCpp { pattern, cpp_extension, generate_exact }
            &&& history.source is None
            &&& match stage {
                CppStage::Generating { block, blocks } => {
                    &&& block < blocks
                    &&& history.resolved == Some(blocks as nat)
                    &&& history.blocks.len() == block
                    &&& counter == all_pairs(history.blocks).len()
                    &&& history.written == pair_files(
                        pattern,
                        cpp_extension,
                        0,
                        all_pairs(history.blocks),
                    )
                },
                CppStage::WritingBlock { block, blocks } => {
                    &&& block < blocks
                    &&& history.resolved == Some(blocks as nat)
                    &&& history.blocks.len() == block + 1
                    &&& counter == all_pairs(history.blocks).len()
                    &&& history.written == pair_files(
                        pattern,
                        cpp_extension,
                        0,
                        all_pairs(history.blocks),
                    )
                },
                CppStage::Padding => {
                    &&& counter == implementation_count(
                        all_pairs(history.blocks).len(),
                        generate_exact,
                    )
                    &&& complete(command, history)
                },
            }
        },
        StateModel::GenRs { stage } => {
            &&& command is GenRs
            &&& history.resolved is Some
            &&& history.blocks.len() == 0
            &&& match stage {
                RsStage::Serializing => history.source is None && history.written.len() == 0,
                RsStage::Writing => complete(command, history),
            }
        },
        StateModel::Done => complete(command, history),
        StateModel::Failed => partial(command, history),
    }
}

/// A run that has just begun fits the empty history.
pub proof fn lemma_start_consistent(options: OptionsModel)
    ensures
        consistent(options.command, start_model(options).0, no_history()),
{
}

/// Every step keeps state and history fitting: if they fit before an event
/// that the state waits for, they fit after it.
pub proof fn lemma_step_consistent(
    command: CommandModel,
    state: StateModel,
    history: History,
    event: EventModel,
)
    requires
        consistent(command, state, history),
        step_model(state, event) is Some,
    ensures
        ({
            let next = step_model(state, event)->Some_0;
            consistent(command, next.0, record(history, event, next.1))
        }),
{
    let next = step_model(state, event)->Some_0;
    let after = record(history, event, next.1);
    match state {
        StateModel::Start { options } => {},
        StateModel::Parsed { command: asked } => {
            if let EventModel::Resolved { blocks } = event {
                if command is GenCpp {
                    lemma_enter_block_consistent(command, history, 0, 0, blocks as usize);
                    assert(after == entered(history, blocks as usize, next.1));
                }
            }
        },
        StateModel::GenCpp { pattern, cpp_extension, generate_exact, counter, stage } => {
            match stage {
                CppStage::Generating { block, blocks } => {
                    if let EventModel::Generated { pairs } = event {
                        let generated = History { blocks: history.blocks.push(pairs), ..history };
                        assert(generated.blocks.drop_last() =~= history.blocks);
                        assert(generated.blocks.last() == pairs);
                        assert(all_pairs(generated.blocks) == all_pairs(history.blocks) + pairs);
                        lemma_pair_files_concat(
                            pattern,
                            cpp_extension,
                            0,
                            all_pairs(history.blocks),
                            pairs,
                        );
                        if pairs.len() == 0 {
                            assert(all_pairs(history.blocks) + pairs =~= all_pairs(history.blocks));
                            lemma_enter_block_consistent(
                                command,
                                generated,
                                counter,
                                (block + 1) as nat,
                                blocks,
                            );
                            assert(after == entered(generated, blocks, next.1));
                        }
                    }
                },
                CppStage::WritingBlock { block, blocks } => {
                    if event is Written {
                        lemma_enter_block_consistent(
                            command,
                            history,
                            counter,
                            (block + 1) as nat,
                            blocks,
                        );
                        assert(after == entered(history, blocks, next.1));
                    }
                },
                CppStage::Padding => {},
            }
        },
        StateModel::GenRs { stage } => {
            match stage {
                RsStage::Serializing => {
                    if let EventModel::Serialized { text } = event {
                        assert(history.written + gen_rs_files(text) =~= gen_rs_files(text));
                    }
                },
                RsStage::Writing => {},
            }
        },
        StateModel::Done => {},
        StateModel::Failed => {},
    }
}

/// The history after the run went on to a block, or past the last one, with
/// the given action.
spec fn entered(before: History, blocks: usize, action: ActionModel) -> History {
    History {
        resolved: Some(blocks as nat),
        written: match action {
            ActionModel::Write { files } => before.written + files,
            _ => before.written,
        },
        ..before
    }
}

/// Going on to block `next`, or past the last block, keeps state and history
/// fitting, when the blocks before `next` are generated and written.
proof fn lemma_enter_block_consistent(
    command: CommandModel,
    before: History,
    counter: nat,
    next: nat,
    blocks: usize,
)
    requires
        command is GenCpp,
        next <= blocks,
        before.blocks.len() == next,
        before.source is None,
        counter == all_pairs(before.blocks).len(),
        before.written == pair_files(
            command->pattern,
            command->cpp_extension,
            0,
            all_pairs(before.blocks),
        ),
    ensures
        ({
            let turn = enter_block(
                command->pattern,
                command->cpp_extension,
                command->generate_exact,
                counter,
                next,
                blocks,
            );
            consistent(command, turn.0, entered(before, blocks, turn.1))
        }),
{
    if next >= blocks {
        assert(before.written + Seq::<FileModel>::empty() =~= before.written);
    }
}

/// The state and the history of a run with the given options after the given
/// events, one after the other. There is none if one of the events was not
/// what the state before it waited for.
pub open spec fn run(options: OptionsModel, events: Seq<EventModel>) -> Option<
    (StateModel, History),
>
    decreases events.len(),
{
    if events.len() == 0 {
        Some((start_model(options).0, no_history()))
    } else {
        match run(options, events.drop_last()) {
            Some((state, history)) => match step_model(state, events.last()) {
                Some((next, action)) => Some((next, record(history, events.last(), action))),
                None => None,
            },
            None => None,
        }
    }
}

/// At every point of every run, the state fits the history.
pub proof fn lemma_run_consistent(options: OptionsModel, events: Seq<EventModel>)
    ensures
        run(options, events) matches Some(reached) ==> consistent(
            options.command,
            reached.0,
            reached.1,
        ),
    decreases events.len(),
{
    if events.len() == 0 {
        lemma_start_consistent(options);
    } else {
        lemma_run_consistent(options, events.drop_last());
        if let Some((state, history)) = run(options, events.drop_last()) {
            if step_model(state, events.last()) is Some {
                lemma_step_consistent(options.command, state, history, events.last());
            }
        }
    }
}

/// The counter of the implementation files never falls: a step that leaves
/// the run generating the C++ side leaves the counter where it was or moves
/// it up.
pub proof fn lemma_counter_never_falls(state: StateModel, event: EventModel)
    requires
        state is GenCpp,
        step_model(state, event) matches Some(next) && next.0 is GenCpp,
    ensures
        step_model(state, event)->Some_0.0->counter >= state->counter,
{
}

/// In every run, resolving the bindings comes first: as long as it has not
/// succeeded, no block is generated, the source is not rendered and no file
/// is asked to be written.
pub proof fn lemma_resolved_first(options: OptionsModel, events: Seq<EventModel>)
    ensures
        run(options, events) matches Some(reached) ==> resolved_first(reached.1),
{
    lemma_run_consistent(options, events);
}

/// A finished run that generated the C++ side has asked for exactly the files
/// of its pairs and its placeholders to be written. With `k` pairs in all
/// blocks, the implementation files carry the counters from zero on without a
/// gap: first the `k` of the pairs, each followed by its header, then, where a
/// number `n` above `k` was requested, `n - k` placeholder files.
pub proof fn lemma_finished_gen_cpp(options: OptionsModel, events: Seq<EventModel>)
    requires
        options.command is GenCpp,
        run(options, events) matches Some(reached) && reached.0 is Done,
    ensures
        ({
            let history = run(options, events)->Some_0.1;
            let pattern = options.command->pattern;
            let extension = options.command->cpp_extension;
            let pairs = all_pairs(history.blocks);
            let k = pairs.len();
            let total = implementation_count(k, options.command->generate_exact);
            &&& history.resolved == Some(history.blocks.len())
            &&& history.written.len() == k + total
            &&& forall|i: int|
                0 <= i < k ==> {
                    &&& history.written[2 * i] == implementation_file(
                        pattern,
                        extension,
                        i as nat,
                        (#[trigger] pairs[i]).implementation,
                    )
                    &&& history.written[2 * i + 1] == header_file(pairs[i])
                }
            &&& forall|i: int|
                k <= i < total ==> history.written[k + i] == #[trigger] blank_cpp_file(
                    pattern,
                    extension,
                    i as nat,
                )
        }),
{
    lemma_run_consistent(options, events);
    lemma_gen_cpp_layout(
        options.command->pattern,
        options.command->cpp_extension,
        run(options, events)->Some_0.1.blocks,
        options.command->generate_exact,
    );
}

/// A run that expands the source asks for no file to be written but the one
/// of the fixed name with the rendered text, whatever else the command line
/// held, and generates no block. When it has finished, it has asked for that
/// file, once.
pub proof fn lemma_gen_rs_writes_one_file(options: OptionsModel, events: Seq<EventModel>)
    requires
        options.command is GenRs,
        run(options, events) is Some,
    ensures
        ({
            let reached = run(options, events)->Some_0;
            let written = reached.1.written;
            &&& reached.1.blocks.len() == 0
            &&& written.len() <= 1
            &&& reached.0 is Done ==> written.len() == 1
            &&& written.len() == 1 ==> {
                &&& reached.1.source is Some
                &&& written[0].name == expanded_source_name()
                &&& written[0].content == encode_utf8(reached.1.source->Some_0)
            }
        }),
{
    lemma_run_consistent(options, events);
}

/// A run whose source file could not be parsed has asked for nothing to be
/// written, and has ended.
pub proof fn lemma_parse_failure_writes_nothing(options: OptionsModel, message: Seq<char>)
    ensures
        run(options, seq![EventModel::ParseFailed { message }]) == Some(
            (StateModel::Failed, no_history()),
        ),
{
    let events = seq![EventModel::ParseFailed { message }];
    assert(events.drop_last() =~= Seq::<EventModel>::empty());
    assert(run(options, events.drop_last()) == Some((start_model(options).0, no_history())));
    assert(events.last() == EventModel::ParseFailed { message });
}

} // verus!
