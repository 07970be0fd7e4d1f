use autocxx_gen::cli::{Command, Options};
use autocxx_gen::orchestrator::{
    exit_code, start, step, Action, CppStage, Event, FatalError, IoStep, RsStage, State,
};
use autocxx_gen::output::{GenerationPair, OutputFile};
use autocxx_gen::plan::gen_cpp_outputs;

const BLANK: &[u8] = b"// Blank C++ file generated by autocxx";

/// The outside services of a run, with what each of them answers.
#[derive(Clone)]
struct Services {
    parse: Result<(), String>,
    resolve: Result<(), String>,
    blocks: Vec<Result<Vec<GenerationPair>, String>>,
    source: String,
    /// The number of files that can be written before the disk refuses.
    disk: Option<(usize, IoStep)>,
}

/// What a run did.
#[derive(Debug)]
struct Run {
    calls: Vec<String>,
    written: Vec<OutputFile>,
    end: Action,
    state: State,
}

fn services(blocks: Vec<Vec<GenerationPair>>) -> Services {
    Services {
        parse: Ok(()),
        resolve: Ok(()),
        blocks: blocks.into_iter().map(Ok).collect(),
        source: "fn main () { }".to_string(),
        disk: None,
    }
}

fn run(options: Options, services: Services) -> Run {
    let mut calls: Vec<String> = Vec::new();
    let mut written: Vec<OutputFile> = Vec::new();
    let (mut state, mut action) = start(options);
    loop {
        let event = match action.clone() {
            Action::Parse { input } => {
                calls.push(format!("parse {}", input));
                match services.parse.clone() {
                    Ok(()) => Event::Parsed,
                    Err(message) => Event::ParseFailed { message },
                }
            }
            Action::Resolve { inc } => {
                calls.push(format!("resolve [{}]", inc));
                match services.resolve.clone() {
                    Ok(()) => Event::Resolved { blocks: services.blocks.len() },
                    Err(message) => Event::ResolveFailed { message },
                }
            }
            Action::Generate { block } => {
                calls.push(format!("generate {}", block));
                match services.blocks[block].clone() {
                    Ok(pairs) => Event::Generated { pairs },
                    Err(message) => Event::GenerateFailed { message },
                }
            }
            Action::Serialize => {
                calls.push("serialize".to_string());
                Event::Serialized { text: services.source.clone() }
            }
            Action::Write { files } => {
                let mut event = Event::Written;
                for file in files {
                    if let Some((room, step)) = services.disk {
                        if written.len() >= room {
                            event = Event::WriteFailed { step, message: "disk full".to_string() };
                            break;
                        }
                    }
                    written.push(file);
                }
                event
            }
            Action::Finish | Action::Abort { .. } => {
                return Run { calls, written, end: action, state };
            }
        };
        let (next_state, next_action) = step(state, event).unwrap();
        state = next_state;
        action = next_action;
    }
}

fn gen_cpp(pattern: &str, cpp_extension: &str, generate_exact: Option<usize>) -> Options {
    Options {
        input: "input.rs".to_string(),
        inc: "include".to_string(),
        command: Command::GenCpp {
            pattern: pattern.to_string(),
            cpp_extension: cpp_extension.to_string(),
            generate_exact,
        },
    }
}

fn gen_rs() -> Options {
    Options { input: "input.rs".to_string(), inc: String::new(), command: Command::GenRs }
}

fn pair(tag: &str) -> GenerationPair {
    GenerationPair {
        header: format!("// header {}", tag).into_bytes(),
        implementation: format!("// implementation {}", tag).into_bytes(),
        header_name: format!("{}.h", tag),
    }
}

fn file(name: &str, content: &[u8]) -> OutputFile {
    OutputFile { name: name.to_string(), content: content.to_vec() }
}

fn names(files: &[OutputFile]) -> Vec<String> {
    files.iter().map(|f| f.name.clone()).collect()
}

fn generating(counter: usize, block: usize, blocks: usize) -> State {
    State::GenCpp {
        pattern: "gen".to_string(),
        cpp_extension: "cc".to_string(),
        generate_exact: None,
        counter,
        stage: CppStage::Generating { block, blocks },
    }
}

#[test]
fn no_blocks_and_floor_of_two_gives_two_placeholders() {
    let done = run(gen_cpp("gen", "cc", Some(2)), services(Vec::new()));
    assert_eq!(done.end, Action::Finish);
    assert_eq!(done.state, State::Done);
    assert_eq!(done.written, vec![file("gen0.cc", BLANK), file("gen1.cc", BLANK)]);
    assert_eq!(done.calls, vec!["parse input.rs", "resolve [include]"]);
}

#[test]
fn one_pair_without_floor_gives_implementation_and_header() {
    let done = run(gen_cpp("gen", "cc", None), services(vec![vec![pair("cxxgen")]]));
    assert_eq!(done.end, Action::Finish);
    assert_eq!(
        done.written,
        vec![
            file("gen0.cc", b"// implementation cxxgen"),
            file("cxxgen.h", b"// header cxxgen"),
        ]
    );
    assert_eq!(done.calls, vec!["parse input.rs", "resolve [include]", "generate 0"]);
}

#[test]
fn three_pairs_and_floor_of_two_keeps_all_pairs() {
    let block = vec![pair("a"), pair("b"), pair("c")];
    let done = run(gen_cpp("gen", "cc", Some(2)), services(vec![block]));
    assert_eq!(done.end, Action::Finish);
    assert_eq!(names(&done.written), vec!["gen0.cc", "a.h", "gen1.cc", "b.h", "gen2.cc", "c.h"]);
    assert!(done.written.iter().all(|f| f.content != BLANK.to_vec()));
}

#[test]
fn pattern_and_extension_name_the_implementation() {
    let done = run(gen_cpp("foo", "cpp", None), services(vec![vec![pair("cxxgen")]]));
    assert_eq!(done.written[0], file("foo0.cpp", b"// implementation cxxgen"));
    assert_eq!(names(&done.written), vec!["foo0.cpp", "cxxgen.h"]);
}

#[test]
fn parse_failure_writes_nothing() {
    let mut broken = services(vec![vec![pair("a")]]);
    broken.parse = Err("Syntax(expected item)".to_string());
    let failed = run(gen_cpp("gen", "cc", Some(2)), broken);
    assert_eq!(failed.written, Vec::new());
    assert_eq!(failed.calls, vec!["parse input.rs"]);
    assert_eq!(failed.state, State::Failed);
    assert_eq!(
        failed.end,
        Action::Abort { error: FatalError::Parse { message: "Syntax(expected item)".to_string() } }
    );
    assert_eq!(exit_code(&failed.end), Some(1));
}

#[test]
fn parse_failure_writes_nothing_when_expanding() {
    let mut broken = services(Vec::new());
    broken.parse = Err("FileOpen".to_string());
    let failed = run(gen_rs(), broken);
    assert_eq!(failed.written, Vec::new());
    assert_eq!(failed.calls, vec!["parse input.rs"]);
    assert_eq!(
        failed.end,
        Action::Abort { error: FatalError::Parse { message: "FileOpen".to_string() } }
    );
}

#[test]
fn resolve_failure_writes_nothing() {
    let mut broken = services(vec![vec![pair("a")]]);
    broken.resolve = Err("Bindgen(())".to_string());
    let failed = run(gen_cpp("gen", "cc", Some(2)), broken);
    assert_eq!(failed.written, Vec::new());
    assert_eq!(failed.calls, vec!["parse input.rs", "resolve [include]"]);
    assert_eq!(
        failed.end,
        Action::Abort { error: FatalError::Resolve { message: "Bindgen(())".to_string() } }
    );
}

#[test]
fn generate_failure_keeps_the_files_of_earlier_blocks() {
    let mut broken = services(vec![vec![pair("a")], Vec::new(), vec![pair("c")]]);
    broken.blocks[1] = Err("cxx".to_string());
    let failed = run(gen_cpp("gen", "cc", Some(9)), broken);
    assert_eq!(names(&failed.written), vec!["gen0.cc", "a.h"]);
    assert_eq!(
        failed.calls,
        vec!["parse input.rs", "resolve [include]", "generate 0", "generate 1"]
    );
    assert_eq!(
        failed.end,
        Action::Abort { error: FatalError::Generate { message: "cxx".to_string() } }
    );
}

#[test]
fn write_failure_ends_the_run_and_keeps_what_is_written() {
    let mut full = services(vec![vec![pair("a"), pair("b")], vec![pair("c")]]);
    full.disk = Some((3, IoStep::Write));
    let failed = run(gen_cpp("gen", "cc", None), full);
    assert_eq!(names(&failed.written), vec!["gen0.cc", "a.h", "gen1.cc"]);
    assert_eq!(failed.calls, vec!["parse input.rs", "resolve [include]", "generate 0"]);
    assert_eq!(
        failed.end,
        Action::Abort {
            error: FatalError::Io { step: IoStep::Write, message: "disk full".to_string() },
        }
    );
}

#[test]
fn write_failure_while_padding_ends_the_run() {
    let mut full = services(vec![vec![pair("a")]]);
    full.disk = Some((3, IoStep::Create));
    let failed = run(gen_cpp("gen", "cc", Some(4)), full);
    assert_eq!(names(&failed.written), vec!["gen0.cc", "a.h", "gen1.cc"]);
    assert_eq!(
        failed.end,
        Action::Abort {
            error: FatalError::Io { step: IoStep::Create, message: "disk full".to_string() },
        }
    );
    assert_eq!(failed.state, State::Failed);
}

#[test]
fn write_failure_while_expanding_ends_the_run() {
    let mut full = services(Vec::new());
    full.disk = Some((0, IoStep::Create));
    let failed = run(gen_rs(), full);
    assert_eq!(failed.written, Vec::new());
    assert_eq!(
        failed.end,
        Action::Abort {
            error: FatalError::Io { step: IoStep::Create, message: "disk full".to_string() },
        }
    );
}

#[test]
fn blocks_are_generated_in_source_order() {
    let blocks = vec![vec![pair("a")], Vec::new(), vec![pair("b"), pair("c")], Vec::new()];
    let done = run(gen_cpp("gen", "cc", Some(5)), services(blocks));
    assert_eq!(
        done.calls,
        vec![
            "parse input.rs",
            "resolve [include]",
            "generate 0",
            "generate 1",
            "generate 2",
            "generate 3",
        ]
    );
    assert_eq!(
        names(&done.written),
        vec!["gen0.cc", "a.h", "gen1.cc", "b.h", "gen2.cc", "c.h", "gen3.cc", "gen4.cc"]
    );
    assert_eq!(done.end, Action::Finish);
}

#[test]
fn run_writes_what_the_whole_run_is_said_to_write() {
    for floor in [None, Some(0), Some(3), Some(4), Some(10)] {
        let blocks = vec![Vec::new(), vec![pair("a"), pair("b")], vec![pair("c")], Vec::new()];
        let done = run(gen_cpp("out", "cxx", floor), services(blocks.clone()));
        assert_eq!(done.end, Action::Finish);
        assert_eq!(done.written, gen_cpp_outputs("out", "cxx", blocks, floor).unwrap());
    }
}

#[test]
fn floor_equal_to_pairs_adds_nothing() {
    let done = run(gen_cpp("gen", "cc", Some(1)), services(vec![vec![pair("a")]]));
    assert_eq!(names(&done.written), vec!["gen0.cc", "a.h"]);
}

#[test]
fn floor_of_zero_without_blocks_writes_nothing() {
    let done = run(gen_cpp("gen", "cc", Some(0)), services(Vec::new()));
    assert_eq!(done.written, Vec::new());
    assert_eq!(done.end, Action::Finish);
    assert_eq!(exit_code(&done.end), Some(0));
}

#[test]
fn expanding_writes_gen_rs_only() {
    let mut with_blocks = services(vec![vec![pair("a")], vec![pair("b")]]);
    with_blocks.source = "mod ffi { }".to_string();
    let done = run(gen_rs(), with_blocks);
    assert_eq!(done.written, vec![file("gen.rs", b"mod ffi { }")]);
    assert_eq!(done.calls, vec!["parse input.rs", "resolve []", "serialize"]);
    assert_eq!(done.end, Action::Finish);
    assert_eq!(done.state, State::Done);
}

#[test]
fn expanding_an_empty_source_writes_an_empty_gen_rs() {
    let mut empty = services(Vec::new());
    empty.source = String::new();
    let done = run(gen_rs(), empty);
    assert_eq!(done.written, vec![file("gen.rs", b"")]);
}

#[test]
fn run_begins_with_parsing_the_input() {
    let options = gen_cpp("gen", "cc", None);
    let (state, action) = start(options.clone());
    assert_eq!(state, State::Start { options });
    assert_eq!(action, Action::Parse { input: "input.rs".to_string() });
}

#[test]
fn parsed_source_is_resolved_with_the_include_path() {
    let options = gen_cpp("gen", "cc", None);
    let (state, _) = start(options.clone());
    assert_eq!(
        step(state, Event::Parsed),
        Some((
            State::Parsed { command: options.command },
            Action::Resolve { inc: "include".to_string() }
        ))
    );
}

#[test]
fn resolved_source_with_blocks_generates_the_first() {
    let state = State::Parsed { command: gen_cpp("gen", "cc", Some(1)).command };
    assert_eq!(
        step(state, Event::Resolved { blocks: 2 }),
        Some((
            State::GenCpp {
                pattern: "gen".to_string(),
                cpp_extension: "cc".to_string(),
                generate_exact: Some(1),
                counter: 0,
                stage: CppStage::Generating { block: 0, blocks: 2 },
            },
            Action::Generate { block: 0 }
        ))
    );
}

#[test]
fn resolved_source_is_rendered_when_expanding() {
    let state = State::Parsed { command: Command::GenRs };
    assert_eq!(
        step(state, Event::Resolved { blocks: 2 }),
        Some((State::GenRs { stage: RsStage::Serializing }, Action::Serialize))
    );
}

#[test]
fn generated_pairs_move_the_counter() {
    let next = step(generating(3, 0, 2), Event::Generated { pairs: vec![pair("a"), pair("b")] });
    assert_eq!(
        next,
        Some((
            State::GenCpp {
                pattern: "gen".to_string(),
                cpp_extension: "cc".to_string(),
                generate_exact: None,
                counter: 5,
                stage: CppStage::WritingBlock { block: 0, blocks: 2 },
            },
            Action::Write {
                files: vec![
                    file("gen3.cc", b"// implementation a"),
                    file("a.h", b"// header a"),
                    file("gen4.cc", b"// implementation b"),
                    file("b.h", b"// header b"),
                ],
            }
        ))
    );
}

#[test]
fn block_without_pairs_goes_straight_to_the_next() {
    assert_eq!(
        step(generating(3, 0, 2), Event::Generated { pairs: Vec::new() }),
        Some((generating(3, 1, 2), Action::Generate { block: 1 }))
    );
    assert_eq!(
        step(generating(3, 1, 2), Event::Generated { pairs: Vec::new() }),
        Some((State::Done, Action::Finish))
    );
}

#[test]
fn written_block_goes_to_the_next_or_to_the_end() {
    let writing = |block: usize, floor: Option<usize>| State::GenCpp {
        pattern: "gen".to_string(),
        cpp_extension: "cc".to_string(),
        generate_exact: floor,
        counter: 2,
        stage: CppStage::WritingBlock { block, blocks: 2 },
    };
    assert_eq!(
        step(writing(0, None), Event::Written).map(|turn| turn.1),
        Some(Action::Generate { block: 1 })
    );
    assert_eq!(step(writing(1, None), Event::Written), Some((State::Done, Action::Finish)));
    assert_eq!(step(writing(1, Some(2)), Event::Written), Some((State::Done, Action::Finish)));
    assert_eq!(
        step(writing(1, Some(3)), Event::Written),
        Some((
            State::GenCpp {
                pattern: "gen".to_string(),
                cpp_extension: "cc".to_string(),
                generate_exact: Some(3),
                counter: 3,
                stage: CppStage::Padding,
            },
            Action::Write { files: vec![file("gen2.cc", BLANK)] }
        ))
    );
}

#[test]
fn written_padding_ends_the_run() {
    let padding = State::GenCpp {
        pattern: "gen".to_string(),
        cpp_extension: "cc".to_string(),
        generate_exact: Some(3),
        counter: 3,
        stage: CppStage::Padding,
    };
    assert_eq!(step(padding, Event::Written), Some((State::Done, Action::Finish)));
}

#[test]
fn event_out_of_turn_is_not_taken() {
    let options = gen_cpp("gen", "cc", None);
    assert_eq!(step(start(options.clone()).0, Event::Written), None);
    assert_eq!(step(start(options.clone()).0, Event::Resolved { blocks: 0 }), None);
    assert_eq!(step(State::Parsed { command: options.command.clone() }, Event::Parsed), None);
    assert_eq!(step(generating(0, 0, 1), Event::Written), None);
    assert_eq!(step(generating(0, 0, 1), Event::Serialized { text: String::new() }), None);
    assert_eq!(
        step(State::GenRs { stage: RsStage::Serializing }, Event::Generated { pairs: Vec::new() }),
        None
    );
    assert_eq!(step(State::GenRs { stage: RsStage::Serializing }, Event::Written), None);
    assert_eq!(
        step(State::GenRs { stage: RsStage::Writing }, Event::Serialized { text: String::new() }),
        None
    );
}

#[test]
fn ended_run_takes_no_event() {
    for state in [State::Done, State::Failed] {
        assert_eq!(step(state.clone(), Event::Parsed), None);
        assert_eq!(step(state.clone(), Event::Written), None);
        assert_eq!(step(state.clone(), Event::Resolved { blocks: 1 }), None);
        assert_eq!(
            step(state.clone(), Event::WriteFailed { step: IoStep::Write, message: String::new() }),
            None
        );
    }
}

#[test]
fn counter_does_not_pass_the_machine_word() {
    let one = || Event::Generated { pairs: vec![pair("a")] };
    let two = || Event::Generated { pairs: vec![pair("a"), pair("b")] };
    assert_eq!(step(generating(usize::MAX, 0, 1), one()), None);
    assert_eq!(step(generating(usize::MAX - 1, 0, 1), two()), None);
    let last = step(generating(usize::MAX - 1, 0, 1), Event::Generated { pairs: vec![pair("a")] });
    assert_eq!(
        last.map(|turn| turn.1),
        Some(Action::Write {
            files: vec![
                file(&format!("gen{}.cc", usize::MAX - 1), b"// implementation a"),
                file("a.h", b"// header a"),
            ],
        })
    );
}

#[test]
fn block_index_at_the_end_of_the_machine_word_ends_the_blocks() {
    let state = State::GenCpp {
        pattern: "gen".to_string(),
        cpp_extension: "cc".to_string(),
        generate_exact: None,
        counter: 0,
        stage: CppStage::WritingBlock { block: usize::MAX, blocks: usize::MAX },
    };
    assert_eq!(step(state, Event::Written), Some((State::Done, Action::Finish)));
}

#[test]
fn errors_are_reported_with_their_description() {
    let message = || "it broke".to_string();
    assert_eq!(
        FatalError::Parse { message: message() }.report(),
        "Unable to parse Rust file and interpret autocxx macro: it broke"
    );
    assert_eq!(
        FatalError::Resolve { message: message() }.report(),
        "Unable to resolve macro: it broke"
    );
    assert_eq!(
        FatalError::Generate { message: message() }.report(),
        "Unable to generate header and C++ code: it broke"
    );
    assert_eq!(
        FatalError::Io { step: IoStep::Create, message: message() }.report(),
        "Unable to create file: it broke"
    );
    assert_eq!(
        FatalError::Io { step: IoStep::Write, message: message() }.report(),
        "Unable to write file: it broke"
    );
}

#[test]
fn error_description_does_not_hold_the_message() {
    let error = FatalError::Io { step: IoStep::Write, message: "no space".to_string() };
    assert_eq!(error.description(), "Unable to write file");
    assert_eq!(error.message(), "no space");
    assert_eq!(
        FatalError::Parse { message: String::new() }.report(),
        "Unable to parse Rust file and interpret autocxx macro: "
    );
}

#[test]
fn only_the_end_of_a_run_has_an_exit_code() {
    assert_eq!(exit_code(&Action::Finish), Some(0));
    for error in [
        FatalError::Parse { message: String::new() },
        FatalError::Resolve { message: String::new() },
        FatalError::Generate { message: String::new() },
        FatalError::Io { step: IoStep::Create, message: String::new() },
        FatalError::Io { step: IoStep::Write, message: String::new() },
    ] {
        assert_eq!(exit_code(&Action::Abort { error }), Some(1));
    }
    assert_eq!(exit_code(&Action::Serialize), None);
    assert_eq!(exit_code(&Action::Generate { block: 0 }), None);
    assert_eq!(exit_code(&Action::Write { files: Vec::new() }), None);
    assert_eq!(exit_code(&Action::Parse { input: String::new() }), None);
    assert_eq!(exit_code(&Action::Resolve { inc: String::new() }), None);
}

#[test]
fn running_twice_writes_the_same_files() {
    let blocks = vec![vec![pair("a")], vec![pair("b"), pair("c")]];
    let first = run(gen_cpp("gen", "cc", Some(5)), services(blocks.clone()));
    let second = run(gen_cpp("gen", "cc", Some(5)), services(blocks));
    assert_eq!(first.written, second.written);
    assert_eq!(first.end, second.end);
}

#[test]
fn tokens_are_rendered_as_source_text() {
    let tokens: proc_macro2::TokenStream = "fn main() { let x = 1 + 2; }".parse().unwrap();
    assert_eq!(
        autocxx_gen::render::serialized(&tokens),
        Event::Serialized { text: "fn main () { let x = 1 + 2 ; }".to_string() }
    );
}

#[test]
fn no_tokens_are_rendered_as_empty_text() {
    let tokens = proc_macro2::TokenStream::new();
    assert_eq!(autocxx_gen::render::serialized(&tokens), Event::Serialized { text: String::new() });
}

#[test]
fn rendered_tokens_are_written_to_gen_rs() {
    let tokens: proc_macro2::TokenStream = "struct Point { x: u8 }".parse().unwrap();
    let state = State::GenRs { stage: RsStage::Serializing };
    let (state, action) = step(state, autocxx_gen::render::serialized(&tokens)).unwrap();
    assert_eq!(state, State::GenRs { stage: RsStage::Writing });
    match action {
        Action::Write { files } => {
            assert_eq!(files.len(), 1);
            assert_eq!(files[0].name, "gen.rs");
            let text = String::from_utf8(files[0].content.clone()).unwrap();
            let again: proc_macro2::TokenStream = text.parse().unwrap();
            assert_eq!(again.to_string(), tokens.to_string());
            assert!(text.contains("Point"));
        }
        other => panic!("{:?}", other),
    }
}
