//! The files that a run asks to be written, and their contents.

use crate::naming::{cpp_file_name, cpp_name};
use vstd::prelude::*;
use vstd::slice::slice_to_vec;
use vstd::utf8::encode_utf8;

verus! {

/// A file to be written into the output directory: its name there and its
/// whole content. A file that already has that name is replaced.
#[derive(Debug, Clone, PartialEq, Eq)]
pub struct OutputFile {
    /// The file's name inside the output directory.
    pub name: String,
    /// The bytes that the file holds once written.
    pub content: Vec<u8>,
}

/// What an [`OutputFile`] is in contracts.
pub struct FileModel {
    pub name: Seq<char>,
    pub content: Seq<u8>,
}

impl View for OutputFile {
    type V = FileModel;

    open spec fn view(&self) -> FileModel {
        FileModel { name: self.name@, content: self.content@ }
    }
}

/// One header with its implementation, as the generator hands them out. The
/// header comes with its name; the implementation is named by its counter.
#[derive(Debug, Clone, PartialEq, Eq)]
pub struct GenerationPair {
    /// Declarations, for the header file.
    pub header: Vec<u8>,
    /// Definitions, for the implementation file.
    pub implementation: Vec<u8>,
    /// The name under which other files include the header.
    pub header_name: String,
}

/// What a [`GenerationPair`] is in contracts.
pub struct PairModel {
    pub header: Seq<u8>,
    pub implementation: Seq<u8>,
    pub header_name: Seq<char>,
}

impl View for GenerationPair {
    type V = PairModel;

    open spec fn view(&self) -> PairModel {
        PairModel {
            header: self.header@,
            implementation: self.implementation@,
            header_name: self.header_name@,
        }
    }
}

/// The models of a list of files, in order.
pub open spec fn file_models(files: Seq<OutputFile>) -> Seq<FileModel> {
    Seq::new(files.len(), |i: int| files[i]@)
}

/// The models of a list of pairs, in order.
pub open spec fn pair_models(pairs: Seq<GenerationPair>) -> Seq<PairModel> {
    Seq::new(pairs.len(), |i: int| pairs[i]@)
}

/// The content of a placeholder file.
pub open spec fn blank_cpp_content() -> Seq<u8> {
    encode_utf8("// Blank C++ file generated by autocxx"@)
}

/// The name of the file that holds the expanded source.
pub open spec fn expanded_source_name() -> Seq<char> {
    "gen.rs"@
}

/// The implementation file with the given counter and content.
pub open spec fn implementation_file(
    pattern: Seq<char>,
    extension: Seq<char>,
    counter: nat,
    content: Seq<u8>,
) -> FileModel {
    FileModel { name: cpp_name(pattern, extension, counter), content }
}

/// The header file of a pair: the generator's name for it, and its header text.
pub open spec fn header_file(pair: PairModel) -> FileModel {
    FileModel { name: pair.header_name, content: pair.header }
}

/// The placeholder file with the given counter.
pub open spec fn blank_cpp_file(
    pattern: Seq<char>,
    extension: Seq<char>,
    counter: nat,
) -> FileModel {
    implementation_file(pattern, extension, counter, blank_cpp_content())
}

/// The file that holds the expanded source text.
pub open spec fn expanded_source(text: Seq<char>) -> FileModel {
    FileModel { name: expanded_source_name(), content: encode_utf8(text) }
}

/// The files of a run of pairs whose first pair gets the counter `start`: for
/// each pair its implementation file, then its header file.
pub open spec fn pair_files(
    pattern: Seq<char>,
    extension: Seq<char>,
    start: nat,
    pairs: Seq<PairModel>,
) -> Seq<FileModel>
    decreases pairs.len(),
{
    if pairs.len() == 0 {
        Seq::empty()
    } else {
        pair_files(pattern, extension, start, pairs.drop_last()).push(
            implementation_file(
                pattern,
                extension,
                (start + pairs.len() - 1) as nat,
                pairs.last().implementation,
            ),
        ).push(header_file(pairs.last()))
    }
}

/// The placeholder files with the counters from `from` up to, not including,
/// `floor`, in rising order. There is none if `from` has reached `floor`.
pub open spec fn padding_files(
    pattern: Seq<char>,
    extension: Seq<char>,
    from: nat,
    floor: nat,
) -> Seq<FileModel>
    decreases floor,
{
    if floor <= from {
        Seq::empty()
    } else {
        padding_files(pattern, extension, from, (floor - 1) as nat).push(
            blank_cpp_file(pattern, extension, (floor - 1) as nat),
        )
    }
}

/// Names an implementation file by its counter and gives it its content.
pub fn write_cpp_file(pattern: &str, cpp: &str, counter: usize, content: &[u8]) -> (file:
    OutputFile)
    ensures
        file@ == implementation_file(pattern@, cpp@, counter as nat, content@),
{
    OutputFile { name: cpp_file_name(pattern, cpp, counter), content: slice_to_vec(content) }
}

/// The placeholder file with the given counter.
pub fn blank_cpp(pattern: &str, cpp: &str, counter: usize) -> (file: OutputFile)
    ensures
        file@ == blank_cpp_file(pattern@, cpp@, counter as nat),
{
    write_cpp_file(pattern, cpp, counter, "// Blank C++ file generated by autocxx".as_bytes())
}

/// The one file of an expansion: the expanded source text under its fixed name.
pub fn expanded_source_file(text: &str) -> (file: OutputFile)
    ensures
        file@ == expanded_source(text@),
{
    OutputFile { name: String::from_str("gen.rs"), content: slice_to_vec(text.as_bytes()) }
}

/// The files of the pairs of one binding block, the first of which gets the
/// counter `counter`.
pub fn pair_outputs(pattern: &str, cpp: &str, counter: usize, pairs: Vec<GenerationPair>) -> (files:
    Vec<OutputFile>)
    requires
        counter + pairs.len() <= usize::MAX,
    ensures
        file_models(files@) == pair_files(pattern@, cpp@, counter as nat, pair_models(pairs@)),
{
    let mut files: Vec<OutputFile> = Vec::new();
    let mut next: usize = counter;
    let ghost all = pair_models(pairs@);
    for pair in it: pairs
        invariant
            next == counter + it.index(),
            counter + it.seq().len() <= usize::MAX,
            it.seq().len() == all.len(),
            pair_models(it.seq()) == all,
            file_models(files@) == pair_files(
                pattern@,
                cpp@,
                counter as nat,
                all.take(it.index() as int),
            ),
    {
        let ghost done = files@;
        let ghost upto = all.take(it.index() + 1);
        proof {
            assert(upto.drop_last() =~= all.take(it.index() as int));
            assert(upto.last() == pair@);
        }
        let implementation = write_cpp_file(pattern, cpp, next, pair.implementation.as_slice());
        let header = OutputFile { name: pair.header_name, content: pair.header };
        files.push(implementation);
        files.push(header);
        next = next + 1;
        proof {
            assert(file_models(files@) =~= file_models(done).push(implementation@).push(header@));
        }
    }
    proof {
        assert(all.take(all.len() as int) =~= all);
    }
    files
}

/// The placeholder files that bring the number of implementation files from
/// `counter` up to `floor`. Where `counter` has reached `floor` there is none.
pub fn padding_outputs(pattern: &str, cpp: &str, counter: usize, floor: usize) -> (files: Vec<
    OutputFile,
>)
    ensures
        file_models(files@) == padding_files(pattern@, cpp@, counter as nat, floor as nat),
{
    let mut files: Vec<OutputFile> = Vec::new();
    let mut next: usize = counter;
    while next < floor
        invariant
            counter <= next,
            next <= floor || next == counter,
            file_models(files@) == padding_files(pattern@, cpp@, counter as nat, next as nat),
        decreases floor - next,
    {
        let ghost done = files@;
        let blank = blank_cpp(pattern, cpp, next);
        files.push(blank);
        next = next + 1;
        proof {
            assert(file_models(files@) =~= file_models(done).push(blank@));
        }
    }
    files
}

} // verus!
