//! The output directory as the writer leaves it.

use crate::output::{FileModel, PairModel};
use crate::plan::gen_cpp_files;
use vstd::prelude::*;

verus! {

/// The directory after the files were written into it, one after the other:
/// each file stands under its name with its content, in place of whatever
/// stood under that name before.
pub open spec fn write_all(dir: Map<Seq<char>, Seq<u8>>, files: Seq<FileModel>) -> Map<
    Seq<char>,
    Seq<u8>,
>
    decreases files.len(),
{
    if files.len() == 0 {
        dir
    } else {
        write_all(dir, files.drop_last()).insert(files.last().name, files.last().content)
    }
}

/// The content of the last of the files that has the given name, if any has.
pub open spec fn last_content(files: Seq<FileModel>, name: Seq<char>) -> Option<Seq<u8>>
    decreases files.len(),
{
    if files.len() == 0 {
        None
    } else if files.last().name == name {
        Some(files.last().content)
    } else {
        last_content(files.drop_last(), name)
    }
}

/// After writing, a name holds what the last file of that name held, and a
/// name that no file has holds what it held before, if anything.
pub proof fn lemma_write_all_lookup(
    dir: Map<Seq<char>, Seq<u8>>,
    files: Seq<FileModel>,
    name: Seq<char>,
)
    ensures
        ({
            let after = write_all(dir, files);
            let last = last_content(files, name);
            &&& after.dom().contains(name) <==> dir.dom().contains(name) || last is Some
            &&& last matches Some(content) ==> after[name] == content
            &&& last is None && dir.dom().contains(name) ==> after[name] == dir[name]
        }),
    decreases files.len(),
{
    if files.len() > 0 {
        lemma_write_all_lookup(dir, files.drop_last(), name);
    }
}

/// Writing the same files a second time changes nothing.
pub proof fn lemma_rewrite_changes_nothing(dir: Map<Seq<char>, Seq<u8>>, files: Seq<FileModel>)
    ensures
        write_all(write_all(dir, files), files) == write_all(dir, files),
{
    let once = write_all(dir, files);
    let twice = write_all(once, files);
    assert forall|name: Seq<char>| twice.dom().contains(name) <==> once.dom().contains(name) by {
        lemma_write_all_lookup(dir, files, name);
        lemma_write_all_lookup(once, files, name);
    }
    assert forall|name: Seq<char>| twice.dom().contains(name) implies twice[name] == once[name] by {
        lemma_write_all_lookup(dir, files, name);
        lemma_write_all_lookup(once, files, name);
    }
    assert(twice =~= once);
}

/// Generating the C++ side twice from the same input, into the same
/// directory, leaves the directory as generating it once does: the second run
/// writes the same bytes under the same names.
pub proof fn lemma_gen_cpp_rerun(
    dir: Map<Seq<char>, Seq<u8>>,
    pattern: Seq<char>,
    extension: Seq<char>,
    blocks: Seq<Seq<PairModel>>,
    floor: Option<nat>,
)
    ensures
        ({
            let files = gen_cpp_files(pattern, extension, blocks, floor);
            write_all(write_all(dir, files), files) == write_all(dir, files)
        }),
{
    lemma_rewrite_changes_nothing(dir, gen_cpp_files(pattern, extension, blocks, floor));
}

} // verus!
