//! The files of a whole run, and what is true of them.

use crate::output::{
    blank_cpp_file, expanded_source, file_models, header_file, implementation_file, pair_files,
    pair_models, pair_outputs, padding_files, padding_outputs, FileModel, GenerationPair,
    OutputFile, PairModel,
};
use vstd::prelude::*;

verus! {

/// The pairs of all blocks in one row: block after block, each block's pairs
/// in their own order.
pub open spec fn all_pairs(blocks: Seq<Seq<PairModel>>) -> Seq<PairModel>
    decreases blocks.len(),
{
    if blocks.len() == 0 {
        Seq::empty()
    } else {
        all_pairs(blocks.drop_last()) + blocks.last()
    }
}

/// The models of a list of blocks, in order.
pub open spec fn block_models(blocks: Seq<Vec<GenerationPair>>) -> Seq<Seq<PairModel>> {
    Seq::new(blocks.len(), |i: int| pair_models(blocks[i]@))
}

/// A requested number of implementation files, as a number.
pub open spec fn floor_model(generate_exact: Option<usize>) -> Option<nat> {
    match generate_exact {
        Some(n) => Some(n as nat),
        None => None,
    }
}

/// The placeholder files of a run that has produced `produced` pairs.
pub open spec fn padding_after(
    pattern: Seq<char>,
    extension: Seq<char>,
    produced: nat,
    floor: Option<nat>,
) -> Seq<FileModel> {
    match floor {
        Some(n) => padding_files(pattern, extension, produced, n),
        None => Seq::empty(),
    }
}

/// Every file that generating the C++ side writes, in the order of writing:
/// the files of all pairs, counted from zero through all blocks, and after
/// them the placeholder files that a requested number asks for.
pub open spec fn gen_cpp_files(
    pattern: Seq<char>,
    extension: Seq<char>,
    blocks: Seq<Seq<PairModel>>,
    floor: Option<nat>,
) -> Seq<FileModel> {
    pair_files(pattern, extension, 0, all_pairs(blocks)) + padding_after(
        pattern,
        extension,
        all_pairs(blocks).len(),
        floor,
    )
}

/// Every file that expanding the source writes: the one file with the text.
pub open spec fn gen_rs_files(text: Seq<char>) -> Seq<FileModel> {
    seq![expanded_source(text)]
}

/// The number of implementation files of a run with `produced` pairs.
pub open spec fn implementation_count(produced: nat, floor: Option<nat>) -> nat {
    match floor {
        Some(n) => if n > produced {
            n
        } else {
            produced
        },
        None => produced,
    }
}

/// The pairs of the first blocks are no more than the pairs of all.
pub proof fn lemma_all_pairs_prefix(blocks: Seq<Seq<PairModel>>, k: int)
    requires
        0 <= k <= blocks.len(),
    ensures
        all_pairs(blocks.take(k)).len() <= all_pairs(blocks).len(),
    decreases blocks.len(),
{
    if k == blocks.len() {
        assert(blocks.take(k) =~= blocks);
    } else {
        assert(blocks.drop_last().take(k) =~= blocks.take(k));
        lemma_all_pairs_prefix(blocks.drop_last(), k);
    }
}

/// The files of two runs of pairs, one after the other, are the files of the
/// first followed by the files of the second, counted on from the first.
pub proof fn lemma_pair_files_concat(
    pattern: Seq<char>,
    extension: Seq<char>,
    start: nat,
    a: Seq<PairModel>,
    b: Seq<PairModel>,
)
    ensures
        pair_files(pattern, extension, start, a + b) == pair_files(pattern, extension, start, a)
            + pair_files(pattern, extension, start + a.len(), b),
    decreases b.len(),
{
    if b.len() == 0 {
        assert(a + b =~= a);
        assert(pair_files(pattern, extension, start, a) + Seq::<FileModel>::empty() =~= pair_files(
            pattern,
            extension,
            start,
            a,
        ));
    } else {
        lemma_pair_files_concat(pattern, extension, start, a, b.drop_last());
        assert((a + b).drop_last() =~= a + b.drop_last());
        assert((a + b).last() == b.last());
        let head = pair_files(pattern, extension, start, a);
        let mid = pair_files(pattern, extension, start + a.len(), b.drop_last());
        let code = implementation_file(
            pattern,
            extension,
            (start + a.len() + b.len() - 1) as nat,
            b.last().implementation,
        );
        assert((head + mid).push(code).push(header_file(b.last())) =~= head + mid.push(code).push(
            header_file(b.last()),
        ));
    }
}

/// Where the files of a run of pairs stand: pair `i` has its implementation
/// file, named by the counter `start + i`, at `2 * i` and its header file
/// right after it.
pub proof fn lemma_pair_files_layout(
    pattern: Seq<char>,
    extension: Seq<char>,
    start: nat,
    pairs: Seq<PairModel>,
)
    ensures
        pair_files(pattern, extension, start, pairs).len() == 2 * pairs.len(),
        forall|i: int|
            0 <= i < pairs.len() ==> {
                &&& pair_files(pattern, extension, start, pairs)[2 * i] == implementation_file(
                    pattern,
                    extension,
                    (start + i) as nat,
                    (#[trigger] pairs[i]).implementation,
                )
                &&& pair_files(pattern, extension, start, pairs)[2 * i + 1] == header_file(pairs[i])
            },
    decreases pairs.len(),
{
    if pairs.len() > 0 {
        let front = pairs.drop_last();
        lemma_pair_files_layout(pattern, extension, start, front);
        let files = pair_files(pattern, extension, start, pairs);
        let before = pair_files(pattern, extension, start, front);
        assert forall|i: int| 0 <= i < pairs.len() implies {
            &&& files[2 * i] == implementation_file(
                pattern,
                extension,
                (start + i) as nat,
                (#[trigger] pairs[i]).implementation,
            )
            &&& files[2 * i + 1] == header_file(pairs[i])
        } by {
            if i < front.len() {
                assert(front[i] == pairs[i]);
                assert(files[2 * i] == before[2 * i]);
                assert(files[2 * i + 1] == before[2 * i + 1]);
            }
        }
    }
}

/// Where the placeholder files stand: the one at `j` has the counter
/// `from + j`, and there are `floor - from` of them, or none.
pub proof fn lemma_padding_files_layout(
    pattern: Seq<char>,
    extension: Seq<char>,
    from: nat,
    floor: nat,
)
    ensures
        padding_files(pattern, extension, from, floor).len() == if floor > from {
            floor - from
        } else {
            0
        },
        forall|j: int|
            0 <= j < floor - from ==> (#[trigger] padding_files(pattern, extension, from, floor)[j])
                == blank_cpp_file(pattern, extension, (from + j) as nat),
    decreases floor,
{
    if floor > from {
        lemma_padding_files_layout(pattern, extension, from, (floor - 1) as nat);
        let files = padding_files(pattern, extension, from, floor);
        let before = padding_files(pattern, extension, from, (floor - 1) as nat);
        assert forall|j: int| 0 <= j < floor - from implies (#[trigger] files[j]) == blank_cpp_file(
            pattern,
            extension,
            (from + j) as nat,
        ) by {
            if j < floor - from - 1 {
                assert(files[j] == before[j]);
            }
        }
    }
}

/// What a run that generates the C++ side writes. With `k` pairs in all, the
/// implementation files carry the counters from zero on without a gap. The
/// first `k` of them hold the pairs' implementations, each followed by the
/// pair's header under the generator's name for it. Where a number `n` above
/// `k` was requested, `n - k` placeholder files follow, with the counters `k`
/// to `n - 1` and no header. Where none was requested, or one not above `k`,
/// the `k` pairs are all that is written.
pub proof fn lemma_gen_cpp_layout(
    pattern: Seq<char>,
    extension: Seq<char>,
    blocks: Seq<Seq<PairModel>>,
    floor: Option<nat>,
)
    ensures
        ({
            let pairs = all_pairs(blocks);
            let k = pairs.len();
            let files = gen_cpp_files(pattern, extension, blocks, floor);
            let total = implementation_count(k, floor);
            &&& files.len() == k + total
            &&& forall|i: int|
                0 <= i < k ==> {
                    &&& files[2 * i] == implementation_file(
                        pattern,
                        extension,
                        i as nat,
                        (#[trigger] pairs[i]).implementation,
                    )
                    &&& files[2 * i + 1] == header_file(pairs[i])
                }
            &&& forall|i: int|
                k <= i < total ==> files[k + i] == #[trigger] blank_cpp_file(
                    pattern,
                    extension,
                    i as nat,
                )
        }),
{
    let pairs = all_pairs(blocks);
    let k = pairs.len();
    let files = gen_cpp_files(pattern, extension, blocks, floor);
    let total = implementation_count(k, floor);
    let paired = pair_files(pattern, extension, 0, pairs);
    let blank = padding_after(pattern, extension, k, floor);
    lemma_pair_files_layout(pattern, extension, 0, pairs);
    match floor {
        Some(n) => {
            lemma_padding_files_layout(pattern, extension, k, n);
        },
        None => {},
    }
    assert forall|i: int| 0 <= i < k implies {
        &&& files[2 * i] == implementation_file(
            pattern,
            extension,
            i as nat,
            (#[trigger] pairs[i]).implementation,
        )
        &&& files[2 * i + 1] == header_file(pairs[i])
    } by {
        assert(files[2 * i] == paired[2 * i]);
        assert(files[2 * i + 1] == paired[2 * i + 1]);
    }
    assert forall|i: int| k <= i < total implies files[k + i] == #[trigger] blank_cpp_file(
        pattern,
        extension,
        i as nat,
    ) by {
        assert(files[k + i] == blank[i - k]);
    }
}

/// The files of a whole run that generates the C++ side, from the pairs that
/// each binding block gave and the number of implementation files asked for.
/// There is no answer where the pairs are more than the machine's word counts.
pub fn gen_cpp_outputs(
    pattern: &str,
    cpp: &str,
    blocks: Vec<Vec<GenerationPair>>,
    generate_exact: Option<usize>,
) -> (outputs: Option<Vec<OutputFile>>)
    ensures
        match outputs {
            Some(files) => {
                &&& all_pairs(block_models(blocks@)).len() <= usize::MAX
                &&& file_models(files@) == gen_cpp_files(
                    pattern@,
                    cpp@,
                    block_models(blocks@),
                    floor_model(generate_exact),
                )
            },
            None => all_pairs(block_models(blocks@)).len() > usize::MAX,
        },
{
    let mut files: Vec<OutputFile> = Vec::new();
    let mut counter: usize = 0;
    let ghost all = block_models(blocks@);
    for block in it: blocks
        invariant
            it.seq().len() == all.len(),
            block_models(it.seq()) == all,
            counter == all_pairs(all.take(it.index() as int)).len(),
            file_models(files@) == pair_files(
                pattern@,
                cpp@,
                0,
                all_pairs(all.take(it.index() as int)),
            ),
    {
        let ghost done = files@;
        let ghost before = all.take(it.index() as int);
        let ghost upto = all.take(it.index() + 1);
        proof {
            assert(upto.drop_last() =~= before);
            assert(upto.last() == pair_models(block@));
            lemma_all_pairs_prefix(all, it.index() + 1);
            lemma_pair_files_concat(pattern@, cpp@, 0, all_pairs(before), pair_models(block@));
        }
        let reached = match counter.checked_add(block.len()) {
            Some(reached) => reached,
            None => {
                return None;
            },
        };
        let mut part = pair_outputs(pattern, cpp, counter, block);
        let ghost added = part@;
        files.append(&mut part);
        counter = reached;
        proof {
            assert(file_models(files@) =~= file_models(done) + file_models(added));
        }
    }
    proof {
        assert(all.take(all.len() as int) =~= all);
    }
    match generate_exact {
        Some(floor) => {
            let ghost done = files@;
            let mut blank = padding_outputs(pattern, cpp, counter, floor);
            let ghost added = blank@;
            files.append(&mut blank);
            proof {
                assert(file_models(files@) =~= file_models(done) + file_models(added));
            }
        },
        None => {
            proof {
                assert(file_models(files@) + Seq::<FileModel>::empty() =~= file_models(files@));
            }
        },
    }
    Some(files)
}

} // verus!
