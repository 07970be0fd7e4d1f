//! Names of the generated implementation files.

use crate::decimal::{decimal, decimal_string, lemma_decimal_injective};
use vstd::prelude::*;

verus! {

/// The name of the implementation file with the given counter: the pattern,
/// the counter in decimal, a dot and the extension.
pub open spec fn cpp_name(pattern: Seq<char>, extension: Seq<char>, counter: nat) -> Seq<char> {
    pattern + decimal(counter) + seq!['.'] + extension
}

/// Computes the name of the implementation file with the given counter.
pub fn cpp_file_name(pattern: &str, extension: &str, counter: usize) -> (name: String)
    ensures
        name@ == cpp_name(pattern@, extension@, counter as nat),
{
    let number = decimal_string(counter);
    let mut name = String::from_str(pattern);
    name.append(number.as_str());
    name.append(".");
    name.append(extension);
    proof {
        reveal_strlit(".");
        assert("."@ =~= seq!['.']);
    }
    name
}

/// For one pattern and one extension, different counters give different names.
pub proof fn lemma_cpp_name_injective(pattern: Seq<char>, extension: Seq<char>, i: nat, j: nat)
    requires
        i != j,
    ensures
        cpp_name(pattern, extension, i) != cpp_name(pattern, extension, j),
{
    let a = cpp_name(pattern, extension, i);
    let b = cpp_name(pattern, extension, j);
    if a == b {
        let p = pattern.len() as int;
        assert(a.len() == p + decimal(i).len() + 1 + extension.len());
        assert(b.len() == p + decimal(j).len() + 1 + extension.len());
        let n = decimal(i).len() as int;
        assert(a.subrange(p, p + n) =~= decimal(i));
        assert(b.subrange(p, p + n) =~= decimal(j));
        lemma_decimal_injective(i, j);
    }
}

} // verus!
