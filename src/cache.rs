use vstd::prelude::*;
use vstd::string::*;

verus! {

/// A download is needed when it is forced or when any expected file is absent.
pub open spec fn needs_download(force: bool, present: Seq<bool>) -> bool {
    force || exists|i: int| 0 <= i < present.len() && !present[i]
}

/// `name` placed under the directory `base`, with one `/` between them.
pub open spec fn join_path(base: Seq<char>, name: Seq<char>) -> Seq<char> {
    if base.len() == 0 {
        name
    } else if base.last() == '/' {
        base + name
    } else {
        base + seq!['/'] + name
    }
}

/// A forced download is always needed, whatever files are present; without
/// force, one absent file is enough, even when all the others are present.
pub proof fn lemma_force_or_missing(force: bool, present: Seq<bool>, missing: int)
    ensures
        needs_download(true, present),
        0 <= missing < present.len() && !present[missing] ==> needs_download(force, present),
{
}

/// Decides whether a dataset must be (re)downloaded: `present[i]` tells whether
/// the `i`-th expected file exists as a regular file. Existence is all that is
/// looked at, not size or content.
pub fn needs_redownload(force: bool, present: &Vec<bool>) -> (r: bool)
    ensures
        r == needs_download(force, present@),
{
    if force {
        return true;
    }
    let mut i: usize = 0;
    while i < present.len()
        invariant
            i <= present@.len(),
            forall|j: int| 0 <= j < i ==> present@[j],
        decreases present@.len() - i,
    {
        if !present[i] {
            return true;
        }
        i = i + 1;
    }
    false
}

/// The path of `name` under the directory `base`.
pub fn join(base: &str, name: &str) -> (r: String)
    ensures
        r@ == join_path(base@, name@),
{
    let n: usize = base.unicode_len();
    if n == 0 {
        return String::from_str(name);
    }
    let mut path = String::from_str(base);
    if base.get_char(n - 1) != '/' {
        path.append("/");
        proof {
            reveal_strlit("/");
        }
    }
    path.append(name);
    proof {
        if base@.last() != '/' {
            assert(path@ =~= base@ + seq!['/'] + name@);
        }
    }
    path
}

} // verus!
