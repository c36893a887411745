use vstd::prelude::*;

use crate::cache::{join, join_path};

verus! {

/// Scratch directory of a dataset: `tmp/<dset_name>`.
pub fn get_tmp_dir(dset_name: &str) -> (r: String)
    ensures
        r@ == join_path("tmp"@, dset_name@),
{
    join("tmp", dset_name)
}

} // verus!
