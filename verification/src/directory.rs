use vstd::prelude::*;

verus! {

use crate::text::joined_path;
use crate::text::join_path;
use crate::text::padded2;
use crate::text::padded2_string;
use crate::tv::TVOptions;

/// The directory a batch writes its output files into.
pub struct OutputDir(pub String);

/// The name of the output directory under a base path: the season's
/// directory in TV mode, a `newfiles` directory otherwise.
pub open spec fn output_dir_name(tv_options: Option<TVOptions>) -> Seq<char> {
    match tv_options {
        Some(tv) => "Season "@ + padded2(tv.season as int),
        None => "newfiles"@,
    }
}

impl OutputDir {
    /// Where a run's output files go, under the given base path. Creating
    /// the directory on disk is the surrounding program's concern.
    pub fn new(path: &str, tv_options: &Option<TVOptions>) -> (r: OutputDir)
        ensures
            r.0@ == joined_path(path@, output_dir_name(*tv_options)),
    {
        let child = match tv_options {
            Some(tv) => {
                let mut c = String::from_str("Season ");
                c.append(padded2_string(tv.season).as_str());
                c
            },
            None => String::from_str("newfiles"),
        };
        OutputDir(join_path(path, child.as_str()))
    }
}

} // verus!
