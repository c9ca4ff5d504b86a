use vstd::prelude::*;

verus! {

use crate::text::extension_of;
use crate::text::find_last_dot;
use crate::text::last_dot_index;
use crate::text::padded2;
use crate::text::padded2_string;
use crate::text::replace_all;
use crate::text::replace_all_str;
use crate::tv::TVOptions;

/// Why a command could not be generated.
#[derive(Debug, PartialEq, Eq, Structural)]
pub enum CommandError {
    FileExists,
}

/// Whether a command may write its output file: an existing file is refused
/// unless overwriting is enabled, and a simulated run never refuses. The
/// caller checks the file system and reports whether the output exists.
pub fn check_output_path(output_exists: bool, overwrite: bool, simulate: bool) -> (r: Result<
    (),
    CommandError,
>)
    ensures
        r is Err <==> (!simulate && output_exists && !overwrite),
        r matches Err(e) ==> e == CommandError::FileExists,
{
    if !simulate && output_exists && !overwrite {
        Err(CommandError::FileExists)
    } else {
        Ok(())
    }
}

/// The output file name for a TV-mode run: the title, then the season and
/// episode zero-padded to two digits, in a Matroska container.
pub open spec fn tv_output_name(title: Seq<char>, season: u32, episode: u32) -> Seq<char> {
    title + " - s"@ + padded2(season as int) + "e"@ + padded2(episode as int) + ".mkv"@
}

/// The output file name for one input file. In TV mode it is built from the
/// show options alone; otherwise every occurrence of the input's extension
/// in its name is rewritten to the Matroska one.
pub fn generate_output_filename(input_filename: &str, tv_options: &Option<TVOptions>) -> (r:
    String)
    requires
        tv_options is None ==> (extension_of(input_filename@) matches Some(e) && e.len() > 0),
    ensures
        tv_options matches Some(tv) ==> r@ == tv_output_name(tv.title@, tv.season, tv.episode),
        tv_options is None ==> r@ == replace_all(
            input_filename@,
            extension_of(input_filename@)->Some_0,
            "mkv"@,
        ),
{
    match tv_options {
        Some(tv) => {
            let mut r = tv.title.clone();
            r.append(" - s");
            r.append(padded2_string(tv.season).as_str());
            r.append("e");
            r.append(padded2_string(tv.episode).as_str());
            r.append(".mkv");
            proof {
                assert(r@ =~= tv_output_name(tv.title@, tv.season, tv.episode));
            }
            r
        },
        None => {
            let n = input_filename.unicode_len();
            let dot = match find_last_dot(input_filename) {
                Some(d) => d,
                None => 0,
            };
            proof {
                assert(dot == last_dot_index(input_filename@));
                assert(input_filename@.skip(dot + 1) =~= input_filename@.subrange(
                    dot + 1,
                    input_filename@.len() as int,
                ));
            }
            let ext = input_filename.substring_char(dot + 1, n);
            replace_all_str(input_filename, ext, "mkv")
        },
    }
}

} // verus!
