//! Metadata tagging support. The external tagging tool is a best-effort
//! collaborator run by the surrounding application; the library fixes the
//! argument list it is invoked with. The tool's absence and its failure are
//! treated identically: skip, warn, continue.

use vstd::prelude::*;
use crate::text::str_models;

verus! {

/// One tagging request: the downloaded file, the podcast name used as album
/// and artist, the episode title, and the cover art path if one is at hand.
pub struct TagJob {
    pub file_path: String,
    pub album: String,
    pub title: String,
    pub cover_art: Option<String>,
}

/// The argument list the tagging tool is invoked with for a job.
pub open spec fn spec_tag_args(job: TagJob) -> Seq<Seq<char>> {
    seq![
        "set"@,
        "-f"@,
        job.file_path@,
        "--album"@,
        job.album@,
        "--artist"@,
        job.album@,
        "--title"@,
        job.title@,
    ] + (match job.cover_art {
        Some(c) => seq!["-c"@, c@],
        None => Seq::empty(),
    })
}

/// Builds the argument list for the tagging tool: the file, the podcast
/// name as album and artist, the episode title, and the cover art where
/// available.
pub fn audio_metadata_args(job: &TagJob) -> (r: Vec<String>)
    ensures
        str_models(r@) == spec_tag_args(*job),
{
    let mut args: Vec<String> = Vec::new();
    args.push("set".to_owned());
    args.push("-f".to_owned());
    args.push(job.file_path.clone());
    args.push("--album".to_owned());
    args.push(job.album.clone());
    args.push("--artist".to_owned());
    args.push(job.album.clone());
    args.push("--title".to_owned());
    args.push(job.title.clone());
    match &job.cover_art {
        Some(c) => {
            args.push("-c".to_owned());
            args.push(c.clone());
        },
        None => {},
    }
    proof {
        assert(str_models(args@) =~= spec_tag_args(*job));
    }
    args
}

} // verus!
