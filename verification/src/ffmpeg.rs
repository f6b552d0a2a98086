//! The external encoder invocation, as data.
//!
//! The batch encoding strategy writes each frame to a numbered file in a
//! scratch directory and invokes the external encoder once over the whole
//! directory. Everything the invocation depends on — file names, the input
//! pattern, the argument list, the reading of the exit status — is computed
//! here; only spawning the process is the host's.

use vstd::prelude::*;

verus! {

use crate::errors::EncodeError;
use crate::scripts::{spec_decimal, u32_to_decimal};

/// The view of each string of a sequence.
pub open spec fn string_views(strings: Seq<String>) -> Seq<Seq<char>> {
    strings.map_values(|s: String| s@)
}

/// The scratch file name of frame `index`.
pub open spec fn spec_frame_file_name(index: int) -> Seq<char> {
    "frame-"@ + spec_decimal(index) + ".png"@
}

/// See [`spec_frame_file_name`].
pub fn frame_file_name(index: u32) -> (r: String)
    ensures
        r@ == spec_frame_file_name(index as int),
{
    let mut s = "frame-".to_owned();
    let digits = u32_to_decimal(index);
    s.append(digits.as_str());
    s.append(".png");
    s
}

/// The input pattern matching every scratch frame file under `dir`.
pub open spec fn spec_frame_pattern(dir: Seq<char>) -> Seq<char> {
    dir + "/frame-%d.png"@
}

/// See [`spec_frame_pattern`].
pub fn frame_pattern(dir: &str) -> (r: String)
    ensures
        r@ == spec_frame_pattern(dir@),
{
    let mut s = dir.to_owned();
    s.append("/frame-%d.png");
    s
}

/// The argument list of one encoder invocation: read the numbered frames at
/// the composition's frame rate, encode them, and write the artifact. The
/// output frame rate is exactly the composition's.
pub open spec fn spec_encode_args(fps: int, pattern: Seq<char>, output: Seq<char>) -> Seq<
    Seq<char>,
> {
    seq![
        "-framerate"@,
        spec_decimal(fps),
        "-i"@,
        pattern,
        "-c:v"@,
        "libx264"@,
        "-r"@,
        spec_decimal(fps),
        "-pix_fmt"@,
        "yuv420p"@,
        output,
    ]
}

/// See [`spec_encode_args`].
pub fn encode_args(fps: u32, pattern: &str, output: &str) -> (r: Vec<String>)
    ensures
        string_views(r@) == spec_encode_args(fps as int, pattern@, output@),
{
    let mut args: Vec<String> = Vec::new();
    args.push("-framerate".to_owned());
    args.push(u32_to_decimal(fps));
    args.push("-i".to_owned());
    args.push(pattern.to_owned());
    args.push("-c:v".to_owned());
    args.push("libx264".to_owned());
    args.push("-r".to_owned());
    args.push(u32_to_decimal(fps));
    args.push("-pix_fmt".to_owned());
    args.push("yuv420p".to_owned());
    args.push(output.to_owned());
    proof {
        assert(string_views(args@) =~= spec_encode_args(fps as int, pattern@, output@));
    }
    args
}

/// Reads the external encoder's exit into the pipeline's result: a zero
/// exit status yields the artifact path, any other exit is a tool failure
/// carrying the process's error output.
pub fn encode_exit_result(output: &str, exit_ok: bool, stderr: String) -> (r: Result<
    String,
    EncodeError,
>)
    ensures
        match r {
            Ok(path) => exit_ok && path@ == output@,
            Err(e) => !exit_ok && (e matches EncodeError::ToolFailure { stderr: s }
                && s@ == stderr@),
        },
{
    if exit_ok {
        Ok(output.to_owned())
    } else {
        Err(EncodeError::ToolFailure { stderr })
    }
}

} // verus!
