//! Conversions with ffmpeg: file names, arguments, and the outcome.
use vstd::prelude::*;
use crate::error::Error;
use crate::number::{decimal, push_decimal};
use crate::random::random_u64;
use crate::text::push_str;

verus! {

/// The type of file a conversion makes.
#[derive(Clone, Copy)]
pub enum Target {
    Mp3,
    Jpeg,
}

pub open spec fn extension(t: Target) -> Seq<char> {
    match t {
        Target::Mp3 => ".mp3"@,
        Target::Jpeg => ".jpeg"@,
    }
}

/// The input and output files of a conversion, named by a random number:
/// the input is the number, the output adds the extension.
pub fn conversion_files(r: u64, t: Target) -> (res: (String, String))
    ensures
        res.0@ == decimal(r as nat),
        res.1@ == decimal(r as nat) + extension(t),
{
    let input = crate::number::fmt_u64(r);
    let mut output = String::new();
    push_decimal(&mut output, r);
    match t {
        Target::Mp3 => push_str(&mut output, ".mp3"),
        Target::Jpeg => push_str(&mut output, ".jpeg"),
    }
    proof {
        assert(Seq::<char>::empty() + decimal(r as nat) =~= decimal(r as nat));
    }
    (input, output)
}

/// The arguments given to ffmpeg.
pub open spec fn ffmpeg_args_spec(input: Seq<char>, output: Seq<char>, t: Target) -> Seq<Seq<char>> {
    match t {
        Target::Mp3 => seq!["-i"@, input, output],
        Target::Jpeg => seq!["-i"@, input, output, "-vf"@, "scale=min(320,iw):min(320,ih)"@],
    }
}

pub fn ffmpeg_args(input: &str, output: &str, t: Target) -> (res: Vec<String>)
    ensures
        res@.map_values(|s: String| s@) == ffmpeg_args_spec(input@, output@, t),
{
    let mut v: Vec<String> = Vec::new();
    v.push(String::from_str("-i"));
    v.push(String::from_str(input));
    v.push(String::from_str(output));
    match t {
        Target::Mp3 => {},
        Target::Jpeg => {
            v.push(String::from_str("-vf"));
            v.push(String::from_str("scale=min(320,iw):min(320,ih)"));
        },
    }
    proof {
        assert(v@.map_values(|s: String| s@) =~= ffmpeg_args_spec(input@, output@, t));
    }
    v
}

/// The outcome of a conversion: the output file where ffmpeg succeeded,
/// `Ffmpeg` otherwise.
pub fn conversion_outcome(success: bool, output: String) -> (res: Result<String, Error>)
    ensures
        success ==> res == Ok::<String, Error>(output),
        !success ==> res == Err::<String, Error>(Error::Ffmpeg),
{
    if success {
        Ok(output)
    } else {
        Err(Error::Ffmpeg)
    }
}

/// The files of a new conversion, named by a random number.
pub fn new_conversion_files(t: Target) -> (res: (String, String))
    ensures
        exists|r: u64| res.0@ == #[trigger] decimal(r as nat) && res.1@ == decimal(r as nat) + extension(t),
{
    conversion_files(random_u64(), t)
}

} // verus!
