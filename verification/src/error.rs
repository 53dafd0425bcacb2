//! The errors that the bot's commands report.
use vstd::prelude::*;
use serde_json::Error as JsonError;
use std::io::Error as IoError;
use crate::number::IntErrorKind;
use crate::text::push_str;

verus! {

/// The error type of the `hentai` crate.
#[verifier::external_type_specification]
#[verifier::external_body]
pub struct ExHentaiError(hentai::HentaiError);

/// Why a command could not be answered.
pub enum Error {
    Shorts,
    YtDownload,
    YtAudio,
    Xkcd,
    Ffmpeg,
    Hentai(hentai::HentaiError),
    Json,
    Generic,
    Reddit,
    Jewtube,
    /// The error of `serde_json`, passed on as it is.
    Serde(JsonError),
    /// A YouTube address in which no video id was found.
    BadIdFormat,
    /// A video id that is not one; the id is given.
    InvalidId(String),
    /// A number that did not read, with the reason std gives.
    ParseInt(IntErrorKind),
}

/// std's text for each reason a number does not read.
pub open spec fn int_error_message(kind: IntErrorKind) -> Seq<char> {
    match kind {
        IntErrorKind::Empty => "cannot parse integer from empty string"@,
        IntErrorKind::InvalidDigit => "invalid digit found in string"@,
        IntErrorKind::PosOverflow => "number too large to fit in target type"@,
    }
}

/// The text of each error that carries no further data.
pub open spec fn plain_message(e: Error) -> Seq<char> {
    match e {
        Error::Shorts => "shorts error"@,
        Error::YtDownload => "yt_download error"@,
        Error::YtAudio => "yt_audio error"@,
        Error::Xkcd => "xkcd error"@,
        Error::Ffmpeg => "ffmpeg error"@,
        Error::Hentai(_) => "hentai error: "@,
        Error::Json => "json error"@,
        Error::Generic => "generic error"@,
        Error::Reddit => "reddit error"@,
        Error::Jewtube => "jewtube error"@,
        Error::Serde(_) => Seq::empty(),
        Error::BadIdFormat => "the provided raw Id does not match any known Id-pattern"@,
        Error::InvalidId(id) => id@,
        Error::ParseInt(kind) => int_error_message(kind),
    }
}

/// `<HentaiError as Display>::fmt`, through `format!`. Nothing is claimed of
/// the text: the crate writes its own `Debug` output, which this library
/// does not model.
#[verifier::external_body]
fn hentai_error_text(e: &hentai::HentaiError) -> String {
    format!("{}", e)
}

/// `std::io::Error`.
#[verifier::external_type_specification]
#[verifier::external_body]
pub struct ExIoError(IoError);

/// The kinds of I/O error that the library makes.
pub enum IoErrorKind {
    Unsupported,
}

/// The error that `std::io::Error::new` makes of a kind and a text.
pub uninterp spec fn std_io_error(kind: IoErrorKind, text: Seq<char>) -> IoError;

/// `std::io::Error::new`, with the kind given by its library name. The
/// value is named by the kind and the text it is made of.
#[verifier::external_body]
fn io_error(kind: IoErrorKind, text: &str) -> (res: IoError)
    ensures
        res == std_io_error(kind, text@),
{
    let kind = match kind {
        IoErrorKind::Unsupported => std::io::ErrorKind::Unsupported,
    };
    std::io::Error::new(kind, text.to_string())
}

/// The `HentaiError` that `From<std::io::Error>` makes of an I/O error (the
/// crate's `IoError` variant).
pub uninterp spec fn hentai_from_io(e: IoError) -> hentai::HentaiError;

/// `From<std::io::Error> for HentaiError`. The value is named by the I/O
/// error it wraps.
#[verifier::external_body]
fn hentai_error_from_io(e: IoError) -> (res: hentai::HentaiError)
    ensures
        res == hentai_from_io(e),
{
    hentai::HentaiError::from(e)
}

/// The error of a doujin without a pretty title: the unsupported I/O error
/// with the text "sus", as a `HentaiError`.
pub open spec fn no_title_error() -> hentai::HentaiError {
    hentai_from_io(std_io_error(IoErrorKind::Unsupported, "sus"@))
}

/// The error of a doujin without a pretty title, as `no_title_error` says.
pub(crate) fn unsupported_hentai_error() -> (res: hentai::HentaiError)
    ensures
        res == no_title_error(),
{
    proof {
        reveal_strlit("sus");
    }
    hentai_error_from_io(io_error(IoErrorKind::Unsupported, "sus"))
}

/// `<JsonError as Display>::fmt`, through `format!`. Nothing is
/// claimed of the text.
#[verifier::external_body]
fn serde_error_text(e: &JsonError) -> String {
    format!("{}", e)
}

impl Error {
    /// The error's text. For `Hentai` it is "hentai error: " followed by the
    /// inner error's own text; for `Serde` it is the inner error's own text.
    pub fn message(&self) -> (res: String)
        ensures
            !(self is Hentai) && !(self is Serde) ==> res@ == plain_message(*self),
            self is Hentai ==> res@.len() >= plain_message(*self).len()
                && res@.take(plain_message(*self).len() as int) == plain_message(*self),
    {
        match self {
            Error::Shorts => String::from_str("shorts error"),
            Error::YtDownload => String::from_str("yt_download error"),
            Error::YtAudio => String::from_str("yt_audio error"),
            Error::Xkcd => String::from_str("xkcd error"),
            Error::Ffmpeg => String::from_str("ffmpeg error"),
            Error::Hentai(e) => {
                let mut s = String::from_str("hentai error: ");
                let inner = hentai_error_text(e);
                push_str(&mut s, inner.as_str());
                proof {
                    assert(s@.take(plain_message(*self).len() as int) =~= plain_message(*self));
                }
                s
            },
            Error::Json => String::from_str("json error"),
            Error::Generic => String::from_str("generic error"),
            Error::Reddit => String::from_str("reddit error"),
            Error::Jewtube => String::from_str("jewtube error"),
            Error::Serde(e) => serde_error_text(e),
            Error::BadIdFormat => String::from_str("the provided raw Id does not match any known Id-pattern"),
            Error::InvalidId(id) => id.clone(),
            Error::ParseInt(kind) => match kind {
                IntErrorKind::Empty => String::from_str("cannot parse integer from empty string"),
                IntErrorKind::InvalidDigit => String::from_str("invalid digit found in string"),
                IntErrorKind::PosOverflow => String::from_str("number too large to fit in target type"),
            },
        }
    }
}

impl From<hentai::HentaiError> for Error {
    fn from(e: hentai::HentaiError) -> (res: Self) {
        Error::Hentai(e)
    }
}

impl vstd::std_specs::convert::FromSpecImpl<hentai::HentaiError> for Error {
    open spec fn obeys_from_spec() -> bool {
        true
    }

    open spec fn from_spec(e: hentai::HentaiError) -> Self {
        Error::Hentai(e)
    }
}

impl From<JsonError> for Error {
    fn from(e: JsonError) -> (res: Self) {
        Error::Serde(e)
    }
}

impl vstd::std_specs::convert::FromSpecImpl<JsonError> for Error {
    open spec fn obeys_from_spec() -> bool {
        true
    }

    open spec fn from_spec(e: JsonError) -> Self {
        Error::Serde(e)
    }
}

} // verus!
