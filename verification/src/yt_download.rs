//! Choosing the stream of a YouTube video to send, and its caption.
use vstd::prelude::*;
use crate::error::Error;
use crate::escape::{escape, escaped};
use crate::number::{decimal, push_decimal};
use crate::text::{push_str, trim, trim_spec};

verus! {

/// A video to send by its address, with its caption.
pub struct Video {
    pub video_url: String,
    pub caption: String,
}

/// The quality labels of YouTube streams, in rustube's order, lowest first.
#[derive(Clone, Copy, Debug, PartialEq, Eq, Structural)]
pub enum QualityLabel {
    P144,
    P144HDR,
    P144Hz60HDR,
    P240,
    P240HDR,
    P240Hz60HDR,
    P360,
    P360HDR,
    P360Hz60,
    P360Hz60HDR,
    P480,
    P480HDR,
    P480Hz60,
    P480Hz60HDR,
    P720,
    P720Hz50,
    P720Hz60,
    P720Hz60HDR,
    P1080,
    P1080Hz50,
    P1080Hz60,
    P1080Hz60HDR,
    P1440,
    P1440Hz60,
    P1440Hz60HDR,
    P2160,
    P2160Hz60,
    P2160Hz60HDR,
    P4320,
    P4320Hz60,
    P4320Hz60HDR,
}

/// The position of a label in that order (144p is 0).
pub open spec fn label_rank(q: QualityLabel) -> u32 {
    match q {
        QualityLabel::P144 => 0,
        QualityLabel::P144HDR => 1,
        QualityLabel::P144Hz60HDR => 2,
        QualityLabel::P240 => 3,
        QualityLabel::P240HDR => 4,
        QualityLabel::P240Hz60HDR => 5,
        QualityLabel::P360 => 6,
        QualityLabel::P360HDR => 7,
        QualityLabel::P360Hz60 => 8,
        QualityLabel::P360Hz60HDR => 9,
        QualityLabel::P480 => 10,
        QualityLabel::P480HDR => 11,
        QualityLabel::P480Hz60 => 12,
        QualityLabel::P480Hz60HDR => 13,
        QualityLabel::P720 => 14,
        QualityLabel::P720Hz50 => 15,
        QualityLabel::P720Hz60 => 16,
        QualityLabel::P720Hz60HDR => 17,
        QualityLabel::P1080 => 18,
        QualityLabel::P1080Hz50 => 19,
        QualityLabel::P1080Hz60 => 20,
        QualityLabel::P1080Hz60HDR => 21,
        QualityLabel::P1440 => 22,
        QualityLabel::P1440Hz60 => 23,
        QualityLabel::P1440Hz60HDR => 24,
        QualityLabel::P2160 => 25,
        QualityLabel::P2160Hz60 => 26,
        QualityLabel::P2160Hz60HDR => 27,
        QualityLabel::P4320 => 28,
        QualityLabel::P4320Hz60 => 29,
        QualityLabel::P4320Hz60HDR => 30,
    }
}

/// The rank of a stream's quality label, as `label_rank` gives it.
pub fn quality_rank(q: QualityLabel) -> (res: u32)
    ensures
        res == label_rank(q),
{
    match q {
        QualityLabel::P144 => 0,
        QualityLabel::P144HDR => 1,
        QualityLabel::P144Hz60HDR => 2,
        QualityLabel::P240 => 3,
        QualityLabel::P240HDR => 4,
        QualityLabel::P240Hz60HDR => 5,
        QualityLabel::P360 => 6,
        QualityLabel::P360HDR => 7,
        QualityLabel::P360Hz60 => 8,
        QualityLabel::P360Hz60HDR => 9,
        QualityLabel::P480 => 10,
        QualityLabel::P480HDR => 11,
        QualityLabel::P480Hz60 => 12,
        QualityLabel::P480Hz60HDR => 13,
        QualityLabel::P720 => 14,
        QualityLabel::P720Hz50 => 15,
        QualityLabel::P720Hz60 => 16,
        QualityLabel::P720Hz60HDR => 17,
        QualityLabel::P1080 => 18,
        QualityLabel::P1080Hz50 => 19,
        QualityLabel::P1080Hz60 => 20,
        QualityLabel::P1080Hz60HDR => 21,
        QualityLabel::P1440 => 22,
        QualityLabel::P1440Hz60 => 23,
        QualityLabel::P1440Hz60HDR => 24,
        QualityLabel::P2160 => 25,
        QualityLabel::P2160Hz60 => 26,
        QualityLabel::P2160Hz60HDR => 27,
        QualityLabel::P4320 => 28,
        QualityLabel::P4320Hz60 => 29,
        QualityLabel::P4320Hz60HDR => 30,
    }
}

/// What the selection reads of one of a video's streams. `quality_rank` is
/// the rank of the stream's quality label (`label_rank`), where the stream
/// has a label.
pub struct StreamInfo {
    pub includes_video_track: bool,
    pub includes_audio_track: bool,
    pub quality_rank: Option<u32>,
    pub url: String,
}

/// The rank of the 480p quality label, `label_rank(QualityLabel::P480)`.
pub const P480_RANK: u32 = 10;

/// A stream that may be sent: video and audio, with a quality below 480p.
pub open spec fn downloadable(s: StreamInfo) -> bool {
    &&& s.includes_video_track
    &&& s.includes_audio_track
    &&& s.quality_rank matches Some(q) && q < P480_RANK
}

pub open spec fn rank_of(s: StreamInfo) -> int {
    match s.quality_rank {
        Some(q) => q as int,
        None => -1,
    }
}

/// `i` is the stream that `max_by_key` on the quality picks among the
/// downloadable ones: the best quality, and the last such stream on a tie.
pub open spec fn is_best_download(streams: Seq<StreamInfo>, i: int) -> bool {
    &&& 0 <= i < streams.len()
    &&& downloadable(streams[i])
    &&& forall|j: int| 0 <= j < streams.len() && downloadable(#[trigger] streams[j]) ==> rank_of(streams[j]) <= rank_of(streams[i])
    &&& forall|j: int| i < j < streams.len() && downloadable(#[trigger] streams[j]) ==> rank_of(streams[j]) < rank_of(streams[i])
}

/// At most one stream is the one to send.
pub proof fn lemma_best_download_unique(streams: Seq<StreamInfo>, i: int, j: int)
    requires
        is_best_download(streams, i),
        is_best_download(streams, j),
    ensures
        i == j,
{
    assert(downloadable(streams[i]) && downloadable(streams[j]));
}

/// The stream that is sent has video and audio and a quality label below
/// 480p; and its quality is at least that of every other such stream.
pub proof fn lemma_sent_stream_below_480p(streams: Seq<StreamInfo>, i: int)
    requires
        is_best_download(streams, i),
    ensures
        streams[i].includes_video_track && streams[i].includes_audio_track,
        streams[i].quality_rank is Some,
        streams[i].quality_rank.unwrap() < label_rank(QualityLabel::P480),
        forall|j: int| #![trigger streams[j]] 0 <= j < streams.len()
            && streams[j].includes_video_track && streams[j].includes_audio_track
            && streams[j].quality_rank is Some && streams[j].quality_rank.unwrap() < label_rank(QualityLabel::P480)
            ==> streams[j].quality_rank.unwrap() <= streams[i].quality_rank.unwrap(),
{
    assert forall|j: int| #![trigger streams[j]] 0 <= j < streams.len()
        && streams[j].includes_video_track && streams[j].includes_audio_track
        && streams[j].quality_rank is Some && streams[j].quality_rank.unwrap() < label_rank(QualityLabel::P480)
        implies streams[j].quality_rank.unwrap() <= streams[i].quality_rank.unwrap() by {
        assert(downloadable(streams[j]));
    }
}

/// Where no stream is picked, no stream has video, audio and a quality
/// label below 480p.
pub proof fn lemma_nothing_sent_only_without_candidates(streams: Seq<StreamInfo>)
    requires
        forall|j: int| 0 <= j < streams.len() ==> !downloadable(#[trigger] streams[j]),
    ensures
        forall|j: int| #![trigger streams[j]] 0 <= j < streams.len() ==> !(streams[j].includes_video_track
            && streams[j].includes_audio_track
            && streams[j].quality_rank is Some && streams[j].quality_rank.unwrap() < label_rank(QualityLabel::P480)),
{
}

fn is_downloadable(s: &StreamInfo) -> (b: bool)
    ensures
        b == downloadable(*s),
{
    s.includes_video_track && s.includes_audio_track && match s.quality_rank {
        Some(q) => q < P480_RANK,
        None => false,
    }
}

/// The stream to send: the downloadable stream of best quality (the last of
/// them on a tie), or `None` where no stream is downloadable.
pub fn select_download_stream(streams: &Vec<StreamInfo>) -> (res: Option<usize>)
    ensures
        res matches Some(i) ==> is_best_download(streams@, i as int),
        res is None ==> forall|j: int| 0 <= j < streams@.len() ==> !downloadable(#[trigger] streams@[j]),
{
    let mut best: Option<usize> = None;
    let mut k: usize = 0;
    while k < streams.len()
        invariant
            k <= streams@.len(),
            best matches Some(b) ==> b < k && downloadable(streams@[b as int])
                && (forall|j: int| 0 <= j < k && downloadable(#[trigger] streams@[j]) ==> rank_of(streams@[j]) <= rank_of(streams@[b as int]))
                && (forall|j: int| b < j < k && downloadable(#[trigger] streams@[j]) ==> rank_of(streams@[j]) < rank_of(streams@[b as int])),
            best is None ==> forall|j: int| 0 <= j < k ==> !downloadable(#[trigger] streams@[j]),
        decreases streams@.len() - k,
    {
        let s = &streams[k];
        if is_downloadable(s) {
            match best {
                None => {
                    best = Some(k);
                },
                Some(b) => {
                    let qb = match streams[b].quality_rank { Some(q) => q, None => 0 };
                    let qs = match s.quality_rank { Some(q) => q, None => 0 };
                    if qs >= qb {
                        best = Some(k);
                    }
                },
            }
        }
        k = k + 1;
    }
    best
}

/// The caption of a sent video: its title in bold, then its view count.
pub open spec fn video_caption_text(title: Seq<char>, view_count: nat) -> Seq<char> {
    "*"@ + escaped(title) + "*\n`View count: "@ + decimal(view_count) + "`"@
}

pub fn video_caption(title: &str, view_count: u64) -> (res: String)
    ensures
        res@ == video_caption_text(title@, view_count as nat),
{
    let mut out = String::from_str("*");
    let t = escape(title);
    push_str(&mut out, t.as_str());
    push_str(&mut out, "*\n`View count: ");
    push_decimal(&mut out, view_count);
    push_str(&mut out, "`");
    out
}

/// The video id text that the user sent, without surrounding whitespace.
pub fn video_id_text(url: &str) -> (res: &str)
    ensures
        res@ == trim_spec(url@),
{
    trim(url)
}

/// The video id that `rustube::Id::from_raw` finds in `raw`, by its
/// patterns of YouTube addresses; `None` where none matches.
pub uninterp spec fn rustube_id(raw: Seq<char>) -> Option<Seq<char>>;

/// A character that a video id may hold: an ASCII letter or digit, `_`
/// or `-`.
pub open spec fn id_char(c: char) -> bool {
    ('a' <= c && c <= 'z') || ('A' <= c && c <= 'Z') || ('0' <= c && c <= '9') || c == '_' || c == '-'
}

/// Whether `rustube::IdBuf::from_string` accepts `id` as a video id: its
/// pattern `^[a-zA-Z0-9_-]{11}$` asks for eleven such characters.
pub open spec fn rustube_id_valid(id: Seq<char>) -> bool {
    id.len() == 11 && forall|i: int| 0 <= i < 11 ==> #[trigger] id_char(id[i])
}

pub open spec fn opt_view(o: Option<String>) -> Option<Seq<char>> {
    match o {
        Some(s) => Some(s@),
        None => None,
    }
}

/// `rustube::Id::from_raw`, the id copied out. Its only error is
/// `BadIdFormat`, which comes back here as `None`. The id is named, not
/// stated.
#[verifier::external_body]
pub(crate) fn id_from_raw(raw: &str) -> (res: Option<String>)
    ensures
        opt_view(res) == rustube_id(raw@),
{
    rustube::Id::from_raw(raw).ok().map(|i| i.as_str().to_owned())
}

/// `rustube::IdBuf::from_string`, the id copied out. As its source shows,
/// it hands back the text it was given, as the id or as the error.
#[verifier::external_body]
pub(crate) fn id_check(id: String) -> (res: Result<String, String>)
    ensures
        res is Ok == rustube_id_valid(id@),
        res matches Ok(s) ==> s@ == id@,
        res matches Err(s) ==> s@ == id@,
{
    rustube::IdBuf::from_string(id).map(|i| i.as_str().to_owned())
}

/// The id of the video at the address that the user sent, with the
/// surrounding whitespace removed first; `BadIdFormat` where none is found.
pub fn video_id(url: &str) -> (res: Result<String, Error>)
    ensures
        rustube_id(trim_spec(url@)) matches Some(i) ==> (res matches Ok(s) && s@ == i),
        rustube_id(trim_spec(url@)) is None ==> res == Err::<String, Error>(Error::BadIdFormat),
{
    match id_from_raw(trim(url)) {
        Some(i) => Ok(i),
        None => Err(Error::BadIdFormat),
    }
}

/// A video id read from a page, checked as one; `InvalidId` with the text
/// where it is not.
pub fn checked_id(id: String) -> (res: Result<String, Error>)
    ensures
        rustube_id_valid(id@) ==> (res matches Ok(s) && s@ == id@),
        !rustube_id_valid(id@) ==> (res matches Err(Error::InvalidId(s)) && s@ == id@),
{
    match id_check(id) {
        Ok(s) => Ok(s),
        Err(s) => Err(Error::InvalidId(s)),
    }
}

/// The video to send, given the video's streams, title and view count:
/// the chosen stream's address with the caption, or `YtDownload` where no
/// stream may be sent.
pub fn yt_download_video(streams: &Vec<StreamInfo>, title: &str, view_count: u64) -> (res: Result<Video, Error>)
    ensures
        (forall|j: int| 0 <= j < streams@.len() ==> !downloadable(#[trigger] streams@[j])) ==> res == Err::<Video, Error>(Error::YtDownload),
        res matches Ok(v) ==> exists|i: int| is_best_download(streams@, i) && v.video_url@ == streams@[i].url@,
        res matches Ok(v) ==> v.caption@ == video_caption_text(title@, view_count as nat),
        res is Err ==> res == Err::<Video, Error>(Error::YtDownload),
        (exists|j: int| 0 <= j < streams@.len() && downloadable(#[trigger] streams@[j])) ==> res is Ok,
{
    match select_download_stream(streams) {
        None => Err(Error::YtDownload),
        Some(i) => {
            let url = streams[i].url.clone();
            let caption = video_caption(title, view_count);
            Ok(Video { video_url: url, caption })
        },
    }
}

} // verus!
