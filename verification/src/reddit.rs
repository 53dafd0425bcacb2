//! Reddit posts: which post is sent and how, its caption, and for a video
//! which HLS streams of it are fetched.
use vstd::prelude::*;
use crate::error::Error;
use crate::escape::{escape, escaped};
use crate::number::{decimal, parse_u64, parse_u64_spec, push_decimal};
use crate::random::{pick_index, random_u64};
use crate::text::{push_str, str_eq};

verus! {

/// What the bot reads of a post. `score` is the score's decimal text.
pub struct PostInfo {
    pub title: String,
    pub score: String,
    pub num_comments: u64,
    pub permalink: String,
    pub url: Option<String>,
    pub domain: String,
}

/// A variant stream of an HLS master playlist: its address, its bandwidth
/// text, its audio group, and the addresses of its alternative renditions.
pub struct VariantInfo {
    pub uri: String,
    pub bandwidth: String,
    pub audio: Option<String>,
    pub alternative_uris: Vec<Option<String>>,
}

/// An HLS playlist: a master playlist's variants, or a media playlist's
/// segment addresses.
pub enum PlaylistInfo {
    Master(Vec<VariantInfo>),
    Media(Vec<String>),
}

pub struct VariantView {
    pub uri: Seq<char>,
    pub bandwidth: Seq<char>,
    pub audio: Option<Seq<char>>,
    pub alternative_uris: Seq<Option<Seq<char>>>,
}

pub enum PlaylistView {
    Master(Seq<VariantView>),
    Media(Seq<Seq<char>>),
}

pub open spec fn opt_text(o: Option<String>) -> Option<Seq<char>> {
    match o {
        Some(s) => Some(s@),
        None => None,
    }
}

impl View for VariantInfo {
    type V = VariantView;

    open spec fn view(&self) -> VariantView {
        VariantView {
            uri: self.uri@,
            bandwidth: self.bandwidth@,
            audio: opt_text(self.audio),
            alternative_uris: self.alternative_uris@.map_values(|o: Option<String>| opt_text(o)),
        }
    }
}

impl View for PlaylistInfo {
    type V = PlaylistView;

    open spec fn view(&self) -> PlaylistView {
        match self {
            PlaylistInfo::Master(vs) => PlaylistView::Master(vs@.map_values(|v: VariantInfo| v@)),
            PlaylistInfo::Media(ss) => PlaylistView::Media(ss@.map_values(|s: String| s@)),
        }
    }
}

pub open spec fn playlist_opt_view(p: Option<PlaylistInfo>) -> Option<PlaylistView> {
    match p {
        Some(p) => Some(p@),
        None => None,
    }
}

/// The bytes of `#EXT-X-MAP:` stand at position `j`.
pub open spec fn map_tag_at(b: Seq<u8>, j: int) -> bool {
    &&& 0 <= j && j + 11 <= b.len()
    &&& b[j] == 35 && b[j + 1] == 69 && b[j + 2] == 88 && b[j + 3] == 84 && b[j + 4] == 45
    &&& b[j + 5] == 88 && b[j + 6] == 45 && b[j + 7] == 77 && b[j + 8] == 65 && b[j + 9] == 80
    &&& b[j + 10] == 58
}

/// The bytes from `s` to `k` are `BYTERANGE`.
pub open spec fn byterange_key(b: Seq<u8>, s: int, k: int) -> bool {
    &&& k == s + 9 && 0 <= s && k <= b.len()
    &&& b[s] == 66 && b[s + 1] == 89 && b[s + 2] == 84 && b[s + 3] == 69 && b[s + 4] == 82
    &&& b[s + 5] == 65 && b[s + 6] == 78 && b[s + 7] == 71 && b[s + 8] == 69
}

pub open spec fn is_digit_byte(x: u8) -> bool {
    48 <= x && x <= 57
}

/// Value of a string of ASCII digits read in base ten.
pub open spec fn bytes_value(d: Seq<u8>) -> int
    decreases d.len(),
{
    if d.len() == 0 { 0 } else { bytes_value(d.drop_last()) * 10 + (d.last() - 48) }
}

/// `b[lo..hi]` reads as a byte range without fault: it starts with digits
/// that fit in an `i32`, and something follows them.
pub open spec fn range_value_ok(b: Seq<u8>, lo: int, hi: int) -> bool {
    exists|k: int| #![trigger b[k]] lo < k < hi
        && (forall|j: int| lo <= j < k ==> is_digit_byte(#[trigger] b[j]))
        && !is_digit_byte(b[k])
        && bytes_value(b.subrange(lo, k)) <= 2147483647
}

/// The first position at or after `p` that holds no space or tab.
pub open spec fn skip_blank(b: Seq<u8>, p: int) -> int
    decreases b.len() - p,
{
    if 0 <= p < b.len() && (b[p] == 32 || b[p] == 9) { skip_blank(b, p + 1) } else { p }
}

/// The first position at or after `p` that holds `c`; the length where
/// there is none.
pub open spec fn find_byte(b: Seq<u8>, p: int, c: u8) -> int
    decreases b.len() - p,
{
    if 0 <= p < b.len() && b[p] != c { find_byte(b, p + 1, c) } else { p }
}

/// A comma or a line end: where an unquoted attribute value stops.
pub open spec fn is_stop(x: u8) -> bool {
    x == 44 || x == 13 || x == 10
}

/// The first stop at or after `p`; the length where there is none.
pub open spec fn find_stop(b: Seq<u8>, p: int) -> int
    decreases b.len() - p,
{
    if 0 <= p < b.len() && !is_stop(b[p]) { find_stop(b, p + 1) } else { p }
}

/// Each scan ends at or after where it starts, and within the bytes.
pub proof fn lemma_scan_bounds(b: Seq<u8>, p: int, c: u8)
    requires
        0 <= p <= b.len(),
    ensures
        p <= skip_blank(b, p) <= b.len(),
        p <= find_byte(b, p, c) <= b.len(),
        p <= find_stop(b, p) <= b.len(),
    decreases b.len() - p,
{
    if p < b.len() {
        lemma_scan_bounds(b, p + 1, c);
    }
}

/// An unquoted attribute value at `v`: the text up to the next stop, which
/// must exist, be past `v`, and be UTF-8. Its bounds and the position after
/// it.
pub open spec fn unquoted_value(b: Seq<u8>, v: int) -> Option<(int, int, int)> {
    let u = find_stop(b, v);
    if u >= b.len() || u == v || !vstd::utf8::valid_utf8(b.subrange(v, u)) { None } else { Some((v, u, u)) }
}

/// The attribute value at `v`, as the playlist reader takes it: the text
/// between quotes where a closing quote follows a non-empty UTF-8 text,
/// else the unquoted text; `None` where it reads none there.
pub open spec fn pair_value(b: Seq<u8>, v: int) -> Option<(int, int, int)> {
    if v >= b.len() {
        None
    } else if b[v] == 34 {
        let q = find_byte(b, v + 1, 34);
        if q >= b.len() {
            None
        } else if q > v + 1 && vstd::utf8::valid_utf8(b.subrange(v + 1, q)) {
            Some((v + 1, q, q + 1))
        } else {
            unquoted_value(b, v)
        }
    } else {
        unquoted_value(b, v)
    }
}

/// An attribute value lies within the bytes, and reading it moves forward.
pub proof fn lemma_pair_value_bounds(b: Seq<u8>, v: int)
    requires
        0 <= v <= b.len(),
    ensures
        pair_value(b, v) matches Some((lo, hi, next)) ==> v <= lo <= hi <= b.len() && v < next <= b.len(),
{
    lemma_scan_bounds(b, v, 34);
    if v < b.len() {
        lemma_scan_bounds(b, v + 1, 34);
    }
}

/// Every `BYTERANGE` that the attribute list starting at `p` gives is a
/// byte range. The list is read as the playlist reader reads it: blanks,
/// then a key up to `=` (UTF-8), then a value, then an optional comma, for
/// as long as it reads.
pub open spec fn map_pairs_ok(b: Seq<u8>, p: int) -> bool
    decreases b.len() - p,
{
    if p < 0 || p >= b.len() {
        true
    } else {
        let s = skip_blank(b, p);
        if s >= b.len() || b[s] == 13 || b[s] == 10 {
            true
        } else {
            let k = find_byte(b, s, 61);
            if k >= b.len() || !vstd::utf8::valid_utf8(b.subrange(s, k)) {
                true
            } else {
                match pair_value(b, k + 1) {
                    None => true,
                    Some((lo, hi, next)) => {
                        proof {
                            lemma_scan_bounds(b, p, 61);
                            lemma_scan_bounds(b, s, 61);
                            lemma_pair_value_bounds(b, k + 1);
                        }
                        (!byterange_key(b, s, k) || range_value_ok(b, lo, hi))
                            && (next >= b.len() || map_pairs_ok(b, if b[next] == 44 { next + 1 } else { next }))
                    },
                }
            }
        }
    }
}

/// Every `BYTERANGE` attribute of an `#EXT-X-MAP:` tag in the bytes is a
/// byte range. The playlist reader of `m3u8-rs` hands such a value to
/// `ByteRange::from`, which panics on one that is none. Every occurrence of
/// the tag's text is read as a tag here.
pub open spec fn byteranges_ok(b: Seq<u8>) -> bool {
    forall|j: int| #[trigger] map_tag_at(b, j) ==> map_pairs_ok(b, j + 11)
}

/// `std::str::from_utf8`, told apart by its result: whether the bytes are
/// valid UTF-8.
#[verifier::external_body]
fn is_utf8(b: &[u8]) -> (res: bool)
    ensures
        res == vstd::utf8::valid_utf8(b@),
{
    std::str::from_utf8(b).is_ok()
}

fn skip_blank_at(b: &[u8], p: usize) -> (res: usize)
    requires
        p <= b@.len(),
    ensures
        res == skip_blank(b@, p as int),
        p <= res <= b@.len(),
{
    let mut i = p;
    while i < b.len() && (b[i] == 32 || b[i] == 9)
        invariant
            p <= i <= b@.len(),
            skip_blank(b@, i as int) == skip_blank(b@, p as int),
        decreases b@.len() - i,
    {
        i = i + 1;
    }
    i
}

fn find_byte_at(b: &[u8], p: usize, c: u8) -> (res: usize)
    requires
        p <= b@.len(),
    ensures
        res == find_byte(b@, p as int, c),
        p <= res <= b@.len(),
{
    let mut i = p;
    while i < b.len() && b[i] != c
        invariant
            p <= i <= b@.len(),
            find_byte(b@, i as int, c) == find_byte(b@, p as int, c),
        decreases b@.len() - i,
    {
        i = i + 1;
    }
    i
}

fn find_stop_at(b: &[u8], p: usize) -> (res: usize)
    requires
        p <= b@.len(),
    ensures
        res == find_stop(b@, p as int),
        p <= res <= b@.len(),
{
    let mut i = p;
    while i < b.len() && !(b[i] == 44 || b[i] == 13 || b[i] == 10)
        invariant
            p <= i <= b@.len(),
            find_stop(b@, i as int) == find_stop(b@, p as int),
        decreases b@.len() - i,
    {
        i = i + 1;
    }
    i
}

fn unquoted_value_at(b: &[u8], v: usize) -> (res: Option<(usize, usize, usize)>)
    requires
        v <= b@.len(),
    ensures
        res matches Some((lo, hi, next)) ==> unquoted_value(b@, v as int) == Some((lo as int, hi as int, next as int)),
        res is None ==> unquoted_value(b@, v as int) is None,
{
    let u = find_stop_at(b, v);
    if u >= b.len() || u == v {
        return None;
    }
    if !is_utf8(vstd::slice::slice_subrange(b, v, u)) {
        return None;
    }
    Some((v, u, u))
}

fn pair_value_at(b: &[u8], v: usize) -> (res: Option<(usize, usize, usize)>)
    requires
        v <= b@.len(),
    ensures
        res matches Some((lo, hi, next)) ==> pair_value(b@, v as int) == Some((lo as int, hi as int, next as int)),
        res is None ==> pair_value(b@, v as int) is None,
{
    if v >= b.len() {
        None
    } else if b[v] == 34 {
        let q = find_byte_at(b, v + 1, 34);
        if q >= b.len() {
            None
        } else if q > v + 1 && is_utf8(vstd::slice::slice_subrange(b, v + 1, q)) {
            Some((v + 1, q, q + 1))
        } else {
            unquoted_value_at(b, v)
        }
    } else {
        unquoted_value_at(b, v)
    }
}

fn range_value_check(b: &[u8], lo: usize, hi: usize) -> (res: bool)
    requires
        lo <= hi <= b@.len(),
    ensures
        res == range_value_ok(b@, lo as int, hi as int),
{
    let mut k: usize = lo;
    let mut v: u64 = 0;
    while k < hi && 48 <= b[k] && b[k] <= 57
        invariant
            lo <= k <= hi <= b@.len(),
            forall|t: int| lo <= t < k ==> is_digit_byte(#[trigger] b@[t]),
            v <= 2147483648,
            bytes_value(b@.subrange(lo as int, k as int)) <= 2147483647 ==> v == bytes_value(b@.subrange(lo as int, k as int)),
            bytes_value(b@.subrange(lo as int, k as int)) > 2147483647 ==> v == 2147483648,
        decreases hi - k,
    {
        let ghost old_sub = b@.subrange(lo as int, k as int);
        proof {
            assert(b@.subrange(lo as int, k + 1).drop_last() =~= old_sub);
            assert(b@.subrange(lo as int, k + 1).last() == b@[k as int]);
        }
        if v <= 2147483647 {
            v = v * 10 + (b[k] - 48) as u64;
            if v > 2147483647 {
                v = 2147483648;
            }
        }
        k = k + 1;
    }
    if k > lo && k < hi && v <= 2147483647 {
        proof {
            assert(lo < k < hi && (forall|j: int| lo <= j < k ==> is_digit_byte(#[trigger] b@[j]))
                && !is_digit_byte(b@[k as int]));
        }
        true
    } else {
        proof {
            assert forall|kk: int| #![trigger b@[kk]] lo < kk < hi
                && (forall|j: int| lo <= j < kk ==> is_digit_byte(#[trigger] b@[j]))
                && !is_digit_byte(b@[kk])
                implies bytes_value(b@.subrange(lo as int, kk)) > 2147483647 by {
                if kk < k {
                    assert(is_digit_byte(b@[kk]));
                }
                if kk > k {
                    assert(is_digit_byte(b@[k as int]));
                }
            }
        }
        false
    }
}

fn map_pairs_check(b: &[u8], p0: usize) -> (res: bool)
    requires
        p0 <= b@.len(),
    ensures
        res == map_pairs_ok(b@, p0 as int),
{
    let n = b.len();
    let mut p = p0;
    loop
        invariant
            n == b@.len(),
            p <= n,
            map_pairs_ok(b@, p as int) == map_pairs_ok(b@, p0 as int),
        decreases n - p,
    {
        if p >= n {
            return true;
        }
        let s = skip_blank_at(b, p);
        if s >= n || b[s] == 13 || b[s] == 10 {
            return true;
        }
        let k = find_byte_at(b, s, 61);
        if k >= n {
            return true;
        }
        if !is_utf8(vstd::slice::slice_subrange(b, s, k)) {
            return true;
        }
        proof {
            lemma_scan_bounds(b@, p as int, 61);
            lemma_scan_bounds(b@, s as int, 61);
            lemma_pair_value_bounds(b@, k + 1);
        }
        match pair_value_at(b, k + 1) {
            None => {
                return true;
            },
            Some((lo, hi, next)) => {
                let key = k - s == 9 && b[s] == 66 && b[s + 1] == 89 && b[s + 2] == 84 && b[s + 3] == 69
                    && b[s + 4] == 82 && b[s + 5] == 65 && b[s + 6] == 78 && b[s + 7] == 71 && b[s + 8] == 69;
                if key && !range_value_check(b, lo, hi) {
                    return false;
                }
                if next >= n {
                    return true;
                }
                if b[next] == 44 {
                    p = next + 1;
                } else {
                    p = next;
                }
            },
        }
    }
}

/// Whether every `BYTERANGE` attribute of an `#EXT-X-MAP:` tag in the bytes
/// is a byte range, as `byteranges_ok` says.
pub fn byteranges_check(b: &[u8]) -> (res: bool)
    ensures
        res == byteranges_ok(b@),
{
    let n = b.len();
    let mut i: usize = 0;
    while i < n
        invariant
            n == b@.len(),
            i <= n,
            forall|j: int| 0 <= j < i && #[trigger] map_tag_at(b@, j) ==> map_pairs_ok(b@, j + 11),
        decreases n - i,
    {
        if n - i >= 11 && b[i] == 35 && b[i + 1] == 69 && b[i + 2] == 88 && b[i + 3] == 84
            && b[i + 4] == 45 && b[i + 5] == 88 && b[i + 6] == 45 && b[i + 7] == 77
            && b[i + 8] == 65 && b[i + 9] == 80 && b[i + 10] == 58 {
            if !map_pairs_check(b, i + 11) {
                proof {
                    assert(map_tag_at(b@, i as int));
                }
                return false;
            }
        }
        i = i + 1;
    }
    proof {
        assert forall|j: int| #[trigger] map_tag_at(b@, j) implies map_pairs_ok(b@, j + 11) by {
            assert(j < n);
        }
    }
    true
}

/// The playlist that `m3u8_rs::parse_playlist_res` reads from `bytes`,
/// `None` where it reports an error.
pub uninterp spec fn m3u8_playlist(bytes: Seq<u8>) -> Option<PlaylistView>;

/// `m3u8_rs::parse_playlist_res`, with the fields that the bot reads copied
/// out. The result is named, not stated. No `#EXT-X-MAP:` tag of the bytes
/// may have a `BYTERANGE` that is no byte range: `Map::from_hashmap` hands
/// such a value to `ByteRange::from`, which panics where `byte_range_val`
/// fails, as it does on a value of digits alone such as "12".
#[verifier::external_body]
pub(crate) fn parse_playlist(bytes: &[u8]) -> (res: Option<PlaylistInfo>)
    requires
        byteranges_ok(bytes@),
    ensures
        playlist_opt_view(res) == m3u8_playlist(bytes@),
{
    match m3u8_rs::parse_playlist_res(bytes) {
        Ok(m3u8_rs::playlist::Playlist::MasterPlaylist(p)) => Some(PlaylistInfo::Master(p.variants.into_iter().map(|v| VariantInfo { uri: v.uri, bandwidth: v.bandwidth, audio: v.audio, alternative_uris: v.alternatives.into_iter().map(|a| a.uri).collect() }).collect())),
        Ok(m3u8_rs::playlist::Playlist::MediaPlaylist(p)) => Some(PlaylistInfo::Media(p.segments.into_iter().map(|s| s.uri).collect())),
        Err(_) => None,
    }
}

/// What a post is sent as.
pub enum PostKind {
    /// A Reddit-hosted video (`v.redd.it`), fetched through its HLS playlist.
    Video,
    /// A Reddit-hosted image (`i.redd.it`), fetched and sent as a photo.
    Image,
    /// Anything else: the caption is sent as a message.
    Text,
}

/// How a post is sent, by the host of the address it links.
pub open spec fn post_kind_spec(p: PostInfo) -> PostKind {
    if p.url is Some && p.domain@ == "v.redd.it"@ {
        PostKind::Video
    } else if p.url is Some && p.domain@ == "i.redd.it"@ {
        PostKind::Image
    } else {
        PostKind::Text
    }
}

pub fn post_kind(p: &PostInfo) -> (res: PostKind)
    ensures
        res == post_kind_spec(*p),
{
    if p.url.is_some() && str_eq(p.domain.as_str(), "v.redd.it") {
        PostKind::Video
    } else if p.url.is_some() && str_eq(p.domain.as_str(), "i.redd.it") {
        PostKind::Image
    } else {
        PostKind::Text
    }
}

/// What is sent for a post: an image file or a video folder with the
/// caption, or the caption alone.
pub enum Content {
    Image(String, String),
    Video(String, String),
    Text(String),
}

/// The post of the listing that a random number `r` picks: `r` modulo the
/// number of posts; `Reddit` for an empty listing.
pub fn pick_post(posts: &Vec<PostInfo>, r: u64) -> (res: Result<usize, Error>)
    ensures
        posts@.len() == 0 ==> res == Err::<usize, Error>(Error::Reddit),
        posts@.len() > 0 ==> res == Ok::<usize, Error>((r as int % posts@.len() as int) as usize),
{
    if posts.len() == 0 {
        return Err(Error::Reddit);
    }
    Ok(pick_index(r, posts.len()))
}

/// A post's caption: its title in bold, its score, and a link to its
/// comments.
pub open spec fn post_caption_text(p: PostInfo) -> Seq<char> {
    "*"@ + escaped(p.title@) + "*\n`Score: "@ + p.score@ + "`\n[Number of comments:"@
        + decimal(p.num_comments as nat) + "](https://reddit.com"@ + p.permalink@ + ")"@
}

pub fn post_caption(p: &PostInfo) -> (res: String)
    ensures
        res@ == post_caption_text(*p),
{
    let mut out = String::from_str("*");
    let t = escape(p.title.as_str());
    push_str(&mut out, t.as_str());
    push_str(&mut out, "*\n`Score: ");
    push_str(&mut out, p.score.as_str());
    push_str(&mut out, "`\n[Number of comments:");
    push_decimal(&mut out, p.num_comments);
    push_str(&mut out, "](https://reddit.com");
    push_str(&mut out, p.permalink.as_str());
    push_str(&mut out, ")");
    out
}

/// The master playlist of a video.
pub const HLS_PLAYLIST: &'static str = "HLSPlaylist.m3u8";

/// The address of a file of the video at `url`.
pub fn hls_url(url: &str, file: &str) -> (res: String)
    ensures
        res@ == url@ + "/"@ + file@,
{
    let mut out = String::from_str(url);
    push_str(&mut out, "/");
    push_str(&mut out, file);
    out
}

/// The variants of a master playlist; `Reddit` for anything else.
pub fn master_variants(p: Option<PlaylistInfo>) -> (res: Result<Vec<VariantInfo>, Error>)
    ensures
        p matches Some(PlaylistInfo::Master(vs)) ==> res == Ok::<Vec<VariantInfo>, Error>(vs),
        !(p matches Some(PlaylistInfo::Master(_))) ==> res == Err::<Vec<VariantInfo>, Error>(Error::Reddit),
{
    match p {
        Some(PlaylistInfo::Master(vs)) => Ok(vs),
        _ => Err(Error::Reddit),
    }
}

/// The segment addresses of a media playlist; `Reddit` for anything else.
pub fn media_segments(p: Option<PlaylistInfo>) -> (res: Result<Vec<String>, Error>)
    ensures
        p matches Some(PlaylistInfo::Media(ss)) ==> res == Ok::<Vec<String>, Error>(ss),
        !(p matches Some(PlaylistInfo::Media(_))) ==> res == Err::<Vec<String>, Error>(Error::Reddit),
{
    match p {
        Some(PlaylistInfo::Media(ss)) => Ok(ss),
        _ => Err(Error::Reddit),
    }
}

/// A variant worth considering: in audio group "0", with an alternative
/// rendition (the audio), and a bandwidth that reads as a number.
pub open spec fn candidate(v: VariantInfo) -> bool {
    &&& v.audio matches Some(a) && a@ == "0"@
    &&& v.alternative_uris@.len() > 0
    &&& parse_u64_spec(v.bandwidth@) is Some
}

pub open spec fn bandwidth_of(v: VariantInfo) -> int {
    parse_u64_spec(v.bandwidth@).unwrap() as int
}

/// `i` is the variant that the bot fetches: the candidate of highest
/// bandwidth, the first of them on a tie.
pub open spec fn is_chosen_variant(vs: Seq<VariantInfo>, i: int) -> bool {
    &&& 0 <= i < vs.len()
    &&& candidate(vs[i])
    &&& forall|j: int| 0 <= j < vs.len() && candidate(#[trigger] vs[j]) ==> bandwidth_of(vs[j]) <= bandwidth_of(vs[i])
    &&& forall|j: int| 0 <= j < i && candidate(#[trigger] vs[j]) ==> bandwidth_of(vs[j]) < bandwidth_of(vs[i])
}

/// At most one variant is the one to fetch.
pub proof fn lemma_chosen_variant_unique(vs: Seq<VariantInfo>, i: int, j: int)
    requires
        is_chosen_variant(vs, i),
        is_chosen_variant(vs, j),
    ensures
        i == j,
{
    assert(candidate(vs[i]) && candidate(vs[j]));
}

fn in_audio_group_zero(v: &VariantInfo) -> (b: bool)
    ensures
        b == (v.audio matches Some(a) && a@ == "0"@),
{
    match &v.audio {
        Some(a) => str_eq(a.as_str(), "0"),
        None => false,
    }
}

/// The variant to fetch, or `None` where no variant is a candidate.
pub fn select_variant(vs: &Vec<VariantInfo>) -> (res: Option<usize>)
    ensures
        res matches Some(i) ==> is_chosen_variant(vs@, i as int),
        res is None ==> forall|j: int| 0 <= j < vs@.len() ==> !candidate(#[trigger] vs@[j]),
{
    let mut best: Option<usize> = None;
    let mut best_bw: u64 = 0;
    let mut k: usize = 0;
    while k < vs.len()
        invariant
            k <= vs@.len(),
            best matches Some(b) ==> b < k && candidate(vs@[b as int]) && best_bw == bandwidth_of(vs@[b as int])
                && (forall|j: int| 0 <= j < k && candidate(#[trigger] vs@[j]) ==> bandwidth_of(vs@[j]) <= best_bw)
                && (forall|j: int| 0 <= j < b && candidate(#[trigger] vs@[j]) ==> bandwidth_of(vs@[j]) < best_bw),
            best is None ==> forall|j: int| 0 <= j < k ==> !candidate(#[trigger] vs@[j]),
        decreases vs@.len() - k,
    {
        let v = &vs[k];
        if in_audio_group_zero(v) && v.alternative_uris.len() > 0 {
            match parse_u64(v.bandwidth.as_str()) {
                Some(b) => {
                    match best {
                        None => {
                            best = Some(k);
                            best_bw = b;
                        },
                        Some(_) => {
                            if best_bw < b {
                                best = Some(k);
                                best_bw = b;
                            }
                        },
                    }
                },
                None => {},
            }
        }
        k = k + 1;
    }
    best
}

/// The address of a variant's audio: that of its last alternative
/// rendition; `Reddit` where it has none.
pub fn audio_uri(v: &VariantInfo) -> (res: Result<String, Error>)
    requires
        v.alternative_uris@.len() > 0 ==> v.alternative_uris@.last() is Some,
    ensures
        v.alternative_uris@.len() == 0 ==> res == Err::<String, Error>(Error::Reddit),
        v.alternative_uris@.len() > 0 ==> (res matches Ok(u) && u@ == v.alternative_uris@.last().unwrap()@),
{
    let n = v.alternative_uris.len();
    if n == 0 {
        return Err(Error::Reddit);
    }
    match &v.alternative_uris[n - 1] {
        Some(u) => Ok(u.clone()),
        None => {
            assert(false);
            Err(Error::Reddit)
        },
    }
}

/// The addresses of the video and the audio of the chosen variant, or
/// `Reddit` where no variant is a candidate.
pub fn choose_streams(vs: &Vec<VariantInfo>) -> (res: Result<(String, String), Error>)
    requires
        forall|j: int| #[trigger] is_chosen_variant(vs@, j) ==> vs@[j].alternative_uris@.last() is Some,
    ensures
        (forall|j: int| 0 <= j < vs@.len() ==> !candidate(#[trigger] vs@[j])) ==> res == Err::<(String, String), Error>(Error::Reddit),
        res matches Ok((video, audio)) ==> (exists|i: int| is_chosen_variant(vs@, i) && video@ == vs@[i].uri@
            && audio@ == vs@[i].alternative_uris@.last().unwrap()@),
        (exists|j: int| 0 <= j < vs@.len() && candidate(#[trigger] vs@[j])) ==> res is Ok,
{
    match select_variant(vs) {
        None => Err(Error::Reddit),
        Some(i) => {
            let v = &vs[i];
            assert(is_chosen_variant(vs@, i as int));
            assert(v.alternative_uris@.len() > 0);
            let audio = audio_uri(v);
            match audio {
                Ok(a) => Ok((v.uri.clone(), a)),
                Err(e) => Err(e),
            }
        },
    }
}

/// The folder that holds a video's files, named by a random number.
pub fn folder_name(r: u64) -> (res: String)
    ensures
        res@ == decimal(r as nat),
{
    crate::number::fmt_u64(r)
}

/// The path of a file in a folder.
pub fn file_in(folder: &str, file: &str) -> (res: String)
    ensures
        res@ == folder@ + "/"@ + file@,
{
    hls_url(folder, file)
}

/// Picks one of the listing's posts at random; `Reddit` for an empty
/// listing.
pub fn pick_random_post(posts: &Vec<PostInfo>) -> (res: Result<usize, Error>)
    ensures
        posts@.len() == 0 ==> res == Err::<usize, Error>(Error::Reddit),
        posts@.len() > 0 ==> (res matches Ok(i) && i < posts@.len()),
{
    pick_post(posts, random_u64())
}

/// Reads the variants of a master playlist from its bytes; `Reddit` for a
/// playlist of another kind, bytes that are no playlist, or a `BYTERANGE`
/// attribute that is no byte range.
pub fn read_master_variants(bytes: &[u8]) -> (res: Result<Vec<VariantInfo>, Error>)
    ensures
        !byteranges_ok(bytes@) ==> res == Err::<Vec<VariantInfo>, Error>(Error::Reddit),
        byteranges_ok(bytes@) ==> (m3u8_playlist(bytes@) matches Some(PlaylistView::Master(vs))
            ==> (res matches Ok(v) && v@.map_values(|x: VariantInfo| x@) == vs)),
        byteranges_ok(bytes@) && !(m3u8_playlist(bytes@) matches Some(PlaylistView::Master(_)))
            ==> res == Err::<Vec<VariantInfo>, Error>(Error::Reddit),
{
    if !byteranges_check(bytes) {
        return Err(Error::Reddit);
    }
    let p = parse_playlist(bytes);
    master_variants(p)
}

/// Reads the segment addresses of a media playlist from its bytes;
/// `Reddit` for a playlist of another kind, bytes that are no playlist, or
/// a `BYTERANGE` attribute that is no byte range.
pub fn read_media_segments(bytes: &[u8]) -> (res: Result<Vec<String>, Error>)
    ensures
        !byteranges_ok(bytes@) ==> res == Err::<Vec<String>, Error>(Error::Reddit),
        byteranges_ok(bytes@) ==> (m3u8_playlist(bytes@) matches Some(PlaylistView::Media(ss))
            ==> (res matches Ok(v) && v@.map_values(|x: String| x@) == ss)),
        byteranges_ok(bytes@) && !(m3u8_playlist(bytes@) matches Some(PlaylistView::Media(_)))
            ==> res == Err::<Vec<String>, Error>(Error::Reddit),
{
    if !byteranges_check(bytes) {
        return Err(Error::Reddit);
    }
    let p = parse_playlist(bytes);
    media_segments(p)
}

/// The file that holds a post's image, named by a random number.
pub fn image_file(r: u64) -> (res: String)
    ensures
        res@ == decimal(r as nat) + ".jpg"@,
{
    let mut out = String::new();
    push_decimal(&mut out, r);
    push_str(&mut out, ".jpg");
    proof {
        assert(Seq::<char>::empty() + decimal(r as nat) =~= decimal(r as nat));
    }
    out
}

/// A new file for a post's image, named by a random number.
pub fn new_image_file() -> (res: String)
    ensures
        exists|r: u64| res@ == #[trigger] decimal(r as nat) + ".jpg"@,
{
    image_file(random_u64())
}

/// A new folder for a video's files, named by a random number.
pub fn new_folder_name() -> (res: String)
    ensures
        exists|r: u64| res@ == #[trigger] decimal(r as nat),
{
    folder_name(random_u64())
}

} // verus!
