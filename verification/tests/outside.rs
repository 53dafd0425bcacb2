use amogus_bot::yt_download::{quality_rank, QualityLabel as L, P480_RANK};
use rustube::video_info::player_response::streaming_data::QualityLabel as R;
use amogus_bot::error::Error;
use amogus_bot::number::IntErrorKind;
use amogus_bot::reddit::{byteranges_check, read_master_variants, read_media_segments};
use amogus_bot::shorten::shorten_body;
use amogus_bot::shorts::{grid_json, RE_SHORTS};
use amogus_bot::xkcd::{comic_from_page, latest_comic_number, RE_XKCD};
use amogus_bot::yt_download::{checked_id, video_id};

#[test]
fn xkcd_comic_page() {
    let page = "<html>\n<div id=\"comic\">\n<img src=\"//imgs.xkcd.com/comics/exploits_of_a_mom.png\" title=\"Her daughter is named Help I'm trapped.\" alt=\"Exploits of a Mom\" />";
    let comic = comic_from_page(page).ok().expect("comic");
    assert_eq!(comic.comic_url, "https://imgs.xkcd.com/comics/exploits_of_a_mom.png");
    assert_eq!(comic.title, "*Exploits of a Mom*\n");
    assert!(matches!(comic_from_page("<html></html>"), Err(Error::Xkcd)));
    assert_eq!(regex::Regex::new(RE_XKCD).unwrap().captures_len(), 3);
}

#[test]
fn xkcd_latest_number() {
    let home = "Permanent link to this comic: <a href=\"https://xkcd.com/2934\">https://xkcd.com/2934/</a>";
    assert_eq!(latest_comic_number(home).ok(), Some(2934));
    let home = "Permanent link to this comic: https://xkcd.com/2934/<br />";
    assert_eq!(latest_comic_number(home).ok(), Some(2934));
    assert!(matches!(latest_comic_number("nothing"), Err(Error::Xkcd)));
    let home = "Permanent link to this comic: https://xkcd.com/99999999999999999999/<br />";
    assert!(matches!(latest_comic_number(home), Err(Error::ParseInt(IntErrorKind::PosOverflow))));
}

#[test]
fn shorts_grid_json() {
    let page = "x\"content\":{\"richGridRenderer\":{\"contents\":[]}},\"tabIdentifier\":\"y\"";
    assert_eq!(grid_json(page).ok(), Some("{\"contents\":[]}".to_string()));
    assert!(matches!(grid_json("nothing"), Err(Error::Shorts)));
    assert!(regex::Regex::new(RE_SHORTS).is_ok());
}

#[test]
fn userinfo_encoding() {
    assert_eq!(shorten_body("abc-123"), "url=abc-123");
    assert_eq!(shorten_body("a b@c/d"), "url=a%20b%40c%2Fd");
    let u = "https://example.com/x?y=1&z=é";
    assert_eq!(shorten_body(u), format!("url={}", url_escape::encode_userinfo(u)));
    assert_eq!(shorten_body("é|~"), "url=%C3%A9%7C~");
    assert_eq!(shorten_body("\u{7f}\u{1f}"), "url=%7F%1F");
}

#[test]
fn youtube_ids() {
    let url = "  https://www.youtube.com/watch?v=dQw4w9WgXcQ \n";
    let id = video_id(url).ok().expect("an id");
    assert_eq!(id, "dQw4w9WgXcQ");
    assert_eq!(id, rustube::Id::from_raw(url.trim()).unwrap().as_str());
    assert_eq!(video_id("https://youtu.be/dQw4w9WgXcQ").ok(), Some("dQw4w9WgXcQ".to_string()));
    assert!(matches!(video_id("no video here"), Err(Error::BadIdFormat)));
    assert!(rustube::Id::from_raw("no video here").is_err());
    assert_eq!(checked_id("dQw4w9WgXcQ".to_string()).ok(), Some("dQw4w9WgXcQ".to_string()));
    assert!(rustube::IdBuf::from_string("bad id!".to_string()).is_err());
    match checked_id("bad id!".to_string()) {
        Err(Error::InvalidId(s)) => assert_eq!(s, "bad id!"),
        _ => panic!("expected an invalid id"),
    }
}

#[test]
fn byterange_values() {
    assert!(byteranges_check(b"#EXTM3U\n"));
    assert!(byteranges_check(b"#EXT-X-MAP:BYTERANGE=12@3\n"));
    assert!(byteranges_check(b"#EXT-X-MAP:URI=\"a\",BYTERANGE=\"12@0\"\n"));
    assert!(byteranges_check(b"#EXT-X-MAP:BYTERANGE=12"));
    assert!(!byteranges_check(b"#EXT-X-MAP:BYTERANGE=12\n"));
    assert!(!byteranges_check(b"#EXT-X-MAP:URI=\"a\", BYTERANGE=\"12\"\n"));
    assert!(!byteranges_check(b"#EXT-X-MAP:BYTERANGE=\"x\"\n"));
    assert!(!byteranges_check(b"#EXT-X-MAP:BYTERANGE=99999999999@0,\n"));
    assert!(!byteranges_check(b"#EXT-X-MAP:BYTERANGE=\"\",\n"));
    // Outside an `#EXT-X-MAP:` tag a `BYTERANGE` is never handed on.
    assert!(byteranges_check(b"#EXT-X-PART:URI=\"p\",BYTERANGE=12\n"));
    assert!(byteranges_check(b"BYTERANGE=12\n#EXT-X-MAP:URI=\"a\"\n"));
    // Anything may follow a valid range, non-ASCII text too.
    assert!(byteranges_check("#EXT-X-MAP:BYTERANGE=12@0é,\n".as_bytes()));
    assert!(byteranges_check("#EXT-X-MAP:URI=\"é\",BYTERANGE=\"1@0é\"\n".as_bytes()));
    // A key other than `BYTERANGE` is not read as one.
    assert!(byteranges_check(b"#EXT-X-MAP:XBYTERANGE=12\n"));
    assert!(byteranges_check(b"#EXT-X-MAP:URI=\"BYTERANGE=12\"\n"));
}

#[test]
fn playlists_read() {
    let master = b"#EXTM3U\n#EXT-X-STREAM-INF:BANDWIDTH=1000,AUDIO=\"0\"\nHLS_360.m3u8\n#EXT-X-MEDIA:TYPE=AUDIO,GROUP-ID=\"0\",NAME=\"audio\",URI=\"HLS_AUDIO.m3u8\"\n";
    let direct = match m3u8_rs::parse_playlist_res(master) {
        Ok(m3u8_rs::playlist::Playlist::MasterPlaylist(p)) => p,
        _ => panic!("expected a master playlist"),
    };
    let vs = read_master_variants(master).ok().expect("variants");
    assert_eq!(vs.len(), direct.variants.len());
    for (v, d) in vs.iter().zip(direct.variants.iter()) {
        assert_eq!(v.uri, d.uri);
        assert_eq!(v.bandwidth, d.bandwidth);
        assert_eq!(v.audio, d.audio);
        assert_eq!(v.alternative_uris, d.alternatives.iter().map(|a| a.uri.clone()).collect::<Vec<_>>());
    }
    assert_eq!(vs[0].uri, "HLS_360.m3u8");
    assert_eq!(vs[0].bandwidth, "1000");
    assert!(matches!(read_media_segments(master), Err(Error::Reddit)));

    let media = b"#EXTM3U\n#EXT-X-TARGETDURATION:10\n#EXTINF:9.0,\nseg0.ts\n#EXTINF:9.0,\nseg1.ts\n#EXT-X-ENDLIST\n";
    let segs = read_media_segments(media).ok().expect("segments");
    assert_eq!(segs, vec!["seg0.ts".to_string(), "seg1.ts".to_string()]);
    assert!(matches!(read_master_variants(media), Err(Error::Reddit)));
    assert!(matches!(read_master_variants(b"not a playlist"), Err(Error::Reddit)));

    let mapped = b"#EXTM3U\n#EXT-X-TARGETDURATION:10\n#EXT-X-MAP:URI=\"a\",BYTERANGE=\"100@0\"\n#EXTINF:9.0,\nseg0.ts\n#EXT-X-ENDLIST\n";
    assert_eq!(read_media_segments(mapped).ok(), Some(vec!["seg0.ts".to_string()]));
    let broken = b"#EXTM3U\n#EXT-X-TARGETDURATION:10\n#EXT-X-MAP:URI=\"a\",BYTERANGE=\"x\"\n#EXTINF:9.0,\nseg0.ts\n#EXT-X-ENDLIST\n";
    assert!(matches!(read_media_segments(broken), Err(Error::Reddit)));
    assert!(matches!(read_master_variants(broken), Err(Error::Reddit)));

    let parts = "#EXTM3U\n#EXT-X-TARGETDURATION:10\n#EXT-X-PART:URI=\"p\",BYTERANGE=12\n#EXT-X-MAP:URI=\"a\",BYTERANGE=\"100@0é\"\n#EXTINF:9.0,\nseg0.ts\n#EXT-X-ENDLIST\n";
    let direct = match m3u8_rs::parse_playlist_res(parts.as_bytes()) {
        Ok(m3u8_rs::playlist::Playlist::MediaPlaylist(p)) => p,
        _ => panic!("expected a media playlist"),
    };
    let segs = read_media_segments(parts.as_bytes()).ok().expect("segments");
    assert_eq!(segs, direct.segments.iter().map(|s| s.uri.clone()).collect::<Vec<_>>());
}

#[test]
fn quality_ranks_follow_rustube_order() {
    let pairs = vec![
        (R::P144, L::P144),
        (R::P144HDR, L::P144HDR),
        (R::P144Hz60HDR, L::P144Hz60HDR),
        (R::P240, L::P240),
        (R::P240HDR, L::P240HDR),
        (R::P240Hz60HDR, L::P240Hz60HDR),
        (R::P360, L::P360),
        (R::P360HDR, L::P360HDR),
        (R::P360Hz60, L::P360Hz60),
        (R::P360Hz60HDR, L::P360Hz60HDR),
        (R::P480, L::P480),
        (R::P480HDR, L::P480HDR),
        (R::P480Hz60, L::P480Hz60),
        (R::P480Hz60HDR, L::P480Hz60HDR),
        (R::P720, L::P720),
        (R::P720Hz50, L::P720Hz50),
        (R::P720Hz60, L::P720Hz60),
        (R::P720Hz60HDR, L::P720Hz60HDR),
        (R::P1080, L::P1080),
        (R::P1080Hz50, L::P1080Hz50),
        (R::P1080Hz60, L::P1080Hz60),
        (R::P1080Hz60HDR, L::P1080Hz60HDR),
        (R::P1440, L::P1440),
        (R::P1440Hz60, L::P1440Hz60),
        (R::P1440Hz60HDR, L::P1440Hz60HDR),
        (R::P2160, L::P2160),
        (R::P2160Hz60, L::P2160Hz60),
        (R::P2160Hz60HDR, L::P2160Hz60HDR),
        (R::P4320, L::P4320),
        (R::P4320Hz60, L::P4320Hz60),
        (R::P4320Hz60HDR, L::P4320Hz60HDR),
    ];
    for (a, la) in pairs.iter() {
        for (b, lb) in pairs.iter() {
            let (ra, rb) = (quality_rank(*la), quality_rank(*lb));
            assert_eq!(a < b, ra < rb);
            assert_eq!(a == b, ra == rb);
        }
    }
    assert_eq!(quality_rank(L::P480), P480_RANK);
    assert_eq!(quality_rank(L::P144), 0);
    assert_eq!(quality_rank(L::P360Hz60HDR), 9);
}

