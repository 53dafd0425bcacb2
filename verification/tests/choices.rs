use amogus_bot::error::Error;
use amogus_bot::ffmpeg::{conversion_files, conversion_outcome, ffmpeg_args, new_conversion_files, Target};
use amogus_bot::nhentai::{search_avoiding_filters, search_for_tag, SearchAction};
use amogus_bot::nhentai::{filters_from_json, has_tag, is_filtered, nhentai_query, tag_search_step, HentaiTag, NhentaiQuery, TagSearchStep, TAG_SEARCH_TRIES};
use amogus_bot::random::{pick_index, random_index};
use amogus_bot::reddit::{audio_uri, choose_streams, file_in, folder_name, hls_url, image_file, new_folder_name, new_image_file, pick_post, pick_random_post, post_kind, select_variant, PostInfo, PostKind, VariantInfo, HLS_PLAYLIST};
use amogus_bot::shorten::unescape_slashes;
use amogus_bot::shorts::{grid_items, pick_random_short, pick_short};
use amogus_bot::tts::{new_speech_file, speech_file, tts_split, tts_url};
use amogus_bot::xkcd::{comic_page_url, random_comic_number, random_comic_page, random_comic_url};
use amogus_bot::yt_audio::thumbnail_to_fetch;
use amogus_bot::yt_download::{select_download_stream, video_id_text, yt_download_video, StreamInfo, P480_RANK};

fn s(x: &str) -> String {
    x.to_string()
}

fn stream(v: bool, a: bool, q: Option<u32>, url: &str) -> StreamInfo {
    StreamInfo { includes_video_track: v, includes_audio_track: a, quality_rank: q, url: s(url) }
}

#[test]
fn download_stream_is_best_below_480p() {
    let streams = vec![
        stream(true, true, Some(6), "360"),
        stream(true, true, Some(P480_RANK), "480"),
        stream(true, false, Some(9), "video only"),
        stream(true, true, Some(3), "240"),
        stream(true, true, None, "no label"),
    ];
    assert_eq!(select_download_stream(&streams), Some(0));
}

#[test]
fn download_stream_tie_takes_last() {
    let streams = vec![stream(true, true, Some(6), "a"), stream(true, true, Some(6), "b"), stream(true, true, Some(3), "c")];
    assert_eq!(select_download_stream(&streams), Some(1));
}

#[test]
fn download_stream_none() {
    let streams = vec![stream(false, true, Some(6), "a"), stream(true, true, Some(12), "b")];
    assert_eq!(select_download_stream(&streams), None);
    assert!(matches!(yt_download_video(&streams, "t", 1), Err(Error::YtDownload)));
}

#[test]
fn download_video_result() {
    let streams = vec![stream(true, true, Some(3), "u240"), stream(true, true, Some(8), "u360")];
    let v = yt_download_video(&streams, "Title", 12).ok().expect("video");
    assert_eq!(v.video_url, "u360");
    assert_eq!(v.caption, "*Title*\n`View count: 12`");
    assert_eq!(video_id_text("  https://youtu.be/abc \n"), "https://youtu.be/abc");
}

fn variant(uri: &str, bw: &str, audio: Option<&str>, alts: Vec<Option<&str>>) -> VariantInfo {
    VariantInfo {
        uri: s(uri),
        bandwidth: s(bw),
        audio: audio.map(s),
        alternative_uris: alts.into_iter().map(|a| a.map(s)).collect(),
    }
}

#[test]
fn variant_of_highest_bandwidth() {
    let vs = vec![
        variant("v1", "1000", Some("0"), vec![Some("a1")]),
        variant("v2", "5000", Some("1"), vec![Some("a2")]),
        variant("v3", "3000", Some("0"), vec![Some("a3")]),
        variant("v4", "9000", Some("0"), vec![]),
        variant("v5", "oops", Some("0"), vec![Some("a5")]),
        variant("v6", "3000", Some("0"), vec![Some("a6"), Some("a6b")]),
    ];
    assert_eq!(select_variant(&vs), Some(2));
    let (video, audio) = choose_streams(&vs).ok().expect("streams");
    assert_eq!(video, "v3");
    assert_eq!(audio, "a3");
}

#[test]
fn variant_none_is_an_error() {
    let vs = vec![variant("v1", "1000", None, vec![Some("a1")]), variant("v2", "x", Some("0"), vec![Some("a2")])];
    assert_eq!(select_variant(&vs), None);
    assert!(matches!(choose_streams(&vs), Err(Error::Reddit)));
    assert!(matches!(audio_uri(&variant("v", "1", None, vec![])), Err(Error::Reddit)));
    assert_eq!(audio_uri(&variant("v", "1", None, vec![Some("x"), Some("y")])).ok(), Some(s("y")));
}

fn post(url: Option<&str>, domain: &str) -> PostInfo {
    PostInfo { title: s("t"), score: s("1"), num_comments: 0, permalink: s("/p"), url: url.map(s), domain: s(domain) }
}

#[test]
fn reddit_posts() {
    let posts = vec![
        post(Some("https://i.redd.it/x.jpg"), "i.redd.it"),
        post(Some("https://v.redd.it/a"), "v.redd.it"),
        post(None, "v.redd.it"),
        post(Some("https://v.redd.it/b"), "v.redd.it"),
        post(Some("https://example.com/a"), "example.com"),
    ];
    assert!(matches!(post_kind(&posts[0]), PostKind::Image));
    assert!(matches!(post_kind(&posts[1]), PostKind::Video));
    assert!(matches!(post_kind(&posts[2]), PostKind::Text));
    assert!(matches!(post_kind(&posts[3]), PostKind::Video));
    assert!(matches!(post_kind(&posts[4]), PostKind::Text));
    assert!(matches!(post_kind(&post(None, "i.redd.it")), PostKind::Text));
    assert_eq!(pick_post(&posts, 0).ok(), Some(0));
    assert_eq!(pick_post(&posts, 7).ok(), Some(2));
    assert_eq!(pick_post(&posts, 9).ok(), Some(4));
    let only_images = vec![post(Some("https://i.redd.it/y.png"), "i.redd.it")];
    assert_eq!(pick_post(&only_images, 12345).ok(), Some(0));
    assert!(matches!(pick_post(&vec![], 3), Err(Error::Reddit)));
    assert_eq!(image_file(42), "42.jpg");
}

#[test]
fn reddit_paths() {
    assert_eq!(hls_url("https://v.redd.it/abc", HLS_PLAYLIST), "https://v.redd.it/abc/HLSPlaylist.m3u8");
    assert_eq!(folder_name(123), "123");
    assert_eq!(file_in("123", "audio"), "123/audio");
}

#[test]
fn random_choices() {
    assert_eq!(pick_index(10, 3), 1);
    assert_eq!(pick_index(u64::MAX, 10), 5);
    for _ in 0..20 {
        assert!(random_index(5) < 5);
    }
}

#[test]
fn xkcd_numbers() {
    assert_eq!(random_comic_number(1000, 1404), 405);
    assert_eq!(random_comic_number(1000, 1403), 400);
    assert_eq!(random_comic_number(300, 704), 105);
    assert_eq!(random_comic_number(10, 9), 10);
    assert_eq!(random_comic_number(10, 10), 1);
    assert_eq!(random_comic_number(1, u64::MAX), 1);
    assert_eq!(random_comic_url(2000, 5), "https://xkcd.com/6/");
    assert_eq!(comic_page_url("327"), "https://xkcd.com/327/");
}

#[test]
fn shorts_pick() {
    let items = vec![Some(s("a")), None, Some(s("c"))];
    assert_eq!(pick_short(&items, 5).ok(), Some(s("c")));
    assert!(matches!(pick_short(&items, 4), Err(Error::Shorts)));
}

#[test]
fn shorts_grid_items() {
    let json = "{\"contents\":[{\"richItemRenderer\":{\"content\":{\"videoRenderer\":{\"videoId\":\"abc\"}}}},{\"x\":1},{\"richItemRenderer\":{\"content\":{\"videoRenderer\":{\"videoId\":7}}}}]}";
    assert_eq!(grid_items(json).ok(), Some(vec![Some(s("abc")), None, None]));
    assert!(matches!(grid_items("not json"), Err(Error::Serde(_))));
    assert!(matches!(grid_items("{\"contents\":5}"), Err(Error::Shorts)));
    assert!(matches!(grid_items("[1]"), Err(Error::Shorts)));
    assert_eq!(grid_items("{\"contents\":[]}").ok(), Some(vec![]));
}

#[test]
fn nhentai_queries() {
    assert!(matches!(nhentai_query(""), NhentaiQuery::Random));
    assert!(matches!(nhentai_query("177013"), NhentaiQuery::ById(177013)));
    assert!(matches!(nhentai_query("+5"), NhentaiQuery::ById(5)));
    match nhentai_query("-1") {
        NhentaiQuery::Tag(t) => assert_eq!(t, "-1"),
        _ => panic!("expected a tag"),
    }
    match nhentai_query("99999999999") {
        NhentaiQuery::Tag(t) => assert_eq!(t, "99999999999"),
        _ => panic!("expected a tag"),
    }
}

#[test]
fn nhentai_filters() {
    let f = filters_from_json("{\"filters\":[\"b\",1,\"a\",null]}").ok().expect("filters");
    assert_eq!(f, vec![s("b"), s("a")]);
    assert!(matches!(filters_from_json("{}"), Err(Error::Json)));
    assert!(matches!(filters_from_json("{\"filters\":\"a\"}"), Err(Error::Json)));
    assert!(matches!(filters_from_json("nope"), Err(Error::Serde(_))));
    let tags = vec![HentaiTag { name: s("x"), url: s("/x") }, HentaiTag { name: s("a"), url: s("/a") }];
    assert!(is_filtered(&tags, &f));
    assert!(!is_filtered(&tags, &vec![s("y")]));
    assert!(!is_filtered(&vec![], &f));
    assert!(has_tag(&tags, &s("x")));
    assert!(!has_tag(&tags, &s("z")));
}

#[test]
fn nhentai_tag_search_gives_up_after_six() {
    let mut tries = TAG_SEARCH_TRIES;
    let mut seen = 0;
    loop {
        seen += 1;
        match tag_search_step(tries, false) {
            TagSearchStep::Retry(t) => tries = t,
            TagSearchStep::GiveUp => break,
            TagSearchStep::Accept => panic!("nothing matched"),
        }
    }
    assert_eq!(seen, 6);
    assert!(matches!(tag_search_step(0, true), TagSearchStep::Accept));
}

#[test]
fn tts_parts() {
    assert_eq!(tts_split("ru привет мир"), (s("ru"), s(" привет мир")));
    assert_eq!(tts_split("hello"), (s("en"), s("hello")));
    assert_eq!(
        tts_url("de hallo"),
        "https://translate.google.com/translate_tts?ie=UTF-8&q= hallo&tl=de&tk=418730.60457&client=webapp"
    );
    assert_eq!(speech_file(12), "12.mp3");
    let (lang, text) = tts_split("fr bonjour");
    assert_eq!(format!("{}{}", lang, text), "fr bonjour");
}

#[test]
fn ffmpeg_files_and_args() {
    assert_eq!(conversion_files(7, Target::Mp3), (s("7"), s("7.mp3")));
    assert_eq!(conversion_files(7, Target::Jpeg), (s("7"), s("7.jpeg")));
    assert_eq!(ffmpeg_args("7", "7.mp3", Target::Mp3), vec![s("-i"), s("7"), s("7.mp3")]);
    assert_eq!(
        ffmpeg_args("7", "7.jpeg", Target::Jpeg),
        vec![s("-i"), s("7"), s("7.jpeg"), s("-vf"), s("scale=min(320,iw):min(320,ih)")]
    );
    assert_eq!(conversion_outcome(true, s("7.mp3")).ok(), Some(s("7.mp3")));
    assert!(matches!(conversion_outcome(false, s("7.mp3")), Err(Error::Ffmpeg)));
}

#[test]
fn slashes_unescaped() {
    assert_eq!(unescape_slashes("https:\\/\\/x.y\\/z"), "https://x.y/z");
    for t in ["\\\\/", "\\", "/", "a\\b", "\\/\\/"] {
        assert_eq!(unescape_slashes(t), t.replace("\\/", "/"));
    }
}

#[test]
fn first_thumbnail() {
    assert_eq!(thumbnail_to_fetch(&vec![s("a"), s("b")]), Some(s("a")));
    assert_eq!(thumbnail_to_fetch(&vec![]), None);
}

#[test]
fn nhentai_searches() {
    let filters = vec![s("bad")];
    let good = vec![HentaiTag { name: s("ok"), url: s("/ok") }];
    let bad = vec![HentaiTag { name: s("bad"), url: s("/bad") }];
    let mut a = search_avoiding_filters();
    assert!(matches!(a.on_candidate(&bad, &filters), SearchAction::FetchAnother));
    assert!(matches!(a.on_candidate(&good, &filters), SearchAction::Accept));
    let mut t = search_for_tag(s("ok"));
    let mut misses = 0;
    loop {
        match t.on_candidate(&bad, &filters) {
            SearchAction::FetchAnother => misses += 1,
            SearchAction::GiveUp => break,
            SearchAction::Accept => panic!("no tag"),
        }
    }
    assert_eq!(misses, TAG_SEARCH_TRIES);
    let mut t2 = search_for_tag(s("ok"));
    assert!(matches!(t2.on_candidate(&good, &filters), SearchAction::Accept));
}

#[test]
fn random_picks_stay_in_range() {
    let posts = vec![post(Some("https://v.redd.it/a"), "v.redd.it"), post(None, "x"), post(Some("https://i.redd.it/b"), "i.redd.it")];
    for _ in 0..20 {
        let i = pick_random_post(&posts).ok().expect("a post");
        assert!(i < 3);
    }
    let none: Vec<PostInfo> = vec![];
    assert!(matches!(pick_random_post(&none), Err(Error::Reddit)));
    let items = vec![Some(s("a")), Some(s("b"))];
    for _ in 0..20 {
        let id = pick_random_short(&items).ok().expect("id");
        assert!(id == "a" || id == "b");
    }
    for _ in 0..20 {
        let url = random_comic_page(500);
        let n: u64 = url.trim_start_matches("https://xkcd.com/").trim_end_matches('/').parse().unwrap();
        assert!(1 <= n && n <= 500 && n != 404);
    }
    let (input, output) = new_conversion_files(Target::Mp3);
    assert_eq!(output, format!("{}.mp3", input));
    assert!(input.parse::<u64>().is_ok());
    assert!(new_folder_name().parse::<u64>().is_ok());
    let img = new_image_file();
    assert!(img.ends_with(".jpg") && img.trim_end_matches(".jpg").parse::<u64>().is_ok());
    let f = new_speech_file();
    assert!(f.ends_with(".mp3") && f.trim_end_matches(".mp3").parse::<u64>().is_ok());
}
