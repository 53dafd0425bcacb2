use amogus_bot::currency::{currency_caption, currency_url, RateTexts};
use amogus_bot::error::Error;
use amogus_bot::gpt::{gpt_caption, gpt_step, json_escape, replace_newlines, GptStep};
use amogus_bot::number::IntErrorKind;
use amogus_bot::jewtube::{blog_post, blog_post_at, blog_post_from_decoded, post_from_listing, random_blog_post};
use amogus_bot::nhentai::{print_hentai, HentaiInfo, HentaiTag};
use amogus_bot::reddit::{post_caption, PostInfo};
use amogus_bot::shorts::short_caption;
use amogus_bot::urban::{definition_caption, urban_url, Definition};
use amogus_bot::yt_download::video_caption;

fn s(x: &str) -> String {
    x.to_string()
}

#[test]
fn video_caption_text() {
    assert_eq!(video_caption("a.b", 1000), "*a\\.b*\n`View count: 1000`");
    assert_eq!(video_caption("", 0), "**\n`View count: 0`");
}

#[test]
fn short_caption_text() {
    assert_eq!(
        short_caption("T!", 5, "Chan_nel", "UC1"),
        "*T\\!*\n`View count: 5`\nSource: [Chan\\_nel](https://www.youtube.com/channel/UC1)\n"
    );
}

#[test]
fn urban_caption_and_url() {
    let d = Definition {
        definition: s("a word."),
        example: s("use it!"),
        permalink: s("https://u.d/1"),
        thumbs_up: 10,
        thumbs_down: 2,
    };
    assert_eq!(
        definition_caption(&d),
        "*Definition:*\na word\\.\n\n*Example:*\nuse it\\!\nScore: 10\\-2\n[Permalink](https://u.d/1)"
    );
    assert_eq!(urban_url("yeet"), "https://api.urbandictionary.com/v0/define?term=yeet");
}

#[test]
fn gpt_empty_prompt_is_answered() {
    match gpt_step("") {
        GptStep::Reply(r) => assert_eq!(r, "Text shouldn't be empty"),
        GptStep::Request(_) => panic!("expected a reply"),
    }
}

#[test]
fn gpt_request_body() {
    match gpt_step("hi") {
        GptStep::Request(b) => assert_eq!(
            b,
            "{\"prompt\":\"hi\",\"temperature\":1,\"top_k\":40,\"top_p\":0.9,\"seed\":0,\"stream\":false}"
        ),
        GptStep::Reply(_) => panic!("expected a request"),
    }
}

#[test]
fn gpt_caption_text() {
    assert_eq!(gpt_caption("Hi.", "line1\nline2-end"), "_Text_:\n*Hi\\.* line1 line2\\-end");
    assert_eq!(replace_newlines("a\n\nb"), "a  b");
    assert_eq!(replace_newlines("a\nb"), "a\nb".replace('\n', " "));
}

#[test]
fn currency_texts() {
    assert_eq!(currency_url("1.5", "EUR"), "https://api.exchangerate.host/latest?amount=1.5&base=EUR");
    let r = RateTexts {
        usd: s("1.1"),
        eur: s("1"),
        jpy: s("160"),
        gbp: s("0.8"),
        aud: s("1.6"),
        cad: s("1.4"),
        chf: s("0.9"),
        ron: s("4.9"),
        btc: s("0.00002"),
        brl: s("5.5"),
        idr: s("17000"),
    };
    assert_eq!(
        currency_caption("1", "EUR", &r),
        "*1 EUR* to:\n\\- 1\\.1 USD 🇺🇸\n\\- 1 EUR 🇪🇺\n\\- 160 JPY 🇯🇵\n\\- 0\\.8 GBP 🇬🇧\n\\- 1\\.6 AUD 🇦🇺\n\\- 1\\.4 CAD 🇨🇦\n\\- 0\\.9 CHF 🇨🇭\n\\- 4\\.9 RON 🇷🇴\n\\- 0\\.00002 BTC ₿\n\\- 5\\.5 BRL 🇧🇷\n\\- 17000 IDR 🇮🇷"
    );
}

#[test]
fn hentai_caption() {
    let info = HentaiInfo {
        id: 1,
        url: s("https://nhentai.net/g/1/"),
        pretty_title: Some(s("A.B")),
        num_pages: 3,
        tags: vec![
            HentaiTag { name: s("big-tag"), url: s("/tag/big-tag/") },
            HentaiTag { name: s("x"), url: s("/tag/x/") },
        ],
        thumbnail_url: s("t.jpg"),
    };
    let p = print_hentai(&info).ok().expect("caption");
    assert_eq!(p.thumb, "t.jpg");
    assert_eq!(
        p.caption,
        "*A\\.B*\nSauce: [1](https://nhentai.net/g/1/)\nNumber of pages: 3\nTags:\n[big\\-tag](https://nhentai.net/tag/big-tag/) [x](https://nhentai.net/tag/x/) "
    );
}

#[test]
fn hentai_without_title_is_an_error() {
    let info = HentaiInfo {
        id: 2,
        url: s("u"),
        pretty_title: None,
        num_pages: 0,
        tags: vec![],
        thumbnail_url: s("t"),
    };
    match print_hentai(&info) {
        Err(e @ Error::Hentai(_)) => assert!(e.message().starts_with("hentai error: ")),
        _ => panic!("expected a hentai error"),
    }
    match print_hentai(&info) {
        Err(Error::Hentai(hentai::HentaiError::IoError(io))) => {
            assert_eq!(io.kind(), std::io::ErrorKind::Unsupported);
            assert_eq!(io.to_string(), "sus");
        }
        _ => panic!("expected the unsupported I/O error"),
    }
}

#[test]
fn reddit_caption() {
    let p = PostInfo {
        title: s("Cat (cute)"),
        score: s("1234"),
        num_comments: 56,
        permalink: s("/r/aww/comments/abc/cat/"),
        url: Some(s("https://v.redd.it/abc")),
        domain: s("v.redd.it"),
    };
    assert_eq!(
        post_caption(&p),
        "*Cat \\(cute\\)*\n`Score: 1234`\n[Number of comments:56](https://reddit.com/r/aww/comments/abc/cat/)"
    );
}

#[test]
fn blog_post_texts() {
    let p = blog_post_from_decoded("https://b/1", "A-B", "thumb.png", "3 comments", "nice!");
    assert_eq!(p.thumb, "thumb.png");
    assert_eq!(p.content, "[A\\-B](https://b/1)\nnice\\!\n3 comments");
    let q = blog_post(Some("https://b/1?a=1&amp;b=2"), Some("A &amp; B"), Some("t.png"), Some("&lt;3"), Some("ok"))
        .ok()
        .expect("post");
    assert_eq!(q.content, "[A & B](https://b/1?a=1&b=2)\nok\n<3");
    assert!(matches!(blog_post(None, Some("t"), Some("t"), Some("c"), Some("c")), Err(Error::Jewtube)));
}

#[test]
fn html_decoding_matches_the_crate() {
    for t in ["&lt;b&gt;", "plain", "a &amp;&amp; b", "&#39;x&#x27;", "&bogus;"] {
        let p = blog_post(Some("u"), Some("t"), Some(t), Some("c"), Some("c")).ok().expect("post");
        assert_eq!(p.thumb, html_escape::decode_html_entities(t));
    }
}

#[test]
fn error_messages() {
    assert_eq!(Error::Shorts.message(), "shorts error");
    assert_eq!(Error::YtDownload.message(), "yt_download error");
    assert_eq!(Error::YtAudio.message(), "yt_audio error");
    assert_eq!(Error::Xkcd.message(), "xkcd error");
    assert_eq!(Error::Ffmpeg.message(), "ffmpeg error");
    assert_eq!(Error::Json.message(), "json error");
    assert_eq!(Error::Generic.message(), "generic error");
    assert_eq!(Error::Reddit.message(), "reddit error");
    assert_eq!(Error::Jewtube.message(), "jewtube error");
    assert_eq!(Error::BadIdFormat.message(), "the provided raw Id does not match any known Id-pattern");
    assert_eq!(Error::InvalidId(s("not an id")).message(), "not an id");
    assert_eq!(Error::ParseInt(IntErrorKind::Empty).message(), "".parse::<u64>().unwrap_err().to_string());
    assert_eq!(Error::ParseInt(IntErrorKind::InvalidDigit).message(), "1x".parse::<u64>().unwrap_err().to_string());
    assert_eq!(Error::ParseInt(IntErrorKind::PosOverflow).message(), "99999999999999999999".parse::<u64>().unwrap_err().to_string());
    let serde_error = serde_json::from_str::<serde_json::Value>("nope").unwrap_err();
    let text = serde_error.to_string();
    assert_eq!(Error::Serde(serde_error).message(), text);
}

#[test]
fn json_escape_text() {
    assert_eq!(json_escape("plain"), "plain");
    assert_eq!(json_escape("a\"b\\c\nd\te\r\u{8}\u{c}\u{1}\u{1f}"), "a\\\"b\\\\c\\nd\\te\\r\\b\\f\\u0001\\u001f");
    for t in ["", "say \"hi\"", "back\\slash", "tab\tline\nend", "ctl\u{0}\u{1b}\u{7f}", "ünïcødé ✓ /"] {
        let quoted = serde_json::to_string(t).unwrap();
        assert_eq!(format!("\"{}\"", json_escape(t)), quoted);
    }
}

#[test]
fn gpt_request_body_reads_back() {
    for t in ["say \"hi\" to C:\\dir", "two\nlines\tand a \u{1} control", "ünïcødé"] {
        match gpt_step(t) {
            GptStep::Request(b) => {
                let v: serde_json::Value = serde_json::from_str(&b).unwrap();
                assert_eq!(v["prompt"], serde_json::Value::String(t.to_string()));
                assert_eq!(v["top_k"].as_u64(), Some(40));
            }
            GptStep::Reply(_) => panic!("expected a request"),
        }
    }
}

const LISTING: &str = r#"<article>.*?</article>"#;
const EXTRACT: &str = r#"<a href="(?P<url>[^"]*)">(?P<title>[^<]*)</a><img src="(?P<thumb>[^"]*)"><p>(?P<caption>[^<]*)</p><span>(?P<comments>[^<]*)</span>"#;

#[test]
fn blog_listings() {
    let one = r#"<article><a href="https://b.log/1?a=1&amp;b=2">Tom &amp; Jerry!</a><img src="https://b.log/t.jpg"><p>so (fun)</p><span>3 comments</span></article>"#;
    let p = post_from_listing(one, EXTRACT).ok().expect("post");
    assert_eq!(p.thumb, "https://b.log/t.jpg");
    assert_eq!(p.content, "[Tom & Jerry\\!](https://b.log/1?a=1&b=2)\nso \\(fun\\)\n3 comments");
    assert!(matches!(post_from_listing("<article>nothing</article>", EXTRACT), Err(Error::Jewtube)));
    let partial = r#"<a href="u">t</a><img src="x"><p>c</p><span>k</span>"#;
    assert!(post_from_listing(partial, EXTRACT).is_ok());
    assert!(matches!(post_from_listing(partial, "(?P<url>u)"), Err(Error::Jewtube)));

    let two = r#"<article><a href="u2">Second</a><img src="t2"><p>c2</p><span>k2</span></article>"#;
    let listings = vec![one.to_string(), two.to_string()];
    assert_eq!(blog_post_at(&listings, 3, EXTRACT).ok().expect("post").thumb, "t2");
    assert_eq!(blog_post_at(&listings, 4, EXTRACT).ok().expect("post").thumb, "https://b.log/t.jpg");

    let page = format!("<html>{}{}</html>", one, two);
    for _ in 0..10 {
        let post = random_blog_post(&page, LISTING, EXTRACT).expect("a listing").ok().expect("post");
        assert!(post.thumb == "t2" || post.thumb == "https://b.log/t.jpg");
    }
    assert!(random_blog_post("<html></html>", LISTING, EXTRACT).is_none());
    assert!(random_blog_post(&page, "(", EXTRACT).is_none());
}
