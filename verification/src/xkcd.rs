//! xkcd comics: the page to fetch, and the comic read from it.
use vstd::prelude::*;
use crate::error::Error;
use crate::escape::{escape, escaped, lemma_escaped_is_safe, shows_plainly};
use crate::number::{decimal, push_decimal, read_u64, read_u64_spec};
use crate::pattern::{captures, captures_view, regex_captures};
use crate::random::random_u64;
use crate::text::push_str;

verus! {

/// A comic to send: the image address, and the caption (the title).
pub struct Comic {
    pub comic_url: String,
    pub title: String,
}

/// Finds the image and its alt text on a comic's page.
pub const RE_XKCD: &'static str = "<div id=\"comic\">\n<img src=\"(.*?)\" title=\".*?\" alt=\"(.*?)\"";

/// Finds the number of the latest comic on the home page.
pub const RE_EXTRACT_XKCD: &'static str = "Permanent link to this comic: (?:<a href=\"[^\"]*\">)?https://xkcd\\.com/(\\d+)/";

/// The address of the page of comic `number`.
pub open spec fn comic_page_text(number: Seq<char>) -> Seq<char> {
    "https://xkcd.com/"@ + number + "/"@
}

pub fn comic_page_url(number: &str) -> (res: String)
    ensures
        res@ == comic_page_text(number@),
{
    let mut out = String::from_str("https://xkcd.com/");
    push_str(&mut out, number);
    push_str(&mut out, "/");
    out
}

/// The comic that a random number `r` picks among comics 1 to `latest`;
/// comic 404 does not exist, and 400 is taken in its place.
pub open spec fn random_comic_spec(latest: u64, r: u64) -> u64 {
    if 1 + r % latest == 404 { 400 } else { (1 + r % latest) as u64 }
}

pub fn random_comic_number(latest: u64, r: u64) -> (res: u64)
    requires
        latest > 0,
    ensures
        res == random_comic_spec(latest, r),
{
    let n = 1 + r % latest;
    if n == 404 { 400 } else { n }
}

/// The comic picked at random exists: it is one of comics 1 to `latest`,
/// and never 404.
pub proof fn lemma_random_comic_exists(latest: u64, r: u64)
    requires
        latest > 0,
    ensures
        random_comic_spec(latest, r) != 404,
        1 <= random_comic_spec(latest, r) <= latest,
{
}

/// The address of a random comic's page, given the latest comic's number.
pub fn random_comic_url(latest: u64, r: u64) -> (res: String)
    requires
        latest > 0,
    ensures
        res@ == comic_page_text(decimal(random_comic_spec(latest, r) as nat)),
{
    let n = random_comic_number(latest, r);
    let mut out = String::from_str("https://xkcd.com/");
    push_decimal(&mut out, n);
    push_str(&mut out, "/");
    out
}

/// The latest comic's number as the home page's captures give it: the
/// match must have exactly one group besides the whole, and that group must
/// read as a number; when it does not, the reason is std's own.
pub open spec fn latest_from_captures_spec(caps: Option<Seq<Option<Seq<char>>>>) -> Result<u64, Error> {
    match caps {
        Some(c) => if c.len() == 2 && c[1] is Some {
            match read_u64_spec(c[1].unwrap()) {
                Ok(n) => Ok(n),
                Err(kind) => Err(Error::ParseInt(kind)),
            }
        } else {
            Err(Error::Xkcd)
        },
        None => Err(Error::Xkcd),
    }
}

pub fn latest_from_captures(caps: Option<Vec<Option<String>>>) -> (res: Result<u64, Error>)
    ensures
        res == latest_from_captures_spec(captures_view(caps)),
{
    match caps {
        None => Err(Error::Xkcd),
        Some(c) => {
            if c.len() != 2 {
                return Err(Error::Xkcd);
            }
            match &c[1] {
                None => Err(Error::Xkcd),
                Some(g) => match read_u64(g.as_str()) {
                    Ok(n) => Ok(n),
                    Err(kind) => Err(Error::ParseInt(kind)),
                },
            }
        },
    }
}

/// The latest comic's number, read from the home page.
pub fn latest_comic_number(home: &str) -> (res: Result<u64, Error>)
    ensures
        res == latest_from_captures_spec(regex_captures(RE_EXTRACT_XKCD@, home@)),
{
    latest_from_captures(captures(RE_EXTRACT_XKCD, home))
}

/// The comic's caption: its title in bold, then a line break.
pub open spec fn comic_title_text(title: Seq<char>) -> Seq<char> {
    "*"@ + escaped(title) + "*\n"@
}

/// A comic's caption shows its title in bold and nothing else: it is `*`,
/// then a MarkdownV2 text in which every reserved character is escaped and
/// which reads back as exactly the title, then `*` and a line break.
pub proof fn lemma_comic_caption_shows_title(title: Seq<char>)
    ensures
        comic_title_text(title).len() >= 3,
        comic_title_text(title)[0] == '*',
        comic_title_text(title)[comic_title_text(title).len() - 2] == '*',
        comic_title_text(title)[comic_title_text(title).len() - 1] == '\n',
        shows_plainly(comic_title_text(title).subrange(1, comic_title_text(title).len() - 2), title),
{
    reveal_strlit("*");
    reveal_strlit("*\n");
    let c = comic_title_text(title);
    lemma_escaped_is_safe(title);
    assert(c.subrange(1, c.len() - 2) =~= escaped(title));
}

/// The comic as a page's captures give it: exactly two groups besides the
/// whole, the image address (completed with `https:`) and the title.
pub open spec fn comic_ok(caps: Option<Seq<Option<Seq<char>>>>) -> bool {
    caps matches Some(c) && c.len() == 3 && c[1] is Some && c[2] is Some
}

pub fn comic_from_captures(caps: Option<Vec<Option<String>>>) -> (res: Result<Comic, Error>)
    ensures
        comic_ok(captures_view(caps)) ==> (res matches Ok(comic)
            && comic.comic_url@ == "https:"@ + captures_view(caps).unwrap()[1].unwrap()
            && comic.title@ == comic_title_text(captures_view(caps).unwrap()[2].unwrap())),
        !comic_ok(captures_view(caps)) ==> res == Err::<Comic, Error>(Error::Xkcd),
{
    match caps {
        None => Err(Error::Xkcd),
        Some(c) => {
            if c.len() != 3 {
                return Err(Error::Xkcd);
            }
            match (&c[1], &c[2]) {
                (Some(url), Some(title)) => {
                    let mut comic_url = String::from_str("https:");
                    push_str(&mut comic_url, url.as_str());
                    let mut caption = String::from_str("*");
                    let t = escape(title.as_str());
                    push_str(&mut caption, t.as_str());
                    push_str(&mut caption, "*\n");
                    Ok(Comic { comic_url, title: caption })
                },
                _ => Err(Error::Xkcd),
            }
        },
    }
}

/// The comic shown on a comic's page.
pub fn comic_from_page(page: &str) -> (res: Result<Comic, Error>)
    ensures
        comic_ok(regex_captures(RE_XKCD@, page@)) ==> (res matches Ok(comic)
            && comic.comic_url@ == "https:"@ + regex_captures(RE_XKCD@, page@).unwrap()[1].unwrap()
            && comic.title@ == comic_title_text(regex_captures(RE_XKCD@, page@).unwrap()[2].unwrap())),
        !comic_ok(regex_captures(RE_XKCD@, page@)) ==> res == Err::<Comic, Error>(Error::Xkcd),
{
    comic_from_captures(captures(RE_XKCD, page))
}

/// The address of a random comic's page, given the latest comic's number.
pub fn random_comic_page(latest: u64) -> (res: String)
    requires
        latest > 0,
    ensures
        exists|r: u64| res@ == comic_page_text(decimal(#[trigger] random_comic_spec(latest, r) as nat)),
{
    random_comic_url(latest, random_u64())
}

} // verus!
