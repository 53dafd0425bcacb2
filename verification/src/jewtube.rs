//! Blog posts: a listing picked at random from a page, and the thumbnail
//! and MarkdownV2 text of the post, from the HTML-encoded fields of its
//! listing.
use vstd::prelude::*;
use crate::error::Error;
use crate::escape::{escape, escaped};
use crate::pattern::{match_texts, named_group, regex_match_texts, regex_named_group};
use crate::random::random_u64;
use crate::text::push_str;

verus! {

/// A post to send: its thumbnail's address and its text.
pub struct BlogPost {
    pub thumb: String,
    pub content: String,
}

/// The text that `html_escape::decode_html_entities` makes of `text`:
/// named and numeric character references ending in `;` replaced by what
/// they stand for.
pub uninterp spec fn html_decoded(text: Seq<char>) -> Seq<char>;

/// `html_escape::decode_html_entities`, copied into a `String`. Beyond the
/// name, the contract states one fact that the crate's source shows: a text
/// without `&` holds no reference and comes back unchanged.
#[verifier::external_body]
pub(crate) fn decode_entities(text: &str) -> (res: String)
    ensures
        res@ == html_decoded(text@),
        !text@.contains('&') ==> res@ == text@,
{
    html_escape::decode_html_entities(text).into_owned()
}

/// The post's text: the title as a link to the post, the caption, and the
/// comments line.
pub open spec fn post_content_text(url: Seq<char>, title: Seq<char>, caption: Seq<char>, comments: Seq<char>) -> Seq<char> {
    "["@ + escaped(title) + "]("@ + url + ")\n"@ + escaped(caption) + "\n"@ + comments
}

/// The post built from its decoded fields.
pub fn blog_post_from_decoded(url: &str, title: &str, thumb: &str, comments: &str, caption: &str) -> (res: BlogPost)
    ensures
        res.thumb@ == thumb@,
        res.content@ == post_content_text(url@, title@, caption@, comments@),
{
    let mut content = String::from_str("[");
    let t = escape(title);
    push_str(&mut content, t.as_str());
    push_str(&mut content, "](");
    push_str(&mut content, url);
    push_str(&mut content, ")\n");
    let c = escape(caption);
    push_str(&mut content, c.as_str());
    push_str(&mut content, "\n");
    push_str(&mut content, comments);
    BlogPost { thumb: String::from_str(thumb), content }
}

/// The post built from the fields of its listing, each HTML-decoded first;
/// `Jewtube` where a field is missing.
pub fn blog_post(url: Option<&str>, title: Option<&str>, thumb: Option<&str>, comments: Option<&str>, caption: Option<&str>) -> (res: Result<BlogPost, Error>)
    ensures
        (url is None || title is None || thumb is None || comments is None || caption is None)
            ==> res == Err::<BlogPost, Error>(Error::Jewtube),
        (url is Some && title is Some && thumb is Some && comments is Some && caption is Some)
            ==> (res matches Ok(p)
                && p.thumb@ == html_decoded(thumb.unwrap()@)
                && p.content@ == post_content_text(html_decoded(url.unwrap()@), html_decoded(title.unwrap()@),
                    html_decoded(caption.unwrap()@), html_decoded(comments.unwrap()@))),
{
    match (url, title, thumb, comments, caption) {
        (Some(u), Some(t), Some(th), Some(co), Some(ca)) => {
            let u = decode_entities(u);
            let t = decode_entities(t);
            let th = decode_entities(th);
            let co = decode_entities(co);
            let ca = decode_entities(ca);
            Ok(blog_post_from_decoded(u.as_str(), t.as_str(), th.as_str(), co.as_str(), ca.as_str()))
        },
        _ => Err(Error::Jewtube),
    }
}

/// A field of a listing: the text of the group called `name` where the
/// listing matches `extract`, HTML-decoded; `None` where it does not match
/// or the group took no part.
pub open spec fn listing_field(extract: Seq<char>, listing: Seq<char>, name: Seq<char>) -> Option<Seq<char>> {
    match regex_named_group(extract, listing, name) {
        Some(Some(t)) => Some(html_decoded(t)),
        _ => None,
    }
}

/// The listing has every field that a post needs.
pub open spec fn listing_complete(extract: Seq<char>, listing: Seq<char>) -> bool {
    &&& listing_field(extract, listing, "url"@) is Some
    &&& listing_field(extract, listing, "title"@) is Some
    &&& listing_field(extract, listing, "thumb"@) is Some
    &&& listing_field(extract, listing, "comments"@) is Some
    &&& listing_field(extract, listing, "caption"@) is Some
}

/// `res` is the post built from `listing`: the thumbnail and the text made
/// of its fields where it has them all, else the `Jewtube` error.
pub open spec fn post_of_listing(res: Result<BlogPost, Error>, extract: Seq<char>, listing: Seq<char>) -> bool {
    if listing_complete(extract, listing) {
        res matches Ok(p)
            && p.thumb@ == listing_field(extract, listing, "thumb"@).unwrap()
            && p.content@ == post_content_text(
                listing_field(extract, listing, "url"@).unwrap(),
                listing_field(extract, listing, "title"@).unwrap(),
                listing_field(extract, listing, "caption"@).unwrap(),
                listing_field(extract, listing, "comments"@).unwrap(),
            )
    } else {
        res == Err::<BlogPost, Error>(Error::Jewtube)
    }
}

fn listing_field_text(extract: &str, listing: &str, name: &str) -> (res: Option<String>)
    ensures
        res matches Some(t) ==> listing_field(extract@, listing@, name@) == Some(t@),
        res is None ==> listing_field(extract@, listing@, name@) is None,
{
    match named_group(extract, listing, name) {
        Some(Some(t)) => Some(decode_entities(t.as_str())),
        _ => None,
    }
}

/// The post that one listing of the page describes, its fields read by the
/// named groups `url`, `title`, `thumb`, `comments` and `caption` of
/// `extract`.
pub fn post_from_listing(listing: &str, extract: &str) -> (res: Result<BlogPost, Error>)
    ensures
        post_of_listing(res, extract@, listing@),
{
    proof {
        reveal_strlit("url");
        reveal_strlit("title");
        reveal_strlit("thumb");
        reveal_strlit("comments");
        reveal_strlit("caption");
    }
    let url = listing_field_text(extract, listing, "url");
    let title = listing_field_text(extract, listing, "title");
    let thumb = listing_field_text(extract, listing, "thumb");
    let comments = listing_field_text(extract, listing, "comments");
    let caption = listing_field_text(extract, listing, "caption");
    match (url, title, thumb, comments, caption) {
        (Some(u), Some(t), Some(th), Some(co), Some(ca)) => Ok(blog_post_from_decoded(
            u.as_str(), t.as_str(), th.as_str(), co.as_str(), ca.as_str())),
        _ => Err(Error::Jewtube),
    }
}

/// The post of the listing that a random number `r` picks among the
/// page's listings: the `r % n`-th of the `n`.
pub fn blog_post_at(listings: &Vec<String>, r: u64, extract: &str) -> (res: Result<BlogPost, Error>)
    requires
        listings.len() > 0,
    ensures
        post_of_listing(res, extract@, listings@[(r % (listings.len() as u64)) as int]@),
{
    let n = r % (listings.len() as u64);
    post_from_listing(listings[n as usize].as_str(), extract)
}

/// A random post of the page: its listings are the matches of `listing`,
/// and one of them, picked at random, is read by `extract`. `None` where
/// the page has no listing or `listing` is no pattern, where no post can be
/// picked.
pub fn random_blog_post(page: &str, listing: &str, extract: &str) -> (res: Option<Result<BlogPost, Error>>)
    ensures
        res is Some <==> (regex_match_texts(listing@, page@) matches Some(ls) && ls.len() > 0),
        res matches Some(x) ==> exists|r: u64| #![trigger r % (regex_match_texts(listing@, page@).unwrap().len() as u64)]
            post_of_listing(x, extract@,
                regex_match_texts(listing@, page@).unwrap()[(r % (regex_match_texts(listing@, page@).unwrap().len() as u64)) as int]),
{
    match match_texts(listing, page) {
        None => None,
        Some(listings) => {
            if listings.len() == 0 {
                None
            } else {
                let r = random_u64();
                let res = blog_post_at(&listings, r, extract);
                proof {
                    let ls = regex_match_texts(listing@, page@).unwrap();
                    assert(listings@[(r % (listings.len() as u64)) as int]@ == ls[(r % (ls.len() as u64)) as int]);
                }
                Some(res)
            }
        },
    }
}

} // verus!
