//! YouTube shorts: the list of shorts on the hashtag page, the one picked,
//! and its caption.
use vstd::prelude::*;
use crate::error::Error;
use crate::escape::{escape, escaped};
use crate::json::{field_of, json_array_len, json_field, json_item, json_model, json_parsed, json_text, parse_json, text_of, JsonModel};
use crate::number::{decimal, push_decimal};
use crate::pattern::{captures, captures_view, group_view, regex_captures};
use crate::random::{pick_index, random_u64};
use crate::text::push_str;

verus! {

/// Finds the JSON of the shorts grid on the hashtag page.
pub const RE_SHORTS: &'static str = "\"content\":\\{\"richGridRenderer\":(.*?)},\"tabIdentifier\":";

/// The JSON text of the grid: the first group of the match, where there is
/// one.
pub open spec fn grid_json_spec(caps: Option<Seq<Option<Seq<char>>>>) -> Option<Seq<char>> {
    match caps {
        Some(c) => if c.len() > 1 && c[1] is Some { c[1] } else { None },
        None => None,
    }
}

pub fn grid_json_from_captures(caps: Option<Vec<Option<String>>>) -> (res: Result<String, Error>)
    ensures
        grid_json_spec(captures_view(caps)) matches Some(j) ==> (res matches Ok(s) && s@ == j),
        grid_json_spec(captures_view(caps)) is None ==> res == Err::<String, Error>(Error::Shorts),
{
    match caps {
        None => Err(Error::Shorts),
        Some(c) => {
            if c.len() > 1 {
                match &c[1] {
                    Some(g) => Ok(g.clone()),
                    None => Err(Error::Shorts),
                }
            } else {
                Err(Error::Shorts)
            }
        },
    }
}

/// The JSON text of the shorts grid on the hashtag page.
pub fn grid_json(page: &str) -> (res: Result<String, Error>)
    ensures
        grid_json_spec(regex_captures(RE_SHORTS@, page@)) matches Some(j) ==> (res matches Ok(s) && s@ == j),
        grid_json_spec(regex_captures(RE_SHORTS@, page@)) is None ==> res == Err::<String, Error>(Error::Shorts),
{
    grid_json_from_captures(captures(RE_SHORTS, page))
}

/// The video id of an item of the grid, where it has one.
pub open spec fn video_id_of(item: JsonModel) -> Option<Seq<char>> {
    text_of(field_of(field_of(field_of(field_of(item, "richItemRenderer"@), "content"@), "videoRenderer"@), "videoId"@))
}

pub open spec fn id_views(v: Seq<Option<String>>) -> Seq<Option<Seq<char>>> {
    v.map_values(|o: Option<String>| group_view(o))
}

/// The items of the grid, each by its video id, where the grid has a
/// `contents` array.
pub open spec fn grid_items_spec(m: JsonModel) -> Option<Seq<Option<Seq<char>>>> {
    match field_of(m, "contents"@) {
        JsonModel::List(items) => Some(items.map_values(|i: JsonModel| video_id_of(i))),
        _ => None,
    }
}

/// Reads the grid's items from its JSON text. JSON that does not parse
/// gives `serde_json`'s error; a grid without a `contents` array is a
/// `Shorts` error.
pub fn grid_items(json: &str) -> (res: Result<Vec<Option<String>>, Error>)
    ensures
        json_parsed(json@) is None ==> (res matches Err(e) && e is Serde),
        json_parsed(json@) matches Some(m) ==> (grid_items_spec(m) matches Some(ids)
            ==> (res matches Ok(v) && id_views(v@) == ids)),
        json_parsed(json@) matches Some(m) ==> (grid_items_spec(m) is None
            ==> res == Err::<Vec<Option<String>>, Error>(Error::Shorts)),
{
    let parsed = parse_json(json);
    let value = match parsed {
        Ok(v) => v,
        Err(e) => return Err(Error::from(e)),
    };
    let v = &value;
    let list = json_field(v, "contents");
    let n = match json_array_len(list) {
        Some(n) => n,
        None => return Err(Error::Shorts),
    };
    let ghost items = match json_model(*list) {
        JsonModel::List(items) => items,
        _ => Seq::empty(),
    };
    let mut out: Vec<Option<String>> = Vec::new();
    let mut i: usize = 0;
    while i < n
        invariant
            i <= n,
            json_model(*list) == JsonModel::List(items),
            n == items.len(),
            id_views(out@) == items.take(i as int).map_values(|it: JsonModel| video_id_of(it)),
        decreases n - i,
    {
        let item = json_item(list, i);
        let a = json_field(item, "richItemRenderer");
        let b = json_field(a, "content");
        let c = json_field(b, "videoRenderer");
        let d = json_field(c, "videoId");
        let id = json_text(d);
        proof {
            assert(json_model(*item) == items[i as int]);
            let idv: Option<Seq<char>> = group_view(id);
            assert(idv == video_id_of(items[i as int]));
        }
        let ghost before = out@;
        out.push(id);
        proof {
            assert(id_views(out@) =~= id_views(before).push(group_view(id)));
            assert(items.take(i + 1).map_values(|it: JsonModel| video_id_of(it)) =~= items.take(i as int).map_values(|it: JsonModel| video_id_of(it)).push(video_id_of(items[i as int])));
        }
        i = i + 1;
    }
    proof {
        assert(items.take(n as int) =~= items);
    }
    Ok(out)
}

/// The short that a random number `r` picks: the grid's items are indexed
/// by `r` modulo their number; an item without a video id is a `Shorts`
/// error.
pub fn pick_short(items: &Vec<Option<String>>, r: u64) -> (res: Result<String, Error>)
    requires
        items@.len() > 0,
    ensures
        (match items@[r as int % items@.len() as int] {
            Some(id) => res matches Ok(s) && s@ == id@,
            None => res == Err::<String, Error>(Error::Shorts),
        }),
{
    let k = pick_index(r, items.len());
    match &items[k] {
        Some(id) => Ok(id.clone()),
        None => Err(Error::Shorts),
    }
}

/// The caption of a short: title in bold, view count, and a link to the
/// channel.
pub open spec fn short_caption_text(title: Seq<char>, view_count: nat, author: Seq<char>, channel_id: Seq<char>) -> Seq<char> {
    "*"@ + escaped(title) + "*\n`View count: "@ + decimal(view_count) + "`\nSource: ["@ + escaped(author)
        + "](https://www.youtube.com/channel/"@ + channel_id + ")\n"@
}

pub fn short_caption(title: &str, view_count: u64, author: &str, channel_id: &str) -> (res: String)
    ensures
        res@ == short_caption_text(title@, view_count as nat, author@, channel_id@),
{
    let mut out = String::from_str("*");
    let t = escape(title);
    push_str(&mut out, t.as_str());
    push_str(&mut out, "*\n`View count: ");
    push_decimal(&mut out, view_count);
    push_str(&mut out, "`\nSource: [");
    let a = escape(author);
    push_str(&mut out, a.as_str());
    push_str(&mut out, "](https://www.youtube.com/channel/");
    push_str(&mut out, channel_id);
    push_str(&mut out, ")\n");
    out
}

/// Picks one of the grid's items at random; an item without a video id
/// is a `Shorts` error.
pub fn pick_random_short(items: &Vec<Option<String>>) -> (res: Result<String, Error>)
    requires
        items@.len() > 0,
    ensures
        exists|k: int| 0 <= k < items@.len() && (match #[trigger] items@[k] {
            Some(id) => res matches Ok(s) && s@ == id@,
            None => res == Err::<String, Error>(Error::Shorts),
        }),
{
    let r = random_u64();
    let res = pick_short(items, r);
    proof {
        let k = r as int % items@.len() as int;
        assert(0 <= k < items@.len());
    }
    res
}

} // verus!
