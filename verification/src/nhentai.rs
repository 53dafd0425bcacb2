//! nhentai: which doujin a query asks for, which ones are filtered out, and
//! the caption of the one sent.
use vstd::prelude::*;
use crate::error::{no_title_error, unsupported_hentai_error, Error};
use crate::escape::{escape, escaped};
use crate::json::{field_of, json_array_len, json_field, json_item, json_model, json_parsed, json_text, parse_json, text_of, JsonModel};
use crate::number::{decimal, parse_u32, parse_u32_spec, push_decimal};
use crate::text::push_str;

verus! {

/// A doujin to send: its thumbnail's address and the caption.
pub struct PrintHentai {
    pub thumb: String,
    pub caption: String,
}

/// A tag of a doujin.
pub struct HentaiTag {
    pub name: String,
    pub url: String,
}

/// What the bot reads of a doujin.
pub struct HentaiInfo {
    pub id: u32,
    pub url: String,
    pub pretty_title: Option<String>,
    pub num_pages: u32,
    pub tags: Vec<HentaiTag>,
    pub thumbnail_url: String,
}

/// What a query asks for: a random doujin (empty query), the doujin with a
/// number, or a random doujin with a tag.
pub enum NhentaiQuery {
    Random,
    ById(u32),
    Tag(String),
}

/// Reads the user's query.
pub fn nhentai_query(s: &str) -> (res: NhentaiQuery)
    ensures
        s@.len() == 0 ==> res is Random,
        s@.len() > 0 && parse_u32_spec(s@) is Some ==> res == NhentaiQuery::ById(parse_u32_spec(s@).unwrap()),
        s@.len() > 0 && parse_u32_spec(s@) is None ==> (res matches NhentaiQuery::Tag(t) && t@ == s@),
{
    if s.is_empty() {
        NhentaiQuery::Random
    } else {
        match parse_u32(s) {
            Some(n) => NhentaiQuery::ById(n),
            None => NhentaiQuery::Tag(String::from_str(s)),
        }
    }
}

/// The strings among JSON values, in order; other values are left out.
pub open spec fn json_strings(s: Seq<JsonModel>) -> Seq<Seq<char>>
    decreases s.len(),
{
    if s.len() == 0 {
        Seq::empty()
    } else {
        let rest = json_strings(s.drop_last());
        match text_of(s.last()) {
            Some(t) => rest.push(t),
            None => rest,
        }
    }
}

pub open spec fn texts(v: Seq<String>) -> Seq<Seq<char>> {
    v.map_values(|s: String| s@)
}

/// The filter list that a filter file holds: the strings of its `filters`
/// array, where it has one.
pub open spec fn filters_spec(m: JsonModel) -> Option<Seq<Seq<char>>> {
    match field_of(m, "filters"@) {
        JsonModel::List(items) => Some(json_strings(items)),
        _ => None,
    }
}

/// Reads the filter list from the text of the filter file. Text that is
/// not JSON gives `serde_json`'s error; a file without a `filters` array is
/// a `Json` error.
pub fn filters_from_json(text: &str) -> (res: Result<Vec<String>, Error>)
    ensures
        json_parsed(text@) is None ==> (res matches Err(e) && e is Serde),
        json_parsed(text@) matches Some(m) ==> (filters_spec(m) is None
            ==> res == Err::<Vec<String>, Error>(Error::Json)),
        json_parsed(text@) matches Some(m) ==> (filters_spec(m) matches Some(f)
            ==> (res matches Ok(v) && texts(v@) == f)),
{
    let parsed = parse_json(text);
    let value = match parsed {
        Ok(v) => v,
        Err(e) => return Err(Error::from(e)),
    };
    let v = &value;
    let list = json_field(v, "filters");
    let n = match json_array_len(list) {
        Some(n) => n,
        None => return Err(Error::Json),
    };
    let ghost items = match json_model(*list) {
        JsonModel::List(items) => items,
        _ => Seq::empty(),
    };
    let mut out: Vec<String> = Vec::new();
    let mut i: usize = 0;
    while i < n
        invariant
            i <= n,
            json_model(*list) == JsonModel::List(items),
            n == items.len(),
            texts(out@) == json_strings(items.take(i as int)),
        decreases n - i,
    {
        proof {
            assert(items.take(i + 1).drop_last() =~= items.take(i as int));
        }
        let item = json_item(list, i);
        let ghost before = out@;
        match json_text(item) {
            Some(t) => {
                out.push(t);
                proof {
                    assert(texts(out@) =~= texts(before).push(t@));
                }
            },
            None => {},
        }
        i = i + 1;
    }
    proof {
        assert(items.take(n as int) =~= items);
    }
    Ok(out)
}

/// Some tag of the doujin is on the filter list.
pub open spec fn filtered(tags: Seq<HentaiTag>, filters: Seq<String>) -> bool {
    exists|i: int, j: int| 0 <= i < tags.len() && 0 <= j < filters.len() && #[trigger] tags[i].name@ == #[trigger] filters[j]@
}

/// Some tag of the doujin is named `name`.
pub open spec fn has_tag_spec(tags: Seq<HentaiTag>, name: Seq<char>) -> bool {
    exists|i: int| 0 <= i < tags.len() && #[trigger] tags[i].name@ == name
}

/// Whether a doujin has a tag named `name`.
pub fn has_tag(tags: &Vec<HentaiTag>, name: &String) -> (res: bool)
    ensures
        res == has_tag_spec(tags@, name@),
{
    let mut i: usize = 0;
    while i < tags.len()
        invariant
            i <= tags@.len(),
            forall|k: int| 0 <= k < i ==> #[trigger] tags@[k].name@ != name@,
        decreases tags@.len() - i,
    {
        if tags[i].name == *name {
            return true;
        }
        i = i + 1;
    }
    false
}

/// A doujin has a tag exactly when one of its tags, at any position, has
/// that name.
pub proof fn lemma_has_tag_anywhere(tags: Seq<HentaiTag>, name: Seq<char>, i: int)
    ensures
        0 <= i < tags.len() && tags[i].name@ == name ==> has_tag_spec(tags, name),
        !has_tag_spec(tags, name) ==> forall|k: int| 0 <= k < tags.len() ==> #[trigger] tags[k].name@ != name,
{
}

/// A tag search accepts every doujin that has the tag at any position of
/// its tag list, whatever tries it has left; one without the tag is never
/// accepted.
pub proof fn lemma_tag_search_accepts_tagged(tags: Seq<HentaiTag>, name: Seq<char>, tries: i32, i: int)
    ensures
        0 <= i < tags.len() && tags[i].name@ == name ==> tag_step_spec(tries, has_tag_spec(tags, name)) is Accept,
        (forall|k: int| 0 <= k < tags.len() ==> #[trigger] tags[k].name@ != name)
            ==> !(tag_step_spec(tries, has_tag_spec(tags, name)) is Accept),
{
}

/// A doujin is filtered out exactly when one of its tags, at any position,
/// is on the filter list.
pub proof fn lemma_filtered_anywhere(tags: Seq<HentaiTag>, filters: Seq<String>, i: int, j: int)
    ensures
        0 <= i < tags.len() && 0 <= j < filters.len() && tags[i].name@ == filters[j]@ ==> filtered(tags, filters),
        !filtered(tags, filters) ==> forall|a: int, b: int| 0 <= a < tags.len() && 0 <= b < filters.len()
            ==> #[trigger] tags[a].name@ != #[trigger] filters[b]@,
{
}

/// Whether a doujin is filtered out.
pub fn is_filtered(tags: &Vec<HentaiTag>, filters: &Vec<String>) -> (res: bool)
    ensures
        res == filtered(tags@, filters@),
{
    let mut j: usize = 0;
    while j < filters.len()
        invariant
            j <= filters@.len(),
            forall|i: int, k: int| 0 <= i < tags@.len() && 0 <= k < j ==> #[trigger] tags@[i].name@ != #[trigger] filters@[k]@,
        decreases filters@.len() - j,
    {
        if has_tag(tags, &filters[j]) {
            return true;
        }
        j = j + 1;
    }
    false
}

/// How many more unmatched doujins a tag search looks at after the first.
pub const TAG_SEARCH_TRIES: i32 = 5;

/// What a tag search does after looking at one random doujin.
pub enum TagSearchStep {
    /// The doujin has the tag: send it.
    Accept,
    /// Look at another one, with this many tries left.
    Retry(i32),
    /// No tries are left.
    GiveUp,
}

/// The step of a tag search that has `tries` tries left and has just seen
/// a doujin that has the tag (`matched`) or not.
pub open spec fn tag_step_spec(tries: i32, matched: bool) -> TagSearchStep {
    if matched {
        TagSearchStep::Accept
    } else if tries <= 0 {
        TagSearchStep::GiveUp
    } else {
        TagSearchStep::Retry((tries - 1) as i32)
    }
}

/// Decides the next step of a tag search.
pub fn tag_search_step(tries: i32, matched: bool) -> (res: TagSearchStep)
    ensures
        res == tag_step_spec(tries, matched),
{
    if matched {
        TagSearchStep::Accept
    } else if tries <= 0 {
        TagSearchStep::GiveUp
    } else {
        TagSearchStep::Retry(tries - 1)
    }
}

/// What a random search looks for.
pub enum SearchMode {
    /// Any doujin none of whose tags is on the filter list.
    AvoidFiltered,
    /// A doujin with this tag.
    WithTag(String),
}

/// A search through random doujins, with the tries it has left.
pub struct Search {
    pub mode: SearchMode,
    pub tries: i32,
}

/// What the search does with the doujin it has just fetched.
pub enum SearchAction {
    Accept,
    FetchAnother,
    GiveUp,
}

/// The search that an empty query starts.
pub fn search_avoiding_filters() -> (res: Search)
    ensures
        res.mode is AvoidFiltered,
        res.tries == TAG_SEARCH_TRIES,
{
    Search { mode: SearchMode::AvoidFiltered, tries: TAG_SEARCH_TRIES }
}

/// The search that a tag query starts.
pub fn search_for_tag(tag: String) -> (res: Search)
    ensures
        res.mode == SearchMode::WithTag(tag),
        res.tries == TAG_SEARCH_TRIES,
{
    Search { mode: SearchMode::WithTag(tag), tries: TAG_SEARCH_TRIES }
}

impl Search {
    /// Decides on a fetched doujin with these tags. A search that avoids
    /// filtered doujins takes the first unfiltered one and never gives up;
    /// a tag search follows `tag_search_step`.
    pub fn on_candidate(&mut self, tags: &Vec<HentaiTag>, filters: &Vec<String>) -> (res: SearchAction)
        ensures
            final(self).mode == old(self).mode,
            old(self).mode is AvoidFiltered ==> final(self).tries == old(self).tries
                && (filtered(tags@, filters@) ==> res is FetchAnother)
                && (!filtered(tags@, filters@) ==> res is Accept),
            old(self).mode matches SearchMode::WithTag(t) ==> match tag_step_spec(old(self).tries, has_tag_spec(tags@, t@)) {
                TagSearchStep::Accept => res is Accept && final(self).tries == old(self).tries,
                TagSearchStep::Retry(n) => res is FetchAnother && final(self).tries == n,
                TagSearchStep::GiveUp => res is GiveUp && final(self).tries == old(self).tries,
            },
    {
        match &self.mode {
            SearchMode::AvoidFiltered => {
                if is_filtered(tags, filters) {
                    SearchAction::FetchAnother
                } else {
                    SearchAction::Accept
                }
            },
            SearchMode::WithTag(t) => {
                let matched = has_tag(tags, t);
                match tag_search_step(self.tries, matched) {
                    TagSearchStep::Accept => SearchAction::Accept,
                    TagSearchStep::Retry(n) => {
                        self.tries = n;
                        SearchAction::FetchAnother
                    },
                    TagSearchStep::GiveUp => SearchAction::GiveUp,
                }
            },
        }
    }
}

/// One link per tag, each followed by a space.
pub open spec fn tags_text(tags: Seq<HentaiTag>) -> Seq<char>
    decreases tags.len(),
{
    if tags.len() == 0 {
        Seq::empty()
    } else {
        tags_text(tags.drop_last()) + "["@ + escaped(tags.last().name@) + "](https://nhentai.net"@
            + tags.last().url@ + ") "@
    }
}

/// The caption of a doujin with the given title.
pub open spec fn hentai_caption_text(info: HentaiInfo, title: Seq<char>) -> Seq<char> {
    "*"@ + escaped(title) + "*\nSauce: ["@ + decimal(info.id as nat) + "]("@ + info.url@
        + ")\nNumber of pages: "@ + decimal(info.num_pages as nat) + "\nTags:\n"@ + tags_text(info.tags@)
}

/// The doujin to send: its thumbnail, and a caption with its title, number,
/// page count and tags. A doujin without a pretty title is an error.
pub fn print_hentai(info: &HentaiInfo) -> (res: Result<PrintHentai, Error>)
    ensures
        info.pretty_title is None ==> res == Err::<PrintHentai, Error>(Error::Hentai(no_title_error())),
        info.pretty_title matches Some(t) ==> (res matches Ok(p)
            && p.thumb@ == info.thumbnail_url@
            && p.caption@ == hentai_caption_text(*info, t@)),
{
    match &info.pretty_title {
        None => Err(Error::Hentai(unsupported_hentai_error())),
        Some(title) => {
            let mut caption = String::from_str("*");
            let t = escape(title.as_str());
            push_str(&mut caption, t.as_str());
            push_str(&mut caption, "*\nSauce: [");
            push_decimal(&mut caption, info.id as u64);
            push_str(&mut caption, "](");
            push_str(&mut caption, info.url.as_str());
            push_str(&mut caption, ")\nNumber of pages: ");
            push_decimal(&mut caption, info.num_pages as u64);
            push_str(&mut caption, "\nTags:\n");
            let ghost head = caption@;
            let mut i: usize = 0;
            while i < info.tags.len()
                invariant
                    i <= info.tags@.len(),
                    caption@ == head + tags_text(info.tags@.take(i as int)),
                decreases info.tags@.len() - i,
            {
                proof {
                    assert(info.tags@.take(i + 1).drop_last() =~= info.tags@.take(i as int));
                }
                let tag = &info.tags[i];
                push_str(&mut caption, "[");
                let n = escape(tag.name.as_str());
                push_str(&mut caption, n.as_str());
                push_str(&mut caption, "](https://nhentai.net");
                push_str(&mut caption, tag.url.as_str());
                push_str(&mut caption, ") ");
                i = i + 1;
            }
            proof {
                assert(info.tags@.take(info.tags@.len() as int) =~= info.tags@);
            }
            Ok(PrintHentai { thumb: info.thumbnail_url.clone(), caption })
        },
    }
}

/// The tries left after `k` doujins without the tag, or `None` where the
/// search gave up on one of them.
pub open spec fn tries_after_misses(tries: i32, k: nat) -> Option<i32>
    decreases k,
{
    if k == 0 {
        Some(tries)
    } else {
        match tries_after_misses(tries, (k - 1) as nat) {
            Some(t) => match tag_step_spec(t, false) {
                TagSearchStep::Retry(t2) => Some(t2),
                _ => None,
            },
            None => None,
        }
    }
}

/// A tag search that starts with `tries` tries looks at `tries + 1`
/// doujins without the tag, and gives up on the last of them.
pub proof fn lemma_tag_search_gives_up(tries: i32, k: nat)
    requires
        tries >= 0,
    ensures
        k <= tries ==> tries_after_misses(tries, k) == Some((tries - k) as i32),
        k > tries ==> tries_after_misses(tries, k) is None,
    decreases k,
{
    if k > 0 {
        lemma_tag_search_gives_up(tries, (k - 1) as nat);
    }
}

} // verus!
