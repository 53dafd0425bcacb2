//! Urban Dictionary: the query, and the caption of a definition.
use vstd::prelude::*;
use crate::escape::{escape, escaped};
use crate::number::{decimal, push_decimal};
use crate::text::push_str;

verus! {

/// A definition as the dictionary gives it.
pub struct Definition {
    pub definition: String,
    pub example: String,
    pub permalink: String,
    pub thumbs_up: usize,
    pub thumbs_down: usize,
}

/// The address that looks up `term`.
pub fn urban_url(term: &str) -> (res: String)
    ensures
        res@ == "https://api.urbandictionary.com/v0/define?term="@ + term@,
{
    let mut out = String::from_str("https://api.urbandictionary.com/v0/define?term=");
    push_str(&mut out, term);
    out
}

/// A definition's caption: the definition, the example, the votes and the
/// link.
pub open spec fn definition_caption_text(d: Definition) -> Seq<char> {
    "*Definition:*\n"@ + escaped(d.definition@) + "\n\n*Example:*\n"@ + escaped(d.example@) + "\nScore: "@
        + decimal(d.thumbs_up as nat) + "\\-"@ + decimal(d.thumbs_down as nat) + "\n[Permalink]("@ + d.permalink@ + ")"@
}

pub fn definition_caption(d: &Definition) -> (res: String)
    ensures
        res@ == definition_caption_text(*d),
{
    let mut out = String::from_str("*Definition:*\n");
    let t = escape(d.definition.as_str());
    push_str(&mut out, t.as_str());
    push_str(&mut out, "\n\n*Example:*\n");
    let e = escape(d.example.as_str());
    push_str(&mut out, e.as_str());
    push_str(&mut out, "\nScore: ");
    push_decimal(&mut out, d.thumbs_up as u64);
    push_str(&mut out, "\\-");
    push_decimal(&mut out, d.thumbs_down as u64);
    push_str(&mut out, "\n[Permalink](");
    push_str(&mut out, d.permalink.as_str());
    push_str(&mut out, ")");
    out
}

} // verus!
