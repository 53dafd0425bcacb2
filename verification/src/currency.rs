//! Currency conversion: the query, and the caption of the rates.
use vstd::prelude::*;
use crate::escape::{escape, escaped, lemma_escaped_is_safe, shows_plainly};
use crate::text::push_str;

verus! {

/// The decimal texts of the converted amounts, one per currency.
pub struct RateTexts {
    pub usd: String,
    pub eur: String,
    pub jpy: String,
    pub gbp: String,
    pub aud: String,
    pub cad: String,
    pub chf: String,
    pub ron: String,
    pub btc: String,
    pub brl: String,
    pub idr: String,
}

/// The address that converts `amount` (its decimal text) from `from`.
pub fn currency_url(amount: &str, from: &str) -> (res: String)
    ensures
        res@ == "https://api.exchangerate.host/latest?amount="@ + amount@ + "&base="@ + from@,
{
    let mut out = String::from_str("https://api.exchangerate.host/latest?amount=");
    push_str(&mut out, amount);
    push_str(&mut out, "&base=");
    push_str(&mut out, from);
    out
}

/// The caption: the amount and its currency in bold, then one line per
/// currency.
pub open spec fn currency_caption_text(amount: Seq<char>, from: Seq<char>, r: RateTexts) -> Seq<char> {
    "*"@ + escaped(amount) + " "@ + from + "* to:\n\\- "@
        + escaped(r.usd@) + " USD 🇺🇸\n\\- "@
        + escaped(r.eur@) + " EUR 🇪🇺\n\\- "@
        + escaped(r.jpy@) + " JPY 🇯🇵\n\\- "@
        + escaped(r.gbp@) + " GBP 🇬🇧\n\\- "@
        + escaped(r.aud@) + " AUD 🇦🇺\n\\- "@
        + escaped(r.cad@) + " CAD 🇨🇦\n\\- "@
        + escaped(r.chf@) + " CHF 🇨🇭\n\\- "@
        + escaped(r.ron@) + " RON 🇷🇴\n\\- "@
        + escaped(r.btc@) + " BTC ₿\n\\- "@
        + escaped(r.brl@) + " BRL 🇧🇷\n\\- "@
        + escaped(r.idr@) + " IDR 🇮🇷"@
}

fn push_escaped(out: &mut String, s: &str)
    ensures
        final(out)@ == old(out)@ + escaped(s@),
{
    let e = escape(s);
    push_str(out, e.as_str());
}

/// The caption starts with the amount and the currency in bold: `*`, a
/// MarkdownV2 text that reads back as exactly the amount (its decimal
/// point and every other reserved character escaped), a space, the
/// currency, and `* to:`.
pub proof fn lemma_currency_caption_shows_amount(amount: Seq<char>, from: Seq<char>, r: RateTexts)
    ensures
        exists|m: Seq<char>, rest: Seq<char>|
            #[trigger] currency_caption_text(amount, from, r) == "*"@ + m + " "@ + from + "* to:"@ + rest
            && shows_plainly(m, amount),
{
    reveal_strlit("* to:");
    reveal_strlit("* to:\n\\- ");
    lemma_escaped_is_safe(amount);
    let m = escaped(amount);
    let c = currency_caption_text(amount, from, r);
    let head = "*"@ + m + " "@ + from + "* to:"@;
    let rest = c.skip(head.len() as int);
    assert(c =~= head + rest);
}

pub fn currency_caption(amount: &str, from: &str, r: &RateTexts) -> (res: String)
    ensures
        res@ == currency_caption_text(amount@, from@, *r),
{
    let mut out = String::from_str("*");
    push_escaped(&mut out, amount);
    push_str(&mut out, " ");
    push_str(&mut out, from);
    push_str(&mut out, "* to:\n\\- ");
    push_escaped(&mut out, r.usd.as_str());
    push_str(&mut out, " USD 🇺🇸\n\\- ");
    push_escaped(&mut out, r.eur.as_str());
    push_str(&mut out, " EUR 🇪🇺\n\\- ");
    push_escaped(&mut out, r.jpy.as_str());
    push_str(&mut out, " JPY 🇯🇵\n\\- ");
    push_escaped(&mut out, r.gbp.as_str());
    push_str(&mut out, " GBP 🇬🇧\n\\- ");
    push_escaped(&mut out, r.aud.as_str());
    push_str(&mut out, " AUD 🇦🇺\n\\- ");
    push_escaped(&mut out, r.cad.as_str());
    push_str(&mut out, " CAD 🇨🇦\n\\- ");
    push_escaped(&mut out, r.chf.as_str());
    push_str(&mut out, " CHF 🇨🇭\n\\- ");
    push_escaped(&mut out, r.ron.as_str());
    push_str(&mut out, " RON 🇷🇴\n\\- ");
    push_escaped(&mut out, r.btc.as_str());
    push_str(&mut out, " BTC ₿\n\\- ");
    push_escaped(&mut out, r.brl.as_str());
    push_str(&mut out, " BRL 🇧🇷\n\\- ");
    push_escaped(&mut out, r.idr.as_str());
    push_str(&mut out, " IDR 🇮🇷");
    out
}

} // verus!
