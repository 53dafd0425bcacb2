//! Text to speech: the language and the text of a request, and its address.
use vstd::prelude::*;
use crate::number::{decimal, push_decimal};
use crate::random::random_u64;
use crate::text::{find_char, is_first_at, push_str};

verus! {

/// The language and the text of a request: where the message has a space,
/// the part before the first one is the language and the rest, from that
/// space on, is the text; otherwise the language is English and the text is
/// the whole message.
pub open spec fn tts_parts(s: Seq<char>) -> (Seq<char>, Seq<char>) {
    if exists|i: int| is_first_at(s, ' ', i) {
        let i = choose|i: int| is_first_at(s, ' ', i);
        (s.take(i), s.skip(i))
    } else {
        ("en"@, s)
    }
}

pub fn tts_split(s: &str) -> (res: (String, String))
    ensures
        res.0@ == tts_parts(s@).0,
        res.1@ == tts_parts(s@).1,
{
    let n = s.unicode_len();
    match find_char(s, ' ') {
        Some(i) => {
            let lang = s.substring_char(0, i);
            let text = s.substring_char(i, n);
            proof {
                assert(is_first_at(s@, ' ', i as int));
                let j = choose|j: int| is_first_at(s@, ' ', j);
                assert(j == i);
                assert(lang@ =~= s@.take(i as int));
                assert(text@ =~= s@.skip(i as int));
            }
            (String::from_str(lang), String::from_str(text))
        },
        None => {
            proof {
                assert forall|i: int| !is_first_at(s@, ' ', i) by {
                    if is_first_at(s@, ' ', i) {
                        assert(s@.contains(' '));
                    }
                }
            }
            (String::from_str("en"), String::from_str(s))
        },
    }
}

/// Where the message has a space, the language and the text together are
/// the whole message.
pub proof fn lemma_tts_parts_lossless(s: Seq<char>)
    requires
        s.contains(' '),
    ensures
        tts_parts(s).0 + tts_parts(s).1 == s,
        tts_parts(s).1[0] == ' ',
{
    let k = choose|k: int| 0 <= k < s.len() && s[k] == ' ';
    let first = first_space(s, k);
    assert(is_first_at(s, ' ', first));
    let i = choose|i: int| is_first_at(s, ' ', i);
    assert(s.take(i) + s.skip(i) =~= s);
}

/// The first space at or before position `k`, where `k` holds a space.
proof fn first_space(s: Seq<char>, k: int) -> (i: int)
    requires
        0 <= k < s.len(),
        s[k] == ' ',
    ensures
        is_first_at(s, ' ', i),
    decreases k,
{
    if exists|j: int| 0 <= j < k && s[j] == ' ' {
        let j = choose|j: int| 0 <= j < k && s[j] == ' ';
        first_space(s, j)
    } else {
        k
    }
}

/// The address of the speech of `text` in language `lang`.
pub open spec fn tts_url_text(lang: Seq<char>, text: Seq<char>) -> Seq<char> {
    "https://translate.google.com/translate_tts?ie=UTF-8&q="@ + text + "&tl="@ + lang
        + "&tk=418730.60457&client=webapp"@
}

/// The address of the speech that a message asks for.
pub fn tts_url(s: &str) -> (res: String)
    ensures
        res@ == tts_url_text(tts_parts(s@).0, tts_parts(s@).1),
{
    let (lang, text) = tts_split(s);
    let mut out = String::from_str("https://translate.google.com/translate_tts?ie=UTF-8&q=");
    push_str(&mut out, text.as_str());
    push_str(&mut out, "&tl=");
    push_str(&mut out, lang.as_str());
    push_str(&mut out, "&tk=418730.60457&client=webapp");
    out
}

/// The file that the speech is saved to, named by a random number.
pub fn speech_file(r: u64) -> (res: String)
    ensures
        res@ == decimal(r as nat) + ".mp3"@,
{
    let mut out = String::new();
    push_decimal(&mut out, r);
    push_str(&mut out, ".mp3");
    proof {
        assert(Seq::<char>::empty() + decimal(r as nat) =~= decimal(r as nat));
    }
    out
}

/// A new file for the speech, named by a random number.
pub fn new_speech_file() -> (res: String)
    ensures
        exists|r: u64| res@ == #[trigger] decimal(r as nat) + ".mp3"@,
{
    speech_file(random_u64())
}

} // verus!
