//! Text completion: the request body for a prompt, and the caption of the
//! completed text.
use vstd::prelude::*;
use crate::escape::{escape, escaped, lemma_escape_adds_only_backslashes, lemma_escaped_is_safe, markdown_safe, shows_plainly, unescaped};
use crate::number::digit_char;
use crate::text::{push_char, push_str};

verus! {

/// What to do with a prompt: answer at once, or send a request with this body.
pub enum GptStep {
    Reply(String),
    Request(String),
}

/// The answer to an empty prompt.
pub open spec fn empty_prompt_reply() -> Seq<char> {
    "Text shouldn't be empty"@
}

/// The lower-case hexadecimal digit for `d` (`d` below sixteen).
pub open spec fn hex_char(d: int) -> char {
    if d < 10 { digit_char(d) }
    else if d == 10 { 'a' } else if d == 11 { 'b' } else if d == 12 { 'c' }
    else if d == 13 { 'd' } else if d == 14 { 'e' } else { 'f' }
}

/// How one character stands inside a JSON string: a quote, a backslash and
/// each control character are escaped, with the short forms where JSON has
/// them and `\u00XX` otherwise; every other character stands as it is.
pub open spec fn json_char(c: char) -> Seq<char> {
    if c == '"' { seq!['\\', '"'] }
    else if c == '\\' { seq!['\\', '\\'] }
    else if c == '\n' { seq!['\\', 'n'] }
    else if c == '\r' { seq!['\\', 'r'] }
    else if c == '\t' { seq!['\\', 't'] }
    else if c == '\x08' { seq!['\\', 'b'] }
    else if c == '\x0c' { seq!['\\', 'f'] }
    else if (c as int) < 32 {
        seq!['\\', 'u', '0', '0', hex_char((c as int) / 16), hex_char((c as int) % 16)]
    } else { seq![c] }
}

/// The text as it stands between the quotes of a JSON string.
pub open spec fn json_escaped(s: Seq<char>) -> Seq<char>
    decreases s.len(),
{
    if s.len() == 0 { Seq::empty() } else { json_char(s[0]) + json_escaped(s.drop_first()) }
}

/// The request body for a prompt: a JSON object whose `prompt` is the text.
pub open spec fn gpt_payload_text(text: Seq<char>) -> Seq<char> {
    "{\"prompt\":\""@ + json_escaped(text) + "\",\"temperature\":1,\"top_k\":40,\"top_p\":0.9,\"seed\":0,\"stream\":false}"@
}

proof fn lemma_json_escaped_push(s: Seq<char>, c: char)
    ensures
        json_escaped(s.push(c)) == json_escaped(s) + json_char(c),
    decreases s.len(),
{
    if s.len() == 0 {
        let t = s.push(c);
        assert(t.drop_first() =~= Seq::<char>::empty());
        assert(t[0] == c);
        assert(json_escaped(t.drop_first()) == Seq::<char>::empty());
        assert(json_escaped(t) =~= json_char(c) + Seq::<char>::empty());
        assert(json_escaped(s) == Seq::<char>::empty());
        assert(json_escaped(t) =~= json_escaped(s) + json_char(c));
    } else {
        assert(s.push(c).drop_first() =~= s.drop_first().push(c));
        lemma_json_escaped_push(s.drop_first(), c);
        assert(json_escaped(s.push(c)) =~= json_escaped(s) + json_char(c));
    }
}

fn hex_to_char(d: u32) -> (c: char)
    requires
        d < 16,
    ensures
        c == hex_char(d as int),
{
    if d == 0 { '0' } else if d == 1 { '1' } else if d == 2 { '2' } else if d == 3 { '3' }
    else if d == 4 { '4' } else if d == 5 { '5' } else if d == 6 { '6' } else if d == 7 { '7' }
    else if d == 8 { '8' } else if d == 9 { '9' } else if d == 10 { 'a' } else if d == 11 { 'b' }
    else if d == 12 { 'c' } else if d == 13 { 'd' } else if d == 14 { 'e' } else { 'f' }
}

/// Appends one character as it stands inside a JSON string.
fn push_json_char(out: &mut String, c: char)
    ensures
        final(out)@ == old(out)@ + json_char(c),
{
    let v = c as u32;
    if c == '"' {
        push_str(out, "\\\"");
    } else if c == '\\' {
        push_str(out, "\\\\");
    } else if c == '\n' {
        push_str(out, "\\n");
    } else if c == '\r' {
        push_str(out, "\\r");
    } else if c == '\t' {
        push_str(out, "\\t");
    } else if c == '\x08' {
        push_str(out, "\\b");
    } else if c == '\x0c' {
        push_str(out, "\\f");
    } else if v < 32 {
        push_str(out, "\\u00");
        push_char(out, hex_to_char(v / 16));
        push_char(out, hex_to_char(v % 16));
    } else {
        push_char(out, c);
    }
    proof {
        reveal_strlit("\\\"");
        reveal_strlit("\\\\");
        reveal_strlit("\\n");
        reveal_strlit("\\r");
        reveal_strlit("\\t");
        reveal_strlit("\\b");
        reveal_strlit("\\f");
        reveal_strlit("\\u00");
        assert(final(out)@ =~= old(out)@ + json_char(c));
    }
}

/// The text escaped for a JSON string.
pub fn json_escape(text: &str) -> (res: String)
    ensures
        res@ == json_escaped(text@),
{
    let mut out = String::new();
    let ghost full = text@;
    for c in it: text.chars()
        invariant
            it.seq() == full,
            out@ == json_escaped(full.take(it.index())),
    {
        let ghost k = it.index();
        proof {
            assert(c == full[k]);
            assert(full.take(k + 1) =~= full.take(k).push(c));
            lemma_json_escaped_push(full.take(k), c);
        }
        push_json_char(&mut out, c);
    }
    proof {
        assert(full.take(full.len() as int) =~= full);
    }
    out
}

/// The value of a hexadecimal digit, of either case.
pub open spec fn hex_value(c: char) -> Option<int> {
    if '0' <= c && c <= '9' { Some(c as int - '0' as int) }
    else if 'a' <= c && c <= 'f' { Some(c as int - 'a' as int + 10) }
    else if 'A' <= c && c <= 'F' { Some(c as int - 'A' as int + 10) }
    else { None }
}

/// The value of the four hexadecimal digits of a `\u` escape.
pub open spec fn hex4_value(t: Seq<char>) -> Option<int> {
    match (hex_value(t[0]), hex_value(t[1]), hex_value(t[2]), hex_value(t[3])) {
        (Some(a), Some(b), Some(c), Some(d)) => Some(a * 4096 + b * 256 + c * 16 + d),
        _ => None,
    }
}

/// The character that the short escape `\e` stands for.
pub open spec fn short_escape(e: char) -> Option<char> {
    if e == '"' { Some('"') }
    else if e == '\\' { Some('\\') }
    else if e == '/' { Some('/') }
    else if e == 'b' { Some('\x08') }
    else if e == 'f' { Some('\x0c') }
    else if e == 'n' { Some('\n') }
    else if e == 'r' { Some('\r') }
    else if e == 't' { Some('\t') }
    else { None }
}

/// What the text between the quotes of a JSON string reads as, or `None`
/// where it is no such text (a bare quote or control character, or an
/// unknown escape). A `\u` escape of a UTF-16 surrogate, which JSON pairs
/// with a second one, is not read here.
pub open spec fn json_unescaped(t: Seq<char>) -> Option<Seq<char>>
    decreases t.len(),
{
    if t.len() == 0 {
        Some(Seq::empty())
    } else if t[0] == '\\' {
        if t.len() < 2 {
            None
        } else if short_escape(t[1]) is Some {
            match json_unescaped(t.skip(2)) {
                Some(r) => Some(seq![short_escape(t[1]).unwrap()] + r),
                None => None,
            }
        } else if t[1] == 'u' && t.len() >= 6 {
            match hex4_value(t.subrange(2, 6)) {
                Some(v) => if 0xD800 <= v && v <= 0xDFFF {
                    None
                } else {
                    match json_unescaped(t.skip(6)) {
                        Some(r) => Some(seq![v as char] + r),
                        None => None,
                    }
                },
                None => None,
            }
        } else {
            None
        }
    } else if t[0] == '"' || (t[0] as int) < 32 {
        None
    } else {
        match json_unescaped(t.skip(1)) {
            Some(r) => Some(seq![t[0]] + r),
            None => None,
        }
    }
}

proof fn lemma_hex_char_value(d: int)
    requires
        0 <= d < 16,
    ensures
        hex_value(hex_char(d)) == Some(d),
{
}

proof fn lemma_json_char_reads_back(c: char, u: Seq<char>)
    ensures
        json_unescaped(json_char(c) + u) == (match json_unescaped(u) {
            Some(r) => Some(seq![c] + r),
            None => None::<Seq<char>>,
        }),
{
    let t = json_char(c) + u;
    if c == '"' || c == '\\' || c == '\n' || c == '\r' || c == '\t' || c == '\x08' || c == '\x0c' {
        assert(t.skip(2) =~= u);
    } else if (c as int) < 32 {
        let v = c as int;
        lemma_hex_char_value(v / 16);
        lemma_hex_char_value(v % 16);
        assert(t.skip(6) =~= u);
        assert(t.subrange(2, 6) =~= seq!['0', '0', hex_char(v / 16), hex_char(v % 16)]);
        assert(hex4_value(t.subrange(2, 6)) == Some(v));
        assert((v as char) == c);
    } else {
        assert(t.skip(1) =~= u);
    }
}

/// A prompt escaped for the request body reads back, between the body's
/// quotes, as exactly the prompt.
pub proof fn lemma_json_escape_reads_back(s: Seq<char>)
    ensures
        json_unescaped(json_escaped(s)) == Some(s),
    decreases s.len(),
{
    if s.len() > 0 {
        lemma_json_escape_reads_back(s.drop_first());
        lemma_json_char_reads_back(s[0], json_escaped(s.drop_first()));
        assert(seq![s[0]] + s.drop_first() =~= s);
    }
}

/// An empty prompt is answered at once; any other is sent.
pub fn gpt_step(text: &str) -> (res: GptStep)
    ensures
        text@.len() == 0 ==> (res matches GptStep::Reply(r) && r@ == empty_prompt_reply()),
        text@.len() > 0 ==> (res matches GptStep::Request(b) && b@ == gpt_payload_text(text@)),
{
    if text.is_empty() {
        GptStep::Reply(String::from_str("Text shouldn't be empty"))
    } else {
        let mut body = String::from_str("{\"prompt\":\"");
        let escaped_text = json_escape(text);
        push_str(&mut body, escaped_text.as_str());
        push_str(&mut body, "\",\"temperature\":1,\"top_k\":40,\"top_p\":0.9,\"seed\":0,\"stream\":false}");
        GptStep::Request(body)
    }
}

/// Each line break replaced by a space.
pub open spec fn newlines_to_spaces(s: Seq<char>) -> Seq<char> {
    s.map_values(|c: char| if c == '\n' { ' ' } else { c })
}

pub fn replace_newlines(s: &str) -> (res: String)
    ensures
        res@ == newlines_to_spaces(s@),
{
    let mut out = String::new();
    let ghost full = s@;
    for c in it: s.chars()
        invariant
            it.seq() == full,
            out@ == newlines_to_spaces(full.take(it.index())),
    {
        let ghost k = it.index();
        proof {
            assert(c == full[k]);
        }
        if c == '\n' {
            push_char(&mut out, ' ');
        } else {
            push_char(&mut out, c);
        }
        proof {
            assert(out@ =~= newlines_to_spaces(full.take(k + 1)));
        }
    }
    proof {
        assert(full.take(full.len() as int) =~= full);
    }
    out
}

/// The caption: the prompt in bold, followed by the completion on one line.
pub open spec fn gpt_caption_text(prompt: Seq<char>, completion: Seq<char>) -> Seq<char> {
    "_Text_:\n*"@ + escaped(prompt) + "* "@ + escaped(newlines_to_spaces(completion))
}

pub fn gpt_caption(prompt: &str, completion: &str) -> (res: String)
    ensures
        res@ == gpt_caption_text(prompt@, completion@),
{
    let mut out = String::from_str("_Text_:\n*");
    let p = escape(prompt);
    push_str(&mut out, p.as_str());
    push_str(&mut out, "* ");
    let one_line = replace_newlines(completion);
    let c = escape(one_line.as_str());
    push_str(&mut out, c.as_str());
    out
}

/// `shown` is the completion put on one line: the same characters, each
/// line break replaced by a space, and no line break left.
pub open spec fn on_one_line(completion: Seq<char>, shown: Seq<char>) -> bool {
    &&& shown.len() == completion.len()
    &&& forall|i: int| 0 <= i < shown.len() ==> #[trigger] shown[i] != '\n'
    &&& forall|i: int| 0 <= i < shown.len() && completion[i] != '\n' ==> #[trigger] shown[i] == completion[i]
}

/// The caption shows the prompt in bold and then the completion on one
/// line: after `_Text_:` and a line break it is `*`, a MarkdownV2 text that
/// reads back as exactly the prompt, `* `, and a MarkdownV2 text without
/// any line break that reads back as the completion with every line break
/// turned into a space.
pub proof fn lemma_gpt_caption_one_line(prompt: Seq<char>, completion: Seq<char>)
    ensures
        exists|m1: Seq<char>, m2: Seq<char>|
            #[trigger] gpt_caption_text(prompt, completion) == "_Text_:\n*"@ + m1 + "* "@ + m2
            && shows_plainly(m1, prompt)
            && markdown_safe(m2)
            && (forall|i: int| 0 <= i < m2.len() ==> #[trigger] m2[i] != '\n')
            && on_one_line(completion, unescaped(m2)),
{
    let t = newlines_to_spaces(completion);
    lemma_escaped_is_safe(prompt);
    lemma_escaped_is_safe(t);
    assert forall|i: int| 0 <= i < t.len() implies #[trigger] t[i] != '\n' by {}
    lemma_escape_adds_only_backslashes(t, '\n');
    assert(on_one_line(completion, t));
    let m1 = escaped(prompt);
    let m2 = escaped(t);
    assert(gpt_caption_text(prompt, completion) == "_Text_:\n*"@ + m1 + "* "@ + m2);
}

} // verus!
