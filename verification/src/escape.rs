//! Escaping of text for Telegram's MarkdownV2 parse mode.
use vstd::prelude::*;
use crate::text::push_char;

verus! {

/// The characters that MarkdownV2 reserves.
pub open spec fn is_reserved(c: char) -> bool {
    c == '_' || c == '*' || c == '[' || c == ']' || c == '(' || c == ')' || c == '~'
        || c == '`' || c == '>' || c == '#' || c == '+' || c == '-' || c == '='
        || c == '|' || c == '{' || c == '}' || c == '.' || c == '!'
}

/// What one character becomes once escaped.
pub open spec fn escape_char(c: char) -> Seq<char> {
    if is_reserved(c) { seq!['\\', c] } else { seq![c] }
}

/// The escaped form of a whole text: each reserved character is preceded by a
/// backslash, every other character is kept as it is.
pub open spec fn escaped(s: Seq<char>) -> Seq<char>
    decreases s.len(),
{
    if s.len() == 0 {
        seq![]
    } else {
        escaped(s.drop_last()) + escape_char(s.last())
    }
}

fn reserved(c: char) -> (b: bool)
    ensures
        b == is_reserved(c),
{
    c == '_' || c == '*' || c == '[' || c == ']' || c == '(' || c == ')' || c == '~'
        || c == '`' || c == '>' || c == '#' || c == '+' || c == '-' || c == '='
        || c == '|' || c == '{' || c == '}' || c == '.' || c == '!'
}

/// Escapes `s` for MarkdownV2.
pub fn escape(s: &str) -> (res: String)
    ensures
        res@ == escaped(s@),
{
    let mut out = String::new();
    let ghost full = s@;
    for c in it: s.chars()
        invariant
            it.seq() == full,
            out@ == escaped(full.take(it.index())),
    {
        proof {
            assert(full.take(it.index() + 1).drop_last() =~= full.take(it.index()));
        }
        if reserved(c) {
            push_char(&mut out, '\\');
        }
        push_char(&mut out, c);
    }
    proof {
        assert(full.take(full.len() as int) =~= full);
    }
    out
}

/// Reads escaped text back: a backslash followed by a reserved character
/// stands for that character; every other character stands for itself.
pub open spec fn unescaped(s: Seq<char>) -> Seq<char>
    decreases s.len(),
{
    if s.len() == 0 {
        seq![]
    } else if s.len() >= 2 && s[0] == '\\' && is_reserved(s[1]) {
        seq![s[1]] + unescaped(s.skip(2))
    } else {
        seq![s[0]] + unescaped(s.drop_first())
    }
}

/// Escaping a concatenation gives the concatenation of the escaped parts.
pub proof fn lemma_escape_concat(a: Seq<char>, b: Seq<char>)
    ensures
        escaped(a + b) == escaped(a) + escaped(b),
    decreases b.len(),
{
    if b.len() == 0 {
        assert(a + b =~= a);
        assert(escaped(a) + escaped(b) =~= escaped(a));
    } else {
        lemma_escape_concat(a, b.drop_last());
        assert((a + b).drop_last() =~= a + b.drop_last());
        assert((a + b).last() == b.last());
        assert(escaped(a) + escaped(b) =~= escaped(a) + escaped(b.drop_last()) + escape_char(b.last()));
    }
}

/// Escaping works character by character from the front as well.
proof fn lemma_escape_front(s: Seq<char>)
    requires
        s.len() > 0,
    ensures
        escaped(s) == escape_char(s[0]) + escaped(s.drop_first()),
{
    let head = seq![s[0]];
    assert(head + s.drop_first() =~= s);
    lemma_escape_concat(head, s.drop_first());
    assert(head.drop_last() =~= Seq::<char>::empty());
    assert(escaped(head.drop_last()) == Seq::<char>::empty());
    assert(head.last() == s[0]);
    assert(escaped(head) == escaped(head.drop_last()) + escape_char(head.last()));
    assert(escaped(head) =~= escape_char(s[0]));
}

/// Escaped text never starts with a reserved character.
proof fn lemma_escaped_first(s: Seq<char>)
    requires
        escaped(s).len() > 0,
    ensures
        !is_reserved(escaped(s)[0]),
{
    if s.len() == 0 {
    } else {
        lemma_escape_front(s);
    }
}

/// Unescaping the escaped form of a text gives the text back.
pub proof fn lemma_unescape_escape(s: Seq<char>)
    ensures
        unescaped(escaped(s)) == s,
    decreases s.len(),
{
    if s.len() == 0 {
    } else {
        lemma_escape_front(s);
        let rest = s.drop_first();
        let x = escaped(rest);
        lemma_unescape_escape(rest);
        let c = s[0];
        if is_reserved(c) {
            let e = seq!['\\', c] + x;
            assert(e.skip(2) =~= x);
            assert(unescaped(e) == seq![c] + unescaped(x));
        } else {
            let e = seq![c] + x;
            assert(e.drop_first() =~= x);
            if c == '\\' && x.len() > 0 {
                lemma_escaped_first(rest);
                assert(e[1] == x[0]);
            }
            assert(unescaped(e) == seq![c] + unescaped(x));
        }
        assert(seq![c] + rest =~= s);
    }
}

/// Different texts have different escaped forms.
pub proof fn lemma_escape_injective(a: Seq<char>, b: Seq<char>)
    requires
        escaped(a) == escaped(b),
    ensures
        a == b,
{
    lemma_unescape_escape(a);
    lemma_unescape_escape(b);
}

/// Every reserved character of escaped text is preceded by a backslash.
pub proof fn lemma_escaped_reserved_preceded(s: Seq<char>, i: int)
    requires
        0 <= i < escaped(s).len(),
        is_reserved(escaped(s)[i]),
    ensures
        i > 0,
        escaped(s)[i - 1] == '\\',
    decreases s.len(),
{
    if s.len() > 0 {
        let front = escaped(s.drop_last());
        if i < front.len() {
            assert(escaped(s)[i] == front[i]);
            lemma_escaped_reserved_preceded(s.drop_last(), i);
            assert(escaped(s)[i - 1] == front[i - 1]);
        }
    }
}

/// Text that MarkdownV2 reads as plain text: every reserved character in it
/// is preceded by a backslash.
pub open spec fn markdown_safe(m: Seq<char>) -> bool {
    forall|i: int| 0 <= i < m.len() && #[trigger] is_reserved(m[i]) ==> i > 0 && m[i - 1] == '\\'
}

/// `m` is a MarkdownV2 text that shows exactly `text`.
pub open spec fn shows_plainly(m: Seq<char>, text: Seq<char>) -> bool {
    markdown_safe(m) && unescaped(m) == text
}

/// The escaped form of a text is safe for MarkdownV2, and reads back as
/// the text.
pub proof fn lemma_escaped_is_safe(s: Seq<char>)
    ensures
        markdown_safe(escaped(s)),
        unescaped(escaped(s)) == s,
        shows_plainly(escaped(s), s),
{
    assert forall|i: int| 0 <= i < escaped(s).len() && #[trigger] is_reserved(escaped(s)[i])
        implies i > 0 && escaped(s)[i - 1] == '\\' by {
        lemma_escaped_reserved_preceded(s, i);
    }
    lemma_unescape_escape(s);
}

/// Escaping adds only backslashes: a character other than a backslash
/// that the text lacks, its escaped form lacks too.
pub proof fn lemma_escape_adds_only_backslashes(s: Seq<char>, c: char)
    requires
        c != '\\',
        forall|i: int| 0 <= i < s.len() ==> #[trigger] s[i] != c,
    ensures
        forall|i: int| 0 <= i < escaped(s).len() ==> #[trigger] escaped(s)[i] != c,
    decreases s.len(),
{
    if s.len() > 0 {
        let front = s.drop_last();
        assert forall|i: int| 0 <= i < front.len() implies #[trigger] front[i] != c by {
            assert(front[i] == s[i]);
        }
        lemma_escape_adds_only_backslashes(front, c);
        assert(s.last() == s[s.len() - 1]);
        assert forall|i: int| 0 <= i < escaped(s).len() implies #[trigger] escaped(s)[i] != c by {
            if i < escaped(front).len() {
                assert(escaped(s)[i] == escaped(front)[i]);
            }
        }
    }
}

/// Text without reserved characters is left as it is.
pub proof fn lemma_escape_plain(s: Seq<char>)
    requires
        forall|i: int| 0 <= i < s.len() ==> !is_reserved(#[trigger] s[i]),
    ensures
        escaped(s) == s,
    decreases s.len(),
{
    if s.len() > 0 {
        lemma_escape_plain(s.drop_last());
        assert(!is_reserved(s[s.len() - 1]));
        assert(s.drop_last().push(s.last()) =~= s);
    }
}

/// The escaped text is one character longer per reserved character.
pub open spec fn reserved_count(s: Seq<char>) -> nat
    decreases s.len(),
{
    if s.len() == 0 {
        0
    } else {
        reserved_count(s.drop_last()) + if is_reserved(s.last()) { 1nat } else { 0nat }
    }
}

pub proof fn lemma_escape_len(s: Seq<char>)
    ensures
        escaped(s).len() == s.len() + reserved_count(s),
    decreases s.len(),
{
    if s.len() > 0 {
        lemma_escape_len(s.drop_last());
    }
}

} // verus!
