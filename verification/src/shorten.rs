//! Link shortening: the request body, and the link read back.
use vstd::prelude::*;
use crate::text::{push_char, push_str};

verus! {

/// A byte of the userinfo percent-encode set of `url-escape`: a C0 control,
/// DEL or any non-ASCII byte, space, and each of ``"#<>?^`{}/:;=@[\]|``.
pub open spec fn in_userinfo_set(b: u8) -> bool {
    b < 0x20 || b >= 0x7f || b == 0x20 || b == 0x22 || b == 0x23 || b == 0x3c || b == 0x3e
        || b == 0x3f || b == 0x5e || b == 0x60 || b == 0x7b || b == 0x7d || b == 0x2f
        || b == 0x3a || b == 0x3b || b == 0x3d || b == 0x40 || b == 0x5b || b == 0x5c
        || b == 0x5d || b == 0x7c
}

/// The upper-case hexadecimal digit for `d` (`d` below sixteen).
pub open spec fn upper_hex(d: int) -> char {
    if d < 10 { ((48 + d) as u8) as char } else { ((55 + d) as u8) as char }
}

/// How one byte comes out of percent-encoding: `%` and two upper-case hex
/// digits where it is in the set, else the byte itself as a character.
pub open spec fn percent_byte(b: u8) -> Seq<char> {
    if in_userinfo_set(b) {
        seq!['%', upper_hex(b as int / 16), upper_hex(b as int % 16)]
    } else {
        seq![b as char]
    }
}

/// The text that percent-encoding the bytes with the userinfo set makes.
pub open spec fn userinfo_encoded(bytes: Seq<u8>) -> Seq<char>
    decreases bytes.len(),
{
    if bytes.len() == 0 {
        Seq::empty()
    } else {
        percent_byte(bytes[0]) + userinfo_encoded(bytes.drop_first())
    }
}

/// `url_escape::encode_userinfo`, copied into a `String`: it percent-encodes
/// the text's UTF-8 bytes with the userinfo set, one byte at a time, as
/// `percent_encoding::utf8_percent_encode` does.
#[verifier::external_body]
pub(crate) fn encode_userinfo(text: &str) -> (res: String)
    ensures
        res@ == userinfo_encoded(vstd::utf8::encode_utf8(text@)),
{
    url_escape::encode_userinfo(text).into_owned()
}

/// The form body that carries an already encoded address.
pub fn form_body(encoded: &str) -> (res: String)
    ensures
        res@ == "url="@ + encoded@,
{
    let mut out = String::from_str("url=");
    push_str(&mut out, encoded);
    out
}

/// The form body that asks to shorten `url`.
pub fn shorten_body(url: &str) -> (res: String)
    ensures
        res@ == "url="@ + userinfo_encoded(vstd::utf8::encode_utf8(url@)),
{
    let e = encode_userinfo(url);
    form_body(e.as_str())
}

/// Each `\/` replaced by `/`, read from left to right.
pub open spec fn unescape_slashes_spec(s: Seq<char>) -> Seq<char>
    decreases s.len(),
{
    if s.len() == 0 {
        Seq::empty()
    } else if s.len() >= 2 && s[0] == '\\' && s[1] == '/' {
        seq!['/'] + unescape_slashes_spec(s.skip(2))
    } else {
        seq![s[0]] + unescape_slashes_spec(s.drop_first())
    }
}

/// The shortened link as the service sends it, with its escaped slashes
/// restored (`s.replace("\\/", "/")`).
pub fn unescape_slashes(s: &str) -> (res: String)
    ensures
        res@ == unescape_slashes_spec(s@),
{
    let n = s.unicode_len();
    let mut out = String::new();
    let mut i: usize = 0;
    proof {
        assert(s@.skip(0) =~= s@);
    }
    while i < n
        invariant
            i <= n,
            n == s@.len(),
            out@ + unescape_slashes_spec(s@.skip(i as int)) == unescape_slashes_spec(s@),
        decreases n - i,
    {
        let c = s.get_char(i);
        let ghost rest = s@.skip(i as int);
        if c == '\\' && i + 1 < n && s.get_char(i + 1) == '/' {
            proof {
                assert(rest.skip(2) =~= s@.skip(i + 2));
                assert(out@.push('/') + unescape_slashes_spec(s@.skip(i + 2)) =~= out@ + (seq!['/'] + unescape_slashes_spec(rest.skip(2))));
            }
            push_char(&mut out, '/');
            i = i + 2;
        } else {
            proof {
                assert(rest.drop_first() =~= s@.skip(i + 1));
                assert(out@.push(c) + unescape_slashes_spec(s@.skip(i + 1)) =~= out@ + (seq![c] + unescape_slashes_spec(rest.drop_first())));
            }
            push_char(&mut out, c);
            i = i + 1;
        }
    }
    proof {
        assert(s@.skip(n as int) =~= Seq::<char>::empty());
        assert(out@ + Seq::<char>::empty() =~= out@);
    }
    out
}

} // verus!
