use vstd::prelude::*;
use vstd::string::*;
use vstd::utf8::*;

verus! {

/// The view of a list of strings: the characters of each, in order.
pub open spec fn strings_view(v: Seq<String>) -> Seq<Seq<char>> {
    v.map_values(|s: String| s@)
}

/// The view of an optional string.
pub open spec fn opt_view(o: Option<String>) -> Option<Seq<char>> {
    match o {
        Some(s) => Some(s@),
        None => None,
    }
}

/// `parts` written one after another with `sep` between each two neighbours
/// (what `[String]::join` gives).
pub open spec fn joined(parts: Seq<Seq<char>>, sep: Seq<char>) -> Seq<char>
    decreases parts.len(),
{
    if parts.len() == 0 {
        Seq::empty()
    } else if parts.len() == 1 {
        parts[0]
    } else {
        joined(parts.drop_last(), sep) + sep + parts.last()
    }
}

/// Joins `parts` with `sep` between each two neighbours.
pub fn join_strings(parts: &Vec<String>, sep: &str) -> (res: String)
    ensures
        res@ == joined(strings_view(parts@), sep@),
{
    let mut res = String::new();
    let n = parts.len();
    let mut i: usize = 0;
    while i < n
        invariant
            n == parts@.len(),
            i <= n,
            res@ == joined(strings_view(parts@).take(i as int), sep@),
        decreases n - i,
    {
        let ghost views = strings_view(parts@);
        assert(views.take(i + 1).drop_last() =~= views.take(i as int));
        if i > 0 {
            res.append(sep);
        } else {
            assert(res@ =~= Seq::<char>::empty());
        }
        res.append(parts[i].as_str());
        proof {
            if i == 0 {
                assert(res@ =~= views.take(1)[0]);
            }
        }
        i = i + 1;
    }
    assert(strings_view(parts@).take(n as int) =~= strings_view(parts@));
    res
}

/// A hexadecimal digit in lower case.
pub open spec fn hex_digit(d: u32) -> char {
    if d < 10 {
        (('0' as u32) + d) as char
    } else {
        (('a' as u32) + d - 10) as char
    }
}

/// How serde_json writes one character inside a JSON string: `"` and `\`
/// and the control characters backspace, form feed, line feed, carriage
/// return and tab with a backslash, the other characters below U+0020 as
/// `\u00` and two lower-case hexadecimal digits, every other character as
/// itself.
pub open spec fn json_escape_char(c: char) -> Seq<char> {
    if c == '"' {
        seq!['\\', '"']
    } else if c == '\\' {
        seq!['\\', '\\']
    } else if c == '\u{8}' {
        seq!['\\', 'b']
    } else if c == '\u{c}' {
        seq!['\\', 'f']
    } else if c == '\n' {
        seq!['\\', 'n']
    } else if c == '\r' {
        seq!['\\', 'r']
    } else if c == '\t' {
        seq!['\\', 't']
    } else if (c as u32) < 0x20 {
        seq!['\\', 'u', '0', '0', hex_digit((c as u32) / 16), hex_digit((c as u32) % 16)]
    } else {
        seq![c]
    }
}

/// The characters of a string, each written as inside a JSON string.
pub open spec fn json_escape(s: Seq<char>) -> Seq<char>
    decreases s.len(),
{
    if s.len() == 0 {
        Seq::empty()
    } else {
        json_escape(s.drop_last()) + json_escape_char(s.last())
    }
}

/// What serde_json writes for a string value: the escaped characters
/// between double quotes.
pub open spec fn json_string_literal(s: Seq<char>) -> Seq<char> {
    seq!['"'] + json_escape(s) + seq!['"']
}

/// Calls `serde_json::to_string` on a `str`.
/// Claimed: the result is `json_string_literal` of the argument, which
/// follows `format_escaped_str` and its table of escapes in serde_json's
/// `ser.rs`. Its source writes a `str` into a `Vec<u8>`, which cannot fail,
/// so the error arm, which hands back an empty string, is never taken.
#[verifier::external_body]
pub(crate) fn json_string(s: &str) -> (res: String)
    ensures
        res@ == json_string_literal(s@),
{
    match serde_json::to_string(s) {
        Ok(v) => v,
        Err(_) => String::new(),
    }
}

/// What `String::from_utf8_lossy` makes of some bytes: the text they encode,
/// with each ill-formed sequence replaced by U+FFFD.
pub uninterp spec fn utf8_lossy(bytes: Seq<u8>) -> Seq<char>;

/// Calls `String::from_utf8_lossy` and takes the text as an owned `String`.
/// Claimed: the result is `utf8_lossy` of the bytes and, as std's
/// documentation says, bytes that are valid UTF-8 come back as the text they
/// encode.
#[verifier::external_body]
pub(crate) fn text_from_bytes(bytes: &[u8]) -> (res: String)
    ensures
        res@ == utf8_lossy(bytes@),
        valid_utf8(bytes@) ==> res@ == decode_utf8(bytes@),
{
    String::from_utf8_lossy(bytes).into_owned()
}

} // verus!

verus! {

/// The view of a list of name/value pairs.
pub open spec fn pairs_view(v: Seq<(String, String)>) -> Seq<(Seq<char>, Seq<char>)> {
    v.map_values(|p: (String, String)| (p.0@, p.1@))
}

/// The name/value pairs that an `application/x-www-form-urlencoded` body
/// decodes to, in the order they stand in it, or `None` where serde_urlencoded
/// refuses the body.
pub uninterp spec fn form_pairs(body: Seq<u8>) -> Option<Seq<(Seq<char>, Seq<char>)>>;

/// Calls `serde_urlencoded::from_bytes` to read a form-encoded body as a list
/// of name/value pairs.
/// Claimed: the result is `form_pairs` of the bytes, the error turned into
/// `None`.
#[verifier::external_body]
pub(crate) fn decode_form(body: &[u8]) -> (res: Option<Vec<(String, String)>>)
    ensures
        match res {
            Some(v) => form_pairs(body@) == Some(pairs_view(v@)),
            None => form_pairs(body@) is None,
        },
{
    serde_urlencoded::from_bytes::<Vec<(String, String)>>(body).ok()
}

} // verus!

verus! {

/// Text with no `"`, no `\` and no character below U+0020 needs no escape.
proof fn lemma_plain_text_unescaped(s: Seq<char>)
    requires
        forall|i: int| 0 <= i < s.len() ==> #[trigger] s[i] != '"' && s[i] != '\\' && (s[i] as u32) >= 0x20,
    ensures
        json_escape(s) == s,
    decreases s.len(),
{
    if s.len() > 0 {
        let rest = s.drop_last();
        assert forall|i: int| 0 <= i < rest.len() implies #[trigger] rest[i] != '"' && rest[i] != '\\'
            && (rest[i] as u32) >= 0x20 by {
            assert(rest[i] == s[i]);
        }
        lemma_plain_text_unescaped(rest);
        assert(s[s.len() - 1] == s.last());
        assert(json_escape_char(s.last()) == seq![s.last()]);
        assert(json_escape(s) =~= s);
    }
}

/// Text with no `"`, no `\` and no character below U+0020 is written as
/// itself between double quotes.
pub proof fn lemma_plain_text_literal(s: Seq<char>)
    requires
        forall|i: int| 0 <= i < s.len() ==> #[trigger] s[i] != '"' && s[i] != '\\' && (s[i] as u32) >= 0x20,
    ensures
        json_string_literal(s) == seq!['"'] + s + seq!['"'],
{
    lemma_plain_text_unescaped(s);
}

} // verus!

verus! {

/// Joining one part gives that part; joining one more part adds the
/// separator and the part at the end.
pub proof fn lemma_joined_parts(parts: Seq<Seq<char>>, part: Seq<char>, sep: Seq<char>)
    ensures
        joined(seq![part], sep) == part,
        parts.len() > 0 ==> joined(parts.push(part), sep) == joined(parts, sep) + sep + part,
{
    assert(parts.push(part).drop_last() =~= parts);
}

} // verus!
