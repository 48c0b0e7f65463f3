//! Escaping of untrusted text for the two places where a listing shows it:
//! inside an `href` attribute and as the text of a link.

use vstd::prelude::*;
use vstd::string::*;
use vstd::utf8::encode_utf8;

use crate::text::{all_chars, lemma_all_chars_concat, to_chars};

verus! {

/// What stands for one character in escaped HTML text.
pub open spec fn escaped_char(c: char) -> Seq<char> {
    if c == '<' {
        "&lt;"@
    } else if c == '>' {
        "&gt;"@
    } else if c == '&' {
        "&amp;"@
    } else if c == '"' {
        "&quot;"@
    } else if c == '\'' {
        "&#x27;"@
    } else {
        seq![c]
    }
}

/// `s` with each of `<`, `>`, `&`, `"` and `'` replaced by its HTML entity.
pub open spec fn html_escaped(s: Seq<char>) -> Seq<char>
    decreases s.len(),
{
    if s.len() == 0 {
        Seq::empty()
    } else {
        html_escaped(s.drop_last()) + escaped_char(s.last())
    }
}

/// The upper-case hexadecimal digit of a value below sixteen.
pub open spec fn hex_upper(nibble: u8) -> char {
    if nibble < 10 {
        (0x30 + nibble) as char
    } else {
        (0x37 + nibble) as char
    }
}

/// The three characters `%XX` that stand for one byte.
pub open spec fn percent_byte(b: u8) -> Seq<char> {
    seq!['%', hex_upper(b / 16), hex_upper(b % 16)]
}

/// A byte that may not stand as it is in a link target: a C0 control, DEL, a
/// byte of a non-ASCII character, or one of `"`, `<` and `>`, which would
/// end the attribute or open markup.
pub open spec fn needs_percent(b: u8) -> bool {
    b < 0x20 || b >= 0x7F || b == 0x22 || b == 0x3C || b == 0x3E
}

/// What stands for one byte in a link target.
pub open spec fn encoded_byte(b: u8) -> Seq<char> {
    if needs_percent(b) {
        percent_byte(b)
    } else {
        seq![b as char]
    }
}

/// The bytes written out one by one, those that `needs_percent` selects as
/// `%XX`.
pub open spec fn percent_encoded(bytes: Seq<u8>) -> Seq<char>
    decreases bytes.len(),
{
    if bytes.len() == 0 {
        Seq::empty()
    } else {
        percent_encoded(bytes.drop_last()) + encoded_byte(bytes.last())
    }
}

/// The link target for a path: the percent-encoding of its UTF-8 bytes.
pub open spec fn href_encoded(path: Seq<char>) -> Seq<char> {
    percent_encoded(encode_utf8(path))
}

/// A character that cannot end a double-quoted attribute or open a tag.
pub open spec fn attribute_safe(c: char) -> bool {
    c != '"' && c != '<' && c != '>'
}

/// A character that cannot open or close a tag.
pub open spec fn text_safe(c: char) -> bool {
    c != '<' && c != '>'
}

fn hex_digit(nibble: u8) -> (digit: char)
    requires
        nibble < 16,
    ensures
        digit == hex_upper(nibble),
{
    if nibble < 10 {
        (0x30 + nibble) as char
    } else {
        (0x37 + nibble) as char
    }
}

/// The link target for `path`.
pub fn link_target(path: &str) -> (href: String)
    ensures
        href@ == href_encoded(path@),
        all_chars(href@, |c: char| attribute_safe(c)),
{
    let bytes = path.as_bytes();
    let mut href = String::new();
    let mut i: usize = 0;
    while i < bytes.len()
        invariant
            i <= bytes.len(),
            bytes@ == encode_utf8(path@),
            href@ == percent_encoded(bytes@.take(i as int)),
        decreases bytes.len() - i,
    {
        let b = bytes[i];
        assert(bytes@.take(i + 1).drop_last() == bytes@.take(i as int));
        let ghost before = href@;
        if b < 0x20 || b >= 0x7F || b == 0x22 || b == 0x3C || b == 0x3E {
            href.push('%');
            href.push(hex_digit(b / 16));
            href.push(hex_digit(b % 16));
            assert(href@ == before + percent_byte(b));
        } else {
            href.push(b as char);
            assert(href@ == before + seq![b as char]);
        }
        i = i + 1;
    }
    assert(bytes@.take(bytes.len() as int) == bytes@);
    proof {
        lemma_href_is_attribute_safe(path@);
    }
    href
}

/// The text of a link for `name`.
pub fn link_text(name: &str) -> (text: String)
    ensures
        text@ == html_escaped(name@),
        all_chars(text@, |c: char| text_safe(c)),
{
    let chars = to_chars(name);
    let mut text = String::new();
    let mut i: usize = 0;
    while i < chars.len()
        invariant
            i <= chars.len(),
            chars@ == name@,
            text@ == html_escaped(chars@.take(i as int)),
        decreases chars.len() - i,
    {
        let c = chars[i];
        assert(chars@.take(i + 1).drop_last() == chars@.take(i as int));
        let ghost before = text@;
        if c == '<' {
            text.append("&lt;");
        } else if c == '>' {
            text.append("&gt;");
        } else if c == '&' {
            text.append("&amp;");
        } else if c == '"' {
            text.append("&quot;");
        } else if c == '\'' {
            text.append("&#x27;");
        } else {
            text.push(c);
            assert(text@ == before + seq![c]);
        }
        i = i + 1;
    }
    assert(chars@.take(chars.len() as int) == chars@);
    proof {
        lemma_escaped_is_text_safe(name@);
    }
    text
}

/// A link target holds no character that can leave the attribute.
pub proof fn lemma_href_is_attribute_safe(path: Seq<char>)
    ensures
        all_chars(href_encoded(path), |c: char| attribute_safe(c)),
{
    lemma_encoded_is_attribute_safe(encode_utf8(path));
}

/// Percent-encoded bytes hold no character that can leave an attribute.
pub proof fn lemma_encoded_is_attribute_safe(bytes: Seq<u8>)
    ensures
        all_chars(percent_encoded(bytes), |c: char| attribute_safe(c)),
    decreases bytes.len(),
{
    if bytes.len() > 0 {
        let safe = |c: char| attribute_safe(c);
        let b = bytes.last();
        let piece = encoded_byte(b);
        lemma_encoded_is_attribute_safe(bytes.drop_last());
        assert(all_chars(piece, safe)) by {
            assert(b / 16 < 16 && b % 16 < 16);
            assert(b as char == '"' <==> b == 0x22);
            assert(b as char == '<' <==> b == 0x3C);
            assert(b as char == '>' <==> b == 0x3E);
            assert forall|i: int| 0 <= i < piece.len() implies safe(#[trigger] piece[i]) by {}
        }
        lemma_all_chars_concat(percent_encoded(bytes.drop_last()), piece, safe);
    }
}

/// Escaped text holds neither `<` nor `>`.
pub proof fn lemma_escaped_is_text_safe(s: Seq<char>)
    ensures
        all_chars(html_escaped(s), |c: char| text_safe(c)),
    decreases s.len(),
{
    if s.len() > 0 {
        let safe = |c: char| text_safe(c);
        let piece = escaped_char(s.last());
        lemma_escaped_is_text_safe(s.drop_last());
        assert(all_chars(piece, safe)) by {
            reveal_strlit("&lt;");
            reveal_strlit("&gt;");
            reveal_strlit("&amp;");
            reveal_strlit("&quot;");
            reveal_strlit("&#x27;");
            assert forall|i: int| 0 <= i < piece.len() implies safe(#[trigger] piece[i]) by {}
        }
        lemma_all_chars_concat(html_escaped(s.drop_last()), piece, safe);
    }
}

} // verus!
