//! The hashing, encoding and trimming that checksums and key fingerprints
//! rest on, and the hex encoding that the library computes itself.

use base64::Engine;
use sha2::Digest;
use vstd::prelude::*;

verus! {

/// The SHA-256 digest of the UTF-8 bytes of a text.
pub uninterp spec fn sha256_of_text(text: Seq<char>) -> Seq<u8>;

/// The standard (RFC 4648, padded) Base64 encoding of a byte sequence.
pub uninterp spec fn base64_standard_text(bytes: Seq<u8>) -> Seq<char>;

/// Whether a character has the Unicode `White_Space` property: U+0009 to
/// U+000D, U+0020, U+0085, U+00A0, U+1680, U+2000 to U+200A, U+2028, U+2029,
/// U+202F, U+205F and U+3000.
pub open spec fn is_unicode_whitespace(c: char) -> bool {
    let n = c as u32;
    ||| 0x09 <= n <= 0x0d
    ||| n == 0x20
    ||| n == 0x85
    ||| n == 0xa0
    ||| n == 0x1680
    ||| 0x2000 <= n <= 0x200a
    ||| n == 0x2028
    ||| n == 0x2029
    ||| n == 0x202f
    ||| n == 0x205f
    ||| n == 0x3000
}

/// Whether every character of a text is whitespace.
pub open spec fn all_whitespace(text: Seq<char>) -> bool {
    forall|i: int| 0 <= i < text.len() ==> is_unicode_whitespace(#[trigger] text[i])
}

/// A text with its trailing whitespace removed.
pub open spec fn trailing_whitespace_trimmed(text: Seq<char>) -> Seq<char>
    decreases text.len(),
{
    if text.len() > 0 && is_unicode_whitespace(text.last()) {
        trailing_whitespace_trimmed(text.drop_last())
    } else {
        text
    }
}

/// A text with its leading whitespace removed.
pub open spec fn leading_whitespace_trimmed(text: Seq<char>) -> Seq<char>
    decreases text.len(),
{
    if text.len() > 0 && is_unicode_whitespace(text[0]) {
        leading_whitespace_trimmed(text.drop_first())
    } else {
        text
    }
}

/// A text with its leading and trailing whitespace removed.
pub open spec fn whitespace_trimmed(text: Seq<char>) -> Seq<char> {
    leading_whitespace_trimmed(trailing_whitespace_trimmed(text))
}

proof fn lemma_all_whitespace_trims_away(text: Seq<char>)
    requires
        all_whitespace(text),
    ensures
        trailing_whitespace_trimmed(text).len() == 0,
        leading_whitespace_trimmed(text).len() == 0,
    decreases text.len(),
{
    if text.len() > 0 {
        assert(is_unicode_whitespace(text[text.len() - 1]));
        assert(is_unicode_whitespace(text[0]));
        assert forall|i: int| 0 <= i < text.drop_last().len() implies is_unicode_whitespace(
            #[trigger] text.drop_last()[i],
        ) by {
            assert(text.drop_last()[i] == text[i]);
        }
        assert forall|i: int| 0 <= i < text.drop_first().len() implies is_unicode_whitespace(
            #[trigger] text.drop_first()[i],
        ) by {
            assert(text.drop_first()[i] == text[i + 1]);
        }
        lemma_all_whitespace_trims_away(text.drop_last());
        lemma_all_whitespace_trims_away(text.drop_first());
    }
}

proof fn lemma_trailing_ignores_whitespace_suffix(text: Seq<char>, suffix: Seq<char>)
    requires
        all_whitespace(suffix),
    ensures
        trailing_whitespace_trimmed(text + suffix) == trailing_whitespace_trimmed(text),
    decreases suffix.len(),
{
    if suffix.len() == 0 {
        assert(text + suffix =~= text);
    } else {
        assert((text + suffix).drop_last() =~= text + suffix.drop_last());
        assert((text + suffix).last() == suffix[suffix.len() - 1]);
        assert forall|i: int| 0 <= i < suffix.drop_last().len() implies is_unicode_whitespace(
            #[trigger] suffix.drop_last()[i],
        ) by {
            assert(suffix.drop_last()[i] == suffix[i]);
        }
        lemma_trailing_ignores_whitespace_suffix(text, suffix.drop_last());
    }
}

proof fn lemma_leading_ignores_whitespace_prefix(prefix: Seq<char>, text: Seq<char>)
    requires
        all_whitespace(prefix),
    ensures
        leading_whitespace_trimmed(prefix + text) == leading_whitespace_trimmed(text),
    decreases prefix.len(),
{
    if prefix.len() == 0 {
        assert(prefix + text =~= text);
    } else {
        assert((prefix + text).drop_first() =~= prefix.drop_first() + text);
        assert((prefix + text)[0] == prefix[0]);
        assert forall|i: int| 0 <= i < prefix.drop_first().len() implies is_unicode_whitespace(
            #[trigger] prefix.drop_first()[i],
        ) by {
            assert(prefix.drop_first()[i] == prefix[i + 1]);
        }
        lemma_leading_ignores_whitespace_prefix(prefix.drop_first(), text);
    }
}

proof fn lemma_trailing_after_prefix(prefix: Seq<char>, text: Seq<char>)
    ensures
        trailing_whitespace_trimmed(prefix + text) == (if trailing_whitespace_trimmed(text).len()
            > 0 {
            prefix + trailing_whitespace_trimmed(text)
        } else {
            trailing_whitespace_trimmed(prefix)
        }),
    decreases text.len(),
{
    if text.len() == 0 {
        assert(prefix + text =~= prefix);
    } else {
        assert((prefix + text).drop_last() =~= prefix + text.drop_last());
        assert((prefix + text).last() == text.last());
        lemma_trailing_after_prefix(prefix, text.drop_last());
    }
}

/// Whitespace around a text does not change the text with its leading and
/// trailing whitespace removed.
pub proof fn lemma_trim_ignores_surrounding_whitespace(
    prefix: Seq<char>,
    text: Seq<char>,
    suffix: Seq<char>,
)
    requires
        all_whitespace(prefix),
        all_whitespace(suffix),
    ensures
        whitespace_trimmed(prefix + text + suffix) == whitespace_trimmed(text),
{
    lemma_trailing_ignores_whitespace_suffix(prefix + text, suffix);
    lemma_trailing_after_prefix(prefix, text);
    let t = trailing_whitespace_trimmed(text);
    if t.len() > 0 {
        lemma_leading_ignores_whitespace_prefix(prefix, t);
    } else {
        lemma_all_whitespace_trims_away(prefix);
        let tp = trailing_whitespace_trimmed(prefix);
        assert(tp.len() == 0);
        assert(tp =~= t);
    }
}

/// `sha2::Sha256::digest` over `text.as_bytes()`. Claimed: the result is the
/// digest named by `sha256_of_text`, and it is 32 bytes long (the output size
/// of SHA-256, `U32` in the crate's type).
#[verifier::external_body]
pub(crate) fn sha256_text(text: &str) -> (r: Vec<u8>)
    ensures
        r@ == sha256_of_text(text@),
        r@.len() == 32,
{
    sha2::Sha256::digest(text.as_bytes()).to_vec()
}

/// `base64::engine::general_purpose::STANDARD.encode`. Claimed: the result is
/// the encoding named by `base64_standard_text`, four characters for every
/// started group of three bytes (the crate's `encoded_len` with padding).
/// The crate panics when that length overflows `usize`, so `requires` keeps
/// the input well below it.
#[verifier::external_body]
pub(crate) fn base64_standard(bytes: &[u8]) -> (r: String)
    requires
        bytes@.len() <= usize::MAX / 2,
    ensures
        r@ == base64_standard_text(bytes@),
        r@.len() == 4 * ((bytes@.len() + 2) / 3),
{
    base64::engine::general_purpose::STANDARD.encode(bytes)
}

/// std's `str::trim`. Claimed, as std documents it: the result is the input
/// with its leading and trailing whitespace removed (`whitespace_trimmed`),
/// whitespace being the Unicode `White_Space` property, and it is no longer
/// than the input.
#[verifier::external_body]
pub(crate) fn trim_whitespace(text: &str) -> (r: &str)
    ensures
        r@ == whitespace_trimmed(text@),
        r@.len() <= text@.len(),
{
    text.trim()
}

/// The lower-case hexadecimal digit of a value below sixteen.
pub open spec fn hex_digit(value: u8) -> char {
    if value < 10 {
        (48 + value) as char
    } else {
        (87 + value) as char
    }
}

/// Whether a character is a lower-case hexadecimal digit.
pub open spec fn is_lower_hex_digit(c: char) -> bool {
    ('0' <= c && c <= '9') || ('a' <= c && c <= 'f')
}

/// Each byte as two lower-case hexadecimal digits, high nibble first.
pub open spec fn hex_lower(bytes: Seq<u8>) -> Seq<char>
    decreases bytes.len(),
{
    if bytes.len() == 0 {
        Seq::empty()
    } else {
        hex_lower(bytes.drop_last()) + seq![
            hex_digit(bytes.last() / 16),
            hex_digit(bytes.last() % 16),
        ]
    }
}

/// The lower-case hex encoding of a byte is two characters, both hex digits.
pub proof fn lemma_hex_lower_shape(bytes: Seq<u8>)
    ensures
        hex_lower(bytes).len() == 2 * bytes.len(),
        forall|i: int| 0 <= i < hex_lower(bytes).len() ==> is_lower_hex_digit(
            #[trigger] hex_lower(bytes)[i],
        ),
    decreases bytes.len(),
{
    if bytes.len() > 0 {
        lemma_hex_lower_shape(bytes.drop_last());
        let hi = bytes.last() / 16;
        let lo = bytes.last() % 16;
        assert(is_lower_hex_digit(hex_digit(hi)));
        assert(is_lower_hex_digit(hex_digit(lo)));
    }
}

proof fn lemma_hex_digit_injective(x: u8, y: u8)
    requires
        x < 16,
        y < 16,
        hex_digit(x) == hex_digit(y),
    ensures
        x == y,
{
    assert(hex_digit(x) as u32 == (if x < 10 { 48 + x } else { 87 + x }));
    assert(hex_digit(y) as u32 == (if y < 10 { 48 + y } else { 87 + y }));
}

/// Lower-case hex loses nothing: two byte sequences with the same encoding
/// are the same sequence.
pub proof fn lemma_hex_lower_injective(a: Seq<u8>, b: Seq<u8>)
    requires
        hex_lower(a) == hex_lower(b),
    ensures
        a == b,
    decreases a.len(),
{
    lemma_hex_lower_shape(a);
    lemma_hex_lower_shape(b);
    if a.len() > 0 {
        let ha = hex_lower(a);
        let hb = hex_lower(b);
        let n = ha.len();
        assert(ha.subrange(0, n - 2) =~= hex_lower(a.drop_last()));
        assert(hb.subrange(0, n - 2) =~= hex_lower(b.drop_last()));
        lemma_hex_lower_injective(a.drop_last(), b.drop_last());
        let x = a.last();
        let y = b.last();
        assert(ha[n - 2] == hex_digit(x / 16) && hb[n - 2] == hex_digit(y / 16));
        assert(ha[n - 1] == hex_digit(x % 16) && hb[n - 1] == hex_digit(y % 16));
        lemma_hex_digit_injective(x / 16, y / 16);
        lemma_hex_digit_injective(x % 16, y % 16);
        assert(x == 16 * (x / 16) + x % 16);
        assert(y == 16 * (y / 16) + y % 16);
        assert(a =~= a.drop_last().push(x));
        assert(b =~= b.drop_last().push(y));
    } else {
        assert(a =~= b);
    }
}

fn hex_char(value: u8) -> (c: char)
    requires
        value < 16,
    ensures
        c == hex_digit(value),
{
    if value < 10 {
        (48 + value) as char
    } else {
        (87 + value) as char
    }
}

/// Each byte as two lower-case hexadecimal digits, high nibble first.
pub fn to_hex_lower(bytes: &[u8]) -> (r: String)
    ensures
        r@ == hex_lower(bytes@),
{
    let mut r = String::new();
    let n: usize = bytes.len();
    let mut i: usize = 0;
    while i < n
        invariant
            n == bytes@.len(),
            i <= n,
            r@ == hex_lower(bytes@.subrange(0, i as int)),
        decreases n - i,
    {
        let b: u8 = bytes[i];
        crate::text::push_char(&mut r, hex_char(b / 16));
        crate::text::push_char(&mut r, hex_char(b % 16));
        proof {
            let next = bytes@.subrange(0, i + 1);
            assert(next.drop_last() =~= bytes@.subrange(0, i as int));
            assert(next.last() == b);
        }
        i = i + 1;
    }
    assert(bytes@.subrange(0, n as int) =~= bytes@);
    r
}

} // verus!
