//! Well-formedness of a token's name, ticker symbol and decimals, stated over
//! the bytes of their UTF-8 encoding.

use vstd::prelude::*;
use vstd::utf8::{encode_scalar, encode_utf8, is_ascii_chars, is_ascii_chars_encode_utf8};

verus! {

/// Fewest bytes a name may have.
pub const NAME_MIN_LEN: usize = 3;

/// Most bytes a name may have.
pub const NAME_MAX_LEN: usize = 50;

/// Fewest bytes a ticker symbol may have.
pub const SYMBOL_MIN_LEN: usize = 3;

/// Most bytes a ticker symbol may have.
pub const SYMBOL_MAX_LEN: usize = 12;

/// Largest number of decimals a token may declare.
pub const MAX_DECIMALS: u8 = 18;

/// A byte that may occur in a ticker symbol: an ASCII digit, an ASCII letter of
/// either case, or the dash.
pub open spec fn symbol_byte(b: u8) -> bool {
    ||| b == 45
    ||| 48 <= b <= 57
    ||| 65 <= b <= 90
    ||| 97 <= b <= 122
}

/// The bytes of a well-formed name: between 3 and 50 of them, whatever they are.
pub open spec fn name_bytes_ok(bytes: Seq<u8>) -> bool {
    NAME_MIN_LEN <= bytes.len() <= NAME_MAX_LEN
}

/// The bytes of a well-formed ticker symbol: between 3 and 12 of them, each one
/// a `symbol_byte`.
pub open spec fn symbol_bytes_ok(bytes: Seq<u8>) -> bool {
    &&& SYMBOL_MIN_LEN <= bytes.len() <= SYMBOL_MAX_LEN
    &&& forall|i: int| 0 <= i < bytes.len() ==> symbol_byte(#[trigger] bytes[i])
}

/// A character that may occur in a ticker symbol: an ASCII digit, an ASCII
/// letter of either case, or the dash.
pub open spec fn symbol_char(c: char) -> bool {
    ||| c == '-'
    ||| '0' <= c <= '9'
    ||| 'A' <= c <= 'Z'
    ||| 'a' <= c <= 'z'
}

/// The characters of a well-formed ticker symbol: between 3 and 12 of them,
/// each one a `symbol_char`.
pub open spec fn symbol_chars_ok(chars: Seq<char>) -> bool {
    &&& SYMBOL_MIN_LEN <= chars.len() <= SYMBOL_MAX_LEN
    &&& forall|i: int| 0 <= i < chars.len() ==> symbol_char(#[trigger] chars[i])
}

/// The encoding of a character is never empty, and it starts with a byte below
/// 128 only where the character is an ASCII one. No character lies below NUL.
proof fn lemma_first_byte_of_char(c: char)
    ensures
        encode_scalar(c as u32).len() >= 1,
        '\0' <= c,
        c <= '\u{7f}' || encode_scalar(c as u32)[0] >= 0x80,
{
    let v = c as u32;
    assert((0xC0u8 | ((v >> 6) & 0x1F) as u8) >= 0x80) by (bit_vector);
    assert((0xE0u8 | ((v >> 12) & 0x0F) as u8) >= 0x80) by (bit_vector);
    assert((0xF0u8 | ((v >> 18) & 0x7) as u8) >= 0x80) by (bit_vector);
}

/// A text whose encoding holds no byte from 128 up holds ASCII characters only.
pub proof fn lemma_ascii_bytes_mean_ascii_chars(chars: Seq<char>)
    requires
        forall|i: int| 0 <= i < encode_utf8(chars).len() ==> #[trigger] encode_utf8(chars)[i] < 0x80,
    ensures
        is_ascii_chars(chars),
    decreases chars.len(),
{
    if chars.len() > 0 {
        let head = encode_scalar(chars[0] as u32);
        let rest = chars.drop_first();
        let tail = encode_utf8(rest);
        let bytes = encode_utf8(chars);
        assert(bytes == head + tail);
        lemma_first_byte_of_char(chars[0]);
        assert(bytes[0] == head[0]);
        assert forall|i: int| 0 <= i < tail.len() implies #[trigger] tail[i] < 0x80 by {
            assert(bytes[head.len() + i] == tail[i]);
        }
        lemma_ascii_bytes_mean_ascii_chars(rest);
        assert forall|i: int| 0 <= i < chars.len() implies '\0' <= #[trigger] chars[i] <= '\u{7f}' by {
            if i > 0 {
                assert(chars[i] == rest[i - 1]);
            }
        }
    }
}

/// The byte-wise check of a ticker symbol accepts exactly the texts of 3 to 12
/// characters from the symbol alphabet. A character beyond ASCII is therefore
/// never accepted: its encoding starts with a byte from 128 up.
pub proof fn lemma_symbol_bytes_iff_chars(chars: Seq<char>)
    ensures
        symbol_bytes_ok(encode_utf8(chars)) <==> symbol_chars_ok(chars),
{
    let bytes = encode_utf8(chars);
    if symbol_chars_ok(chars) {
        assert(is_ascii_chars(chars)) by {
            assert forall|i: int| 0 <= i < chars.len() implies '\0' <= #[trigger] chars[i] <= '\u{7f}' by {
                assert(symbol_char(chars[i]));
            }
        }
        is_ascii_chars_encode_utf8(chars);
        assert forall|i: int| 0 <= i < bytes.len() implies symbol_byte(#[trigger] bytes[i]) by {
            assert(symbol_char(chars[i]));
            assert(chars[i] as u8 == bytes[i]);
        }
    }
    if symbol_bytes_ok(bytes) {
        assert forall|i: int| 0 <= i < bytes.len() implies #[trigger] bytes[i] < 0x80 by {
            assert(symbol_byte(bytes[i]));
        }
        lemma_ascii_bytes_mean_ascii_chars(chars);
        is_ascii_chars_encode_utf8(chars);
        assert forall|i: int| 0 <= i < chars.len() implies symbol_char(#[trigger] chars[i]) by {
            assert(chars[i] as u8 == bytes[i]);
        }
    }
}

/// Whether `b` may occur in a ticker symbol.
pub fn is_symbol_byte(b: u8) -> (ok: bool)
    ensures
        ok == symbol_byte(b),
{
    b == 45 || (48 <= b && b <= 57) || (65 <= b && b <= 90) || (97 <= b && b <= 122)
}

/// Whether `bytes` are the bytes of a well-formed name.
pub fn check_name_bytes(bytes: &[u8]) -> (ok: bool)
    ensures
        ok == name_bytes_ok(bytes@),
{
    let n: usize = bytes.len();
    NAME_MIN_LEN <= n && n <= NAME_MAX_LEN
}

/// Whether `bytes` are the bytes of a well-formed ticker symbol.
pub fn check_symbol_bytes(bytes: &[u8]) -> (ok: bool)
    ensures
        ok == symbol_bytes_ok(bytes@),
{
    let n: usize = bytes.len();
    if n < SYMBOL_MIN_LEN || n > SYMBOL_MAX_LEN {
        return false;
    }
    let mut i: usize = 0;
    while i < n
        invariant
            n == bytes@.len(),
            i <= n,
            forall|j: int| 0 <= j < i ==> symbol_byte(#[trigger] bytes@[j]),
        decreases n - i,
    {
        if !is_symbol_byte(bytes[i]) {
            return false;
        }
        i = i + 1;
    }
    true
}

} // verus!

