//! Percent-encoding of text for use as the value of one query parameter.
//!
//! The text is taken as its UTF-8 bytes. An ASCII letter, an ASCII digit and
//! each of `-`, `.`, `_`, `~` stands for itself; every other byte is written
//! as `%` and its two upper-case hexadecimal digits.

use vstd::prelude::*;
use vstd::string::StringSliceAdditionalSpecFns;

verus! {

/// `String::push` appends one character to the end of a string and changes
/// nothing else, as the standard library's documentation says.
pub assume_specification[ String::push ](text: &mut String, ch: char)
    ensures
        final(text)@ == old(text)@.push(ch),
;

/// Whether a byte stands for itself in an encoded value.
pub open spec fn is_unreserved(byte: u8) -> bool {
    ||| 0x30 <= byte <= 0x39
    ||| 0x41 <= byte <= 0x5A
    ||| 0x61 <= byte <= 0x7A
    ||| byte == 0x2D
    ||| byte == 0x2E
    ||| byte == 0x5F
    ||| byte == 0x7E
}

/// The upper-case hexadecimal digit of a value below sixteen.
pub open spec fn hex_digit(nibble: u8) -> char {
    if nibble < 10 {
        ((0x30 + nibble) as u8) as char
    } else {
        ((0x37 + nibble) as u8) as char
    }
}

/// The characters that stand for one byte.
pub open spec fn encoded_byte(byte: u8) -> Seq<char> {
    if is_unreserved(byte) {
        seq![byte as char]
    } else {
        seq!['%', hex_digit(byte / 16), hex_digit(byte % 16)]
    }
}

/// The characters that stand for a sequence of bytes: those of each byte, in
/// order.
pub open spec fn percent_encoded(bytes: Seq<u8>) -> Seq<char>
    decreases bytes.len(),
{
    if bytes.len() == 0 {
        Seq::empty()
    } else {
        percent_encoded(bytes.drop_last()) + encoded_byte(bytes.last())
    }
}

/// The value of an upper-case hexadecimal digit.
pub open spec fn hex_value(digit: char) -> int {
    if '0' <= digit <= '9' {
        digit as u32 - 0x30
    } else {
        digit as u32 - 0x37
    }
}

/// The bytes that an encoded value stands for: `%` and two digits give the
/// byte with those digits, any other character gives its own byte.
pub open spec fn percent_decoded(chars: Seq<char>) -> Seq<u8>
    decreases chars.len(),
{
    if chars.len() == 0 {
        Seq::empty()
    } else if chars[0] == '%' && chars.len() >= 3 {
        seq![(hex_value(chars[1]) * 16 + hex_value(chars[2])) as u8] + percent_decoded(
            chars.skip(3),
        )
    } else {
        seq![chars[0] as u8] + percent_decoded(chars.skip(1))
    }
}

/// Whether a character can occur in an encoded value.
pub open spec fn is_encoded_char(c: char) -> bool {
    ||| '0' <= c <= '9'
    ||| 'A' <= c <= 'Z'
    ||| 'a' <= c <= 'z'
    ||| c == '-'
    ||| c == '.'
    ||| c == '_'
    ||| c == '~'
    ||| c == '%'
}

fn is_unreserved_byte(byte: u8) -> (plain: bool)
    ensures
        plain == is_unreserved(byte),
{
    (0x30 <= byte && byte <= 0x39) || (0x41 <= byte && byte <= 0x5A) || (0x61 <= byte && byte
        <= 0x7A) || byte == 0x2D || byte == 0x2E || byte == 0x5F || byte == 0x7E
}

fn hex_digit_of(nibble: u8) -> (digit: char)
    requires
        nibble < 16,
    ensures
        digit == hex_digit(nibble),
{
    if nibble < 10 {
        (0x30 + nibble) as char
    } else {
        (0x37 + nibble) as char
    }
}

/// Encodes a text for use as the value of one query parameter.
pub fn percent_encode(text: &str) -> (encoded: String)
    ensures
        encoded@ == percent_encoded(text.spec_bytes()),
{
    let bytes = text.as_bytes();
    let n: usize = bytes.len();
    let mut encoded = String::new();
    let mut i: usize = 0;
    while i < n
        invariant
            n == bytes@.len(),
            i <= n,
            encoded@ == percent_encoded(bytes@.take(i as int)),
        decreases n - i,
    {
        let byte: u8 = bytes[i];
        let ghost before = encoded@;
        if is_unreserved_byte(byte) {
            encoded.push(byte as char);
            assert(encoded@ =~= before + encoded_byte(byte));
        } else {
            encoded.push('%');
            encoded.push(hex_digit_of(byte / 16));
            encoded.push(hex_digit_of(byte % 16));
            assert(encoded@ =~= before + encoded_byte(byte));
        }
        assert(bytes@.take(i + 1).drop_last() =~= bytes@.take(i as int));
        assert(bytes@.take(i + 1).last() == byte);
        i = i + 1;
    }
    assert(bytes@.take(n as int) =~= bytes@);
    encoded
}

/// Encoding goes byte by byte: the encoding of two sequences, one after the
/// other, is the encoding of the first followed by that of the second.
pub proof fn lemma_encoding_distributes(first: Seq<u8>, second: Seq<u8>)
    ensures
        percent_encoded(first + second) == percent_encoded(first) + percent_encoded(second),
    decreases second.len(),
{
    if second.len() == 0 {
        assert(first + second =~= first);
        assert(percent_encoded(first) + percent_encoded(second) =~= percent_encoded(first));
    } else {
        lemma_encoding_distributes(first, second.drop_last());
        assert((first + second).drop_last() =~= first + second.drop_last());
        assert((first + second).last() == second.last());
        assert(percent_encoded(first + second) =~= percent_encoded(first) + percent_encoded(
            second,
        ));
    }
}

/// An encoded value holds only ASCII letters, digits, `-`, `.`, `_`, `~` and
/// `%`. So it holds no `&`, `=`, `#`, `?`, `+` or space, and the text that
/// was encoded can neither end the parameter nor add another.
pub proof fn lemma_encoded_value_is_plain(bytes: Seq<u8>)
    ensures
        forall|i: int|
            0 <= i < percent_encoded(bytes).len() ==> is_encoded_char(
                #[trigger] percent_encoded(bytes)[i],
            ),
        forall|i: int|
            0 <= i < percent_encoded(bytes).len() ==> {
                let c = #[trigger] percent_encoded(bytes)[i];
                c != '&' && c != '=' && c != '#' && c != '?' && c != '+' && c != ' '
            },
    decreases bytes.len(),
{
    if bytes.len() > 0 {
        lemma_encoded_value_is_plain(bytes.drop_last());
        let head = percent_encoded(bytes.drop_last());
        let tail = encoded_byte(bytes.last());
        assert forall|k: int| 0 <= k < tail.len() implies is_encoded_char(#[trigger] tail[k]) by {
            lemma_hex_digit_is_plain(bytes.last() / 16);
            lemma_hex_digit_is_plain(bytes.last() % 16);
        }
        assert forall|i: int| 0 <= i < percent_encoded(bytes).len() implies is_encoded_char(
            #[trigger] percent_encoded(bytes)[i],
        ) by {
            if i < head.len() {
                assert(percent_encoded(bytes)[i] == head[i]);
            } else {
                assert(percent_encoded(bytes)[i] == tail[i - head.len()]);
            }
        }
    }
}

/// A hexadecimal digit is one of `0` to `9` and `A` to `F`, and has the value
/// it was made from.
pub proof fn lemma_hex_digit_is_plain(nibble: u8)
    requires
        nibble < 16,
    ensures
        is_encoded_char(hex_digit(nibble)),
        hex_digit(nibble) != '%',
        hex_value(hex_digit(nibble)) == nibble,
{
}

/// Nothing is lost in encoding: decoding an encoded value gives back the
/// bytes that were encoded.
pub proof fn lemma_decoding_gives_the_bytes_back(bytes: Seq<u8>)
    ensures
        percent_decoded(percent_encoded(bytes)) == bytes,
    decreases bytes.len(),
{
    if bytes.len() > 0 {
        let first = bytes[0];
        let rest = bytes.skip(1);
        assert(bytes =~= seq![first] + rest);
        lemma_encoding_distributes(seq![first], rest);
        assert(percent_encoded(seq![first]) =~= encoded_byte(first)) by {
            assert(seq![first].drop_last() =~= Seq::<u8>::empty());
            assert(seq![first].last() == first);
            assert(percent_encoded(Seq::<u8>::empty()) =~= Seq::<char>::empty());
        }
        let chars = percent_encoded(bytes);
        assert(chars == encoded_byte(first) + percent_encoded(rest));
        lemma_decoding_gives_the_bytes_back(rest);
        if is_unreserved(first) {
            assert(chars[0] == first as char);
            assert(chars[0] != '%');
            assert(chars.skip(1) =~= percent_encoded(rest));
            assert((first as char) as u8 == first);
        } else {
            lemma_hex_digit_is_plain(first / 16);
            lemma_hex_digit_is_plain(first % 16);
            assert(chars[0] == '%');
            assert(chars[1] == hex_digit(first / 16));
            assert(chars[2] == hex_digit(first % 16));
            assert(chars.skip(3) =~= percent_encoded(rest));
            assert((first / 16) * 16 + first % 16 == first);
        }
        assert(percent_decoded(chars) =~= seq![first] + rest);
    }
}

} // verus!
