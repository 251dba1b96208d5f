use vstd::prelude::*;
use vstd::string::StringSliceAdditionalSpecFns;

use crate::text::{lemma_ascii_valid_utf8, str_from_utf8};

verus! {

/// The ASCII code of the upper-case hexadecimal digit for `n` (0..16).
pub open spec fn hex_digit(n: u8) -> u8 {
    if n < 10 {
        (n + 0x30) as u8
    } else {
        (n + 0x37) as u8
    }
}

/// The two hexadecimal digits of a byte, high nibble first.
pub open spec fn hex_pair(byte: u8) -> Seq<u8> {
    seq![hex_digit(byte >> 4u8), hex_digit(byte & 0x0Fu8)]
}

/// The ASCII text that writes `bytes` as two-digit upper-case hexadecimal
/// numbers separated by `sep`.
pub open spec fn hex_join(bytes: Seq<u8>, sep: u8) -> Seq<u8>
    decreases bytes.len(),
{
    if bytes.len() == 0 {
        Seq::empty()
    } else if bytes.len() == 1 {
        hex_pair(bytes[0])
    } else {
        hex_join(bytes.drop_last(), sep) + seq![sep] + hex_pair(bytes.last())
    }
}

/// The separated hex text of `n` bytes is `3n - 1` characters long.
pub proof fn lemma_hex_join_len(bytes: Seq<u8>, sep: u8)
    ensures
        bytes.len() == 0 ==> hex_join(bytes, sep).len() == 0,
        bytes.len() > 0 ==> hex_join(bytes, sep).len() == 3 * bytes.len() - 1,
    decreases bytes.len(),
{
    if bytes.len() > 1 {
        lemma_hex_join_len(bytes.drop_last(), sep);
    }
}

/// Hex text is ASCII: every byte of it is below 0x80.
pub proof fn lemma_hex_join_ascii(bytes: Seq<u8>, sep: u8)
    requires
        sep < 0x80,
    ensures
        forall|i: int| 0 <= i < hex_join(bytes, sep).len() ==> hex_join(bytes, sep)[i] < 0x80,
    decreases bytes.len(),
{
    if bytes.len() > 0 {
        let b = bytes.last();
        assert(b >> 4u8 < 16) by (bit_vector);
        assert(b & 0x0Fu8 < 16) by (bit_vector);
        let pair = hex_pair(b);
        assert(pair[0] < 0x80 && pair[1] < 0x80);
        if bytes.len() > 1 {
            lemma_hex_join_ascii(bytes.drop_last(), sep);
            let head = hex_join(bytes.drop_last(), sep) + seq![sep];
            assert forall|i: int| 0 <= i < head.len() implies head[i] < 0x80 by {
                if i < head.len() - 1 {
                    assert(head[i] == hex_join(bytes.drop_last(), sep)[i]);
                }
            }
            assert forall|i: int| 0 <= i < hex_join(bytes, sep).len() implies hex_join(
                bytes,
                sep,
            )[i] < 0x80 by {
                if i < head.len() {
                    assert(hex_join(bytes, sep)[i] == head[i]);
                } else {
                    assert(hex_join(bytes, sep)[i] == pair[i - head.len()]);
                }
            }
        } else {
            assert(bytes[0] == b);
        }
    }
}

/// The digit of a nibble is the upper-case hexadecimal digit whose value is
/// that nibble: '0'-'9' for 0-9 and 'A'-'F' for 10-15, that is, character `n`
/// of "0123456789ABCDEF".
pub proof fn lemma_hex_digit_value(n: u8)
    requires
        n < 16,
    ensures
        (0x30 <= hex_digit(n) <= 0x39 && hex_digit(n) - 0x30 == n) || (0x41 <= hex_digit(n) <= 0x46
            && hex_digit(n) - 0x41 + 10 == n),
        hex_digit(n) as char == "0123456789ABCDEF"@[n as int],
{
    reveal_strlit("0123456789ABCDEF");
    assert("0123456789ABCDEF"@ =~= seq![
        '0', '1', '2', '3', '4', '5', '6', '7', '8', '9', 'A', 'B', 'C', 'D', 'E', 'F',
    ]);
}

/// Where each byte lands in the hex text: byte `j` becomes the digits of its
/// high and low nibbles (`b / 16`, `b % 16`) at positions `3j` and `3j + 1`,
/// and the separator stands at `3j + 2` between consecutive bytes.
pub proof fn lemma_hex_join_layout(bytes: Seq<u8>, sep: u8)
    ensures
        hex_join(bytes, sep).len() == if bytes.len() == 0 {
            0
        } else {
            3 * bytes.len() - 1
        },
        forall|j: int|
            0 <= j < bytes.len() ==> hex_join(bytes, sep)[3 * j] == hex_digit(
                (#[trigger] bytes[j] / 16) as u8,
            ) && hex_join(bytes, sep)[3 * j + 1] == hex_digit((bytes[j] % 16) as u8),
        forall|j: int|
            0 <= j < bytes.len() - 1 ==> #[trigger] hex_join(bytes, sep)[3 * j + 2] == sep,
    decreases bytes.len(),
{
    lemma_hex_join_len(bytes, sep);
    if bytes.len() > 0 {
        let b = bytes.last();
        let n = bytes.len() - 1;
        assert(b >> 4u8 == b / 16) by (bit_vector);
        assert(b & 0x0Fu8 == b % 16) by (bit_vector);
        if bytes.len() > 1 {
            let rest = bytes.drop_last();
            lemma_hex_join_layout(rest, sep);
            let whole = hex_join(bytes, sep);
            let head = hex_join(rest, sep);
            assert(whole == head + seq![sep] + hex_pair(b));
            assert forall|j: int| 0 <= j < bytes.len() implies whole[3 * j] == hex_digit(
                (#[trigger] bytes[j] / 16) as u8,
            ) && whole[3 * j + 1] == hex_digit((bytes[j] % 16) as u8) by {
                if j < n {
                    assert(bytes[j] == rest[j]);
                    assert(whole[3 * j] == head[3 * j]);
                    assert(whole[3 * j + 1] == head[3 * j + 1]);
                } else {
                    assert(whole[3 * j] == hex_pair(b)[0]);
                    assert(whole[3 * j + 1] == hex_pair(b)[1]);
                }
            }
            assert forall|j: int| 0 <= j < bytes.len() - 1 implies #[trigger] whole[3 * j + 2]
                == sep by {
                if j < n - 1 {
                    assert(whole[3 * j + 2] == head[3 * j + 2]);
                }
            }
        } else {
            assert(bytes[0] == b);
        }
    }
}

/// The ASCII code of the upper-case hexadecimal digit for a nibble.
pub fn hex_digit_of(n: u8) -> (digit: u8)
    requires
        n < 16,
    ensures
        digit == hex_digit(n),
{
    if n < 10 {
        n + 0x30
    } else {
        n + 0x37
    }
}

/// Formats bytes as hexadecimal text for the debug console.
pub struct HexFormatter;

impl HexFormatter {
    /// The two upper-case hexadecimal digits of `byte`, high nibble first.
    pub fn byte_to_hex(byte: u8) -> (digits: (char, char))
        ensures
            digits.0 == hex_digit(byte >> 4u8) as char,
            digits.1 == hex_digit(byte & 0x0Fu8) as char,
    {
        assert(byte >> 4u8 < 16) by (bit_vector);
        assert(byte & 0x0Fu8 < 16) by (bit_vector);
        (hex_digit_of(byte >> 4) as char, hex_digit_of(byte & 0x0F) as char)
    }

    /// Writes `buf` into the front of `output` as space-separated hex pairs
    /// ("00 06 20") and returns that text; the rest of `output` is left as it
    /// was.
    pub fn bytes_to_hex_string<'a>(buf: &[u8], output: &'a mut [u8]) -> (text: &'a str)
        requires
            buf.len() == 0 || old(output).len() >= 3 * buf.len() - 1,
        ensures
            text.spec_bytes() == hex_join(buf@, 0x20),
            final(output)@.len() == old(output)@.len(),
            final(output)@.take(hex_join(buf@, 0x20).len() as int) == hex_join(buf@, 0x20),
            final(output)@.skip(hex_join(buf@, 0x20).len() as int) == old(output)@.skip(
                hex_join(buf@, 0x20).len() as int,
            ),
    {
        let mut index: usize = 0;
        proof {
            lemma_hex_join_len(buf@, 0x20);
        }
        for i in 0..buf.len()
            invariant
                buf.len() == 0 || old(output).len() >= 3 * buf.len() - 1,
                output@.len() == old(output)@.len(),
                index == hex_join(buf@.take(i as int), 0x20).len(),
                i == 0 ==> index == 0,
                i > 0 ==> index == 3 * i - 1,
                output@.take(index as int) == hex_join(buf@.take(i as int), 0x20),
                output@.skip(index as int) == old(output)@.skip(index as int),
        {
            let ghost prev = output@;
            let ghost prefix = buf@.take(i as int);
            let byte = buf[i];
            proof {
                assert(buf@.take(i + 1).drop_last() =~= prefix);
                assert(buf@.take(i + 1).last() == byte);
                lemma_hex_join_len(buf@.take(i + 1), 0x20);
            }
            if index > 0 {
                output[index] = 0x20;
                index += 1;
            }
            let (high, low) = Self::byte_to_hex(byte);
            output[index] = high as u8;
            output[index + 1] = low as u8;
            index += 2;
            proof {
                if i == 0 {
                    assert(buf@.take(1) =~= seq![byte]);
                    assert(output@.take(index as int) =~= hex_pair(byte));
                } else {
                    assert(output@.take(index as int) =~= prev.take((index - 3) as int) + seq![
                        0x20u8,
                    ] + hex_pair(byte));
                }
                let start: int = if i == 0 {
                    0
                } else {
                    index - 3
                };
                assert forall|k: int| index <= k < output@.len() implies output@[k] == old(
                    output,
                )@[k] by {
                    assert(prev.skip(start)[k - start] == old(output)@.skip(start)[k - start]);
                }
                assert(output@.skip(index as int) =~= old(output)@.skip(index as int));
            }
        }
        proof {
            assert(buf@.take(buf.len() as int) =~= buf@);
            lemma_hex_join_ascii(buf@, 0x20);
            lemma_ascii_valid_utf8(hex_join(buf@, 0x20));
        }
        let written: &'a [u8] = output;
        let text_bytes = vstd::slice::slice_subrange(written, 0, index);
        proof {
            assert(text_bytes@ =~= hex_join(buf@, 0x20));
        }
        str_from_utf8(text_bytes).unwrap()
    }
}

} // verus!
