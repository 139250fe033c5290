//! Bytes in hexadecimal, and as a row of blocks for bytes that mean
//! nothing to the reader.

use vstd::prelude::*;
use vstd::slice::slice_subrange;
use vstd::string::{StrSliceExecFns, StringExecFns};

verus! {

/// The upper-case hexadecimal digit of `nibble`.
pub open spec fn hex_digit_upper(nibble: int) -> char
    recommends
        0 <= nibble < 16,
{
    seq![
        '0', '1', '2', '3', '4', '5', '6', '7', '8', '9', 'A', 'B', 'C', 'D', 'E', 'F',
    ][nibble]
}

/// `bytes` in upper-case hexadecimal: two digits for each byte, the upper
/// half of the byte first.
pub open spec fn hex_upper(bytes: Seq<u8>) -> Seq<char> {
    Seq::new(
        2 * bytes.len(),
        |i: int|
            if i % 2 == 0 {
                hex_digit_upper(bytes[i / 2] as int / 16)
            } else {
                hex_digit_upper(bytes[i / 2] as int % 16)
            },
    )
}

/// Calls `hex::encode_upper`, which walks the bytes in order and gives for
/// each the digit of its upper four bits and then the digit of its lower
/// four bits, both taken from `0123456789ABCDEF`.
#[verifier::external_body]
fn encode_upper(bytes: &[u8]) -> (text: String)
    ensures
        text@ == hex_upper(bytes@),
{
    hex::encode_upper(bytes)
}

/// The block that stands for a hexadecimal digit. Any other character
/// stands for nothing.
pub open spec fn opaque_block(digit: char) -> Seq<char> {
    if digit == '0' {
        seq!['\u{2595}']
    } else if digit == '1' {
        seq!['\u{2581}']
    } else if digit == '2' {
        seq!['\u{2582}']
    } else if digit == '3' {
        seq!['\u{2583}']
    } else if digit == '4' {
        seq!['\u{2584}']
    } else if digit == '5' {
        seq!['\u{2585}']
    } else if digit == '6' {
        seq!['\u{2586}']
    } else if digit == '7' {
        seq!['\u{2587}']
    } else if digit == '8' {
        seq!['\u{2588}']
    } else if digit == '9' {
        seq!['\u{2589}']
    } else if digit == 'A' {
        seq!['\u{259A}']
    } else if digit == 'B' {
        seq!['\u{259B}']
    } else if digit == 'C' {
        seq!['\u{259C}']
    } else if digit == 'D' {
        seq!['\u{259D}']
    } else if digit == 'E' {
        seq!['\u{259E}']
    } else if digit == 'F' {
        seq!['\u{259F}']
    } else {
        Seq::empty()
    }
}

/// The blocks of the digits of `text`, in their order.
pub open spec fn opaque_blocks(text: Seq<char>) -> Seq<char>
    decreases text.len(),
{
    if text.len() == 0 {
        Seq::empty()
    } else {
        opaque_blocks(text.drop_last()) + opaque_block(text.last())
    }
}

/// How many bytes at most are shown as blocks.
pub const MAX_OPAQUE_BYTES: usize = 32;

/// How many bytes at least there must be for any to be shown.
pub const MIN_OPAQUE_BYTES: usize = 8;

/// The row of blocks that stands for `bytes`: nothing for fewer than eight
/// bytes, else one block for each hexadecimal digit of the first
/// thirty-two.
pub open spec fn opaque_text(bytes: Seq<u8>) -> Seq<char> {
    if bytes.len() < MIN_OPAQUE_BYTES {
        Seq::empty()
    } else if bytes.len() > MAX_OPAQUE_BYTES {
        opaque_blocks(hex_upper(bytes.subrange(0, MAX_OPAQUE_BYTES as int)))
    } else {
        opaque_blocks(hex_upper(bytes))
    }
}

/// The text of the block that stands for `digit`.
fn block_str(digit: char) -> (block: &'static str)
    ensures
        block@ == opaque_block(digit),
{
    proof {
        reveal_strlit("\u{2595}");
        reveal_strlit("\u{2581}");
        reveal_strlit("\u{2582}");
        reveal_strlit("\u{2583}");
        reveal_strlit("\u{2584}");
        reveal_strlit("\u{2585}");
        reveal_strlit("\u{2586}");
        reveal_strlit("\u{2587}");
        reveal_strlit("\u{2588}");
        reveal_strlit("\u{2589}");
        reveal_strlit("\u{259A}");
        reveal_strlit("\u{259B}");
        reveal_strlit("\u{259C}");
        reveal_strlit("\u{259D}");
        reveal_strlit("\u{259E}");
        reveal_strlit("\u{259F}");
        reveal_strlit("");
    }
    let block = match digit {
        '0' => "\u{2595}",
        '1' => "\u{2581}",
        '2' => "\u{2582}",
        '3' => "\u{2583}",
        '4' => "\u{2584}",
        '5' => "\u{2585}",
        '6' => "\u{2586}",
        '7' => "\u{2587}",
        '8' => "\u{2588}",
        '9' => "\u{2589}",
        'A' => "\u{259A}",
        'B' => "\u{259B}",
        'C' => "\u{259C}",
        'D' => "\u{259D}",
        'E' => "\u{259E}",
        'F' => "\u{259F}",
        _ => "",
    };
    assert(block@ =~= opaque_block(digit));
    block
}

/// A placeholder for information that cannot be read: a row of blocks
/// drawn from the first bytes of what is there.
pub fn format_opaque_bytes(bytes: &[u8]) -> (text: String)
    ensures
        text@ == opaque_text(bytes@),
{
    if bytes.len() < MIN_OPAQUE_BYTES {
        return String::new();
    }
    let rem = if bytes.len() > MAX_OPAQUE_BYTES {
        slice_subrange(bytes, 0, MAX_OPAQUE_BYTES)
    } else {
        bytes
    };
    assert(bytes@.len() <= MAX_OPAQUE_BYTES ==> rem@ == bytes@);
    let hex_str = encode_upper(rem);
    let digits = hex_str.as_str();
    let n = digits.unicode_len();
    let mut opaque_chars = String::new();
    let mut i: usize = 0;
    assert(digits@.take(0) =~= Seq::<char>::empty());
    while i < n
        invariant
            n == digits@.len(),
            i <= n,
            opaque_chars@ == opaque_blocks(digits@.take(i as int)),
        decreases n - i,
    {
        let c = digits.get_char(i);
        opaque_chars.append(block_str(c));
        proof {
            let prefix = digits@.take(i + 1);
            assert(prefix.drop_last() =~= digits@.take(i as int));
            assert(prefix.last() == c);
        }
        i += 1;
    }
    assert(digits@.take(n as int) =~= digits@);
    opaque_chars
}

} // verus!
