//! Zero padding of byte strings and its inverse, the removal of zero bytes.
use vstd::prelude::*;
use vstd::utf8::{encode_scalar, encode_utf8, has_width_1_encoding};

verus! {

/// `count` zero bytes.
pub open spec fn zeros(count: nat) -> Seq<u8> {
    Seq::new(count, |i: int| 0u8)
}

/// `bytes`, followed by as many zero bytes as it takes to reach `width`.
/// Bytes that are already that wide or wider are left as they are.
pub open spec fn zero_padded(bytes: Seq<u8>, width: nat) -> Seq<u8> {
    if bytes.len() <= width {
        bytes + zeros((width - bytes.len()) as nat)
    } else {
        bytes
    }
}

/// The test that a byte is not zero.
pub open spec fn is_nonzero() -> spec_fn(u8) -> bool {
    |byte: u8| byte != 0
}

/// `bytes` without its zero bytes, wherever they stand; the other bytes keep
/// their order.
pub open spec fn without_zeros(bytes: Seq<u8>) -> Seq<u8> {
    bytes.filter(is_nonzero())
}

/// Whether the text holds the character U+0000.
pub open spec fn has_nul(text: Seq<char>) -> bool {
    exists|i: int| 0 <= i < text.len() && text[i] == '\0'
}

/// The test that a character is not U+0000.
pub open spec fn is_not_nul() -> spec_fn(char) -> bool {
    |c: char| c != '\0'
}

/// `text` without its characters U+0000; the other characters keep their
/// order.
pub open spec fn without_nul(text: Seq<char>) -> Seq<char> {
    text.filter(is_not_nul())
}

/// Removing the zero bytes goes byte by byte: the last byte is kept or
/// dropped, and the bytes before it are treated on their own.
pub proof fn lemma_without_zeros_push(bytes: Seq<u8>, byte: u8)
    ensures
        without_zeros(bytes.push(byte)) == if byte != 0 {
            without_zeros(bytes).push(byte)
        } else {
            without_zeros(bytes)
        },
{
    reveal(Seq::filter);
    assert(bytes.push(byte).drop_last() =~= bytes);
}

/// Nothing is left of a run of zero bytes.
pub proof fn lemma_without_zeros_of_zeros(count: nat)
    ensures
        without_zeros(zeros(count)) == Seq::<u8>::empty(),
    decreases count,
{
    reveal(Seq::filter);
    if count > 0 {
        assert(zeros(count).drop_last() =~= zeros((count - 1) as nat));
        lemma_without_zeros_of_zeros((count - 1) as nat);
    }
}

/// Bytes among which there is no zero are left unchanged.
pub proof fn lemma_without_zeros_keeps_nonzero(bytes: Seq<u8>)
    requires
        !bytes.contains(0u8),
    ensures
        without_zeros(bytes) == bytes,
    decreases bytes.len(),
{
    reveal(Seq::filter);
    if bytes.len() > 0 {
        lemma_without_zeros_keeps_nonzero(bytes.drop_last());
    }
}

/// The UTF-8 encoding of one character holds a zero byte only if the
/// character is U+0000.
pub proof fn lemma_scalar_encoding_zero(c: char)
    ensures
        encode_scalar(c as u32).contains(0u8) <==> c == '\0',
{
    let scalar = c as u32;
    let encoding = encode_scalar(scalar);
    if has_width_1_encoding(scalar) {
        assert((scalar & 0x7F) as u8 == 0u8 <==> scalar == 0) by (bit_vector)
            requires
                scalar <= 0x7F,
        ;
        if scalar == 0 {
            assert(encoding.contains(encoding[0]));
        }
    } else {
        assert(0xC0u8 | ((scalar >> 6) & 0x1F) as u8 != 0) by (bit_vector);
        assert(0xE0u8 | ((scalar >> 12) & 0x0F) as u8 != 0) by (bit_vector);
        assert(0xF0u8 | ((scalar >> 18) & 0x7) as u8 != 0) by (bit_vector);
        assert(0x80u8 | (scalar & 0x3F) as u8 != 0) by (bit_vector);
        assert(0x80u8 | ((scalar >> 6) & 0x3F) as u8 != 0) by (bit_vector);
        assert(0x80u8 | ((scalar >> 12) & 0x3F) as u8 != 0) by (bit_vector);
    }
}

/// A text that is free of the character U+0000 is left unchanged when its
/// characters U+0000 are dropped.
pub proof fn lemma_without_nul_keeps_plain_text(text: Seq<char>)
    requires
        !has_nul(text),
    ensures
        without_nul(text) == text,
    decreases text.len(),
{
    reveal(Seq::filter);
    if text.len() > 0 {
        lemma_without_nul_keeps_plain_text(text.drop_last());
    }
}

/// Dropping the zero bytes of a text's UTF-8 encoding gives the encoding of
/// the text without its characters U+0000: among all characters, U+0000 is
/// the only one with a zero byte in its encoding.
pub proof fn lemma_without_zeros_of_encoding(text: Seq<char>)
    ensures
        without_zeros(encode_utf8(text)) == encode_utf8(without_nul(text)),
    decreases text.len(),
{
    if text.len() > 0 {
        let first = text[0];
        let rest = text.drop_first();
        let head = encode_scalar(first as u32);
        lemma_without_zeros_of_encoding(rest);
        lemma_scalar_encoding_zero(first);
        rest.lemma_filter_prepend(first, is_not_nul());
        assert(seq![first] + rest =~= text);
        if first == '\0' {
            assert(head =~= zeros(1));
            lemma_without_zeros_of_zeros(1);
            assert(Seq::<u8>::empty() + without_zeros(encode_utf8(rest)) =~= without_zeros(
                encode_utf8(rest),
            ));
        } else {
            lemma_without_zeros_keeps_nonzero(head);
            let kept = seq![first] + without_nul(rest);
            assert(kept.drop_first() =~= without_nul(rest));
        }
    }
}

} // verus!
