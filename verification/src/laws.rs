//! What holds between the text that is reported, the descriptor that is
//! handed out for it and the block that is given back.

use crate::descriptor::FFISlice;
use crate::release::released;
use crate::report::target_name;
use vstd::prelude::*;
use vstd::utf8::encode_scalar;
use vstd::utf8::encode_utf8;

verus! {

/// The UTF-8 form of two texts joined is the UTF-8 form of the first
/// followed by that of the second.
pub proof fn lemma_encode_utf8_concat(a: Seq<char>, b: Seq<char>)
    ensures
        encode_utf8(a + b) == encode_utf8(a) + encode_utf8(b),
    decreases a.len(),
{
    if a.len() == 0 {
        assert(a + b =~= b);
        assert(encode_utf8(a) + encode_utf8(b) =~= encode_utf8(b));
    } else {
        let head = encode_scalar(a[0] as u32);
        lemma_encode_utf8_concat(a.drop_first(), b);
        assert((a + b).drop_first() =~= a.drop_first() + b);
        assert((a + b)[0] == a[0]);
        assert(head + (encode_utf8(a.drop_first()) + encode_utf8(b)) =~= (head + encode_utf8(
            a.drop_first(),
        )) + encode_utf8(b));
    }
}

/// The bytes of a target's name are the bytes of the architecture, the one
/// byte of the hyphen, and the bytes of the operating system, in this order
/// and with nothing after them. So the name is as long as its two parts
/// together and one byte more.
pub proof fn lemma_target_name_bytes(arch: Seq<char>, os: Seq<char>)
    ensures
        encode_utf8(target_name(arch, os)) == encode_utf8(arch) + seq![0x2du8] + encode_utf8(os),
        encode_utf8(target_name(arch, os)).len() == encode_utf8(arch).len() + 1 + encode_utf8(
            os,
        ).len(),
{
    let hyphen = seq!['-'];
    lemma_encode_utf8_concat(arch + hyphen, os);
    lemma_encode_utf8_concat(arch, hyphen);
    assert(encode_utf8(hyphen) =~= seq![0x2du8]) by {
        assert(hyphen.drop_first() =~= Seq::<char>::empty());
        assert(encode_utf8(hyphen.drop_first()) =~= Seq::<u8>::empty());
        let c: u32 = '-' as u32;
        assert(c == 0x2d);
        assert(vstd::utf8::has_width_1_encoding(c));
        assert(vstd::utf8::leading_byte_width_1(c) == 0x2du8) by (bit_vector)
            requires
                c == 0x2d,
        ;
        assert(encode_scalar(c) =~= seq![0x2du8]);
        assert(encode_utf8(hyphen) == encode_scalar(hyphen[0] as u32) + encode_utf8(
            hyphen.drop_first(),
        ));
    }
}

/// Reporting twice on one target gives the same text both times, byte for
/// byte, and descriptors of the same length, wherever the two texts are held.
pub proof fn lemma_report_repeats(
    arch: Seq<char>,
    os: Seq<char>,
    first: Seq<char>,
    second: Seq<char>,
    first_slice: FFISlice,
    second_slice: FFISlice,
)
    requires
        first == target_name(arch, os),
        second == target_name(arch, os),
        first_slice.describes(first_slice.ptr, first),
        second_slice.describes(second_slice.ptr, second),
    ensures
        first == second,
        encode_utf8(first) == encode_utf8(second),
        first_slice.len == second_slice.len,
{
}

/// Releasing a text under the pair that describes it gives back the bytes of
/// that text and no others: the block starts where the text starts, is as
/// long as the text's UTF-8 form, is aligned to single bytes, and covers the
/// addresses of the descriptor exactly. A buffer that shares no address with
/// the descriptor shares none with the block.
pub proof fn lemma_release_matches_report(
    slice: FFISlice,
    ptr: usize,
    text: Seq<char>,
    other: FFISlice,
)
    requires
        slice.describes(ptr, text),
    ensures
        released(slice.ptr, slice.len).ptr == ptr,
        released(slice.ptr, slice.len).size == encode_utf8(text).len(),
        released(slice.ptr, slice.len).align == 1,
        released(slice.ptr, slice.len).span() == slice.span(),
        other.span().disjoint(slice.span()) ==> other.span().disjoint(
            released(slice.ptr, slice.len).span(),
        ),
{
    assert(released(slice.ptr, slice.len).span() =~= slice.span());
}

} // verus!
