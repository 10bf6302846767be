//! The RLP rules that the codec rests on, and the calls into `alloy_rlp` and
//! `bytes` that carry them out.
//!
//! The contracts of the functions in this file are not proved: they say what
//! the two crates do, as their sources show it.

use vstd::prelude::*;

verus! {

/// The error type of `alloy_rlp`. Its values are carried, never looked into.
#[verifier::external_type_specification]
#[verifier::external_body]
pub struct ExRlpError(alloy_rlp::Error);

/// The RLP encoding of a one-byte integer: zero is the empty string `0x80`, a
/// value below `0x80` is itself, and any other value follows the prefix `0x81`.
pub open spec fn byte_encoding(value: u8) -> Seq<u8> {
    if value == 0 {
        seq![0x80u8]
    } else if value < 0x80 {
        seq![value]
    } else {
        seq![0x81u8, value]
    }
}

/// The RLP encoding of the list whose one item is the integer `value`: the
/// list prefix `0xc0` plus the length of the item, then the item.
pub open spec fn singleton_list_encoding(value: u8) -> Seq<u8> {
    seq![(0xc0 + byte_encoding(value).len()) as u8] + byte_encoding(value)
}

/// The integer that a buffer of the one byte `byte` decodes to, if it decodes:
/// `0x80` is zero and a byte from `0x01` to `0x7f` is itself. No other byte
/// decodes: `0x00` is a leading zero, `0xc0` is an empty list, and the rest
/// announce more input than there is.
pub open spec fn single_byte_value(byte: u8) -> Option<u8> {
    if 0x01 <= byte <= 0x7f {
        Some(byte)
    } else if byte == 0x80 {
        Some(0u8)
    } else {
        None
    }
}

/// `bytes::BufMut::put_u8` on a `Vec<u8>`: the byte is appended, as by
/// `extend_from_slice`. The vector must have room for it, or the call panics.
#[verifier::external_body]
pub(crate) fn put_u8(out: &mut Vec<u8>, byte: u8)
    requires
        old(out)@.len() < isize::MAX,
    ensures
        final(out)@ == old(out)@.push(byte),
{
    bytes::BufMut::put_u8(out, byte);
}

/// `alloy_rlp::Encodable::encode` of a `Vec<u8>` with the one item `value`:
/// the list prefix and the item, each as `singleton_list_encoding` has it, are
/// appended to `out`. The vector must have room for them.
#[verifier::external_body]
pub(crate) fn encode_singleton_list(value: u8, out: &mut Vec<u8>)
    requires
        old(out)@.len() + singleton_list_encoding(value).len() <= isize::MAX,
    ensures
        final(out)@ == old(out)@ + singleton_list_encoding(value),
{
    alloy_rlp::Encodable::encode(&vec![value], out);
}

/// `alloy_rlp::Decodable::decode` for `u8`, on a buffer that holds `byte` and
/// nothing else: the call succeeds where `single_byte_value` gives a value,
/// with that value, and fails with one of the crate's errors elsewhere. Which
/// error that is, is not said.
#[verifier::external_body]
pub(crate) fn decode_single_byte(byte: u8) -> (res: Result<u8, alloy_rlp::Error>)
    ensures
        res is Ok <==> single_byte_value(byte) is Some,
        res matches Ok(value) ==> single_byte_value(byte) == Some(value),
{
    let raw = [byte];
    <u8 as alloy_rlp::Decodable>::decode(&mut &raw[..])
}

} // verus!
