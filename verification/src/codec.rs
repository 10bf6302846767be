//! Writing a disconnect reason to the wire and reading it back.

use crate::reason::{lemma_code_identifies_reason, DisconnectReason, UnknownDisconnectReason};
use crate::rlp::{
    byte_encoding, decode_single_byte, encode_singleton_list, put_u8, single_byte_value,
    singleton_list_encoding,
};
use vstd::prelude::*;

verus! {

/// Why a payload is no disconnect reason.
#[derive(Clone, Copy, Debug, PartialEq, Eq, Structural)]
pub enum DecodeError {
    /// The payload is empty.
    InputTooShort,
    /// The payload is longer than four bytes.
    InvalidLength,
    /// The byte that holds the reason stands for none.
    UnknownReason(UnknownDisconnectReason),
}

/// The four bytes that a reason is written as: the header `02 04`, which a
/// Snappy stream gives to two literal bytes, and the RLP list of the code.
pub open spec fn encoding(reason: DisconnectReason) -> Seq<u8> {
    seq![0x02u8, 0x04u8] + singleton_list_encoding(reason.spec_code())
}

/// What the byte that holds the reason resolves to: the byte is decoded as an
/// RLP integer, and the integer is looked up among the codes. A byte that is
/// no such integer, or the code of no reason, is reported as unknown.
pub open spec fn resolution(byte: u8) -> Result<DisconnectReason, DecodeError> {
    match single_byte_value(byte) {
        Some(code) => match DisconnectReason::from_code(code) {
            Some(reason) => Ok(reason),
            None => Err(DecodeError::UnknownReason(UnknownDisconnectReason(code))),
        },
        None => Err(DecodeError::UnknownReason(UnknownDisconnectReason(byte))),
    }
}

/// What a payload decodes to.
///
/// Only the last byte of a payload holds the reason: what clients put in
/// front of it differs, and is skipped. A payload of two to four bytes that
/// ends in a plain zero is a requested disconnect, as some clients write it.
pub open spec fn decoding(payload: Seq<u8>) -> Result<DisconnectReason, DecodeError> {
    if payload.len() == 0 {
        Err(DecodeError::InputTooShort)
    } else if payload.len() > 4 {
        Err(DecodeError::InvalidLength)
    } else if payload.len() >= 2 && payload.last() == 0 {
        Ok(DisconnectReason::DisconnectRequested)
    } else {
        resolution(payload.last())
    }
}

/// Resolves the byte that holds the reason.
pub fn resolve(byte: u8) -> (res: Result<DisconnectReason, DecodeError>)
    ensures
        res == resolution(byte),
{
    match decode_single_byte(byte) {
        Ok(code) => match DisconnectReason::try_from(code) {
            Ok(reason) => Ok(reason),
            Err(unknown) => Err(DecodeError::UnknownReason(unknown)),
        },
        Err(_) => Err(DecodeError::UnknownReason(UnknownDisconnectReason(byte))),
    }
}

impl DisconnectReason {
    /// Reads a reason from the payload of a disconnect message.
    pub fn decode(buf: &[u8]) -> (res: Result<Self, DecodeError>)
        ensures
            res == decoding(buf@),
            buf@.len() == 0 ==> res == Err::<Self, DecodeError>(DecodeError::InputTooShort),
            buf@.len() > 4 ==> res == Err::<Self, DecodeError>(DecodeError::InvalidLength),
    {
        let len: usize = buf.len();
        if len == 0 {
            return Err(DecodeError::InputTooShort);
        }
        if len > 4 {
            return Err(DecodeError::InvalidLength);
        }
        let last: u8 = buf[len - 1];
        if len >= 2 && last == 0x00 {
            Ok(DisconnectReason::DisconnectRequested)
        } else {
            resolve(last)
        }
    }

    /// Appends the encoding of this reason to `out`.
    pub fn encode(&self, out: &mut Vec<u8>)
        requires
            old(out)@.len() + 4 <= isize::MAX,
        ensures
            final(out)@ == old(out)@ + encoding(*self),
            final(out)@.len() == old(out)@.len() + 4,
    {
        put_u8(out, 0x02);
        put_u8(out, 0x04);
        encode_singleton_list(self.code(), out);
    }

    /// The number of bytes that `encode` appends: four, whatever the reason.
    pub fn length(&self) -> (n: usize)
        ensures
            n == 4,
            n == encoding(*self).len(),
    {
        4
    }
}

/// The encoding of a reason has four bytes: `02 04 c1`, then the code as an
/// RLP integer, which is `80` for the code zero and the code itself for any
/// other.
pub proof fn lemma_encoding_is_four_bytes(reason: DisconnectReason)
    ensures
        encoding(reason).len() == 4,
        encoding(reason) == seq![0x02u8, 0x04u8, 0xc1u8, byte_encoding(reason.spec_code())[0]],
        byte_encoding(reason.spec_code())[0] == (if reason.spec_code() == 0 {
            0x80u8
        } else {
            reason.spec_code()
        }),
{
    assert(encoding(reason) =~= seq![
        0x02u8,
        0x04u8,
        0xc1u8,
        byte_encoding(reason.spec_code())[0],
    ]);
}

/// What `encode` writes, `decode` reads back as the same reason.
pub proof fn lemma_decode_inverts_encode(reason: DisconnectReason)
    ensures
        decoding(encoding(reason)) == Ok::<DisconnectReason, DecodeError>(reason),
{
    lemma_encoding_is_four_bytes(reason);
    lemma_code_identifies_reason(reason);
}

/// A payload of one to four bytes whose last byte is the RLP integer of a
/// reason's code decodes to that reason, whatever stands in front of it.
pub proof fn lemma_leading_bytes_are_skipped(payload: Seq<u8>, reason: DisconnectReason)
    requires
        1 <= payload.len() <= 4,
        payload.last() == byte_encoding(reason.spec_code())[0],
    ensures
        decoding(payload) == Ok::<DisconnectReason, DecodeError>(reason),
{
    lemma_code_identifies_reason(reason);
}

/// A payload of two to four bytes that ends in a plain zero is a requested
/// disconnect. A single zero byte is not: alone it is no RLP integer.
pub proof fn lemma_trailing_zero(payload: Seq<u8>)
    requires
        1 <= payload.len() <= 4,
        payload.last() == 0,
    ensures
        payload.len() >= 2 ==> decoding(payload) == Ok::<DisconnectReason, DecodeError>(
            DisconnectReason::DisconnectRequested,
        ),
        payload.len() == 1 ==> decoding(payload) == Err::<DisconnectReason, DecodeError>(
            DecodeError::UnknownReason(UnknownDisconnectReason(0)),
        ),
{
}

/// When decoding succeeds and when it fails: an empty payload is too short,
/// one of more than four bytes has an invalid length, and any other is
/// decoded by its last byte. That byte gives a reason where it is a trailing
/// zero, `0x80`, or a code in use other than zero; else it is reported, as it
/// stands, as an unknown reason.
pub proof fn lemma_decoding_outcomes(payload: Seq<u8>)
    ensures
        decoding(payload) == Err::<DisconnectReason, DecodeError>(DecodeError::InputTooShort)
            <==> payload.len() == 0,
        decoding(payload) == Err::<DisconnectReason, DecodeError>(DecodeError::InvalidLength)
            <==> payload.len() > 4,
        decoding(payload) is Ok <==> (1 <= payload.len() <= 4 && (payload.last() == 0x80
            || (payload.last() == 0 && payload.len() >= 2)
            || (payload.last() != 0 && DisconnectReason::from_code(payload.last()) is Some))),
        decoding(payload) matches Ok(reason) ==> reason.spec_code() == (if payload.last()
            == 0x80 {
            0u8
        } else {
            payload.last()
        }),
        decoding(payload) matches Err(DecodeError::UnknownReason(unknown)) ==> unknown
            == UnknownDisconnectReason(payload.last()),
{
}

} // verus!
