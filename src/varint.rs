//! The compact variable-length integer: a marker byte selects the width.
use crate::mresult::MResult;
use vstd::bytes::*;
use vstd::prelude::*;
use vstd::slice::slice_subrange;

verus! {

/// Why a buffer could not be decoded.
#[derive(Clone, Copy, Debug, PartialEq, Eq, Structural)]
pub enum DecodeError {
    /// The buffer ends before the format says it should.
    InsufficientData,
}

/// The wire form of `n`: one byte below 0xfd, else a marker and 2, 4 or 8
/// little-endian bytes.
pub open spec fn varint_spec(n: u64) -> Seq<u8> {
    if n < 0xfd {
        seq![n as u8]
    } else if n <= 0xffff {
        seq![0xfdu8] + spec_u16_to_le_bytes(n as u16)
    } else if n <= 0xffff_ffff {
        seq![0xfeu8] + spec_u32_to_le_bytes(n as u32)
    } else {
        seq![0xffu8] + spec_u64_to_le_bytes(n)
    }
}

/// How many bytes the encoding of `n` takes.
pub open spec fn varint_len(n: u64) -> nat {
    if n <= 252 {
        1
    } else if n <= 0xffff {
        3
    } else if n <= 0xffff_ffff {
        5
    } else {
        9
    }
}

/// The value at the front of `b` and the number of bytes it takes, or `None`
/// where `b` is shorter than its first byte asks for.
pub open spec fn varint_decode_spec(b: Seq<u8>) -> Option<(u64, nat)> {
    if b.len() == 0 {
        None
    } else if b[0] < 0xfd {
        Some((b[0] as u64, 1))
    } else if b[0] == 0xfd {
        if b.len() < 3 {
            None
        } else {
            Some((spec_u16_from_le_bytes(b.subrange(1, 3)) as u64, 3))
        }
    } else if b[0] == 0xfe {
        if b.len() < 5 {
            None
        } else {
            Some((spec_u32_from_le_bytes(b.subrange(1, 5)) as u64, 5))
        }
    } else {
        if b.len() < 9 {
            None
        } else {
            Some((spec_u64_from_le_bytes(b.subrange(1, 9)), 9))
        }
    }
}

/// Encodes `n` in the compact form.
pub fn encode_varint(n: u64) -> (r: Vec<u8>)
    ensures
        r@ == varint_spec(n),
        r@.len() == varint_len(n),
{
    proof {
        lemma_auto_spec_u16_to_from_le_bytes();
        lemma_auto_spec_u32_to_from_le_bytes();
        lemma_auto_spec_u64_to_from_le_bytes();
    }
    if n < 0xfd {
        let mut v: Vec<u8> = Vec::new();
        v.push(n as u8);
        v
    } else if n <= 0xffff {
        let mut v: Vec<u8> = Vec::new();
        v.push(0xfd);
        let mut rest = u16_to_le_bytes(n as u16);
        v.append(&mut rest);
        v
    } else if n <= 0xffff_ffff {
        let mut v: Vec<u8> = Vec::new();
        v.push(0xfe);
        let mut rest = u32_to_le_bytes(n as u32);
        v.append(&mut rest);
        v
    } else {
        let mut v: Vec<u8> = Vec::new();
        v.push(0xff);
        let mut rest = u64_to_le_bytes(n);
        v.append(&mut rest);
        v
    }
}

/// Decodes the compact integer at the front of `input`, with the number of
/// bytes it took; `InsufficientData` where the buffer ends too soon.
pub fn decode_varint(input: &[u8]) -> (r: MResult<(u64, usize), DecodeError>)
    ensures
        match varint_decode_spec(input@) {
            Some((v, w)) => r == MResult::<(u64, usize), DecodeError>::Success((v, w as usize)),
            None => r == MResult::<(u64, usize), DecodeError>::Failure(DecodeError::InsufficientData),
        },
{
    if input.len() == 0 {
        return MResult::err(DecodeError::InsufficientData);
    }
    let first = input[0];
    if first < 0xfd {
        MResult::ok((first as u64, 1))
    } else if first == 0xfd {
        if input.len() < 3 {
            return MResult::err(DecodeError::InsufficientData);
        }
        let value = u16_from_le_bytes(slice_subrange(input, 1, 3));
        MResult::ok((value as u64, 3))
    } else if first == 0xfe {
        if input.len() < 5 {
            return MResult::err(DecodeError::InsufficientData);
        }
        let value = u32_from_le_bytes(slice_subrange(input, 1, 5));
        MResult::ok((value as u64, 5))
    } else {
        if input.len() < 9 {
            return MResult::err(DecodeError::InsufficientData);
        }
        let value = u64_from_le_bytes(slice_subrange(input, 1, 9));
        MResult::ok((value, 9))
    }
}

/// Decoding the encoding of `n`, whatever follows it, gives back `n` and the
/// width that the magnitude of `n` selects.
pub proof fn lemma_varint_round_trip(n: u64, rest: Seq<u8>)
    ensures
        varint_spec(n).len() == varint_len(n),
        varint_decode_spec(varint_spec(n) + rest) == Some((n, varint_len(n))),
{
    lemma_auto_spec_u16_to_from_le_bytes();
    lemma_auto_spec_u32_to_from_le_bytes();
    lemma_auto_spec_u64_to_from_le_bytes();
    let e = varint_spec(n);
    let b = e + rest;
    if n < 0xfd {
    } else if n <= 0xffff {
        assert(b.subrange(1, 3) =~= spec_u16_to_le_bytes(n as u16));
    } else if n <= 0xffff_ffff {
        assert(b.subrange(1, 5) =~= spec_u32_to_le_bytes(n as u32));
    } else {
        assert(b.subrange(1, 9) =~= spec_u64_to_le_bytes(n));
    }
}

} // verus!
