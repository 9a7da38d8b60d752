//! Transactions and their wire form: outputs, inputs and the whole record.
use crate::hexcodec::{
    hex_decode, hex_encode, hex_of, is_hex, is_lower_hex, lemma_hex_is_ascii,
    lemma_hex_of_round_trip, lemma_lower_is_hex, lemma_unhex_round_trip, unhex,
};
use crate::mresult::MResult;
use crate::varint::{
    decode_varint, encode_varint, lemma_varint_round_trip, varint_decode_spec, varint_len, varint_spec,
    DecodeError,
};
use vstd::bytes::*;
use vstd::prelude::*;
use vstd::slice::slice_subrange;
use vstd::string::StringSliceAdditionalSpecFns;

verus! {

/// A transaction output: an amount and the locking script, as hex text.
#[derive(Clone, Debug)]
pub struct TxOut {
    pub public_address: String,
    pub satoshis: u64,
}

/// The wire form of an output: 8 little-endian bytes of the amount, the
/// script's byte length as a varint, then the script's bytes.
pub open spec fn txout_bytes(satoshis: u64, public_address: Seq<char>) -> Seq<u8> {
    spec_u64_to_le_bytes(satoshis) + varint_spec(unhex(public_address).len() as u64) + unhex(
        public_address,
    )
}

/// What an output's wire form at the front of `b` holds: the amount and the
/// script's bytes; `None` where `b` ends too soon.
pub open spec fn txout_parse(b: Seq<u8>) -> Option<(u64, Seq<u8>)> {
    if b.len() < 8 {
        None
    } else {
        match varint_decode_spec(b.subrange(8, b.len() as int)) {
            None => None,
            Some((len, w)) => if 8 + w + len > b.len() {
                None
            } else {
                Some(
                    (
                        spec_u64_from_le_bytes(b.subrange(0, 8)),
                        b.subrange(8 + w as int, 8 + w + len as int),
                    ),
                )
            },
        }
    }
}

impl TxOut {
    /// An output paying `satoshis` to the script `public_address`.
    pub fn new(public_address: String, satoshis: u64) -> (r: TxOut)
        requires
            is_lower_hex(public_address@),
        ensures
            r.public_address == public_address,
            r.satoshis == satoshis,
            r.wf(),
    {
        TxOut { public_address, satoshis }
    }

    /// The script is canonical hex text.
    pub open spec fn wf(&self) -> bool {
        is_lower_hex(self.public_address@)
    }

    /// The wire form of this output.
    pub fn serialize(&self) -> (r: Vec<u8>)
        requires
            self.wf(),
        ensures
            r@ == txout_bytes(self.satoshis, self.public_address@),
    {
        proof {
            lemma_lower_is_hex(self.public_address@);
        }
        let mut script = match hex_decode(self.public_address.as_str()) {
            Some(v) => v,
            None => unreached(),
        };
        let mut buffer = u64_to_le_bytes(self.satoshis);
        let mut len = encode_varint(script.len() as u64);
        buffer.append(&mut len);
        buffer.append(&mut script);
        buffer
    }

    /// Reads an output from the front of `input`; `InsufficientData` where the
    /// buffer ends before the amount, the length or the script is complete.
    pub fn deserialize(input: &[u8]) -> (r: MResult<TxOut, DecodeError>)
        ensures
            match txout_parse(input@) {
                Some((satoshis, script)) => {
                    &&& r is Success
                    &&& r->Success_0.satoshis == satoshis
                    &&& r->Success_0.public_address@ == hex_of(script)
                    &&& r->Success_0.wf()
                },
                None => r == MResult::<TxOut, DecodeError>::Failure(
                    DecodeError::InsufficientData,
                ),
            },
    {
        if input.len() < 8 {
            return MResult::err(DecodeError::InsufficientData);
        }
        let satoshis = u64_from_le_bytes(slice_subrange(input, 0, 8));
        let rest = slice_subrange(input, 8, input.len());
        let (len, width) = match decode_varint(rest) {
            MResult::Success(p) => p,
            MResult::Failure(e) => return MResult::err(e),
        };
        let start = 8 + width;
        let avail = input.len() - start;
        if len > avail as u64 {
            return MResult::err(DecodeError::InsufficientData);
        }
        let end = start + len as usize;
        let script = slice_subrange(input, start, end);
        proof {
            assert(script@ == input@.subrange(8 + width, 8 + width + len));
            lemma_hex_of_round_trip(script@);
        }
        MResult::ok(TxOut { public_address: hex_encode(script), satoshis })
    }
}

/// Serialising a valid output and reading it back gives its amount and its
/// script text unchanged.
pub proof fn lemma_txout_round_trip(satoshis: u64, public_address: Seq<char>, rest: Seq<u8>)
    requires
        is_lower_hex(public_address),
        public_address.len() <= usize::MAX,
    ensures
        txout_parse(txout_bytes(satoshis, public_address) + rest) == Some(
            (satoshis, unhex(public_address)),
        ),
        hex_of(unhex(public_address)) == public_address,
{
    lemma_auto_spec_u64_to_from_le_bytes();
    lemma_unhex_round_trip(public_address);
    let script = unhex(public_address);
    let n = script.len() as u64;
    let b = txout_bytes(satoshis, public_address) + rest;
    let w = varint_len(n);
    lemma_varint_round_trip(n, script + rest);
    assert(b.subrange(0, 8) =~= spec_u64_to_le_bytes(satoshis));
    assert(b.subrange(8, b.len() as int) =~= varint_spec(n) + (script + rest));
    assert(b.subrange(8 + w as int, 8 + w + n as int) =~= script);
}


/// A transaction input: the previous transaction's id (32 bytes as hex text),
/// the index of the output it spends, and the unlocking script as hex text.
pub struct TxIn {
    pub prev_txid: String,
    pub out: u64,
    pub script_sig: String,
}

/// The wire form of an input: the previous id's bytes in reverse order, the
/// output index as 8 little-endian bytes, the script text's character count
/// as a varint, then the script's bytes.
pub open spec fn txin_bytes(t: TxIn) -> Seq<u8> {
    unhex(t.prev_txid@).reverse() + spec_u64_to_le_bytes(t.out) + varint_spec(
        t.script_sig@.len() as u64,
    ) + unhex(t.script_sig@)
}

impl TxIn {
    /// An input spending output `out` of the transaction `prev_txid`.
    pub fn new(prev_txid: String, out: u64, script_sig: String) -> (r: TxIn)
        requires
            is_hex(prev_txid@),
            prev_txid@.len() == 64,
            is_hex(script_sig@),
            script_sig@.len() <= usize::MAX,
        ensures
            r.prev_txid == prev_txid,
            r.out == out,
            r.script_sig == script_sig,
            r.wf(),
    {
        TxIn { prev_txid, out, script_sig }
    }

    /// The id is 32 bytes of hex text and the script is hex text whose
    /// length fits a machine word.
    pub open spec fn wf(&self) -> bool {
        &&& is_hex(self.prev_txid@)
        &&& self.prev_txid@.len() == 64
        &&& is_hex(self.script_sig@)
        &&& self.script_sig@.len() <= usize::MAX
    }

    /// The wire form of this input.
    pub fn serialize(&self) -> (r: Vec<u8>)
        requires
            self.wf(),
        ensures
            r@ == txin_bytes(*self),
    {
        let prev = match hex_decode(self.prev_txid.as_str()) {
            Some(v) => v,
            None => unreached(),
        };
        let n = prev.len();
        let mut buffer: Vec<u8> = Vec::new();
        let mut j: usize = 0;
        while j < n
            invariant
                n == prev@.len(),
                j <= n,
                buffer@.len() == j,
                forall|k: int| 0 <= k < j ==> buffer@[k] == prev@[n - 1 - k],
            decreases n - j,
        {
            buffer.push(prev[n - 1 - j]);
            j = j + 1;
        }
        assert(buffer@ =~= prev@.reverse());
        let mut out = u64_to_le_bytes(self.out);
        buffer.append(&mut out);
        let sig: &str = self.script_sig.as_str();
        proof {
            lemma_hex_is_ascii(sig@);
            vstd::string::is_ascii_spec_bytes(sig);
            assert(vstd::string::is_ascii(sig));
            assert(sig.spec_bytes().len() == sig@.len());
        }
        let sig_len = sig.len();
        assert(sig_len == self.script_sig@.len());
        let mut len = encode_varint(sig_len as u64);
        buffer.append(&mut len);
        let mut script = match hex_decode(sig) {
            Some(v) => v,
            None => unreached(),
        };
        buffer.append(&mut script);
        assert(buffer@ =~= txin_bytes(*self));
        buffer
    }
}

/// The sequence number written after each input: 0xffffffff, little-endian.
pub open spec fn final_sequence() -> Seq<u8> {
    spec_u32_to_le_bytes(0xffff_ffff)
}

/// The inputs' wire forms in order, each followed by the sequence number.
pub open spec fn inputs_bytes(s: Seq<TxIn>) -> Seq<u8>
    decreases s.len(),
{
    if s.len() == 0 {
        Seq::empty()
    } else {
        inputs_bytes(s.drop_last()) + txin_bytes(s.last()) + final_sequence()
    }
}

/// The outputs' wire forms in order.
pub open spec fn outputs_bytes(s: Seq<TxOut>) -> Seq<u8>
    decreases s.len(),
{
    if s.len() == 0 {
        Seq::empty()
    } else {
        outputs_bytes(s.drop_last()) + txout_bytes(s.last().satoshis, s.last().public_address@)
    }
}

/// The transaction's wire form: version 1 in 4 little-endian bytes, the
/// inputs with their count, the outputs with their count, and the lock time
/// in 4 little-endian bytes.
pub open spec fn tx_bytes(t: Transaction) -> Seq<u8> {
    spec_u32_to_le_bytes(1) + varint_spec(t.inputs@.len() as u64) + inputs_bytes(t.inputs@)
        + varint_spec(t.outputs@.len() as u64) + outputs_bytes(t.outputs@)
        + spec_u32_to_le_bytes(t.locktime)
}

/// A transaction: inputs and outputs in order, its id and lock time. The
/// version is always 1 and is written as such.
pub struct Transaction {
    pub version: u32,
    pub inputs: Vec<TxIn>,
    pub outputs: Vec<TxOut>,
    pub txid: String,
    pub locktime: u32,
}

impl Transaction {
    /// A version 1 transaction with the given parts.
    pub fn new(inputs: Vec<TxIn>, outputs: Vec<TxOut>, txid: String, locktime: u32) -> (r:
        Transaction)
        ensures
            r.version == 1,
            r.inputs == inputs,
            r.outputs == outputs,
            r.txid == txid,
            r.locktime == locktime,
    {
        Transaction { version: 1, inputs, outputs, txid, locktime }
    }

    /// Every input and every output is well formed.
    pub open spec fn wf(&self) -> bool {
        &&& forall|i: int| 0 <= i < self.inputs@.len() ==> (#[trigger] self.inputs@[i]).wf()
        &&& forall|i: int| 0 <= i < self.outputs@.len() ==> (#[trigger] self.outputs@[i]).wf()
    }

    /// The wire form of this transaction as lowercase hex text.
    pub fn serialize(&self) -> (r: String)
        requires
            self.wf(),
        ensures
            r@ == hex_of(tx_bytes(*self)),
    {
        let mut buffer = u32_to_le_bytes(1);
        let mut count = encode_varint(self.inputs.len() as u64);
        buffer.append(&mut count);
        let ghost head = buffer@;
        let mut i: usize = 0;
        while i < self.inputs.len()
            invariant
                self.wf(),
                i <= self.inputs@.len(),
                buffer@ == head + inputs_bytes(self.inputs@.subrange(0, i as int)),
            decreases self.inputs@.len() - i,
        {
            let mut item = self.inputs[i].serialize();
            buffer.append(&mut item);
            let mut sequence = u32_to_le_bytes(0xffff_ffff);
            buffer.append(&mut sequence);
            proof {
                let s = self.inputs@.subrange(0, i + 1);
                assert(s.drop_last() =~= self.inputs@.subrange(0, i as int));
            }
            i = i + 1;
        }
        assert(self.inputs@.subrange(0, i as int) =~= self.inputs@);
        let mut count = encode_varint(self.outputs.len() as u64);
        buffer.append(&mut count);
        let ghost head = buffer@;
        let mut i: usize = 0;
        while i < self.outputs.len()
            invariant
                self.wf(),
                i <= self.outputs@.len(),
                buffer@ == head + outputs_bytes(self.outputs@.subrange(0, i as int)),
            decreases self.outputs@.len() - i,
        {
            let mut item = self.outputs[i].serialize();
            buffer.append(&mut item);
            proof {
                let s = self.outputs@.subrange(0, i + 1);
                assert(s.drop_last() =~= self.outputs@.subrange(0, i as int));
            }
            i = i + 1;
        }
        assert(self.outputs@.subrange(0, i as int) =~= self.outputs@);
        let mut lock = u32_to_le_bytes(self.locktime);
        buffer.append(&mut lock);
        assert(buffer@ =~= tx_bytes(*self));
        hex_encode(buffer.as_slice())
    }
}

} // verus!
