use vstd::prelude::*;

use crate::crypto::{keccak256, keccak_of};

verus! {

/// `s` without its leading zero bytes.
pub open spec fn strip_zeros(s: Seq<u8>) -> Seq<u8>
    decreases s.len(),
{
    if s.len() > 0 && s[0] == 0 {
        strip_zeros(s.subrange(1, s.len() as int))
    } else {
        s
    }
}

/// The RLP encoding of a byte string shorter than 56 bytes.
pub open spec fn rlp_bytes(s: Seq<u8>) -> Seq<u8> {
    if s.len() == 1 && s[0] < 0x80 {
        s
    } else {
        seq![(0x80 + s.len()) as u8] + s
    }
}

/// The RLP header of a list whose payload is `len` bytes long, `len` below 256.
pub open spec fn rlp_list_header(len: nat) -> Seq<u8> {
    if len < 56 {
        seq![(0xc0 + len) as u8]
    } else {
        seq![0xf8u8, len as u8]
    }
}

/// The RLP encoding of the list `[key, slot]`, where `key` is a 32-byte
/// string and `slot` a 256-bit big-endian integer.
pub open spec fn slot_key_encoding(key: Seq<u8>, slot: Seq<u8>) -> Seq<u8> {
    let payload = rlp_bytes(key) + rlp_bytes(strip_zeros(slot));
    rlp_list_header(payload.len()) + payload
}

proof fn lemma_strip_step(w: Seq<u8>, k: int)
    requires
        0 <= k < w.len(),
        w[k] == 0,
    ensures
        strip_zeros(w.subrange(k, w.len() as int)) == strip_zeros(
            w.subrange(k + 1, w.len() as int),
        ),
{
    let s = w.subrange(k, w.len() as int);
    assert(s.subrange(1, s.len() as int) =~= w.subrange(k + 1, w.len() as int));
}

/// Appends the RLP encoding of byte string `s[from..]` to `out`.
fn push_rlp_bytes(out: &mut Vec<u8>, s: &[u8; 32], from: usize)
    requires
        from <= 32,
    ensures
        final(out)@ == old(out)@ + rlp_bytes(s@.subrange(from as int, 32)),
{
    let n: usize = 32 - from;
    let ghost pre = out@;
    if n == 1 && s[from] < 0x80 {
        out.push(s[from]);
        proof {
            assert(s@.subrange(from as int, 32) =~= seq![s@[from as int]]);
        }
        return;
    }
    out.push((0x80 + n) as u8);
    let mut i: usize = from;
    while i < 32
        invariant
            from <= i <= 32,
            out@ == pre + seq![(0x80 + n) as u8] + s@.subrange(from as int, i as int),
        decreases 32 - i,
    {
        out.push(s[i]);
        proof {
            assert(s@.subrange(from as int, i as int + 1) =~= s@.subrange(from as int, i as int).push(
                s@[i as int],
            ));
        }
        i = i + 1;
    }
    proof {
        assert(out@ =~= pre + rlp_bytes(s@.subrange(from as int, 32)));
    }
}

/// The storage slot of entry `key` of the mapping stored at slot
/// `mapping_slot`: the Keccak-256 digest of the RLP encoding of the pair.
/// Both slots are 256-bit big-endian words.
pub fn calculate_storage_slot(key: &[u8; 32], mapping_slot: &[u8; 32]) -> (r: [u8; 32])
    ensures
        r@ == keccak_of(slot_key_encoding(key@, mapping_slot@)),
{
    proof {
        assert(mapping_slot@.subrange(0, 32) =~= mapping_slot@);
    }
    let mut k: usize = 0;
    while k < 32 && mapping_slot[k] == 0
        invariant
            k <= 32,
            strip_zeros(mapping_slot@) == strip_zeros(mapping_slot@.subrange(k as int, 32)),
        decreases 32 - k,
    {
        proof {
            lemma_strip_step(mapping_slot@, k as int);
        }
        k = k + 1;
    }
    proof {
        let t = mapping_slot@.subrange(k as int, 32);
        assert(strip_zeros(t) == t);
    }
    let mut payload: Vec<u8> = Vec::new();
    push_rlp_bytes(&mut payload, key, 0);
    push_rlp_bytes(&mut payload, mapping_slot, k);
    proof {
        assert(key@.subrange(0, 32) =~= key@);
    }
    let mut encoded: Vec<u8> = Vec::new();
    if payload.len() < 56 {
        encoded.push((0xc0 + payload.len()) as u8);
    } else {
        encoded.push(0xf8);
        encoded.push(payload.len() as u8);
    }
    proof {
        assert(encoded@ =~= rlp_list_header(payload@.len()));
    }
    let mut i: usize = 0;
    while i < payload.len()
        invariant
            i <= payload@.len(),
            encoded@ == rlp_list_header(payload@.len()) + payload@.subrange(0, i as int),
        decreases payload@.len() - i,
    {
        encoded.push(payload[i]);
        proof {
            assert(payload@.subrange(0, i as int + 1) =~= payload@.subrange(0, i as int).push(
                payload@[i as int],
            ));
        }
        i = i + 1;
    }
    proof {
        assert(payload@.subrange(0, payload@.len() as int) =~= payload@);
    }
    keccak256(&encoded)
}

} // verus!
