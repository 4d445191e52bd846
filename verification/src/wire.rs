//! The byte form of an address: the ledger's encoding of an address value,
//! a fixed header that tells accounts from contracts, then the 32-byte key.
use vstd::bytes::{
    lemma_auto_spec_u128_to_from_le_bytes, spec_u128_from_le_bytes, spec_u128_to_le_bytes,
    u128_from_le_bytes, u128_to_le_bytes,
};
use vstd::prelude::*;
use vstd::slice::slice_subrange;
use crate::types::Address;

verus! {

/// The bytes that precede the key: the tag of an address value, the tag of
/// its kind and, for an account, the tag of its key type.
pub open spec fn header(contract: bool) -> Seq<u8> {
    if contract {
        seq![0u8, 0u8, 0u8, 18u8, 0u8, 0u8, 0u8, 1u8]
    } else {
        seq![0u8, 0u8, 0u8, 18u8, 0u8, 0u8, 0u8, 0u8, 0u8, 0u8, 0u8, 0u8]
    }
}

/// The byte form of an address: its header, then the two halves of its key.
pub open spec fn encoding(address: Address) -> Seq<u8> {
    header(address.contract) + spec_u128_to_le_bytes(address.hi) + spec_u128_to_le_bytes(
        address.lo,
    )
}

fn has_header(bytes: &[u8], contract: bool) -> (yes: bool)
    ensures
        yes == (bytes@.len() == header(contract).len() + 32 && bytes@.subrange(
            0,
            header(contract).len() as int,
        ) == header(contract)),
{
    let yes = if contract {
        bytes.len() == 40 && bytes[0] == 0 && bytes[1] == 0 && bytes[2] == 0 && bytes[3] == 18
            && bytes[4] == 0 && bytes[5] == 0 && bytes[6] == 0 && bytes[7] == 1
    } else {
        bytes.len() == 44 && bytes[0] == 0 && bytes[1] == 0 && bytes[2] == 0 && bytes[3] == 18
            && bytes[4] == 0 && bytes[5] == 0 && bytes[6] == 0 && bytes[7] == 0 && bytes[8] == 0
            && bytes[9] == 0 && bytes[10] == 0 && bytes[11] == 0
    };
    proof {
        let h = header(contract);
        if yes {
            assert(bytes@.subrange(0, h.len() as int) =~= h);
        } else if bytes@.len() == h.len() + 32 {
            let head = bytes@.subrange(0, h.len() as int);
            if head == h {
                assert(forall|i: int| 0 <= i < h.len() ==> bytes@[i] == head[i]);
            }
        }
    }
    yes
}

/// The byte form of `address`.
pub fn encode(address: Address) -> (bytes: Vec<u8>)
    ensures
        bytes@ == encoding(address),
{
    let mut bytes: Vec<u8> = if address.contract {
        vec![0u8, 0u8, 0u8, 18u8, 0u8, 0u8, 0u8, 1u8]
    } else {
        vec![0u8, 0u8, 0u8, 18u8, 0u8, 0u8, 0u8, 0u8, 0u8, 0u8, 0u8, 0u8]
    };
    assert(bytes@ =~= header(address.contract));
    let mut hi = u128_to_le_bytes(address.hi);
    let mut lo = u128_to_le_bytes(address.lo);
    bytes.append(&mut hi);
    bytes.append(&mut lo);
    bytes
}

/// The address that `bytes` is the byte form of, if it is one: decoding
/// inverts [`encode`].
pub fn decode(bytes: &[u8]) -> (r: Option<Address>)
    ensures
        match r {
            Some(address) => encoding(address) == bytes@,
            None => forall|address: Address| encoding(address) != bytes@,
        },
        forall|address: Address| encoding(address) == bytes@ ==> r == Some(address),
{
    proof {
        lemma_auto_spec_u128_to_from_le_bytes();
    }
    let (contract, start): (bool, usize) = if has_header(bytes, true) {
        (true, 8)
    } else if has_header(bytes, false) {
        (false, 12)
    } else {
        proof {
            assert forall|address: Address| encoding(address) != bytes@ by {
                let h = header(address.contract);
                if encoding(address) == bytes@ {
                    assert(encoding(address).subrange(0, h.len() as int) =~= h);
                }
            }
        }
        return None;
    };
    let first = slice_subrange(bytes, start, start + 16);
    let second = slice_subrange(bytes, start + 16, start + 32);
    let address = Address {
        contract,
        hi: u128_from_le_bytes(first),
        lo: u128_from_le_bytes(second),
    };
    assert(encoding(address) =~= bytes@);
    assert forall|other: Address| encoding(other) == bytes@ implies other == address by {
        law_encoding_is_injective(other, address);
    }
    Some(address)
}

/// Two addresses with the same byte form are the same address.
pub proof fn law_encoding_is_injective(a: Address, b: Address)
    requires
        encoding(a) == encoding(b),
    ensures
        a == b,
{
    lemma_auto_spec_u128_to_from_le_bytes();
    let ha = header(a.contract);
    let hb = header(b.contract);
    assert(encoding(a).len() == ha.len() + 32);
    assert(encoding(b).len() == hb.len() + 32);
    assert(a.contract == b.contract);
    let n = ha.len() as int;
    assert(encoding(a).subrange(n, n + 16) =~= spec_u128_to_le_bytes(a.hi));
    assert(encoding(b).subrange(n, n + 16) =~= spec_u128_to_le_bytes(b.hi));
    assert(encoding(a).subrange(n + 16, n + 32) =~= spec_u128_to_le_bytes(a.lo));
    assert(encoding(b).subrange(n + 16, n + 32) =~= spec_u128_to_le_bytes(b.lo));
    assert(spec_u128_from_le_bytes(spec_u128_to_le_bytes(a.hi)) == a.hi);
    assert(spec_u128_from_le_bytes(spec_u128_to_le_bytes(b.hi)) == b.hi);
    assert(spec_u128_from_le_bytes(spec_u128_to_le_bytes(a.lo)) == a.lo);
    assert(spec_u128_from_le_bytes(spec_u128_to_le_bytes(b.lo)) == b.lo);
}

} // verus!
