use vstd::prelude::*;
use sha3::Digest;

verus! {

/// A 20-byte account address, held as plain bytes.
#[derive(Debug)]
pub struct Address {
    pub bytes: Vec<u8>,
}

impl View for Address {
    type V = Seq<u8>;

    open spec fn view(&self) -> Seq<u8> {
        self.bytes@
    }
}

impl Address {
    pub open spec fn wf(&self) -> bool {
        self.bytes@.len() == 20
    }

    pub fn new(bytes: Vec<u8>) -> (r: Address)
        requires
            bytes@.len() == 20,
        ensures
            r@ == bytes@,
            r.wf(),
    {
        Address { bytes }
    }
}

/// A 256-bit unsigned quantity, held as its 32 big-endian bytes.
#[derive(Debug)]
pub struct U256Value {
    pub bytes: Vec<u8>,
}

impl View for U256Value {
    type V = Seq<u8>;

    open spec fn view(&self) -> Seq<u8> {
        self.bytes@
    }
}

impl U256Value {
    pub open spec fn wf(&self) -> bool {
        self.bytes@.len() == 32
    }

    pub fn new(bytes: Vec<u8>) -> (r: U256Value)
        requires
            bytes@.len() == 32,
        ensures
            r@ == bytes@,
            r.wf(),
    {
        U256Value { bytes }
    }
}

/// The 32-byte identity of a scheduled operation: the digest of the
/// canonical encoding of its five parameters.
#[derive(Debug)]
pub struct TxId {
    pub bytes: Vec<u8>,
}

impl View for TxId {
    type V = Seq<u8>;

    open spec fn view(&self) -> Seq<u8> {
        self.bytes@
    }
}

impl TxId {
    pub open spec fn wf(&self) -> bool {
        self.bytes@.len() == 32
    }

    /// A fresh identity value holding the same bytes.
    pub fn duplicate(&self) -> (r: TxId)
        ensures
            r@ == self@,
    {
        TxId { bytes: copy_bytes(&self.bytes) }
    }
}

/// A fresh byte vector holding the same bytes.
pub(crate) fn copy_bytes(v: &Vec<u8>) -> (r: Vec<u8>)
    ensures
        r@ == v@,
{
    let mut out: Vec<u8> = Vec::new();
    let mut i: usize = 0;
    while i < v.len()
        invariant
            i <= v@.len(),
            out@ == v@.subrange(0, i as int),
        decreases v@.len() - i,
    {
        out.push(v[i]);
        proof {
            assert(out@ =~= v@.subrange(0, i as int + 1));
        }
        i += 1;
    }
    proof {
        assert(out@ =~= v@);
    }
    out
}

/// Byte-for-byte equality of two byte vectors.
pub(crate) fn bytes_eq(a: &Vec<u8>, b: &Vec<u8>) -> (r: bool)
    ensures
        r == (a@ == b@),
{
    if a.len() != b.len() {
        return false;
    }
    let mut i: usize = 0;
    while i < a.len()
        invariant
            i <= a@.len(),
            a@.len() == b@.len(),
            forall|k: int| 0 <= k < i ==> a@[k] == b@[k],
        decreases a@.len() - i,
    {
        if a[i] != b[i] {
            return false;
        }
        i += 1;
    }
    proof {
        assert(a@ =~= b@);
    }
    true
}

/// The canonical ABI encoding of an operation's five parameters, in field
/// order, as the outside encoder produces it.
pub uninterp spec fn abi_encoding_of(
    target: Seq<u8>,
    value: Seq<u8>,
    func: Seq<char>,
    data: Seq<u8>,
    timestamp: u64,
) -> Seq<u8>;

/// The Keccak-256 digest of a byte sequence.
pub uninterp spec fn keccak_of(input: Seq<u8>) -> Seq<u8>;

/// The identity of an operation: the digest of its canonical encoding.
pub open spec fn tx_id_of(
    target: Seq<u8>,
    value: Seq<u8>,
    func: Seq<char>,
    data: Seq<u8>,
    timestamp: u64,
) -> Seq<u8> {
    keccak_of(abi_encoding_of(target, value, func, data, timestamp))
}

/// Relies on alloy_sol_types' `SolType::abi_encode_sequence` for the tuple
/// (address, uint256, bytes, bytes, uint256): the encoding is a pure function
/// of the five fields, order-preserving and deterministic, so the result is
/// named as a function of the arguments alone.
#[verifier::external_body]
pub(crate) fn abi_encode_operation(
    target: &Address,
    value: &U256Value,
    func: &String,
    data: &Vec<u8>,
    timestamp: u64,
) -> (r: Vec<u8>)
    requires
        target.wf(),
        value.wf(),
    ensures
        r@ == abi_encoding_of(target@, value@, func@, data@, timestamp),
{
    let addr = alloy_primitives::Address::from_slice(target.bytes.as_slice());
    let val = alloy_primitives::U256::from_be_slice(value.bytes.as_slice());
    let ts = alloy_primitives::U256::from(timestamp);
    <(
        alloy_sol_types::sol_data::Address,
        alloy_sol_types::sol_data::Uint<256>,
        alloy_sol_types::sol_data::Bytes,
        alloy_sol_types::sol_data::Bytes,
        alloy_sol_types::sol_data::Uint<256>,
    ) as alloy_sol_types::SolType>::abi_encode_sequence(
        &(addr, val, func.as_str(), data.as_slice(), ts),
    )
}

/// Relies on sha3's `Keccak256`: a 32-byte digest determined by the input
/// bytes alone.
#[verifier::external_body]
pub(crate) fn keccak256(input: &Vec<u8>) -> (r: Vec<u8>)
    ensures
        r@ == keccak_of(input@),
        r@.len() == 32,
{
    sha3::Keccak256::digest(input.as_slice()).as_slice().to_vec()
}

/// Derive the identity of an operation from its five parameters.
pub(crate) fn derive_tx_id(
    target: &Address,
    value: &U256Value,
    func: &String,
    data: &Vec<u8>,
    timestamp: u64,
) -> (r: TxId)
    requires
        target.wf(),
        value.wf(),
    ensures
        r@ == tx_id_of(target@, value@, func@, data@, timestamp),
        r.wf(),
{
    let encoded = abi_encode_operation(target, value, func, data, timestamp);
    TxId { bytes: keccak256(&encoded) }
}

/// Identity derivation is deterministic: equal parameter tuples always
/// derive equal identities.
pub proof fn lemma_derive_deterministic(
    target1: Seq<u8>,
    value1: Seq<u8>,
    func1: Seq<char>,
    data1: Seq<u8>,
    timestamp1: u64,
    target2: Seq<u8>,
    value2: Seq<u8>,
    func2: Seq<char>,
    data2: Seq<u8>,
    timestamp2: u64,
)
    requires
        target1 == target2,
        value1 == value2,
        func1 == func2,
        data1 == data2,
        timestamp1 == timestamp2,
    ensures
        tx_id_of(target1, value1, func1, data1, timestamp1) == tx_id_of(
            target2,
            value2,
            func2,
            data2,
            timestamp2,
        ),
{
}

} // verus!
