//! Encoding of the node state records kept in the node's key-value store.
//!
//! Keys and values are unsigned 64-bit integers written big-endian, so that
//! the byte-wise (lexicographic) order of the keys is the numeric order of the
//! node ids.

use vstd::prelude::*;

verus! {

/// `256` raised to `k`.
pub open spec fn pow256(k: nat) -> nat
    decreases k,
{
    if k == 0 {
        1
    } else {
        256 * pow256((k - 1) as nat)
    }
}

/// The unsigned number that a big-endian byte string denotes.
pub open spec fn be_value(s: Seq<u8>) -> nat
    decreases s.len(),
{
    if s.len() == 0 {
        0
    } else {
        s[0] as nat * pow256((s.len() - 1) as nat) + be_value(s.drop_first())
    }
}

/// The eight bytes of `n`, most significant first.
pub open spec fn be_bytes(n: u64) -> Seq<u8> {
    seq![
        ((n >> 56u64) & 0xffu64) as u8,
        ((n >> 48u64) & 0xffu64) as u8,
        ((n >> 40u64) & 0xffu64) as u8,
        ((n >> 32u64) & 0xffu64) as u8,
        ((n >> 24u64) & 0xffu64) as u8,
        ((n >> 16u64) & 0xffu64) as u8,
        ((n >> 8u64) & 0xffu64) as u8,
        (n & 0xffu64) as u8,
    ]
}

/// Byte-wise lexicographic "less than" on byte strings of equal length.
pub open spec fn lex_less(x: Seq<u8>, y: Seq<u8>) -> bool
    decreases x.len(),
{
    if x.len() == 0 || y.len() == 0 {
        false
    } else if x[0] < y[0] {
        true
    } else if x[0] == y[0] {
        lex_less(x.drop_first(), y.drop_first())
    } else {
        false
    }
}

/// What reading a stored state record gives: the number, when the record has
/// exactly the size of one big-endian `u64`, and nothing otherwise.
pub open spec fn spec_parse_state_value(bytes: Seq<u8>) -> Option<u64> {
    if bytes.len() == 8 {
        Some(be_value(bytes) as u64)
    } else {
        None
    }
}

proof fn lemma_pow256_values()
    ensures
        pow256(0) == 1,
        pow256(1) == 0x100,
        pow256(2) == 0x10000,
        pow256(3) == 0x1000000,
        pow256(4) == 0x100000000,
        pow256(5) == 0x10000000000,
        pow256(6) == 0x1000000000000,
        pow256(7) == 0x100000000000000,
{
    reveal_with_fuel(pow256, 8);
}

proof fn lemma_be_value_eight(s: Seq<u8>)
    requires
        s.len() == 8,
    ensures
        be_value(s) == s[0] * 0x100000000000000 + s[1] * 0x1000000000000 + s[2] * 0x10000000000
            + s[3] * 0x100000000 + s[4] * 0x1000000 + s[5] * 0x10000 + s[6] * 0x100 + s[7],
{
    lemma_pow256_values();
    let s1 = s.drop_first();
    let s2 = s1.drop_first();
    let s3 = s2.drop_first();
    let s4 = s3.drop_first();
    let s5 = s4.drop_first();
    let s6 = s5.drop_first();
    let s7 = s6.drop_first();
    let s8 = s7.drop_first();
    assert(s8.len() == 0);
    assert(be_value(s8) == 0);
    assert(be_value(s7) == s[7]);
    assert(be_value(s6) == s[6] * 0x100 + s[7]);
    assert(be_value(s5) == s[5] * 0x10000 + s[6] * 0x100 + s[7]);
    assert(be_value(s4) == s[4] * 0x1000000 + s[5] * 0x10000 + s[6] * 0x100 + s[7]);
    assert(be_value(s3) == s[3] * 0x100000000 + s[4] * 0x1000000 + s[5] * 0x10000 + s[6]
        * 0x100 + s[7]);
    assert(be_value(s2) == s[2] * 0x10000000000 + s[3] * 0x100000000 + s[4] * 0x1000000 + s[5]
        * 0x10000 + s[6] * 0x100 + s[7]);
    assert(be_value(s1) == s[1] * 0x1000000000000 + s[2] * 0x10000000000 + s[3] * 0x100000000
        + s[4] * 0x1000000 + s[5] * 0x10000 + s[6] * 0x100 + s[7]);
}

proof fn lemma_bytes_recombine(n: u64)
    ensures
        (((n >> 56u64) & 0xffu64) as u8) * 0x100000000000000 + (((n >> 48u64) & 0xffu64) as u8)
            * 0x1000000000000 + (((n >> 40u64) & 0xffu64) as u8) * 0x10000000000 + (((n
            >> 32u64) & 0xffu64) as u8) * 0x100000000 + (((n >> 24u64) & 0xffu64) as u8)
            * 0x1000000 + (((n >> 16u64) & 0xffu64) as u8) * 0x10000 + (((n >> 8u64) & 0xffu64)
            as u8) * 0x100 + ((n & 0xffu64) as u8) == n,
{
    assert((((n >> 56u64) & 0xffu64) as u8) * 0x100000000000000 + (((n >> 48u64) & 0xffu64)
        as u8) * 0x1000000000000 + (((n >> 40u64) & 0xffu64) as u8) * 0x10000000000 + (((n
        >> 32u64) & 0xffu64) as u8) * 0x100000000 + (((n >> 24u64) & 0xffu64) as u8)
        * 0x1000000 + (((n >> 16u64) & 0xffu64) as u8) * 0x10000 + (((n >> 8u64) & 0xffu64)
        as u8) * 0x100 + ((n & 0xffu64) as u8) == n) by (bit_vector);
}

/// Reading back what was written gives the written number: the record of
/// `n` parses to `n`.
pub proof fn lemma_state_value_round_trip(n: u64)
    ensures
        spec_parse_state_value(be_bytes(n)) == Some(n),
{
    lemma_be_value_eight(be_bytes(n));
    lemma_bytes_recombine(n);
}

proof fn lemma_be_value_bound(s: Seq<u8>)
    ensures
        be_value(s) < pow256(s.len()),
    decreases s.len(),
{
    if s.len() > 0 {
        let k: nat = (s.len() - 1) as nat;
        lemma_be_value_bound(s.drop_first());
        assert(s[0] as nat * pow256(k) + pow256(k) <= 256 * pow256(k)) by (nonlinear_arith)
            requires
                s[0] < 256,
        ;
    }
}

proof fn lemma_lex_less_is_value_less(x: Seq<u8>, y: Seq<u8>)
    requires
        x.len() == y.len(),
    ensures
        lex_less(x, y) <==> be_value(x) < be_value(y),
    decreases x.len(),
{
    if x.len() > 0 {
        let k: nat = (x.len() - 1) as nat;
        let p: nat = pow256(k);
        let a: nat = x[0] as nat;
        let b: nat = y[0] as nat;
        let dx: nat = be_value(x.drop_first());
        let dy: nat = be_value(y.drop_first());
        lemma_be_value_bound(x.drop_first());
        lemma_be_value_bound(y.drop_first());
        lemma_lex_less_is_value_less(x.drop_first(), y.drop_first());
        if a < b {
            assert(a * p + dx < b * p + dy) by (nonlinear_arith)
                requires
                    a < b,
                    dx < p,
            ;
        } else if a > b {
            assert(b * p + dy < a * p + dx) by (nonlinear_arith)
                requires
                    b < a,
                    dy < p,
            ;
        }
    }
}

/// Big-endian keys keep the order of the node ids: `a < b` exactly when the
/// key of `a` comes before the key of `b` byte by byte.
pub proof fn lemma_key_order(a: u64, b: u64)
    ensures
        a < b <==> lex_less(be_bytes(a), be_bytes(b)),
{
    lemma_be_value_eight(be_bytes(a));
    lemma_bytes_recombine(a);
    lemma_be_value_eight(be_bytes(b));
    lemma_bytes_recombine(b);
    lemma_lex_less_is_value_less(be_bytes(a), be_bytes(b));
}

fn u64_be_bytes(n: u64) -> (r: Vec<u8>)
    ensures
        r@ == be_bytes(n),
{
    let r = vec![
        ((n >> 56u64) & 0xffu64) as u8,
        ((n >> 48u64) & 0xffu64) as u8,
        ((n >> 40u64) & 0xffu64) as u8,
        ((n >> 32u64) & 0xffu64) as u8,
        ((n >> 24u64) & 0xffu64) as u8,
        ((n >> 16u64) & 0xffu64) as u8,
        ((n >> 8u64) & 0xffu64) as u8,
        (n & 0xffu64) as u8,
    ];
    assert(r@ =~= be_bytes(n));
    r
}

/// The key of a node's stored state: the node id, big-endian, so that keys
/// sort as the ids do (see `lemma_key_order`).
pub struct NodeKey {
    id: u64,
}

impl NodeKey {
    /// The bytes of the key.
    pub closed spec fn spec_bytes(&self) -> Seq<u8> {
        be_bytes(self.id)
    }

    /// The key of node `id`.
    pub fn new(id: u64) -> (key: NodeKey)
        ensures
            key.spec_bytes() == be_bytes(id),
    {
        NodeKey { id }
    }

    /// The bytes of the key.
    pub fn as_bytes(&self) -> (bytes: Vec<u8>)
        ensures
            bytes@ == self.spec_bytes(),
    {
        u64_be_bytes(self.id)
    }
}

/// The stored state of a node: its last applied log index, big-endian.
pub struct NodeStateValue {
    last_applied_index: u64,
}

impl NodeStateValue {
    /// The last applied log index.
    pub closed spec fn index(&self) -> u64 {
        self.last_applied_index
    }

    /// The state with last applied index `last_applied_index`.
    pub fn new(last_applied_index: u64) -> (value: NodeStateValue)
        ensures
            value.index() == last_applied_index,
    {
        NodeStateValue { last_applied_index }
    }

    /// The last applied log index.
    pub fn last_applied_index(&self) -> (index: u64)
        ensures
            index == self.index(),
    {
        self.last_applied_index
    }

    /// The stored bytes of the state.
    pub fn as_bytes(&self) -> (bytes: Vec<u8>)
        ensures
            bytes@ == be_bytes(self.index()),
    {
        u64_be_bytes(self.last_applied_index)
    }

    /// Reads a stored state: there is one exactly when `bytes` holds one
    /// big-endian `u64`.
    pub fn parse(bytes: &[u8]) -> (value: Option<NodeStateValue>)
        ensures
            match spec_parse_state_value(bytes@) {
                Some(i) => value matches Some(v) && v.index() == i,
                None => value is None,
            },
    {
        if bytes.len() != 8 {
            return None;
        }
        proof {
            lemma_be_value_eight(bytes@);
        }
        let v: u64 = (bytes[0] as u64) * 0x100000000000000u64 + (bytes[1] as u64)
            * 0x1000000000000u64 + (bytes[2] as u64) * 0x10000000000u64 + (bytes[3] as u64)
            * 0x100000000u64 + (bytes[4] as u64) * 0x1000000u64 + (bytes[5] as u64) * 0x10000u64
            + (bytes[6] as u64) * 0x100u64 + (bytes[7] as u64);
        Some(NodeStateValue { last_applied_index: v })
    }
}

/// The key under which the state of node `id` is stored.
pub fn node_key(id: u64) -> (key: Vec<u8>)
    ensures
        key@ == be_bytes(id),
{
    NodeKey::new(id).as_bytes()
}

/// The stored record of the last applied log index.
pub fn state_value(last_applied_index: u64) -> (value: Vec<u8>)
    ensures
        value@ == be_bytes(last_applied_index),
{
    NodeStateValue::new(last_applied_index).as_bytes()
}

/// Reads a stored state record: the last applied index when `bytes` holds
/// exactly one big-endian `u64`, nothing otherwise.
pub fn parse_state_value(bytes: &[u8]) -> (index: Option<u64>)
    ensures
        index == spec_parse_state_value(bytes@),
{
    match NodeStateValue::parse(bytes) {
        Some(v) => Some(v.last_applied_index()),
        None => None,
    }
}

/// What a lookup of the node's state gives, from the raw record the store
/// returned for the node's key (`None` when there is no record).
pub fn load_applied_index(record: Option<&[u8]>) -> (index: Option<u64>)
    ensures
        index == match record {
            Some(bytes) => spec_parse_state_value(bytes@),
            None => None,
        },
{
    match record {
        Some(bytes) => parse_state_value(bytes),
        None => None,
    }
}

} // verus!
