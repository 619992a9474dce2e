//! On-chain account state of the factory and of each pair, and their byte
//! layout (fields in declaration order, integers little-endian, a boolean as
//! one byte that is 0 or 1).

use vstd::prelude::*;
use vstd::bytes::*;
use vstd::slice::slice_subrange;

use crate::key::Key;

verus! {

broadcast use vstd::array::group_array_axioms;

/// Global configuration for the AMM factory.
#[derive(Clone, Copy, Debug)]
pub struct FactoryState {
    /// Whether the account has been initialized.
    pub is_initialized: bool,
    /// Number of pairs created by this factory.
    pub pair_count: u64,
}

/// On-chain state for a single constant-product pair.
#[derive(Clone, Copy, Debug)]
pub struct PairState {
    /// Whether the pair account has been initialized.
    pub is_initialized: bool,
    /// Factory that owns and created this pair.
    pub factory: Key,
    /// Canonically sorted first token mint.
    pub token0_mint: Key,
    /// Canonically sorted second token mint.
    pub token1_mint: Key,
    /// Vault ATA owned by the pair PDA for `token0_mint`.
    pub vault0: Key,
    /// Vault ATA owned by the pair PDA for `token1_mint`.
    pub vault1: Key,
    /// LP mint PDA for this pair.
    pub lp_mint: Key,
    /// Last synchronized reserve for token0.
    pub reserve0: u64,
    /// Last synchronized reserve for token1.
    pub reserve1: u64,
    /// Last reserve product used for protocol fee minting.
    pub k_last: u128,
    /// Cumulative spot price of token0 in Q64.64, for TWAP calculations.
    pub price0_cumulative_last: u128,
    /// Cumulative spot price of token1 in Q64.64, for TWAP calculations.
    pub price1_cumulative_last: u128,
    /// Unix timestamp of the last reserve update.
    pub block_timestamp_last: u64,
}

/// Serialized size of a factory state.
pub const FACTORY_STATE_LEN: usize = 9;

/// Serialized size of a pair state.
pub const PAIR_STATE_LEN: usize = 265;

/// The byte that stores a boolean.
pub open spec fn bool_byte(b: bool) -> u8 {
    if b {
        1
    } else {
        0
    }
}

/// The serialized bytes of a factory state.
pub open spec fn factory_state_bytes(s: FactoryState) -> Seq<u8> {
    seq![bool_byte(s.is_initialized)] + spec_u64_to_le_bytes(s.pair_count)
}

/// The serialized bytes of a pair state.
pub open spec fn pair_state_bytes(s: PairState) -> Seq<u8> {
    seq![bool_byte(s.is_initialized)] + s.factory@ + s.token0_mint@ + s.token1_mint@ + s.vault0@
        + s.vault1@ + s.lp_mint@ + spec_u64_to_le_bytes(s.reserve0) + spec_u64_to_le_bytes(
        s.reserve1,
    ) + spec_u128_to_le_bytes(s.k_last) + spec_u128_to_le_bytes(s.price0_cumulative_last)
        + spec_u128_to_le_bytes(s.price1_cumulative_last) + spec_u64_to_le_bytes(
        s.block_timestamp_last,
    )
}

/// Bytes that hold some serialized factory state.
pub open spec fn factory_bytes_valid(data: Seq<u8>) -> bool {
    data.len() == FACTORY_STATE_LEN && data[0] <= 1
}

/// Bytes that hold some serialized pair state.
pub open spec fn pair_bytes_valid(data: Seq<u8>) -> bool {
    data.len() == PAIR_STATE_LEN && data[0] <= 1
}

/// The factory state that `data` holds, if it holds one.
pub open spec fn factory_state_from_bytes(data: Seq<u8>) -> Option<FactoryState> {
    if factory_bytes_valid(data) {
        Some(choose|s: FactoryState| #[trigger] factory_state_bytes(s) == data)
    } else {
        None
    }
}

/// The pair state that `data` holds, if it holds one.
pub open spec fn pair_state_from_bytes(data: Seq<u8>) -> Option<PairState> {
    if pair_bytes_valid(data) {
        Some(choose|s: PairState| #[trigger] pair_state_bytes(s) == data)
    } else {
        None
    }
}

/// Every factory state serializes to valid bytes, and the bytes determine the state.
pub proof fn lemma_factory_state_codec(s: FactoryState, t: FactoryState)
    ensures
        factory_bytes_valid(factory_state_bytes(s)),
        factory_state_bytes(s) == factory_state_bytes(t) ==> s == t,
{
    lemma_auto_spec_u64_to_from_le_bytes();
    let a = factory_state_bytes(s);
    let b = factory_state_bytes(t);
    if a == b {
        assert(a.subrange(1, 9) =~= spec_u64_to_le_bytes(s.pair_count));
        assert(b.subrange(1, 9) =~= spec_u64_to_le_bytes(t.pair_count));
        assert(a[0] == bool_byte(s.is_initialized));
        assert(b[0] == bool_byte(t.is_initialized));
    }
}

/// The byte ranges of the serialized pair state, field by field.
proof fn lemma_pair_state_fields(s: PairState)
    ensures
        pair_state_bytes(s).len() == PAIR_STATE_LEN,
        pair_state_bytes(s)[0] == bool_byte(s.is_initialized),
        pair_state_bytes(s).subrange(1, 33) == s.factory@,
        pair_state_bytes(s).subrange(33, 65) == s.token0_mint@,
        pair_state_bytes(s).subrange(65, 97) == s.token1_mint@,
        pair_state_bytes(s).subrange(97, 129) == s.vault0@,
        pair_state_bytes(s).subrange(129, 161) == s.vault1@,
        pair_state_bytes(s).subrange(161, 193) == s.lp_mint@,
        pair_state_bytes(s).subrange(193, 201) == spec_u64_to_le_bytes(s.reserve0),
        pair_state_bytes(s).subrange(201, 209) == spec_u64_to_le_bytes(s.reserve1),
        pair_state_bytes(s).subrange(209, 225) == spec_u128_to_le_bytes(s.k_last),
        pair_state_bytes(s).subrange(225, 241) == spec_u128_to_le_bytes(s.price0_cumulative_last),
        pair_state_bytes(s).subrange(241, 257) == spec_u128_to_le_bytes(s.price1_cumulative_last),
        pair_state_bytes(s).subrange(257, 265) == spec_u64_to_le_bytes(s.block_timestamp_last),
{
    lemma_auto_spec_u64_to_from_le_bytes();
    lemma_auto_spec_u128_to_from_le_bytes();
    let e = pair_state_bytes(s);
    assert(e.subrange(1, 33) =~= s.factory@);
    assert(e.subrange(33, 65) =~= s.token0_mint@);
    assert(e.subrange(65, 97) =~= s.token1_mint@);
    assert(e.subrange(97, 129) =~= s.vault0@);
    assert(e.subrange(129, 161) =~= s.vault1@);
    assert(e.subrange(161, 193) =~= s.lp_mint@);
    assert(e.subrange(193, 201) =~= spec_u64_to_le_bytes(s.reserve0));
    assert(e.subrange(201, 209) =~= spec_u64_to_le_bytes(s.reserve1));
    assert(e.subrange(209, 225) =~= spec_u128_to_le_bytes(s.k_last));
    assert(e.subrange(225, 241) =~= spec_u128_to_le_bytes(s.price0_cumulative_last));
    assert(e.subrange(241, 257) =~= spec_u128_to_le_bytes(s.price1_cumulative_last));
    assert(e.subrange(257, 265) =~= spec_u64_to_le_bytes(s.block_timestamp_last));
}

/// Every pair state serializes to valid bytes, and the bytes determine the state.
pub proof fn lemma_pair_state_codec(s: PairState, t: PairState)
    ensures
        pair_bytes_valid(pair_state_bytes(s)),
        pair_state_bytes(s) == pair_state_bytes(t) ==> s == t,
{
    lemma_auto_spec_u64_to_from_le_bytes();
    lemma_auto_spec_u128_to_from_le_bytes();
    lemma_pair_state_fields(s);
    lemma_pair_state_fields(t);
    if pair_state_bytes(s) == pair_state_bytes(t) {
        assert(s.factory.bytes == t.factory.bytes);
        assert(s.token0_mint.bytes == t.token0_mint.bytes);
        assert(s.token1_mint.bytes == t.token1_mint.bytes);
        assert(s.vault0.bytes == t.vault0.bytes);
        assert(s.vault1.bytes == t.vault1.bytes);
        assert(s.lp_mint.bytes == t.lp_mint.bytes);
    }
}

fn push_bool(out: &mut Vec<u8>, b: bool)
    ensures
        final(out)@ == old(out)@.push(bool_byte(b)),
{
    if b {
        out.push(1);
    } else {
        out.push(0);
    }
}

fn push_bytes(out: &mut Vec<u8>, bytes: Vec<u8>)
    ensures
        final(out)@ == old(out)@ + bytes@,
{
    let mut b = bytes;
    out.append(&mut b);
}

impl FactoryState {
    /// Serialized size of [`FactoryState`].
    pub const LEN: usize = 9;

    /// Serializes the state.
    pub fn to_bytes(&self) -> (out: Vec<u8>)
        ensures
            out@ == factory_state_bytes(*self),
    {
        let mut out: Vec<u8> = Vec::new();
        push_bool(&mut out, self.is_initialized);
        push_bytes(&mut out, u64_to_le_bytes(self.pair_count));
        assert(out@ =~= factory_state_bytes(*self));
        out
    }

    /// Deserializes a state that fills `data` exactly.
    pub fn try_from_slice(data: &[u8]) -> (r: Option<FactoryState>)
        ensures
            r is Some <==> factory_bytes_valid(data@),
            r matches Some(s) ==> factory_state_bytes(s) == data@,
            r == factory_state_from_bytes(data@),
    {
        if data.len() != FACTORY_STATE_LEN || data[0] > 1 {
            return None;
        }
        let s = FactoryState {
            is_initialized: data[0] == 1,
            pair_count: u64_from_le_bytes(slice_subrange(data, 1, 9)),
        };
        proof {
            lemma_auto_spec_u64_to_from_le_bytes();
            assert(data@ =~= seq![data@[0]] + data@.subrange(1, 9));
            let t = choose|t: FactoryState| #[trigger] factory_state_bytes(t) == data@;
            lemma_factory_state_codec(s, t);
        }
        Some(s)
    }
}

impl PairState {
    /// Serialized size of [`PairState`].
    pub const LEN: usize = 265;

    /// Serializes the state.
    pub fn to_bytes(&self) -> (out: Vec<u8>)
        ensures
            out@ == pair_state_bytes(*self),
    {
        let mut out: Vec<u8> = Vec::new();
        push_bool(&mut out, self.is_initialized);
        push_bytes(&mut out, self.factory.to_vec());
        push_bytes(&mut out, self.token0_mint.to_vec());
        push_bytes(&mut out, self.token1_mint.to_vec());
        push_bytes(&mut out, self.vault0.to_vec());
        push_bytes(&mut out, self.vault1.to_vec());
        push_bytes(&mut out, self.lp_mint.to_vec());
        push_bytes(&mut out, u64_to_le_bytes(self.reserve0));
        push_bytes(&mut out, u64_to_le_bytes(self.reserve1));
        push_bytes(&mut out, u128_to_le_bytes(self.k_last));
        push_bytes(&mut out, u128_to_le_bytes(self.price0_cumulative_last));
        push_bytes(&mut out, u128_to_le_bytes(self.price1_cumulative_last));
        push_bytes(&mut out, u64_to_le_bytes(self.block_timestamp_last));
        assert(out@ =~= pair_state_bytes(*self));
        out
    }

    /// Deserializes a state that fills `data` exactly.
    pub fn try_from_slice(data: &[u8]) -> (r: Option<PairState>)
        ensures
            r is Some <==> pair_bytes_valid(data@),
            r matches Some(s) ==> pair_state_bytes(s) == data@,
            r == pair_state_from_bytes(data@),
    {
        if data.len() != PAIR_STATE_LEN || data[0] > 1 {
            return None;
        }
        let s = PairState {
            is_initialized: data[0] == 1,
            factory: Key::read_at(data, 1),
            token0_mint: Key::read_at(data, 33),
            token1_mint: Key::read_at(data, 65),
            vault0: Key::read_at(data, 97),
            vault1: Key::read_at(data, 129),
            lp_mint: Key::read_at(data, 161),
            reserve0: u64_from_le_bytes(slice_subrange(data, 193, 201)),
            reserve1: u64_from_le_bytes(slice_subrange(data, 201, 209)),
            k_last: u128_from_le_bytes(slice_subrange(data, 209, 225)),
            price0_cumulative_last: u128_from_le_bytes(slice_subrange(data, 225, 241)),
            price1_cumulative_last: u128_from_le_bytes(slice_subrange(data, 241, 257)),
            block_timestamp_last: u64_from_le_bytes(slice_subrange(data, 257, 265)),
        };
        proof {
            lemma_auto_spec_u64_to_from_le_bytes();
            lemma_auto_spec_u128_to_from_le_bytes();
            let d = data@;
            assert(spec_u64_to_le_bytes(s.reserve0) == d.subrange(193, 201));
            assert(spec_u64_to_le_bytes(s.reserve1) == d.subrange(201, 209));
            assert(spec_u128_to_le_bytes(s.k_last) == d.subrange(209, 225));
            assert(spec_u128_to_le_bytes(s.price0_cumulative_last) == d.subrange(225, 241));
            assert(spec_u128_to_le_bytes(s.price1_cumulative_last) == d.subrange(241, 257));
            assert(spec_u64_to_le_bytes(s.block_timestamp_last) == d.subrange(257, 265));
            assert(d =~= seq![d[0]] + d.subrange(1, 33) + d.subrange(33, 65) + d.subrange(65, 97)
                + d.subrange(97, 129) + d.subrange(129, 161) + d.subrange(161, 193) + d.subrange(
                193,
                201,
            ) + d.subrange(201, 209) + d.subrange(209, 225) + d.subrange(225, 241) + d.subrange(
                241,
                257,
            ) + d.subrange(257, 265));
            let t = choose|t: PairState| #[trigger] pair_state_bytes(t) == data@;
            lemma_pair_state_codec(s, t);
        }
        Some(s)
    }
}

} // verus!
