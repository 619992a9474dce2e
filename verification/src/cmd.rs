//! Instruction data: a tag byte naming the instruction, then its arguments as
//! little-endian `u64`s.

use vstd::prelude::*;
use vstd::bytes::*;
use vstd::slice::slice_subrange;

verus! {

/// Entry-point instruction enum decoded from instruction data.
#[derive(Clone, Copy, Debug, PartialEq, Eq, Structural)]
pub enum Cmd {
    InitFactory,
    CreatePair,
    AddLiquidity { amount0_desired: u64, amount1_desired: u64, amount0_min: u64, amount1_min: u64 },
    Swap { amount0_out: u64, amount1_out: u64 },
    RemoveLiquidity { liquidity: u64, amount0_min: u64, amount1_min: u64 },
    Skim,
    Sync,
}

/// The number of `u64` arguments that follow a tag.
pub open spec fn cmd_arg_count(tag: u8) -> nat {
    if tag == 2 {
        4
    } else if tag == 3 {
        2
    } else if tag == 4 {
        3
    } else {
        0
    }
}

/// The serialized bytes of an instruction.
pub open spec fn cmd_bytes(c: Cmd) -> Seq<u8> {
    match c {
        Cmd::InitFactory => seq![0u8],
        Cmd::CreatePair => seq![1u8],
        Cmd::AddLiquidity { amount0_desired, amount1_desired, amount0_min, amount1_min } => seq![2u8]
            + spec_u64_to_le_bytes(amount0_desired) + spec_u64_to_le_bytes(amount1_desired)
            + spec_u64_to_le_bytes(amount0_min) + spec_u64_to_le_bytes(amount1_min),
        Cmd::Swap { amount0_out, amount1_out } => seq![3u8] + spec_u64_to_le_bytes(amount0_out)
            + spec_u64_to_le_bytes(amount1_out),
        Cmd::RemoveLiquidity { liquidity, amount0_min, amount1_min } => seq![4u8]
            + spec_u64_to_le_bytes(liquidity) + spec_u64_to_le_bytes(amount0_min)
            + spec_u64_to_le_bytes(amount1_min),
        Cmd::Skim => seq![5u8],
        Cmd::Sync => seq![6u8],
    }
}

/// Bytes that hold some serialized instruction and nothing more.
pub open spec fn cmd_bytes_valid(data: Seq<u8>) -> bool {
    &&& data.len() >= 1
    &&& data[0] <= 6
    &&& data.len() == 1 + 8 * cmd_arg_count(data[0])
}

/// The instruction that `data` holds, if it holds one.
pub open spec fn cmd_from_bytes(data: Seq<u8>) -> Option<Cmd> {
    if cmd_bytes_valid(data) {
        Some(choose|c: Cmd| #[trigger] cmd_bytes(c) == data)
    } else {
        None
    }
}

/// Every instruction serializes to valid bytes, and the bytes determine the instruction.
pub proof fn lemma_cmd_codec(c: Cmd, d: Cmd)
    ensures
        cmd_bytes_valid(cmd_bytes(c)),
        cmd_bytes(c) == cmd_bytes(d) ==> c == d,
{
    lemma_auto_spec_u64_to_from_le_bytes();
    let a = cmd_bytes(c);
    let b = cmd_bytes(d);
    assert(a[0] == cmd_bytes(c)[0]);
    if a == b {
        assert(a[0] == b[0]);
        match c {
            Cmd::AddLiquidity { amount0_desired, amount1_desired, amount0_min, amount1_min } => {
                assert(a.subrange(1, 9) =~= spec_u64_to_le_bytes(amount0_desired));
                assert(a.subrange(9, 17) =~= spec_u64_to_le_bytes(amount1_desired));
                assert(a.subrange(17, 25) =~= spec_u64_to_le_bytes(amount0_min));
                assert(a.subrange(25, 33) =~= spec_u64_to_le_bytes(amount1_min));
                match d {
                    Cmd::AddLiquidity { amount0_desired, amount1_desired, amount0_min, amount1_min } => {
                        assert(b.subrange(1, 9) =~= spec_u64_to_le_bytes(amount0_desired));
                        assert(b.subrange(9, 17) =~= spec_u64_to_le_bytes(amount1_desired));
                        assert(b.subrange(17, 25) =~= spec_u64_to_le_bytes(amount0_min));
                        assert(b.subrange(25, 33) =~= spec_u64_to_le_bytes(amount1_min));
                    },
                    _ => {},
                }
            },
            Cmd::Swap { amount0_out, amount1_out } => {
                assert(a.subrange(1, 9) =~= spec_u64_to_le_bytes(amount0_out));
                assert(a.subrange(9, 17) =~= spec_u64_to_le_bytes(amount1_out));
                match d {
                    Cmd::Swap { amount0_out, amount1_out } => {
                        assert(b.subrange(1, 9) =~= spec_u64_to_le_bytes(amount0_out));
                        assert(b.subrange(9, 17) =~= spec_u64_to_le_bytes(amount1_out));
                    },
                    _ => {},
                }
            },
            Cmd::RemoveLiquidity { liquidity, amount0_min, amount1_min } => {
                assert(a.subrange(1, 9) =~= spec_u64_to_le_bytes(liquidity));
                assert(a.subrange(9, 17) =~= spec_u64_to_le_bytes(amount0_min));
                assert(a.subrange(17, 25) =~= spec_u64_to_le_bytes(amount1_min));
                match d {
                    Cmd::RemoveLiquidity { liquidity, amount0_min, amount1_min } => {
                        assert(b.subrange(1, 9) =~= spec_u64_to_le_bytes(liquidity));
                        assert(b.subrange(9, 17) =~= spec_u64_to_le_bytes(amount0_min));
                        assert(b.subrange(17, 25) =~= spec_u64_to_le_bytes(amount1_min));
                    },
                    _ => {},
                }
            },
            _ => {},
        }
    }
}

fn push_u64(out: &mut Vec<u8>, x: u64)
    ensures
        final(out)@ == old(out)@ + spec_u64_to_le_bytes(x),
{
    let mut b = u64_to_le_bytes(x);
    out.append(&mut b);
}

fn read_u64(data: &[u8], offset: usize) -> (x: u64)
    requires
        offset <= 32,
        offset + 8 <= data@.len(),
    ensures
        spec_u64_to_le_bytes(x) == data@.subrange(offset as int, offset + 8),
{
    proof {
        lemma_auto_spec_u64_to_from_le_bytes();
    }
    u64_from_le_bytes(slice_subrange(data, offset, offset + 8))
}

impl Cmd {
    /// Serializes the instruction.
    pub fn to_bytes(&self) -> (out: Vec<u8>)
        ensures
            out@ == cmd_bytes(*self),
    {
        let mut out: Vec<u8> = Vec::new();
        match *self {
            Cmd::InitFactory => {
                out.push(0);
            },
            Cmd::CreatePair => {
                out.push(1);
            },
            Cmd::AddLiquidity { amount0_desired, amount1_desired, amount0_min, amount1_min } => {
                out.push(2);
                push_u64(&mut out, amount0_desired);
                push_u64(&mut out, amount1_desired);
                push_u64(&mut out, amount0_min);
                push_u64(&mut out, amount1_min);
            },
            Cmd::Swap { amount0_out, amount1_out } => {
                out.push(3);
                push_u64(&mut out, amount0_out);
                push_u64(&mut out, amount1_out);
            },
            Cmd::RemoveLiquidity { liquidity, amount0_min, amount1_min } => {
                out.push(4);
                push_u64(&mut out, liquidity);
                push_u64(&mut out, amount0_min);
                push_u64(&mut out, amount1_min);
            },
            Cmd::Skim => {
                out.push(5);
            },
            Cmd::Sync => {
                out.push(6);
            },
        }
        assert(out@ =~= cmd_bytes(*self));
        out
    }

    /// Deserializes an instruction that fills `data` exactly.
    pub fn try_from_slice(data: &[u8]) -> (r: Option<Cmd>)
        ensures
            r is Some <==> cmd_bytes_valid(data@),
            r matches Some(c) ==> cmd_bytes(c) == data@,
            r == cmd_from_bytes(data@),
    {
        let r = Self::decode(data);
        proof {
            if let Some(c) = r {
                let d = choose|d: Cmd| #[trigger] cmd_bytes(d) == data@;
                lemma_cmd_codec(c, d);
            }
        }
        r
    }

    fn decode(data: &[u8]) -> (r: Option<Cmd>)
        ensures
            r is Some <==> cmd_bytes_valid(data@),
            r matches Some(c) ==> cmd_bytes(c) == data@,
    {
        let n = data.len();
        if n == 0 {
            return None;
        }
        let tag = data[0];
        let ghost d = data@;
        if tag == 0 && n == 1 {
            assert(d =~= seq![0u8]);
            Some(Cmd::InitFactory)
        } else if tag == 1 && n == 1 {
            assert(d =~= seq![1u8]);
            Some(Cmd::CreatePair)
        } else if tag == 2 && n == 33 {
            let c = Cmd::AddLiquidity {
                amount0_desired: read_u64(data, 1),
                amount1_desired: read_u64(data, 9),
                amount0_min: read_u64(data, 17),
                amount1_min: read_u64(data, 25),
            };
            assert(d =~= seq![d[0]] + d.subrange(1, 9) + d.subrange(9, 17) + d.subrange(17, 25)
                + d.subrange(25, 33));
            Some(c)
        } else if tag == 3 && n == 17 {
            let c = Cmd::Swap { amount0_out: read_u64(data, 1), amount1_out: read_u64(data, 9) };
            assert(d =~= seq![d[0]] + d.subrange(1, 9) + d.subrange(9, 17));
            Some(c)
        } else if tag == 4 && n == 25 {
            let c = Cmd::RemoveLiquidity {
                liquidity: read_u64(data, 1),
                amount0_min: read_u64(data, 9),
                amount1_min: read_u64(data, 17),
            };
            assert(d =~= seq![d[0]] + d.subrange(1, 9) + d.subrange(9, 17) + d.subrange(17, 25));
            Some(c)
        } else if tag == 5 && n == 1 {
            assert(d =~= seq![5u8]);
            Some(Cmd::Skim)
        } else if tag == 6 && n == 1 {
            assert(d =~= seq![6u8]);
            Some(Cmd::Sync)
        } else {
            None
        }
    }
}

} // verus!
