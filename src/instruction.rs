use vstd::prelude::*;
use crate::error::VaultError;

verus! {

/// Arguments of a transfer out of the vault.
#[derive(Clone, Copy, Debug, PartialEq, Eq, Structural)]
pub struct RewardArgs {
    pub amount: u64,
}

/// The two commands the vault accepts.
#[derive(Clone, Copy, Debug, PartialEq, Eq, Structural)]
pub enum ProgramInstruction {
    Init,
    Reward(RewardArgs),
}

/// The unsigned value of the eight little-endian bytes of `d` at `off`.
pub open spec fn le_u64_at(d: Seq<u8>, off: int) -> int {
    d[off] + 256 * (d[off + 1] + 256 * (d[off + 2] + 256 * (d[off + 3] + 256 * (d[off + 4] + 256
        * (d[off + 5] + 256 * (d[off + 6] + 256 * d[off + 7]))))))
}

/// What a command's bytes decode to: a tag byte, then nothing for `Init`,
/// or exactly eight little-endian bytes of amount for `Reward`.
pub open spec fn decode_instruction(data: Seq<u8>) -> Result<ProgramInstruction, VaultError> {
    if data.len() == 1 && data[0] == 0 {
        Ok(ProgramInstruction::Init)
    } else if data.len() == 9 && data[0] == 1 {
        Ok(ProgramInstruction::Reward(RewardArgs { amount: le_u64_at(data, 1) as u64 }))
    } else {
        Err(VaultError::InvalidInstructionData)
    }
}

/// Reads the eight little-endian bytes of `data` at `off`.
pub fn read_u64_le(data: &[u8], off: usize) -> (r: u64)
    requires
        off + 8 <= data@.len(),
    ensures
        r as int == le_u64_at(data@, off as int),
{
    let b0 = data[off] as u64;
    let b1 = data[off + 1] as u64;
    let b2 = data[off + 2] as u64;
    let b3 = data[off + 3] as u64;
    let b4 = data[off + 4] as u64;
    let b5 = data[off + 5] as u64;
    let b6 = data[off + 6] as u64;
    let b7 = data[off + 7] as u64;
    let v7 = b7;
    assert(b6 + 256 * v7 < 0x10000) by (nonlinear_arith)
        requires
            b6 < 256,
            v7 < 256,
    ;
    let v6 = b6 + 256 * v7;
    assert(b5 + 256 * v6 < 0x1000000) by (nonlinear_arith)
        requires
            b5 < 256,
            v6 < 0x10000,
    ;
    let v5 = b5 + 256 * v6;
    assert(b4 + 256 * v5 < 0x100000000) by (nonlinear_arith)
        requires
            b4 < 256,
            v5 < 0x1000000,
    ;
    let v4 = b4 + 256 * v5;
    assert(b3 + 256 * v4 < 0x10000000000) by (nonlinear_arith)
        requires
            b3 < 256,
            v4 < 0x100000000,
    ;
    let v3 = b3 + 256 * v4;
    assert(b2 + 256 * v3 < 0x1000000000000) by (nonlinear_arith)
        requires
            b2 < 256,
            v3 < 0x10000000000,
    ;
    let v2 = b2 + 256 * v3;
    assert(b1 + 256 * v2 < 0x100000000000000) by (nonlinear_arith)
        requires
            b1 < 256,
            v2 < 0x1000000000000,
    ;
    let v1 = b1 + 256 * v2;
    assert(b0 + 256 * v1 < 0x10000000000000000) by (nonlinear_arith)
        requires
            b0 < 256,
            v1 < 0x100000000000000,
    ;
    b0 + 256 * v1
}

impl ProgramInstruction {
    /// Decodes a command from its bytes.
    pub fn unpack(input: &[u8]) -> (r: Result<ProgramInstruction, VaultError>)
        ensures
            r == decode_instruction(input@),
    {
        if input.len() == 1 && input[0] == 0 {
            Ok(ProgramInstruction::Init)
        } else if input.len() == 9 && input[0] == 1 {
            let amount = read_u64_le(input, 1);
            Ok(ProgramInstruction::Reward(RewardArgs { amount }))
        } else {
            Err(VaultError::InvalidInstructionData)
        }
    }
}

} // verus!
