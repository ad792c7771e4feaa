use vstd::prelude::*;
use crate::error::VaultError;
use crate::instruction::{ProgramInstruction, decode_instruction};
use crate::pda::keys_equal;
use crate::processors::{
    AccountView, InitPlan, TransferPlan, init_result, process_init, process_reward, reward_result,
};

pub mod error;
pub mod instruction;
pub mod pda;
pub mod processors;
pub mod token;

verus! {

/// The address this program is deployed at.
pub open spec fn program_id() -> Seq<u8> {
    seq![
        5u8, 184u8, 114u8, 126u8, 214u8, 106u8, 212u8, 21u8, 127u8, 16u8, 175u8, 91u8, 202u8,
        232u8, 5u8, 178u8, 192u8, 17u8, 218u8, 33u8, 179u8, 23u8, 124u8, 227u8, 6u8, 168u8,
        164u8, 207u8, 231u8, 26u8, 225u8, 156u8,
    ]
}

/// The address this program is deployed at.
pub fn id() -> (r: [u8; 32])
    ensures
        r@ == program_id(),
{
    let r: [u8; 32] = [
        5u8, 184u8, 114u8, 126u8, 214u8, 106u8, 212u8, 21u8, 127u8, 16u8, 175u8, 91u8, 202u8,
        232u8, 5u8, 178u8, 192u8, 17u8, 218u8, 33u8, 179u8, 23u8, 124u8, 227u8, 6u8, 168u8,
        164u8, 207u8, 231u8, 26u8, 225u8, 156u8,
    ];
    assert(r@ =~= program_id());
    r
}

/// The ledger work that an accepted command asks for.
#[derive(Clone, Copy, Debug, PartialEq, Eq)]
pub enum Action {
    Init(InitPlan),
    Reward(TransferPlan),
}

/// The outcome of a command sent to `program`.
pub open spec fn instruction_result(program: Seq<u8>, accts: Seq<AccountView>, data: Seq<u8>) -> Result<
    Action,
    VaultError,
> {
    if program != program_id() {
        Err(VaultError::IncorrectProgramId)
    } else {
        match decode_instruction(data) {
            Err(e) => Err(e),
            Ok(ProgramInstruction::Init) => match init_result(program, accts) {
                Ok(plan) => Ok(Action::Init(plan)),
                Err(e) => Err(e),
            },
            Ok(ProgramInstruction::Reward(args)) => match reward_result(program, accts, args.amount) {
                Ok(plan) => Ok(Action::Reward(plan)),
                Err(e) => Err(e),
            },
        }
    }
}

/// Checks a command addressed to `program_id` and decides the ledger work
/// it asks for. Nothing is decided before the program id and the command
/// bytes have been checked.
pub fn process_instruction(program_id: &[u8; 32], accounts: &Vec<AccountView>, data: &[u8]) -> (r:
    Result<Action, VaultError>)
    ensures
        r == instruction_result(program_id@, accounts@, data@),
{
    let own = id();
    if !keys_equal(program_id, &own) {
        return Err(VaultError::IncorrectProgramId);
    }
    match ProgramInstruction::unpack(data) {
        Err(e) => Err(e),
        Ok(ProgramInstruction::Init) => match process_init(program_id, accounts) {
            Ok(plan) => Ok(Action::Init(plan)),
            Err(e) => Err(e),
        },
        Ok(ProgramInstruction::Reward(args)) => match process_reward(program_id, accounts, args) {
            Ok(plan) => Ok(Action::Reward(plan)),
            Err(e) => Err(e),
        },
    }
}

} // verus!
