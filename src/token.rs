use vstd::prelude::*;
use crate::error::VaultError;
use crate::instruction::le_u64_at;

verus! {

/// Length of a token account's data.
pub const TOKEN_ACCOUNT_LEN: usize = 165;

/// The address of the token program.
pub open spec fn token_program_id() -> Seq<u8> {
    seq![
        6u8, 221u8, 246u8, 225u8, 215u8, 101u8, 161u8, 147u8, 217u8, 203u8, 225u8, 70u8, 206u8,
        235u8, 121u8, 172u8, 28u8, 180u8, 133u8, 237u8, 95u8, 91u8, 55u8, 145u8, 58u8, 140u8,
        245u8, 133u8, 126u8, 255u8, 0u8, 169u8,
    ]
}

/// An optional-value tag of four bytes: 0 or 1, little-endian.
pub open spec fn option_tag_valid(d: Seq<u8>, off: int) -> bool {
    (d[off] == 0 || d[off] == 1) && d[off + 1] == 0 && d[off + 2] == 0 && d[off + 3] == 0
}

/// The balance stored in a token account's data. The layout is: mint (32
/// bytes), owner (32), amount (8, little-endian), delegate (tag 4 + 32),
/// state (1), native amount (tag 4 + 8), delegated amount (8), close
/// authority (tag 4 + 32).
pub open spec fn token_account_amount(d: Seq<u8>) -> Result<int, VaultError> {
    if d.len() != TOKEN_ACCOUNT_LEN {
        Err(VaultError::InvalidAccountData)
    } else if !option_tag_valid(d, 72) || d[108] > 2 || !option_tag_valid(d, 109)
        || !option_tag_valid(d, 129) {
        Err(VaultError::InvalidAccountData)
    } else if d[108] == 0 {
        Err(VaultError::UninitializedAccount)
    } else {
        Ok(le_u64_at(d, 64))
    }
}

/// Relies on `spl_token::id`: the token program's address.
#[verifier::external_body]
pub(crate) fn token_program_key() -> (r: [u8; 32])
    ensures
        r@ == token_program_id(),
{
    spl_token::id().to_bytes()
}

/// Relies on `Pack::unpack` for `spl_token::state::Account`: the data must
/// be exactly one packed account with valid option tags and state, and an
/// account in the uninitialized state is refused apart.
#[verifier::external_body]
pub(crate) fn unpack_token_amount(data: &[u8]) -> (r: Result<u64, VaultError>)
    ensures
        match r {
            Ok(a) => token_account_amount(data@) == Ok::<int, VaultError>(a as int),
            Err(e) => token_account_amount(data@) == Err::<int, VaultError>(e),
        },
{
    match <spl_token::state::Account as solana_program::program_pack::Pack>::unpack(data) {
        Ok(account) => Ok(account.amount),
        Err(solana_program::program_error::ProgramError::UninitializedAccount) => Err(
            VaultError::UninitializedAccount,
        ),
        Err(_) => Err(VaultError::InvalidAccountData),
    }
}

} // verus!
