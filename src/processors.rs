use vstd::prelude::*;
use crate::error::{CustomError, VaultError};
use crate::instruction::RewardArgs;
use crate::pda::{
    AccountDeserialize, VaultAccount, HEADER_LEN, encode_record, vault_discriminator, VAULT_RECORD_LEN, decode_region,
    find_vault_address, keys_equal, vault_address_of,
};
use crate::token::{token_account_amount, token_program_id, token_program_key, unpack_token_amount};

verus! {

/// What the vault reads of an account handed to it by the ledger.
#[derive(Clone, Debug)]
pub struct AccountView {
    pub key: [u8; 32],
    pub owner: [u8; 32],
    pub is_signer: bool,
    pub data: Vec<u8>,
}

/// The ledger calls that complete an accepted `Init`: create an account of
/// `space` bytes at `vault`, paid by `payer` and signed with the vault seed
/// and `bump`; write `record` into it; then create the vault's associated
/// token account for `record.mint` under `token_program`.
#[derive(Clone, Copy, Debug, PartialEq, Eq)]
pub struct InitPlan {
    pub payer: [u8; 32],
    pub vault: [u8; 32],
    pub bump: u8,
    pub space: u64,
    pub record: VaultAccount,
    pub token_program: [u8; 32],
}

/// The token transfer that completes an accepted `Reward`: move `amount`
/// from `source` to `destination` through `token_program`, with the vault
/// address `owner` as the signing owner, by the vault seed and `bump`.
#[derive(Clone, Copy, Debug, PartialEq, Eq)]
pub struct TransferPlan {
    pub token_program: [u8; 32],
    pub source: [u8; 32],
    pub destination: [u8; 32],
    pub owner: [u8; 32],
    pub bump: u8,
    pub amount: u64,
}

/// Number of accounts that `Init` reads: authority, mint, vault, the vault's
/// token account, system program, token program, rent, associated token
/// program.
pub const INIT_ACCOUNTS: usize = 8;

/// Number of accounts that `Reward` reads: authority, mint, vault, the
/// vault's token account, destination token account, token program.
pub const REWARD_ACCOUNTS: usize = 6;

/// The outcome of `Init`, with its checks in order.
pub open spec fn init_result(program_id: Seq<u8>, accts: Seq<AccountView>) -> Result<
    InitPlan,
    VaultError,
> {
    if accts.len() < INIT_ACCOUNTS {
        Err(VaultError::NotEnoughAccountKeys)
    } else if !accts[0].is_signer {
        Err(VaultError::MissingRequiredSignature)
    } else {
        match vault_address_of(program_id) {
            None => Err(VaultError::AddressUnavailable),
            Some((pda, bump)) => if accts[2].key@ != pda {
                Err(VaultError::Custom(CustomError::IncorrectPdaKey))
            } else if accts[2].data@.len() != 0 {
                Err(VaultError::Custom(CustomError::AlreadyInitialized))
            } else {
                Ok(
                    InitPlan {
                        payer: accts[0].key,
                        vault: accts[2].key,
                        bump,
                        space: (HEADER_LEN + VAULT_RECORD_LEN) as u64,
                        record: VaultAccount { mint: accts[1].key, authority: accts[0].key },
                        token_program: accts[5].key,
                    },
                )
            },
        }
    }
}

/// The first three checks of `Reward` pass: enough accounts, a signing
/// authority, token accounts owned by the token program, and the vault at
/// its derived address.
pub open spec fn reward_accounts_ok(program_id: Seq<u8>, accts: Seq<AccountView>) -> bool {
    &&& accts.len() >= REWARD_ACCOUNTS
    &&& accts[0].is_signer
    &&& accts[3].owner@ == token_program_id()
    &&& accts[4].owner@ == token_program_id()
    &&& vault_address_of(program_id) matches Some((pda, _)) && accts[2].key@ == pda
}

/// The outcome of `Reward`, with its checks in order.
pub open spec fn reward_result(program_id: Seq<u8>, accts: Seq<AccountView>, amount: u64) -> Result<
    TransferPlan,
    VaultError,
> {
    if accts.len() < REWARD_ACCOUNTS {
        Err(VaultError::NotEnoughAccountKeys)
    } else if !accts[0].is_signer {
        Err(VaultError::MissingRequiredSignature)
    } else if accts[3].owner@ != token_program_id() || accts[4].owner@ != token_program_id() {
        Err(VaultError::Custom(CustomError::InvalidTokenAccount))
    } else {
        match vault_address_of(program_id) {
            None => Err(VaultError::AddressUnavailable),
            Some((pda, bump)) => if accts[2].key@ != pda {
                Err(VaultError::Custom(CustomError::IncorrectPdaKey))
            } else if accts[2].data@.len() == 0 {
                Err(VaultError::Custom(CustomError::NotInitialized))
            } else {
                match decode_region(accts[2].data@) {
                    Err(e) => Err(e),
                    Ok(rec) => if accts[1].key@ != rec.mint {
                        Err(VaultError::Custom(CustomError::DoesNotSupportMint))
                    } else if accts[0].key@ != rec.authority {
                        Err(VaultError::Unauthorized)
                    } else if amount == 0 {
                        Err(VaultError::Custom(CustomError::InvalidAmount))
                    } else {
                        match token_account_amount(accts[3].data@) {
                            Err(e) => Err(e),
                            Ok(balance) => if balance < amount {
                                Err(VaultError::Custom(CustomError::InsufficientFunds))
                            } else {
                                Ok(
                                    TransferPlan {
                                        token_program: accts[5].key,
                                        source: accts[3].key,
                                        destination: accts[4].key,
                                        owner: accts[2].key,
                                        bump,
                                        amount,
                                    },
                                )
                            },
                        }
                    },
                }
            },
        }
    }
}

/// Checks an `Init` request. On success, returns the ledger calls that
/// create the vault and its token account.
pub fn process_init(program_id: &[u8; 32], accounts: &Vec<AccountView>) -> (r: Result<
    InitPlan,
    VaultError,
>)
    ensures
        r == init_result(program_id@, accounts@),
{
    if accounts.len() < INIT_ACCOUNTS {
        return Err(VaultError::NotEnoughAccountKeys);
    }
    let authority = &accounts[0];
    let mint = &accounts[1];
    let vault = &accounts[2];
    if !authority.is_signer {
        return Err(VaultError::MissingRequiredSignature);
    }
    let (pda, bump) = match find_vault_address(program_id) {
        Some(found) => found,
        None => return Err(VaultError::AddressUnavailable),
    };
    if !keys_equal(&vault.key, &pda) {
        return Err(VaultError::Custom(CustomError::IncorrectPdaKey));
    }
    if vault.data.len() != 0 {
        return Err(VaultError::Custom(CustomError::AlreadyInitialized));
    }
    let space = (HEADER_LEN + VaultAccount::size()) as u64;
    Ok(
        InitPlan {
            payer: authority.key,
            vault: vault.key,
            bump,
            space,
            record: VaultAccount { mint: mint.key, authority: authority.key },
            token_program: accounts[5].key,
        },
    )
}

/// Checks a `Reward` request against the stored record and the vault's
/// token balance. On success, returns the transfer to make.
pub fn process_reward(program_id: &[u8; 32], accounts: &Vec<AccountView>, args: RewardArgs) -> (r:
    Result<TransferPlan, VaultError>)
    ensures
        r == reward_result(program_id@, accounts@, args.amount),
{
    if accounts.len() < REWARD_ACCOUNTS {
        return Err(VaultError::NotEnoughAccountKeys);
    }
    let authority = &accounts[0];
    let mint = &accounts[1];
    let vault = &accounts[2];
    let vault_tokens = &accounts[3];
    let destination = &accounts[4];
    if !authority.is_signer {
        return Err(VaultError::MissingRequiredSignature);
    }
    let token_program_id = token_program_key();
    if !keys_equal(&vault_tokens.owner, &token_program_id) {
        return Err(VaultError::Custom(CustomError::InvalidTokenAccount));
    }
    if !keys_equal(&destination.owner, &token_program_id) {
        return Err(VaultError::Custom(CustomError::InvalidTokenAccount));
    }
    let (pda, bump) = match find_vault_address(program_id) {
        Some(found) => found,
        None => return Err(VaultError::AddressUnavailable),
    };
    if !keys_equal(&vault.key, &pda) {
        return Err(VaultError::Custom(CustomError::IncorrectPdaKey));
    }
    if vault.data.len() == 0 {
        return Err(VaultError::Custom(CustomError::NotInitialized));
    }
    let record = match VaultAccount::try_from_bytes(vault.data.as_slice()) {
        Ok(record) => record,
        Err(e) => return Err(e),
    };
    if !keys_equal(&mint.key, &record.mint) {
        return Err(VaultError::Custom(CustomError::DoesNotSupportMint));
    }
    if !keys_equal(&authority.key, &record.authority) {
        return Err(VaultError::Unauthorized);
    }
    if args.amount == 0 {
        return Err(VaultError::Custom(CustomError::InvalidAmount));
    }
    let balance = match unpack_token_amount(vault_tokens.data.as_slice()) {
        Ok(balance) => balance,
        Err(e) => return Err(e),
    };
    if balance < args.amount {
        return Err(VaultError::Custom(CustomError::InsufficientFunds));
    }
    Ok(
        TransferPlan {
            token_program: accounts[5].key,
            source: vault_tokens.key,
            destination: destination.key,
            owner: vault.key,
            bump,
            amount: args.amount,
        },
    )
}

/// The checks of `Reward` up to the stored record pass: the accounts are
/// in order, the region decodes to a record, and the caller's mint and
/// authority are the recorded ones.
pub open spec fn reward_record_ok(program_id: Seq<u8>, accts: Seq<AccountView>) -> bool {
    &&& reward_accounts_ok(program_id, accts)
    &&& decode_region(accts[2].data@) matches Ok(rec) && accts[1].key@ == rec.mint
        && accts[0].key@ == rec.authority
}

/// `Init` succeeds at most once per vault address: once an `Init` has been
/// accepted and its record written into the vault region, any later `Init`
/// that names the same vault is refused as already initialized, whoever
/// signs it.
pub proof fn init_happens_once(
    program_id: Seq<u8>,
    first: Seq<AccountView>,
    second: Seq<AccountView>,
    reserved: Seq<u8>,
)
    requires
        init_result(program_id, first) is Ok,
        reserved.len() == 7,
        second.len() >= INIT_ACCOUNTS,
        second[0].is_signer,
        second[2].key == first[2].key,
        second[2].data@ == seq![vault_discriminator()] + reserved + encode_record(
            init_result(program_id, first)->Ok_0.record@,
        ),
    ensures
        init_result(program_id, second) == Err::<InitPlan, VaultError>(
            VaultError::Custom(CustomError::AlreadyInitialized),
        ),
{
}

/// `Reward` on a vault whose region is empty is refused as not initialized,
/// for any mint, authority and amount.
pub proof fn reward_needs_initialized_vault(
    program_id: Seq<u8>,
    accts: Seq<AccountView>,
    amount: u64,
)
    requires
        reward_accounts_ok(program_id, accts),
        accts[2].data@.len() == 0,
    ensures
        reward_result(program_id, accts, amount) == Err::<TransferPlan, VaultError>(
            VaultError::Custom(CustomError::NotInitialized),
        ),
{
}

/// `Reward` of nothing is refused as an invalid amount, even when every
/// identity matches the record.
pub proof fn reward_refuses_zero(program_id: Seq<u8>, accts: Seq<AccountView>)
    requires
        reward_record_ok(program_id, accts),
    ensures
        reward_result(program_id, accts, 0) == Err::<TransferPlan, VaultError>(
            VaultError::Custom(CustomError::InvalidAmount),
        ),
{
}

/// `Reward` of more than the vault's token balance is refused as
/// insufficient funds, so no transfer is made.
pub proof fn reward_refuses_overdraft(
    program_id: Seq<u8>,
    accts: Seq<AccountView>,
    amount: u64,
    balance: int,
)
    requires
        reward_record_ok(program_id, accts),
        token_account_amount(accts[3].data@) == Ok::<int, VaultError>(balance),
        amount > balance,
    ensures
        reward_result(program_id, accts, amount) == Err::<TransferPlan, VaultError>(
            VaultError::Custom(CustomError::InsufficientFunds),
        ),
{
}

/// `Reward` signed by anyone but the recorded authority is refused as
/// unauthorized, even though that signer did sign.
pub proof fn reward_needs_recorded_authority(
    program_id: Seq<u8>,
    accts: Seq<AccountView>,
    amount: u64,
)
    requires
        reward_accounts_ok(program_id, accts),
        decode_region(accts[2].data@) matches Ok(rec) && accts[1].key@ == rec.mint
            && accts[0].key@ != rec.authority,
    ensures
        reward_result(program_id, accts, amount) == Err::<TransferPlan, VaultError>(
            VaultError::Unauthorized,
        ),
{
}

} // verus!
