//! Account data that were fetched, and what can be found among them.

use vstd::prelude::*;

use crate::error::Error;
use crate::pubkey::Pubkey;
use crate::token;
use crate::token::MintState;

verus! {

/// The data of an account.
#[derive(Clone, Debug)]
pub struct AccountData {
    pub key: Pubkey,
    pub data: Vec<u8>,
}

/// The data of the account with this address, if it is among the accounts. The
/// first one counts.
pub open spec fn data_of(accounts: Seq<AccountData>, key: Pubkey) -> Option<Seq<u8>>
    decreases accounts.len(),
{
    if accounts.len() == 0 {
        None
    } else if accounts[0].key == key {
        Some(accounts[0].data@)
    } else {
        data_of(accounts.drop_first(), key)
    }
}

/// The mint with this address, if its account is there and holds one.
pub open spec fn mint_of(accounts: Seq<AccountData>, key: Pubkey) -> Option<MintState> {
    match data_of(accounts, key) {
        None => None,
        Some(data) => token::unpacked_mint(data),
    }
}

/// The amount in the token account with this address, if the account is there,
/// holds a token account, and is not frozen.
pub open spec fn unfrozen_amount_of(accounts: Seq<AccountData>, key: Pubkey) -> Option<u64> {
    match data_of(accounts, key) {
        None => None,
        Some(data) => match token::unpacked_token_account(data) {
            None => None,
            Some(account) => if account.frozen {
                None
            } else {
                Some(account.amount)
            },
        },
    }
}

/// Finds the data of an account by its address.
pub fn try_get_account_data<'a>(accounts: &'a Vec<AccountData>, key: &Pubkey) -> (result: Result<
    &'a [u8],
    Error,
>)
    ensures
        match data_of(accounts@, *key) {
            Some(data) => result matches Ok(found) && found@ == data,
            None => result matches Err(error) && error == Error::AccountNotFound(*key),
        },
{
    let mut i: usize = 0;
    assert(accounts@.skip(0) =~= accounts@);
    while i < accounts.len()
        invariant
            i <= accounts@.len(),
            data_of(accounts@, *key) == data_of(accounts@.skip(i as int), *key),
        decreases accounts@.len() - i,
    {
        if accounts[i].key.same_as(key) {
            return Ok(accounts[i].data.as_slice());
        }
        assert(accounts@.skip(i as int).drop_first() =~= accounts@.skip(i + 1));
        i = i + 1;
    }
    Err(Error::AccountNotFound(*key))
}

/// Finds a mint by its address.
pub fn find_mint(accounts: &Vec<AccountData>, key: &Pubkey) -> (mint: Option<MintState>)
    ensures
        mint == mint_of(accounts@, *key),
{
    match try_get_account_data(accounts, key) {
        Ok(data) => token::unpack_mint(data),
        Err(_) => None,
    }
}

/// Finds the amount in a token account that is not frozen.
pub fn get_unfrozen_token_amount(accounts: &Vec<AccountData>, token_vault: &Pubkey) -> (amount:
    Option<u64>)
    ensures
        amount == unfrozen_amount_of(accounts@, *token_vault),
{
    match try_get_account_data(accounts, token_vault) {
        Ok(data) => match token::unpack_token_account(data) {
            Some(account) => if account.frozen {
                None
            } else {
                Some(account.amount)
            },
            None => None,
        },
        Err(_) => None,
    }
}

} // verus!
