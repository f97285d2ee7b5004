//! Token mints and token accounts, and the fee that a mint takes on transfers.

use vstd::prelude::*;

use spl_token_2022_interface::extension::{
    transfer_fee, BaseStateWithExtensions, StateWithExtensions, StateWithExtensionsOwned,
};
use spl_token_2022_interface::state::{Account, Mint};

verus! {

/// A fee on transfers, from an epoch on.
#[derive(Clone, Copy, Debug, PartialEq, Eq, Structural)]
pub struct TransferFee {
    pub epoch: u64,
    /// The most that one transfer pays.
    pub maximum_fee: u64,
    /// The fee as a share of the amount, in ten-thousandths.
    pub transfer_fee_basis_points: u16,
}

/// The fees on transfers of a mint.
#[derive(Clone, Copy, Debug, PartialEq, Eq, Structural)]
pub struct TransferFeeConfig {
    /// The fee before the epoch of the newer one.
    pub older_transfer_fee: TransferFee,
    pub newer_transfer_fee: TransferFee,
}

/// What a swap reads of a mint.
#[derive(Clone, Copy, Debug, PartialEq, Eq, Structural)]
pub struct MintState {
    pub transfer_fee_config: Option<TransferFeeConfig>,
}

/// What a swap reads of a token account.
#[derive(Clone, Copy, Debug, PartialEq, Eq, Structural)]
pub struct TokenAccount {
    pub amount: u64,
    pub frozen: bool,
}

impl TransferFee {
    /// The fee on an amount: its share, rounded up, but no more than the
    /// maximum. There is none if the share is not a token amount.
    pub open spec fn on(self, amount: u64) -> Option<u64> {
        let share = (amount * self.transfer_fee_basis_points + 9_999) / 10_000;
        if amount == 0 || self.transfer_fee_basis_points == 0 {
            Some(0)
        } else if share > u64::MAX {
            None
        } else if share <= self.maximum_fee {
            Some(share as u64)
        } else {
            Some(self.maximum_fee)
        }
    }
}

impl TransferFeeConfig {
    /// The fee that counts in an epoch.
    pub open spec fn in_epoch(self, epoch: u64) -> TransferFee {
        if epoch >= self.newer_transfer_fee.epoch {
            self.newer_transfer_fee
        } else {
            self.older_transfer_fee
        }
    }

    /// `TransferFeeConfig::calculate_epoch_fee` of the token interface: the fee
    /// of the epoch, on the amount.
    #[verifier::external_body]
    fn calculate_epoch_fee(&self, epoch: u64, amount: u64) -> (fee: Option<u64>)
        ensures
            fee == self.in_epoch(epoch).on(amount),
    {
        let config = transfer_fee::TransferFeeConfig {
            older_transfer_fee: transfer_fee::TransferFee {
                epoch: self.older_transfer_fee.epoch.into(),
                maximum_fee: self.older_transfer_fee.maximum_fee.into(),
                transfer_fee_basis_points: self.older_transfer_fee.transfer_fee_basis_points.into(),
            },
            newer_transfer_fee: transfer_fee::TransferFee {
                epoch: self.newer_transfer_fee.epoch.into(),
                maximum_fee: self.newer_transfer_fee.maximum_fee.into(),
                transfer_fee_basis_points: self.newer_transfer_fee.transfer_fee_basis_points.into(),
            },
            ..Default::default()
        };
        config.calculate_epoch_fee(epoch, amount)
    }
}

/// What is left of an amount after a transfer of a mint with this configuration.
/// A fee larger than the amount leaves nothing.
pub open spec fn amount_after_transfer(
    config: Option<TransferFeeConfig>,
    epoch: u64,
    amount: u64,
) -> Option<u64> {
    match config {
        None => Some(amount),
        Some(config) => match config.in_epoch(epoch).on(amount) {
            None => None,
            Some(fee) => Some(if fee <= amount {
                (amount - fee) as u64
            } else {
                0
            }),
        },
    }
}

/// Takes the fee of a transfer off an amount.
pub fn deduct_transfer_fee(config: &Option<TransferFeeConfig>, epoch: u64, amount: u64) -> (result:
    Option<u64>)
    ensures
        result == amount_after_transfer(*config, epoch, amount),
{
    match config {
        None => Some(amount),
        Some(config) => match config.calculate_epoch_fee(epoch, amount) {
            None => None,
            Some(fee) => Some(amount.saturating_sub(fee)),
        },
    }
}

/// The mint that account data hold, if they do: what
/// `StateWithExtensionsOwned::<Mint>::unpack` makes of the data, and the
/// `TransferFeeConfig` that `get_extension` finds there.
pub uninterp spec fn unpacked_mint(data: Seq<u8>) -> Option<MintState>;

/// `StateWithExtensionsOwned::<Mint>::unpack` of the token interface, and on
/// its result `get_extension::<TransferFeeConfig>`. What they make of the data
/// is a function of the data alone.
#[verifier::external_body]
pub(crate) fn unpack_mint(data: &[u8]) -> (mint: Option<MintState>)
    ensures
        mint == unpacked_mint(data@),
{
    let mint = StateWithExtensionsOwned::<Mint>::unpack(data.to_vec()).ok()?;
    let config = mint.get_extension::<transfer_fee::TransferFeeConfig>().ok();
    let transfer_fee_config = config.map(|config| TransferFeeConfig {
        older_transfer_fee: TransferFee {
            epoch: config.older_transfer_fee.epoch.into(),
            maximum_fee: config.older_transfer_fee.maximum_fee.into(),
            transfer_fee_basis_points: config.older_transfer_fee.transfer_fee_basis_points.into(),
        },
        newer_transfer_fee: TransferFee {
            epoch: config.newer_transfer_fee.epoch.into(),
            maximum_fee: config.newer_transfer_fee.maximum_fee.into(),
            transfer_fee_basis_points: config.newer_transfer_fee.transfer_fee_basis_points.into(),
        },
    });
    Some(MintState { transfer_fee_config })
}

/// The token account that account data hold, if they do: what
/// `StateWithExtensions::<Account>::unpack` makes of the data.
pub uninterp spec fn unpacked_token_account(data: Seq<u8>) -> Option<TokenAccount>;

/// `StateWithExtensions::<Account>::unpack` of the token interface. What it
/// makes of the data is a function of the data alone.
#[verifier::external_body]
pub(crate) fn unpack_token_account(data: &[u8]) -> (account: Option<TokenAccount>)
    ensures
        account == unpacked_token_account(data@),
{
    let account = StateWithExtensions::<Account>::unpack(data).ok()?;
    Some(TokenAccount { amount: account.base.amount, frozen: account.base.is_frozen() })
}

} // verus!
