//! Paying out collected penalties to the treasury's authority.

use vstd::prelude::*;
use crate::error::Stake2WakeError;
use crate::pubkey::Pubkey;
use crate::state::{Account, Mint, TokenAccountRole, TokenTransfer, TransferAuthority, Treasury};

verus! {

/// The accounts of a treasury withdrawal.
#[derive(Debug, Clone, Copy, PartialEq, Eq)]
pub struct Withdraw {
    /// the treasury's authority, who signs
    pub authority: Pubkey,
    /// the authority's token account
    pub authority_ata: Pubkey,
    /// the treasury
    pub treasury: Account<Treasury>,
    /// token account of the treasury
    pub treasury_ata: Pubkey,
    /// the mint of the staked token
    pub bonk_mint: Account<Mint>,
}

/// Why a withdrawal of `amount` by `w.authority` is refused, given the
/// treasury authority `admin`, if it is.
pub open spec fn withdraw_refusal(w: Withdraw, admin: Seq<u8>, amount: u64) -> Option<Stake2WakeError> {
    if w.authority@ != admin {
        Some(Stake2WakeError::Unauthorized)
    } else if w.treasury.data.total_collected < amount {
        Some(Stake2WakeError::InsufficientFunds)
    } else {
        None
    }
}

impl Withdraw {
    /// Pays `amount` out of the treasury to its authority, who must be
    /// `admin`, and only up to what the treasury has collected: the treasury's
    /// total drops by `amount`, and the tokens move from the treasury's
    /// account to the authority's, with the mint's decimals. A refused
    /// withdrawal changes nothing.
    pub fn withdraw(&mut self, admin: &Pubkey, amount: u64) -> (r: Result<TokenTransfer, Stake2WakeError>)
        ensures
            match withdraw_refusal(*old(self), admin@, amount) {
                Some(e) => r == Err::<TokenTransfer, Stake2WakeError>(e) && *final(self) == *old(self),
                None => {
                    &&& r == Ok::<TokenTransfer, Stake2WakeError>(
                        TokenTransfer {
                            from: TokenAccountRole::TreasuryAta,
                            to: TokenAccountRole::AuthorityAta,
                            authority: TransferAuthority::Treasury,
                            amount,
                            decimals: old(self).bonk_mint.data.decimals,
                        },
                    )
                    &&& *final(self) == (Withdraw {
                        treasury: Account {
                            key: old(self).treasury.key,
                            data: Treasury {
                                total_collected: (old(self).treasury.data.total_collected
                                    - amount) as u64,
                                ..old(self).treasury.data
                            },
                        },
                        ..*old(self)
                    })
                },
            },
    {
        if self.authority != *admin {
            return Err(Stake2WakeError::Unauthorized);
        }
        if !(self.treasury.data.total_collected >= amount) {
            return Err(Stake2WakeError::InsufficientFunds);
        }

        let decimals = self.bonk_mint.data.decimals;
        let transfer = TokenTransfer {
            from: TokenAccountRole::TreasuryAta,
            to: TokenAccountRole::AuthorityAta,
            authority: TransferAuthority::Treasury,
            amount,
            decimals,
        };

        self.treasury.data.total_collected = self.treasury.data.total_collected.saturating_sub(amount);
        Ok(transfer)
    }
}

} // verus!
