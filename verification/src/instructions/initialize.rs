//! Setting up the treasury.

use vstd::prelude::*;
use crate::error::Stake2WakeError;
use crate::pubkey::Pubkey;
use crate::state::{Account, Treasury};

verus! {

/// The accounts of the treasury's set-up.
#[derive(Debug, Clone, Copy, PartialEq, Eq)]
pub struct Initialize {
    /// the authority who initiates the process
    pub authority: Pubkey,
    /// the account that holds the treasury's data
    pub treasury: Account<Treasury>,
    /// the mint of the staked token
    pub bonk_mint: Pubkey,
    /// token account of the treasury
    pub treasury_ata: Pubkey,
}

/// Bump seeds of the program addresses that the set-up creates.
#[derive(Debug, Clone, Copy, PartialEq, Eq)]
pub struct InitializeBumps {
    pub treasury: u8,
}

impl Initialize {
    /// Sets up the treasury for the signing authority, which must be `admin`:
    /// it records the authority, the mint, the treasury's token account and
    /// bump, and an empty total. Any other signer is refused with nothing
    /// changed.
    pub fn initialize_treasury(&mut self, admin: &Pubkey, bumps: &InitializeBumps) -> (r: Result<
        (),
        Stake2WakeError,
    >)
        ensures
            r is Ok <==> old(self).authority@ == admin@,
            r is Err ==> r == Err::<(), Stake2WakeError>(Stake2WakeError::Unauthorized) && *final(self) == *old(self),
            r is Ok ==> *final(self) == (Initialize {
                treasury: Account {
                    key: old(self).treasury.key,
                    data: Treasury {
                        authority: old(self).authority,
                        bonk_mint: old(self).bonk_mint,
                        treasury_ata: old(self).treasury_ata,
                        bump: bumps.treasury,
                        total_collected: 0,
                    },
                },
                ..*old(self)
            }),
    {
        if self.authority != *admin {
            return Err(Stake2WakeError::Unauthorized);
        }
        self.treasury.data = Treasury {
            authority: self.authority,
            bonk_mint: self.bonk_mint,
            treasury_ata: self.treasury_ata,
            bump: bumps.treasury,
            total_collected: 0,
        };
        Ok(())
    }
}

} // verus!
