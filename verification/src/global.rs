//! Global configuration: the defaults every new curve is seeded from.

use crate::errors::ContractError;
use vstd::prelude::*;

verus! {

/// Coarse operating mode of the whole market place.
#[derive(Clone, Copy, Debug, PartialEq, Eq, Structural)]
pub enum ProgramStatus {
    /// Curves may be created and traded.
    Running,
    /// Existing curves trade, no new curves may be created.
    SwapOnly,
    /// Like `SwapOnly`, with token launches disabled as well.
    SwapOnlyNoLaunch,
    /// Nothing may happen.
    Paused,
}

/// Read-mostly configuration consumed when a curve is created.
///
/// Identities (the configuring authority and the fee receiver) are carried
/// as opaque numeric identifiers supplied by the host environment.
#[derive(Clone, Copy, Debug, PartialEq, Eq, Structural)]
pub struct Global {
    pub status: ProgramStatus,
    pub initialized: bool,
    pub global_authority: u64,
    pub migrate_fee_amount: u64,
    pub fee_receiver: u64,
    pub initial_virtual_token_reserves: u64,
    pub initial_virtual_sol_reserves: u64,
    pub initial_real_token_reserves: u64,
    pub token_total_supply: u64,
    pub mint_decimals: u8,
    pub whitelist_enabled: bool,
}

/// A partial update: every field that is `Some` overwrites the matching
/// configuration field, every `None` leaves it alone.
#[derive(Clone, Copy, Debug)]
pub struct GlobalSettingsInput {
    pub initial_virtual_token_reserves: Option<u64>,
    pub initial_virtual_sol_reserves: Option<u64>,
    pub initial_real_token_reserves: Option<u64>,
    pub token_total_supply: Option<u64>,
    pub mint_decimals: Option<u8>,
    pub migrate_fee_amount: Option<u64>,
    pub fee_receiver: Option<u64>,
    pub status: Option<ProgramStatus>,
    pub whitelist_enabled: Option<bool>,
}

impl Default for Global {
    /// A running, initialized configuration selling a supply of one
    /// hundred million six-decimal tokens, half of it tradable.
    fn default() -> (r: Global)
        ensures
            r == (Global {
                status: ProgramStatus::Running,
                initialized: true,
                global_authority: 0,
                migrate_fee_amount: 500,
                fee_receiver: 0,
                initial_virtual_token_reserves: 100_000_000_000_000,
                initial_virtual_sol_reserves: 30_000_000_000,
                initial_real_token_reserves: 50_000_000_000_000,
                token_total_supply: 100_000_000_000_000,
                mint_decimals: 6,
                whitelist_enabled: false,
            }),
    {
        Global {
            status: ProgramStatus::Running,
            initialized: true,
            global_authority: 0,
            migrate_fee_amount: 500,
            fee_receiver: 0,
            initial_virtual_token_reserves: 100_000_000_000_000,
            initial_virtual_sol_reserves: 30_000_000_000,
            initial_real_token_reserves: 50_000_000_000_000,
            token_total_supply: 100_000_000_000_000,
            mint_decimals: 6,
            whitelist_enabled: false,
        }
    }
}

impl Global {
    /// The configuration after applying a partial update.
    pub open spec fn with_settings(self, params: GlobalSettingsInput) -> Global {
        Global {
            status: if params.status is Some {
                params.status->Some_0
            } else {
                self.status
            },
            initial_virtual_token_reserves: if params.initial_virtual_token_reserves is Some {
                params.initial_virtual_token_reserves->Some_0
            } else {
                self.initial_virtual_token_reserves
            },
            initial_virtual_sol_reserves: if params.initial_virtual_sol_reserves is Some {
                params.initial_virtual_sol_reserves->Some_0
            } else {
                self.initial_virtual_sol_reserves
            },
            initial_real_token_reserves: if params.initial_real_token_reserves is Some {
                params.initial_real_token_reserves->Some_0
            } else {
                self.initial_real_token_reserves
            },
            token_total_supply: if params.token_total_supply is Some {
                params.token_total_supply->Some_0
            } else {
                self.token_total_supply
            },
            mint_decimals: if params.mint_decimals is Some {
                params.mint_decimals->Some_0
            } else {
                self.mint_decimals
            },
            migrate_fee_amount: if params.migrate_fee_amount is Some {
                params.migrate_fee_amount->Some_0
            } else {
                self.migrate_fee_amount
            },
            fee_receiver: if params.fee_receiver is Some {
                params.fee_receiver->Some_0
            } else {
                self.fee_receiver
            },
            whitelist_enabled: if params.whitelist_enabled is Some {
                params.whitelist_enabled->Some_0
            } else {
                self.whitelist_enabled
            },
            ..self
        }
    }

    /// Overwrite every configuration field for which the update carries a
    /// value; leave the rest untouched.
    pub fn update_settings(&mut self, params: GlobalSettingsInput)
        ensures
            *final(self) == old(self).with_settings(params),
    {
        if let Some(mint_decimals) = params.mint_decimals {
            self.mint_decimals = mint_decimals;
        }
        if let Some(status) = params.status {
            self.status = status;
        }
        if let Some(initial_virtual_token_reserves) = params.initial_virtual_token_reserves {
            self.initial_virtual_token_reserves = initial_virtual_token_reserves;
        }
        if let Some(initial_virtual_sol_reserves) = params.initial_virtual_sol_reserves {
            self.initial_virtual_sol_reserves = initial_virtual_sol_reserves;
        }
        if let Some(initial_real_token_reserves) = params.initial_real_token_reserves {
            self.initial_real_token_reserves = initial_real_token_reserves;
        }
        if let Some(token_total_supply) = params.token_total_supply {
            self.token_total_supply = token_total_supply;
        }
        if let Some(migrate_fee_amount) = params.migrate_fee_amount {
            self.migrate_fee_amount = migrate_fee_amount;
        }
        if let Some(fee_receiver) = params.fee_receiver {
            self.fee_receiver = fee_receiver;
        }
        if let Some(whitelist_enabled) = params.whitelist_enabled {
            self.whitelist_enabled = whitelist_enabled;
        }
    }

    /// One-time setup: apply the requested settings, record the authority
    /// and mark the configuration live.
    ///
    /// Fails on a repeated call and on a zero decimal count, and then
    /// changes nothing.
    pub fn initialize(&mut self, params: GlobalSettingsInput, authority: u64) -> (r: Result<
        (),
        ContractError,
    >)
        ensures
            r is Ok <==> !old(self).initialized && old(self).with_settings(
                params,
            ).mint_decimals > 0,
            old(self).initialized ==> r == Err::<(), ContractError>(
                ContractError::AlreadyInitialized,
            ),
            !old(self).initialized && old(self).with_settings(params).mint_decimals == 0 ==> r
                == Err::<(), ContractError>(ContractError::InvalidArgument),
            r is Ok ==> *final(self) == (Global {
                global_authority: authority,
                initialized: true,
                ..old(self).with_settings(params)
            }),
            r is Err ==> *final(self) == *old(self),
    {
        if self.initialized {
            return Err(ContractError::AlreadyInitialized);
        }
        let decimals = match params.mint_decimals {
            Some(d) => d,
            None => self.mint_decimals,
        };
        if decimals == 0 {
            return Err(ContractError::InvalidArgument);
        }
        self.update_settings(params);
        self.global_authority = authority;
        self.initialized = true;
        Ok(())
    }
}

} // verus!
