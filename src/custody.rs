//! Moving tokens out of a vault, whose authority is a derived address.

use vstd::prelude::*;
use crate::address::{Address, same_address};
use crate::error::SwapError;
use crate::state::Vault;

verus! {

/// Why a transfer of `amount` out of `vault`, under the authority `derived`,
/// is refused, if it is.
pub open spec fn vault_transfer_error(vault: Vault, amount: u64, derived: Seq<u8>) -> Option<SwapError> {
    if derived != vault.authority@ {
        Some(SwapError::UnauthorizedVaultAccess)
    } else if vault.amount < amount {
        Some(SwapError::InsufficientFunds)
    } else {
        None
    }
}

/// Moves `amount` of the vault's tokens to `destination`, provided that the
/// derived address `derived` is the vault's recorded authority. A refused
/// transfer changes no balance.
pub fn transfer_from_vault(vault: &mut Vault, destination: &mut u64, amount: u64, derived: &Address) -> (r: Result<(), SwapError>)
    requires
        *old(destination) + amount <= u64::MAX,
    ensures
        match vault_transfer_error(*old(vault), amount, derived@) {
            Some(e) => {
                &&& r == Err::<(), SwapError>(e)
                &&& *final(vault) == *old(vault)
                &&& *final(destination) == *old(destination)
            },
            None => {
                &&& r is Ok
                &&& *final(vault) == (Vault { amount: (old(vault).amount - amount) as u64, ..*old(vault) })
                &&& *final(destination) == *old(destination) + amount
            },
        },
{
    if !same_address(derived, &vault.authority) {
        return Err(SwapError::UnauthorizedVaultAccess);
    }
    if vault.amount < amount {
        return Err(SwapError::InsufficientFunds);
    }
    vault.amount = vault.amount - amount;
    *destination = *destination + amount;
    Ok(())
}

/// Closes an empty vault, handing the lamports paid for its storage to
/// `rent_recipient`.
pub fn close_vault(vault: &mut Option<Vault>, rent_recipient: &mut u64)
    requires
        *old(vault) matches Some(v) && v.amount == 0 && *old(rent_recipient) + v.lamports <= u64::MAX,
    ensures
        *final(vault) is None,
        *final(rent_recipient) == *old(rent_recipient) + (*old(vault))->0.lamports,
{
    let lamports: u64 = match vault {
        Some(v) => v.lamports,
        None => 0,
    };
    *rent_recipient = *rent_recipient + lamports;
    *vault = None;
}

} // verus!
