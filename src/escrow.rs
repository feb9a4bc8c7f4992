use vstd::prelude::*;
use crate::address::{AccountId, found_address_of};
use crate::seeds::{
    find_team_address, find_vault_address, team_seeds, vault_derives, vault_matches, vault_seeds,
};
use crate::state::{EscrowError, Team};

verus! {

/// Moves `amount` from one balance to another; the caller has checked that
/// the source covers it and the destination can hold it.
pub fn move_lamports(from: &mut u64, to: &mut u64, amount: u64)
    requires
        *old(from) >= amount,
        *old(to) + amount <= u64::MAX,
    ensures
        *final(from) == *old(from) - amount,
        *final(to) == *old(to) + amount,
{
    *from = *from - amount;
    *to = *to + amount;
}

/// The records and addresses that `initialize_team` establishes.
#[derive(Clone, Copy, Debug)]
pub struct TeamSetup {
    pub team_address: AccountId,
    pub vault_address: AccountId,
    pub team: Team,
}

/// Whether `address` is what the derivation finds for `seeds`.
pub open spec fn found_at(seeds: Seq<Seq<u8>>, program: Seq<u8>, address: Seq<u8>) -> bool {
    match found_address_of(seeds, program) {
        Some((a, _)) => a == address,
        None => false,
    }
}

pub open spec fn initialize_team_error(
    program: AccountId,
    authority: AccountId,
    team_id: u64,
    team_address: AccountId,
    vault_address: AccountId,
) -> Option<EscrowError> {
    if !found_at(team_seeds(authority@, team_id), program@, team_address@)
        || !found_at(vault_seeds(team_address@), program@, vault_address@) {
        Some(EscrowError::AddressMismatch)
    } else {
        None
    }
}

/// Creates the team record of `authority` numbered `team_id`, after checking
/// that the supplied team and vault addresses are the derived ones; the
/// vault's capability byte is recorded in the team.
pub fn initialize_team(
    program: &AccountId,
    authority: &AccountId,
    team_id: u64,
    team_address: &AccountId,
    vault_address: &AccountId,
) -> (r: Result<TeamSetup, EscrowError>)
    ensures
        match initialize_team_error(*program, *authority, team_id, *team_address, *vault_address) {
            Some(e) => r == Err::<TeamSetup, EscrowError>(e),
            None => r matches Ok(s) && s.team.authority@ == authority@ && s.team.team_id == team_id
                && s.team_address@ == team_address@ && s.vault_address@ == vault_address@
                && found_address_of(vault_seeds(team_address@), program@) == Some(
                (vault_address@, s.team.vault_bump))
                && vault_derives(program@, team_address@, s.team.vault_bump, vault_address@),
        },
{
    let team_found = match find_team_address(program, authority, team_id) {
        Some(f) => f,
        None => return Err(EscrowError::AddressMismatch),
    };
    if !(team_found.0 == *team_address) {
        return Err(EscrowError::AddressMismatch);
    }
    let vault_found = match find_vault_address(program, team_address) {
        Some(f) => f,
        None => return Err(EscrowError::AddressMismatch),
    };
    if !(vault_found.0 == *vault_address) {
        return Err(EscrowError::AddressMismatch);
    }
    let team = Team { authority: *authority, team_id, vault_bump: vault_found.1 };
    Ok(TeamSetup { team_address: *team_address, vault_address: *vault_address, team })
}

pub open spec fn deposit_error(
    program: AccountId,
    team_address: AccountId,
    team: Team,
    vault: AccountId,
    vault_lamports: u64,
    depositor_lamports: u64,
    amount: u64,
) -> Option<EscrowError> {
    if !vault_derives(program@, team_address@, team.vault_bump, vault@) {
        Some(EscrowError::AddressMismatch)
    } else if amount == 0 {
        Some(EscrowError::InvalidAmount)
    } else if depositor_lamports < amount {
        Some(EscrowError::InsufficientFunds)
    } else if vault_lamports + amount > u64::MAX {
        Some(EscrowError::BalanceOverflow)
    } else {
        None
    }
}

/// Moves `amount` from any depositor into the team's vault.
pub fn deposit(
    program: &AccountId,
    team_address: &AccountId,
    team: &Team,
    vault: &AccountId,
    vault_lamports: &mut u64,
    depositor_lamports: &mut u64,
    amount: u64,
) -> (r: Result<(), EscrowError>)
    ensures
        match deposit_error(*program, *team_address, *team, *vault, *old(vault_lamports), *old(depositor_lamports), amount) {
            Some(e) => r == Err::<(), EscrowError>(e)
                && *final(vault_lamports) == *old(vault_lamports)
                && *final(depositor_lamports) == *old(depositor_lamports),
            None => r is Ok
                && *final(vault_lamports) == *old(vault_lamports) + amount
                && *final(depositor_lamports) == *old(depositor_lamports) - amount,
        },
{
    if !vault_matches(program, team_address, team.vault_bump, vault) {
        return Err(EscrowError::AddressMismatch);
    }
    if amount == 0 {
        return Err(EscrowError::InvalidAmount);
    }
    if *depositor_lamports < amount {
        return Err(EscrowError::InsufficientFunds);
    }
    if *vault_lamports > u64::MAX - amount {
        return Err(EscrowError::BalanceOverflow);
    }
    move_lamports(depositor_lamports, vault_lamports, amount);
    Ok(())
}

pub open spec fn payout_error(
    program: AccountId,
    signer: AccountId,
    team_address: AccountId,
    team: Team,
    vault: AccountId,
    vault_lamports: u64,
    recipient_lamports: u64,
    amount: u64,
) -> Option<EscrowError> {
    if signer@ != team.authority@ {
        Some(EscrowError::NotAuthority)
    } else if !vault_derives(program@, team_address@, team.vault_bump, vault@) {
        Some(EscrowError::AddressMismatch)
    } else if amount == 0 {
        Some(EscrowError::InvalidAmount)
    } else if vault_lamports < amount {
        Some(EscrowError::InsufficientVaultFunds)
    } else if recipient_lamports + amount > u64::MAX {
        Some(EscrowError::BalanceOverflow)
    } else {
        None
    }
}

/// The team authority pays `amount` out of the vault to any recipient,
/// signing for the vault by its re-derivation.
pub fn payout(
    program: &AccountId,
    signer: &AccountId,
    team_address: &AccountId,
    team: &Team,
    vault: &AccountId,
    vault_lamports: &mut u64,
    recipient_lamports: &mut u64,
    amount: u64,
) -> (r: Result<(), EscrowError>)
    ensures
        match payout_error(*program, *signer, *team_address, *team, *vault, *old(vault_lamports), *old(recipient_lamports), amount) {
            Some(e) => r == Err::<(), EscrowError>(e)
                && *final(vault_lamports) == *old(vault_lamports)
                && *final(recipient_lamports) == *old(recipient_lamports),
            None => r is Ok
                && *final(vault_lamports) == *old(vault_lamports) - amount
                && *final(recipient_lamports) == *old(recipient_lamports) + amount,
        },
{
    if !(*signer == team.authority) {
        return Err(EscrowError::NotAuthority);
    }
    if !vault_matches(program, team_address, team.vault_bump, vault) {
        return Err(EscrowError::AddressMismatch);
    }
    if amount == 0 {
        return Err(EscrowError::InvalidAmount);
    }
    if *vault_lamports < amount {
        return Err(EscrowError::InsufficientVaultFunds);
    }
    if *recipient_lamports > u64::MAX - amount {
        return Err(EscrowError::BalanceOverflow);
    }
    move_lamports(vault_lamports, recipient_lamports, amount);
    Ok(())
}

} // verus!
