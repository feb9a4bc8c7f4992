use vstd::prelude::*;
use crate::address::AccountId;
use crate::escrow::{found_at, move_lamports};
use crate::seeds::{find_task_address, task_seeds, vault_derives, vault_matches};
use crate::state::{EscrowError, Task, TaskStatus, Team};

verus! {

pub open spec fn create_task_error(
    program: AccountId,
    signer: AccountId,
    team_address: AccountId,
    team: Team,
    task_address: AccountId,
    task_id: u64,
    reward: u64,
) -> Option<EscrowError> {
    if signer@ != team.authority@ {
        Some(EscrowError::NotAuthority)
    } else if !found_at(task_seeds(team_address@, task_id), program@, task_address@) {
        Some(EscrowError::AddressMismatch)
    } else if reward == 0 {
        Some(EscrowError::InvalidAmount)
    } else {
        None
    }
}

/// The team authority creates an open, unassigned task with a fixed reward,
/// at the address derived from the team and `task_id`.
pub fn create_task(
    program: &AccountId,
    signer: &AccountId,
    team_address: &AccountId,
    team: &Team,
    task_address: &AccountId,
    task_id: u64,
    reward_lamports: u64,
) -> (r: Result<Task, EscrowError>)
    ensures
        match create_task_error(*program, *signer, *team_address, *team, *task_address, task_id, reward_lamports) {
            Some(e) => r == Err::<Task, EscrowError>(e),
            None => r matches Ok(t) && t.team@ == team_address@ && t.task_id == task_id
                && t.creator@ == signer@ && t.assignee is None
                && t.reward_lamports == reward_lamports && t.status == TaskStatus::Open,
        },
{
    if !(*signer == team.authority) {
        return Err(EscrowError::NotAuthority);
    }
    let found = match find_task_address(program, team_address, task_id) {
        Some(f) => f,
        None => return Err(EscrowError::AddressMismatch),
    };
    if !(found.0 == *task_address) {
        return Err(EscrowError::AddressMismatch);
    }
    if reward_lamports == 0 {
        return Err(EscrowError::InvalidAmount);
    }
    Ok(Task {
        team: *team_address,
        task_id,
        creator: *signer,
        assignee: None,
        reward_lamports,
        status: TaskStatus::Open,
    })
}

pub open spec fn assign_task_error(signer: AccountId, team_address: AccountId, team: Team, task: Task) -> Option<EscrowError> {
    if signer@ != team.authority@ {
        Some(EscrowError::NotAuthority)
    } else if task.team@ != team_address@ {
        Some(EscrowError::TaskTeamMismatch)
    } else if task.status != TaskStatus::Open {
        Some(EscrowError::InvalidTaskState)
    } else {
        None
    }
}

/// The task once handed to `assignee`.
pub open spec fn assigned(task: Task, assignee: AccountId) -> Task {
    Task { assignee: Some(assignee), status: TaskStatus::Assigned, ..task }
}

/// The team authority hands an open task to `assignee`.
pub fn assign_task(
    signer: &AccountId,
    team_address: &AccountId,
    team: &Team,
    task: &mut Task,
    assignee: &AccountId,
) -> (r: Result<(), EscrowError>)
    ensures
        match assign_task_error(*signer, *team_address, *team, *old(task)) {
            Some(e) => r == Err::<(), EscrowError>(e) && *final(task) == *old(task),
            None => r is Ok && *final(task) == assigned(*old(task), *assignee),
        },
{
    if !(*signer == team.authority) {
        return Err(EscrowError::NotAuthority);
    }
    if !(task.team == *team_address) {
        return Err(EscrowError::TaskTeamMismatch);
    }
    if task.status != TaskStatus::Open {
        return Err(EscrowError::InvalidTaskState);
    }
    task.assignee = Some(*assignee);
    task.status = TaskStatus::Assigned;
    Ok(())
}

pub open spec fn mark_complete_error(signer: AccountId, team_address: AccountId, task: Task) -> Option<EscrowError> {
    if task.team@ != team_address@ {
        Some(EscrowError::TaskTeamMismatch)
    } else if task.status != TaskStatus::Assigned {
        Some(EscrowError::InvalidTaskState)
    } else if !task.assigned_to(signer@) {
        Some(EscrowError::NotAssignee)
    } else {
        None
    }
}

/// The task once reported done.
pub open spec fn completed(task: Task) -> Task {
    Task { status: TaskStatus::Completed, ..task }
}

/// The assignee reports an assigned task as done.
pub fn mark_complete(signer: &AccountId, team_address: &AccountId, task: &mut Task) -> (r: Result<(), EscrowError>)
    ensures
        match mark_complete_error(*signer, *team_address, *old(task)) {
            Some(e) => r == Err::<(), EscrowError>(e) && *final(task) == *old(task),
            None => r is Ok && *final(task) == completed(*old(task)),
        },
{
    if !(task.team == *team_address) {
        return Err(EscrowError::TaskTeamMismatch);
    }
    if task.status != TaskStatus::Assigned {
        return Err(EscrowError::InvalidTaskState);
    }
    let is_assignee = match &task.assignee {
        Some(a) => *a == *signer,
        None => false,
    };
    if !is_assignee {
        return Err(EscrowError::NotAssignee);
    }
    task.status = TaskStatus::Completed;
    Ok(())
}

pub open spec fn payout_task_error(
    program: AccountId,
    signer: AccountId,
    team_address: AccountId,
    team: Team,
    task: Task,
    vault: AccountId,
    vault_lamports: u64,
    recipient: AccountId,
    recipient_lamports: u64,
) -> Option<EscrowError> {
    if signer@ != team.authority@ {
        Some(EscrowError::NotAuthority)
    } else if task.team@ != team_address@ {
        Some(EscrowError::TaskTeamMismatch)
    } else if !vault_derives(program@, team_address@, team.vault_bump, vault@) {
        Some(EscrowError::AddressMismatch)
    } else if task.status != TaskStatus::Completed {
        Some(EscrowError::InvalidTaskState)
    } else if task.assignee is None {
        Some(EscrowError::NoAssignee)
    } else if !task.assigned_to(recipient@) {
        Some(EscrowError::RecipientNotAssignee)
    } else if vault_lamports < task.reward_lamports {
        Some(EscrowError::InsufficientVaultFunds)
    } else if recipient_lamports + task.reward_lamports > u64::MAX {
        Some(EscrowError::BalanceOverflow)
    } else {
        None
    }
}

/// The task once its reward is paid.
pub open spec fn paid(task: Task) -> Task {
    Task { status: TaskStatus::Paid, ..task }
}

/// The team authority pays a completed task's reward from the vault to its
/// assignee, and the task becomes paid.
pub fn payout_task(
    program: &AccountId,
    signer: &AccountId,
    team_address: &AccountId,
    team: &Team,
    task: &mut Task,
    vault: &AccountId,
    vault_lamports: &mut u64,
    recipient: &AccountId,
    recipient_lamports: &mut u64,
) -> (r: Result<(), EscrowError>)
    ensures
        match payout_task_error(*program, *signer, *team_address, *team, *old(task), *vault, *old(vault_lamports), *recipient, *old(recipient_lamports)) {
            Some(e) => r == Err::<(), EscrowError>(e)
                && *final(task) == *old(task)
                && *final(vault_lamports) == *old(vault_lamports)
                && *final(recipient_lamports) == *old(recipient_lamports),
            None => r is Ok
                && *final(task) == paid(*old(task))
                && *final(vault_lamports) == *old(vault_lamports) - old(task).reward_lamports
                && *final(recipient_lamports) == *old(recipient_lamports) + old(task).reward_lamports,
        },
{
    if !(*signer == team.authority) {
        return Err(EscrowError::NotAuthority);
    }
    if !(task.team == *team_address) {
        return Err(EscrowError::TaskTeamMismatch);
    }
    if !vault_matches(program, team_address, team.vault_bump, vault) {
        return Err(EscrowError::AddressMismatch);
    }
    if task.status != TaskStatus::Completed {
        return Err(EscrowError::InvalidTaskState);
    }
    let assignee = match task.assignee {
        Some(a) => a,
        None => return Err(EscrowError::NoAssignee),
    };
    if !(assignee == *recipient) {
        return Err(EscrowError::RecipientNotAssignee);
    }
    let amount = task.reward_lamports;
    if *vault_lamports < amount {
        return Err(EscrowError::InsufficientVaultFunds);
    }
    if *recipient_lamports > u64::MAX - amount {
        return Err(EscrowError::BalanceOverflow);
    }
    move_lamports(vault_lamports, recipient_lamports, amount);
    task.status = TaskStatus::Paid;
    Ok(())
}

} // verus!
