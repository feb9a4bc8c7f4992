use vstd::prelude::*;
use crate::address::AccountId;
use crate::escrow::{deposit_error, payout_error};
use crate::seeds::vault_derives;
use crate::state::{EscrowError, Task, TaskStatus, Team};
use crate::tasks::{
    assign_task_error, assigned, completed, mark_complete_error, paid, payout_task_error,
};

verus! {

/// A deposit of a positive amount into a correctly derived vault, from a
/// depositor who holds it, is accepted (and `deposit` then moves exactly
/// that amount); a deposit of zero is refused with `InvalidAmount`.
pub proof fn lemma_deposit_accepts_positive_amounts(
    program: AccountId,
    team_address: AccountId,
    team: Team,
    vault: AccountId,
    vault_lamports: u64,
    depositor_lamports: u64,
    amount: u64,
)
    requires
        vault_derives(program@, team_address@, team.vault_bump, vault@),
        depositor_lamports >= amount,
        vault_lamports + amount <= u64::MAX,
    ensures
        amount > 0 ==> deposit_error(program, team_address, team, vault, vault_lamports, depositor_lamports, amount) is None,
        amount == 0 ==> deposit_error(program, team_address, team, vault, vault_lamports, depositor_lamports, amount)
            == Some(EscrowError::InvalidAmount),
{
}

/// A deposit of zero is never accepted, whatever the accounts.
pub proof fn lemma_zero_deposit_refused(
    program: AccountId,
    team_address: AccountId,
    team: Team,
    vault: AccountId,
    vault_lamports: u64,
    depositor_lamports: u64,
)
    ensures
        deposit_error(program, team_address, team, vault, vault_lamports, depositor_lamports, 0) is Some,
{
}

/// Neither payout path succeeds when the vault holds less than the amount
/// asked; on that refusal `payout` and `payout_task` change no balance.
pub proof fn lemma_payouts_need_funds(
    program: AccountId,
    signer: AccountId,
    team_address: AccountId,
    team: Team,
    task: Task,
    vault: AccountId,
    vault_lamports: u64,
    recipient: AccountId,
    recipient_lamports: u64,
    amount: u64,
)
    ensures
        vault_lamports < amount ==> payout_error(program, signer, team_address, team, vault, vault_lamports, recipient_lamports, amount) is Some,
        vault_lamports < task.reward_lamports ==> payout_task_error(program, signer, team_address, team, task, vault, vault_lamports, recipient, recipient_lamports) is Some,
{
}

/// Assigning succeeds only from `Open`, and from any other state it is
/// refused with `InvalidTaskState` once the caller and the team check out.
pub proof fn lemma_assign_only_from_open(signer: AccountId, team_address: AccountId, team: Team, task: Task)
    ensures
        assign_task_error(signer, team_address, team, task) is None ==> task.status == TaskStatus::Open,
        task.status != TaskStatus::Open && signer@ == team.authority@ && task.team@ == team_address@
            ==> assign_task_error(signer, team_address, team, task) == Some(EscrowError::InvalidTaskState),
{
}

/// Completing succeeds only from `Assigned`, and from any other state it is
/// refused with `InvalidTaskState` once the team checks out.
pub proof fn lemma_complete_only_from_assigned(signer: AccountId, team_address: AccountId, task: Task)
    ensures
        mark_complete_error(signer, team_address, task) is None ==> task.status == TaskStatus::Assigned,
        task.status != TaskStatus::Assigned && task.team@ == team_address@
            ==> mark_complete_error(signer, team_address, task) == Some(EscrowError::InvalidTaskState),
{
}

/// Paying a task succeeds only from `Completed`, and from any other state it
/// is refused with `InvalidTaskState` once the caller, team and vault check out.
pub proof fn lemma_payout_task_only_from_completed(
    program: AccountId,
    signer: AccountId,
    team_address: AccountId,
    team: Team,
    task: Task,
    vault: AccountId,
    vault_lamports: u64,
    recipient: AccountId,
    recipient_lamports: u64,
)
    ensures
        payout_task_error(program, signer, team_address, team, task, vault, vault_lamports, recipient, recipient_lamports) is None
            ==> task.status == TaskStatus::Completed,
        task.status != TaskStatus::Completed && signer@ == team.authority@ && task.team@ == team_address@
            && vault_derives(program@, team_address@, team.vault_bump, vault@)
            ==> payout_task_error(program, signer, team_address, team, task, vault, vault_lamports, recipient, recipient_lamports)
            == Some(EscrowError::InvalidTaskState),
{
}

/// A task's reward goes to its assignee only: any other recipient is
/// refused, with `RecipientNotAssignee` once every other guard passes.
pub proof fn lemma_payout_task_only_to_assignee(
    program: AccountId,
    signer: AccountId,
    team_address: AccountId,
    team: Team,
    task: Task,
    vault: AccountId,
    vault_lamports: u64,
    recipient: AccountId,
    recipient_lamports: u64,
)
    requires
        !task.assigned_to(recipient@),
    ensures
        payout_task_error(program, signer, team_address, team, task, vault, vault_lamports, recipient, recipient_lamports) is Some,
        signer@ == team.authority@ && task.team@ == team_address@
            && vault_derives(program@, team_address@, team.vault_bump, vault@)
            && task.status == TaskStatus::Completed && task.assignee is Some
            ==> payout_task_error(program, signer, team_address, team, task, vault, vault_lamports, recipient, recipient_lamports)
            == Some(EscrowError::RecipientNotAssignee),
{
}

/// Only the recorded assignee can complete a task: anyone else is refused,
/// with `NotAssignee` once the task is assigned and belongs to the team.
pub proof fn lemma_complete_only_by_assignee(signer: AccountId, team_address: AccountId, task: Task)
    requires
        !task.assigned_to(signer@),
    ensures
        mark_complete_error(signer, team_address, task) is Some,
        task.status == TaskStatus::Assigned && task.team@ == team_address@
            ==> mark_complete_error(signer, team_address, task) == Some(EscrowError::NotAssignee),
{
}

/// Every accepted lifecycle step moves a task exactly one state forward
/// (open, assigned, completed, paid) and changes neither its team, its
/// number, its creator nor its reward; a refused step changes nothing.
pub proof fn lemma_lifecycle_advances_one_step(
    program: AccountId,
    signer: AccountId,
    team_address: AccountId,
    team: Team,
    task: Task,
    assignee: AccountId,
    vault: AccountId,
    vault_lamports: u64,
    recipient: AccountId,
    recipient_lamports: u64,
)
    ensures
        assign_task_error(signer, team_address, team, task) is None ==> task.status.rank() == 0
            && assigned(task, assignee).status.rank() == 1,
        mark_complete_error(signer, team_address, task) is None ==> task.status.rank() == 1
            && completed(task).status.rank() == 2,
        payout_task_error(program, signer, team_address, team, task, vault, vault_lamports, recipient, recipient_lamports) is None
            ==> task.status.rank() == 2 && paid(task).status.rank() == 3,
        assigned(task, assignee).team == task.team && assigned(task, assignee).task_id == task.task_id
            && assigned(task, assignee).creator == task.creator
            && assigned(task, assignee).reward_lamports == task.reward_lamports,
        completed(task).assignee == task.assignee && completed(task).reward_lamports == task.reward_lamports
            && completed(task).team == task.team,
        paid(task).assignee == task.assignee && paid(task).reward_lamports == task.reward_lamports
            && paid(task).team == task.team,
{
}

} // verus!
