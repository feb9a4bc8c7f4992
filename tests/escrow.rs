use taskfi_escrow::address::AccountId;
use taskfi_escrow::escrow::{deposit, initialize_team, move_lamports, payout, TeamSetup};
use taskfi_escrow::seeds::{find_task_address, find_team_address, find_vault_address, vault_matches};
use taskfi_escrow::state::{EscrowError, Task, TaskStatus, Team};
use taskfi_escrow::tasks::{assign_task, create_task, mark_complete, payout_task};

fn id(b: u8) -> AccountId {
    AccountId { bytes: [b; 32] }
}

fn program() -> AccountId {
    id(7)
}

fn authority() -> AccountId {
    id(1)
}

fn setup_team(team_id: u64) -> TeamSetup {
    let (team_address, _) = find_team_address(&program(), &authority(), team_id).unwrap();
    let (vault_address, _) = find_vault_address(&program(), &team_address).unwrap();
    initialize_team(&program(), &authority(), team_id, &team_address, &vault_address).unwrap()
}

fn new_task(s: &TeamSetup, task_id: u64, reward: u64) -> Task {
    let (task_address, _) = find_task_address(&program(), &s.team_address, task_id).unwrap();
    create_task(&program(), &authority(), &s.team_address, &s.team, &task_address, task_id, reward).unwrap()
}

fn completed_task(s: &TeamSetup, assignee: &AccountId, reward: u64) -> Task {
    let mut task = new_task(s, 1, reward);
    assign_task(&authority(), &s.team_address, &s.team, &mut task, assignee).unwrap();
    mark_complete(assignee, &s.team_address, &mut task).unwrap();
    task
}

#[test]
fn end_to_end_task_payout() {
    let s = setup_team(1);
    let a = id(42);
    let mut vault_balance: u64 = 0;
    let mut depositor_balance: u64 = 5000;
    let mut a_balance: u64 = 10;
    deposit(&program(), &s.team_address, &s.team, &s.vault_address, &mut vault_balance, &mut depositor_balance, 1000).unwrap();
    assert_eq!(vault_balance, 1000);
    let mut task = new_task(&s, 1, 400);
    assert_eq!(task.status, TaskStatus::Open);
    assign_task(&authority(), &s.team_address, &s.team, &mut task, &a).unwrap();
    assert_eq!(task.status, TaskStatus::Assigned);
    mark_complete(&a, &s.team_address, &mut task).unwrap();
    assert_eq!(task.status, TaskStatus::Completed);
    payout_task(&program(), &authority(), &s.team_address, &s.team, &mut task, &s.vault_address, &mut vault_balance, &a, &mut a_balance).unwrap();
    assert_eq!(vault_balance, 600);
    assert_eq!(task.status, TaskStatus::Paid);
    assert_eq!(a_balance, 410);
    let again = payout_task(&program(), &authority(), &s.team_address, &s.team, &mut task, &s.vault_address, &mut vault_balance, &a, &mut a_balance);
    assert_eq!(again, Err(EscrowError::InvalidTaskState));
    assert_eq!(vault_balance, 600);
    assert_eq!(a_balance, 410);
}

#[test]
fn initialize_team_records_authority_and_vault_byte() {
    let s = setup_team(9);
    assert_eq!(s.team.authority, authority());
    assert_eq!(s.team.team_id, 9);
    let (_, bump) = find_vault_address(&program(), &s.team_address).unwrap();
    assert_eq!(s.team.vault_bump, bump);
    assert!(vault_matches(&program(), &s.team_address, s.team.vault_bump, &s.vault_address));
}

#[test]
fn initialize_team_refuses_wrong_addresses() {
    let (team_address, _) = find_team_address(&program(), &authority(), 1).unwrap();
    let (vault_address, _) = find_vault_address(&program(), &team_address).unwrap();
    let r = initialize_team(&program(), &authority(), 2, &team_address, &vault_address);
    assert_eq!(r.err(), Some(EscrowError::AddressMismatch));
    let r = initialize_team(&program(), &authority(), 1, &team_address, &team_address);
    assert_eq!(r.err(), Some(EscrowError::AddressMismatch));
}

#[test]
fn derived_addresses_differ_by_input() {
    let (t1, _) = find_team_address(&program(), &authority(), 1).unwrap();
    let (t2, _) = find_team_address(&program(), &authority(), 2).unwrap();
    let (t1_again, _) = find_team_address(&program(), &authority(), 1).unwrap();
    assert_ne!(t1, t2);
    assert_eq!(t1, t1_again);
    assert_ne!(t1, authority());
    let (v1, _) = find_vault_address(&program(), &t1).unwrap();
    assert_ne!(v1, t1);
    let (k1, _) = find_task_address(&program(), &t1, 1).unwrap();
    assert_ne!(k1, t1);
}

#[test]
fn vault_matches_refuses_other_byte_or_address() {
    let s = setup_team(1);
    assert!(!vault_matches(&program(), &s.team_address, s.team.vault_bump, &s.team_address));
    let other = s.team.vault_bump.wrapping_sub(1);
    assert!(!vault_matches(&program(), &s.team_address, other, &s.vault_address));
}

#[test]
fn deposit_moves_exact_amount() {
    let s = setup_team(1);
    let mut vault_balance: u64 = 250;
    let mut depositor_balance: u64 = 1000;
    let r = deposit(&program(), &s.team_address, &s.team, &s.vault_address, &mut vault_balance, &mut depositor_balance, 300);
    assert_eq!(r, Ok(()));
    assert_eq!(vault_balance, 550);
    assert_eq!(depositor_balance, 700);
}

#[test]
fn deposit_zero_rejected() {
    let s = setup_team(1);
    let mut vault_balance: u64 = 100;
    let mut depositor_balance: u64 = 1000;
    let task = new_task(&s, 1, 50);
    let r = deposit(&program(), &s.team_address, &s.team, &s.vault_address, &mut vault_balance, &mut depositor_balance, 0);
    assert_eq!(r, Err(EscrowError::InvalidAmount));
    assert_eq!(vault_balance, 100);
    assert_eq!(depositor_balance, 1000);
    assert_eq!(task.status, TaskStatus::Open);
    assert_eq!(s.team.team_id, 1);
}

#[test]
fn deposit_by_other_depositor_and_errors() {
    let s = setup_team(1);
    let mut vault_balance: u64 = 0;
    let mut depositor_balance: u64 = 10;
    let r = deposit(&program(), &s.team_address, &s.team, &s.vault_address, &mut vault_balance, &mut depositor_balance, 11);
    assert_eq!(r, Err(EscrowError::InsufficientFunds));
    let r = deposit(&program(), &s.team_address, &s.team, &s.team_address, &mut vault_balance, &mut depositor_balance, 5);
    assert_eq!(r, Err(EscrowError::AddressMismatch));
    let mut full: u64 = u64::MAX;
    let r = deposit(&program(), &s.team_address, &s.team, &s.vault_address, &mut full, &mut depositor_balance, 1);
    assert_eq!(r, Err(EscrowError::BalanceOverflow));
    assert_eq!(full, u64::MAX);
    assert_eq!(depositor_balance, 10);
}

#[test]
fn payout_by_authority() {
    let s = setup_team(1);
    let mut vault_balance: u64 = 1000;
    let mut recipient_balance: u64 = 5;
    let r = payout(&program(), &authority(), &s.team_address, &s.team, &s.vault_address, &mut vault_balance, &mut recipient_balance, 300);
    assert_eq!(r, Ok(()));
    assert_eq!(vault_balance, 700);
    assert_eq!(recipient_balance, 305);
}

#[test]
fn payout_insufficient_funds_leaves_balances() {
    let s = setup_team(1);
    let mut vault_balance: u64 = 100;
    let mut recipient_balance: u64 = 5;
    let r = payout(&program(), &authority(), &s.team_address, &s.team, &s.vault_address, &mut vault_balance, &mut recipient_balance, 101);
    assert_eq!(r, Err(EscrowError::InsufficientVaultFunds));
    assert_eq!(vault_balance, 100);
    assert_eq!(recipient_balance, 5);
}

#[test]
fn payout_refusals() {
    let s = setup_team(1);
    let mut vault_balance: u64 = 100;
    let mut recipient_balance: u64 = 5;
    let r = payout(&program(), &id(3), &s.team_address, &s.team, &s.vault_address, &mut vault_balance, &mut recipient_balance, 10);
    assert_eq!(r, Err(EscrowError::NotAuthority));
    let r = payout(&program(), &authority(), &s.team_address, &s.team, &s.vault_address, &mut vault_balance, &mut recipient_balance, 0);
    assert_eq!(r, Err(EscrowError::InvalidAmount));
    let r = payout(&program(), &authority(), &s.team_address, &s.team, &id(9), &mut vault_balance, &mut recipient_balance, 10);
    assert_eq!(r, Err(EscrowError::AddressMismatch));
    let mut full: u64 = u64::MAX;
    let r = payout(&program(), &authority(), &s.team_address, &s.team, &s.vault_address, &mut vault_balance, &mut full, 10);
    assert_eq!(r, Err(EscrowError::BalanceOverflow));
    assert_eq!(vault_balance, 100);
    assert_eq!(recipient_balance, 5);
}

#[test]
fn payout_bypasses_task_lifecycle() {
    // The authority can drain the vault directly while a task is still unpaid.
    let s = setup_team(1);
    let a = id(42);
    let mut task = completed_task(&s, &a, 400);
    let mut vault_balance: u64 = 400;
    let mut other_balance: u64 = 0;
    let mut a_balance: u64 = 0;
    payout(&program(), &authority(), &s.team_address, &s.team, &s.vault_address, &mut vault_balance, &mut other_balance, 400).unwrap();
    let r = payout_task(&program(), &authority(), &s.team_address, &s.team, &mut task, &s.vault_address, &mut vault_balance, &a, &mut a_balance);
    assert_eq!(r, Err(EscrowError::InsufficientVaultFunds));
    assert_eq!(task.status, TaskStatus::Completed);
    assert_eq!(a_balance, 0);
}

#[test]
fn payout_task_insufficient_funds_leaves_state() {
    let s = setup_team(1);
    let a = id(42);
    let mut task = completed_task(&s, &a, 400);
    let mut vault_balance: u64 = 399;
    let mut a_balance: u64 = 0;
    let r = payout_task(&program(), &authority(), &s.team_address, &s.team, &mut task, &s.vault_address, &mut vault_balance, &a, &mut a_balance);
    assert_eq!(r, Err(EscrowError::InsufficientVaultFunds));
    assert_eq!(vault_balance, 399);
    assert_eq!(a_balance, 0);
    assert_eq!(task.status, TaskStatus::Completed);
}

#[test]
fn payout_task_wrong_recipient() {
    let s = setup_team(1);
    let a = id(42);
    let b = id(43);
    let mut task = completed_task(&s, &a, 400);
    let mut vault_balance: u64 = 1000;
    let mut b_balance: u64 = 0;
    let r = payout_task(&program(), &authority(), &s.team_address, &s.team, &mut task, &s.vault_address, &mut vault_balance, &b, &mut b_balance);
    assert_eq!(r, Err(EscrowError::RecipientNotAssignee));
    assert_eq!(vault_balance, 1000);
    assert_eq!(b_balance, 0);
    assert_eq!(task.status, TaskStatus::Completed);
}

#[test]
fn payout_task_refusals() {
    let s = setup_team(1);
    let a = id(42);
    let mut vault_balance: u64 = 1000;
    let mut a_balance: u64 = 0;
    let mut task = completed_task(&s, &a, 400);
    let r = payout_task(&program(), &a, &s.team_address, &s.team, &mut task, &s.vault_address, &mut vault_balance, &a, &mut a_balance);
    assert_eq!(r, Err(EscrowError::NotAuthority));
    let r = payout_task(&program(), &authority(), &s.team_address, &s.team, &mut task, &id(8), &mut vault_balance, &a, &mut a_balance);
    assert_eq!(r, Err(EscrowError::AddressMismatch));
    let other = setup_team(2);
    let r = payout_task(&program(), &authority(), &other.team_address, &other.team, &mut task, &other.vault_address, &mut vault_balance, &a, &mut a_balance);
    assert_eq!(r, Err(EscrowError::TaskTeamMismatch));
    let mut unassigned = Task { assignee: None, status: TaskStatus::Completed, ..task };
    let r = payout_task(&program(), &authority(), &s.team_address, &s.team, &mut unassigned, &s.vault_address, &mut vault_balance, &a, &mut a_balance);
    assert_eq!(r, Err(EscrowError::NoAssignee));
    let mut full: u64 = u64::MAX;
    let r = payout_task(&program(), &authority(), &s.team_address, &s.team, &mut task, &s.vault_address, &mut vault_balance, &a, &mut full);
    assert_eq!(r, Err(EscrowError::BalanceOverflow));
    assert_eq!(vault_balance, 1000);
    assert_eq!(task.status, TaskStatus::Completed);
}

#[test]
fn transitions_from_wrong_state_refused() {
    let s = setup_team(1);
    let a = id(42);
    let mut vault_balance: u64 = 1000;
    let mut a_balance: u64 = 0;
    let mut task = new_task(&s, 1, 400);
    // Open: completing and paying are refused.
    assert_eq!(mark_complete(&a, &s.team_address, &mut task), Err(EscrowError::InvalidTaskState));
    let r = payout_task(&program(), &authority(), &s.team_address, &s.team, &mut task, &s.vault_address, &mut vault_balance, &a, &mut a_balance);
    assert_eq!(r, Err(EscrowError::InvalidTaskState));
    assert_eq!(task.status, TaskStatus::Open);
    // Assigned: assigning again and paying are refused.
    assign_task(&authority(), &s.team_address, &s.team, &mut task, &a).unwrap();
    assert_eq!(assign_task(&authority(), &s.team_address, &s.team, &mut task, &id(43)), Err(EscrowError::InvalidTaskState));
    assert_eq!(task.assignee, Some(a));
    let r = payout_task(&program(), &authority(), &s.team_address, &s.team, &mut task, &s.vault_address, &mut vault_balance, &a, &mut a_balance);
    assert_eq!(r, Err(EscrowError::InvalidTaskState));
    assert_eq!(task.status, TaskStatus::Assigned);
    // Completed: assigning and completing again are refused.
    mark_complete(&a, &s.team_address, &mut task).unwrap();
    assert_eq!(assign_task(&authority(), &s.team_address, &s.team, &mut task, &a), Err(EscrowError::InvalidTaskState));
    assert_eq!(mark_complete(&a, &s.team_address, &mut task), Err(EscrowError::InvalidTaskState));
    assert_eq!(task.status, TaskStatus::Completed);
    // Paid: nothing further.
    payout_task(&program(), &authority(), &s.team_address, &s.team, &mut task, &s.vault_address, &mut vault_balance, &a, &mut a_balance).unwrap();
    assert_eq!(assign_task(&authority(), &s.team_address, &s.team, &mut task, &a), Err(EscrowError::InvalidTaskState));
    assert_eq!(mark_complete(&a, &s.team_address, &mut task), Err(EscrowError::InvalidTaskState));
    assert_eq!(task.status, TaskStatus::Paid);
    assert_eq!(vault_balance, 600);
    assert_eq!(a_balance, 400);
}

#[test]
fn mark_complete_wrong_signer() {
    let s = setup_team(1);
    let a = id(42);
    let mut task = new_task(&s, 1, 400);
    assign_task(&authority(), &s.team_address, &s.team, &mut task, &a).unwrap();
    assert_eq!(mark_complete(&id(43), &s.team_address, &mut task), Err(EscrowError::NotAssignee));
    assert_eq!(mark_complete(&authority(), &s.team_address, &mut task), Err(EscrowError::NotAssignee));
    assert_eq!(task.status, TaskStatus::Assigned);
    let other = setup_team(2);
    assert_eq!(mark_complete(&a, &other.team_address, &mut task), Err(EscrowError::TaskTeamMismatch));
}

#[test]
fn create_and_assign_refusals() {
    let s = setup_team(1);
    let (task_address, _) = find_task_address(&program(), &s.team_address, 5).unwrap();
    let r = create_task(&program(), &authority(), &s.team_address, &s.team, &task_address, 5, 0);
    assert_eq!(r.err(), Some(EscrowError::InvalidAmount));
    let r = create_task(&program(), &id(3), &s.team_address, &s.team, &task_address, 5, 10);
    assert_eq!(r.err(), Some(EscrowError::NotAuthority));
    let r = create_task(&program(), &authority(), &s.team_address, &s.team, &task_address, 6, 10);
    assert_eq!(r.err(), Some(EscrowError::AddressMismatch));
    let task = create_task(&program(), &authority(), &s.team_address, &s.team, &task_address, 5, 10).unwrap();
    assert_eq!(task.team, s.team_address);
    assert_eq!(task.task_id, 5);
    assert_eq!(task.creator, authority());
    assert_eq!(task.assignee, None);
    assert_eq!(task.reward_lamports, 10);
    let mut t = task;
    assert_eq!(assign_task(&id(3), &s.team_address, &s.team, &mut t, &id(42)), Err(EscrowError::NotAuthority));
    let other = setup_team(2);
    assert_eq!(assign_task(&authority(), &other.team_address, &other.team, &mut t, &id(42)), Err(EscrowError::TaskTeamMismatch));
    assert_eq!(t.status, TaskStatus::Open);
}

#[test]
fn status_bytes_round_trip() {
    for s in [TaskStatus::Open, TaskStatus::Assigned, TaskStatus::Completed, TaskStatus::Paid] {
        assert_eq!(TaskStatus::from_u8(s.to_u8()), Some(s));
    }
    assert_eq!(TaskStatus::Paid.to_u8(), 3);
    assert_eq!(TaskStatus::from_u8(4), None);
    assert_eq!(TaskStatus::from_u8(255), None);
}

#[test]
fn move_lamports_exact() {
    let mut from: u64 = 10;
    let mut to: u64 = 1;
    move_lamports(&mut from, &mut to, 4);
    assert_eq!((from, to), (6, 5));
}

#[test]
fn error_messages() {
    assert_eq!(EscrowError::InvalidAmount.message(), "Deposit amount must be greater than 0.");
    assert_eq!(EscrowError::RecipientNotAssignee.message(), "Recipient must be the task assignee.");
    let _ = Team { authority: authority(), team_id: 0, vault_bump: 0 };
}
