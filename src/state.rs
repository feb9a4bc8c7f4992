use vstd::prelude::*;
use crate::address::AccountId;

verus! {

/// Where a task stands in its lifecycle.
#[derive(Clone, Copy, Debug, PartialEq, Eq, Structural)]
pub enum TaskStatus {
    Open,
    Assigned,
    Completed,
    Paid,
}

impl TaskStatus {
    /// Position in the lifecycle, which is also the stored byte.
    pub open spec fn rank(self) -> nat {
        match self {
            TaskStatus::Open => 0,
            TaskStatus::Assigned => 1,
            TaskStatus::Completed => 2,
            TaskStatus::Paid => 3,
        }
    }

    pub fn to_u8(&self) -> (r: u8)
        ensures
            r == self.rank(),
    {
        match self {
            TaskStatus::Open => 0,
            TaskStatus::Assigned => 1,
            TaskStatus::Completed => 2,
            TaskStatus::Paid => 3,
        }
    }

    /// Reads a stored status byte; any byte outside the four states is refused.
    pub fn from_u8(v: u8) -> (r: Option<TaskStatus>)
        ensures
            r is Some <==> v < 4,
            r matches Some(s) ==> s.rank() == v,
    {
        if v == 0 {
            Some(TaskStatus::Open)
        } else if v == 1 {
            Some(TaskStatus::Assigned)
        } else if v == 2 {
            Some(TaskStatus::Completed)
        } else if v == 3 {
            Some(TaskStatus::Paid)
        } else {
            None
        }
    }
}

/// Why an operation was refused. Every refusal leaves all state as it was.
#[derive(Clone, Copy, Debug, PartialEq, Eq, Structural)]
pub enum EscrowError {
    /// A transfer amount or reward of zero.
    InvalidAmount,
    /// The vault holds less than the amount to pay out.
    InsufficientVaultFunds,
    /// The task is not in the state the operation starts from.
    InvalidTaskState,
    /// The caller is not the task's assignee.
    NotAssignee,
    /// The task has no assignee.
    NoAssignee,
    /// The task belongs to another team.
    TaskTeamMismatch,
    /// The payout recipient is not the task's assignee.
    RecipientNotAssignee,
    /// A supplied team, vault or task address does not re-derive.
    AddressMismatch,
    /// The caller is not the team's authority.
    NotAuthority,
    /// The depositor holds less than the amount to deposit.
    InsufficientFunds,
    /// The receiving balance would exceed the largest amount representable.
    BalanceOverflow,
}

impl EscrowError {
    /// A sentence describing the error.
    pub fn message(&self) -> (r: &'static str) {
        match self {
            EscrowError::InvalidAmount => "Deposit amount must be greater than 0.",
            EscrowError::InsufficientVaultFunds => "Vault does not have enough funds.",
            EscrowError::InvalidTaskState => "Task is not in the expected state for this action.",
            EscrowError::NotAssignee => "Only the assignee may report the work as done.",
            EscrowError::NoAssignee => "Task has no assignee.",
            EscrowError::TaskTeamMismatch => "Task does not belong to this team.",
            EscrowError::RecipientNotAssignee => "Recipient must be the task assignee.",
            EscrowError::AddressMismatch => "Account address does not match its derivation.",
            EscrowError::NotAuthority => "Only the team authority may do this.",
            EscrowError::InsufficientFunds => "Depositor does not have enough funds.",
            EscrowError::BalanceOverflow => "Balance would overflow.",
        }
    }
}

/// A team: its owning authority, its number, and the capability byte that
/// re-derives its vault.
#[derive(Clone, Copy, Debug)]
pub struct Team {
    pub authority: AccountId,
    pub team_id: u64,
    pub vault_bump: u8,
}

/// A unit of paid work of a team.
#[derive(Clone, Copy, Debug)]
pub struct Task {
    pub team: AccountId,
    pub task_id: u64,
    pub creator: AccountId,
    pub assignee: Option<AccountId>,
    pub reward_lamports: u64,
    pub status: TaskStatus,
}

impl Task {
    /// Whether `who` is the recorded assignee.
    pub open spec fn assigned_to(self, who: Seq<u8>) -> bool {
        match self.assignee {
            Some(a) => a@ == who,
            None => false,
        }
    }
}

} // verus!
