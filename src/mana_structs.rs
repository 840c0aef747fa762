//! Planning and execution records of the organization's projects: proposals
//! with their budgets, project plans broken down into sub-projects, epics and
//! tasks, and the execution of those plans. Token amounts are `u128`, account
//! and time values are kept as text.

use vstd::prelude::*;

verus! {

/// Lifecycle of a task from planning through execution.
#[derive(Clone, Copy, Debug, PartialEq, Eq, Structural)]
pub enum TaskStatus {
    /// Planned but not yet started.
    Planned,
    /// Ready but not begun.
    NotStarted,
    /// Being worked on.
    InProgress,
    /// Finished.
    Completed,
    /// Rejected or cancelled.
    Rejected,
}

/// A proposal of the planning track, optionally linked to a parent
/// governance proposal.
#[derive(Clone, Debug)]
pub struct Proposal {
    pub id: u64,
    pub title: String,
    pub description: Option<String>,
    pub yes_votes: u64,
    pub no_votes: u64,
    pub mana_tokens_allocated: u128,
    pub is_ended: bool,
    pub submitted_by: String,
    pub mana_hours_budgeted: u64,
    pub target_date: Option<String>,
    pub created_at: String,
    pub updated_at: Option<String>,
    pub parent_id: Option<u64>,
    pub sub_projects: Vec<SubProject>,
    pub budget_items: Vec<ProposalBudget>,
}

/// One budget line of a proposal.
#[derive(Clone, Debug)]
pub struct ProposalBudget {
    pub id: u64,
    pub proposal_id: u64,
    pub role_name: String,
    pub budget_usd: u128,
    pub budget_mana: u128,
}

/// A sub-project of a proposal.
#[derive(Clone, Debug)]
pub struct SubProject {
    pub id: u64,
    pub proposal_id: Option<u64>,
    pub sub_project_name: String,
    pub epics: Vec<Epic>,
}

/// An epic of a sub-project.
#[derive(Clone, Debug)]
pub struct Epic {
    pub id: u64,
    pub sub_project_id: Option<u64>,
    pub epic_name: String,
    pub tasks: Vec<Task>,
}

/// A task of an epic, with one status for planning and execution.
#[derive(Clone, Debug)]
pub struct Task {
    pub id: u64,
    pub epic_id: Option<u64>,
    pub task_name: String,
    pub roles_mana_hours: Vec<TaskRoleManaHours>,
    pub status: TaskStatus,
}

/// Mana hours that one role spends on a task.
#[derive(Clone, Debug)]
pub struct TaskRoleManaHours {
    pub id: u64,
    pub task_id: u64,
    pub role_name: String,
    pub mana_hours: u64,
}

/// A project plan; developers are listed by name.
#[derive(Clone, Debug)]
pub struct ProjectPlan {
    pub id: u64,
    pub proposal_id: Option<u64>,
    pub project_name: String,
    pub total_mana_hours: u64,
    pub voting_power: Option<String>,
    pub created_at: String,
    pub updated_at: Option<String>,
    pub developers: Vec<(String, DeveloperProjectPlan)>,
    pub proposal: Option<Proposal>,
}

/// One developer's share of a project plan.
#[derive(Clone, Debug)]
pub struct DeveloperProjectPlan {
    pub developer_name: String,
    pub mana_hours_budgeted: u64,
    pub mana_token_allocated: u128,
    pub sub_projects: Vec<SubProjectPlan>,
}

/// A sub-project within a project plan.
#[derive(Clone, Debug)]
pub struct SubProjectPlan {
    pub id: u64,
    pub project_plan_id: u64,
    pub sub_project_name: String,
    pub epics: Vec<EpicPlan>,
}

/// An epic within a sub-project plan.
#[derive(Clone, Debug)]
pub struct EpicPlan {
    pub id: u64,
    pub sub_project_plan_id: u64,
    pub epic_name: String,
    pub tasks: Vec<TaskPlan>,
}

/// A planned task with its estimate.
#[derive(Clone, Debug)]
pub struct TaskPlan {
    pub id: u64,
    pub epic_plan_id: u64,
    pub task_name: String,
    pub estimated_mana_hours: u64,
    pub roles_mana_hours: Vec<TaskRoleManaHours>,
    pub status: TaskStatus,
}

/// The execution of a project plan.
#[derive(Clone, Debug)]
pub struct ProjectExecution {
    pub id: u64,
    pub project_plan_id: u64,
    pub actual_mana_hours: u64,
    pub tasks: Vec<TaskExecution>,
    pub peer_votes: Vec<PeerVote>,
}

/// The execution of one planned task.
#[derive(Clone, Debug)]
pub struct TaskExecution {
    pub id: u64,
    pub project_execution_id: u64,
    pub task_plan_id: u64,
    pub actual_mana_hours: u64,
    pub status: TaskStatus,
}

/// A peer's vote on a project execution.
#[derive(Clone, Debug)]
pub struct PeerVote {
    pub id: u64,
    pub project_execution_id: u64,
    pub user_id: u64,
    pub vote: bool,
    pub created_at: String,
}

/// Feedback on a task execution.
#[derive(Clone, Debug)]
pub struct TaskFeedback {
    pub id: u64,
    pub task_execution_id: u64,
    pub user_id: u64,
    pub feedback: String,
    pub rating: u8,
    pub created_at: String,
}

} // verus!
