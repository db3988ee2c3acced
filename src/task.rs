//! The task entity and its status state machine:
//! Pending -> Running -> {Completed, Failed}, with no way back.

use vstd::prelude::*;

use crate::external::{fresh_uuid, now_millis};

verus! {

/// Where a task stands in its lifecycle.
#[derive(Debug, Clone, Copy, PartialEq, Eq, Structural)]
pub enum TaskStatus {
    Pending,
    Running,
    Completed,
    Failed,
}

impl TaskStatus {
    /// Completed and Failed admit no further transition.
    pub open spec fn is_terminal(self) -> bool {
        self == TaskStatus::Completed || self == TaskStatus::Failed
    }
}

/// The outcome recorded on a finished task: an output value or an error
/// message, never both.
#[derive(Debug, Clone)]
pub struct TaskResult {
    pub output: Option<serde_json::Value>,
    pub error: Option<String>,
}

impl TaskResult {
    /// Exactly one of output and error is present.
    pub open spec fn is_outcome(self) -> bool {
        self.output.is_some() != self.error.is_some()
    }
}

/// A unit of work. Timestamps are milliseconds since the Unix epoch.
#[derive(Debug, Clone)]
pub struct Task {
    pub id: u128,
    pub task_type: String,
    pub payload: serde_json::Value,
    pub status: TaskStatus,
    pub result: Option<TaskResult>,
    pub created_at: i64,
    pub started_at: Option<i64>,
    pub completed_at: Option<i64>,
}

impl Task {
    /// The task invariant: the timestamps and the result follow the status.
    pub open spec fn wf(self) -> bool {
        &&& (self.started_at is None <==> self.status == TaskStatus::Pending)
        &&& (self.completed_at is None <==> !self.status.is_terminal())
        &&& (self.result is Some <==> self.status.is_terminal())
        &&& (self.status == TaskStatus::Completed ==> {
            &&& self.result->0.output is Some
            &&& self.result->0.error is None
        })
        &&& (self.status == TaskStatus::Failed ==> {
            &&& self.result->0.output is None
            &&& self.result->0.error is Some
        })
    }

    /// A task as it is created: Pending, no result, neither started nor completed.
    pub open spec fn is_fresh(self) -> bool {
        &&& self.status == TaskStatus::Pending
        &&& self.result is None
        &&& self.started_at is None
        &&& self.completed_at is None
    }

    /// A new Pending task with a random id, stamped with the current time.
    pub fn new(task_type: &str, payload: serde_json::Value) -> (r: Task)
        ensures
            r.task_type@ == task_type@,
            r.payload == payload,
            r.is_fresh(),
            r.wf(),
    {
        let id = fresh_uuid();
        let created_at = now_millis();
        Task::with_id(id, task_type, payload, created_at)
    }

    /// A new Pending task with the given id and creation time.
    pub fn with_id(id: u128, task_type: &str, payload: serde_json::Value, created_at: i64) -> (r:
        Task)
        ensures
            r.id == id,
            r.task_type@ == task_type@,
            r.payload == payload,
            r.created_at == created_at,
            r.is_fresh(),
            r.wf(),
    {
        Task {
            id,
            task_type: task_type.to_string(),
            payload,
            status: TaskStatus::Pending,
            result: None,
            created_at,
            started_at: None,
            completed_at: None,
        }
    }

    /// Pending -> Running, stamping the start time.
    pub fn mark_running(&mut self)
        requires
            old(self).wf(),
            old(self).status == TaskStatus::Pending,
        ensures
            final(self).wf(),
            final(self).status == TaskStatus::Running,
            final(self).started_at is Some,
            final(self).completed_at is None,
            final(self).result is None,
            final(self).same_work(*old(self)),
    {
        self.status = TaskStatus::Running;
        self.started_at = Some(now_millis());
    }

    /// Running -> Completed with the given output, stamping the completion time.
    pub fn mark_completed(&mut self, output: serde_json::Value)
        requires
            old(self).wf(),
            old(self).status == TaskStatus::Running,
        ensures
            final(self).wf(),
            final(self).status == TaskStatus::Completed,
            final(self).result == Some(TaskResult { output: Some(output), error: None }),
            final(self).started_at == old(self).started_at,
            final(self).completed_at is Some,
            final(self).same_work(*old(self)),
    {
        self.status = TaskStatus::Completed;
        self.result = Some(TaskResult { output: Some(output), error: None });
        self.completed_at = Some(now_millis());
    }

    /// Running -> Failed with the given message, stamping the completion time.
    pub fn mark_failed(&mut self, error_msg: String)
        requires
            old(self).wf(),
            old(self).status == TaskStatus::Running,
        ensures
            final(self).wf(),
            final(self).status == TaskStatus::Failed,
            final(self).result == Some(TaskResult { output: None, error: Some(error_msg) }),
            final(self).started_at == old(self).started_at,
            final(self).completed_at is Some,
            final(self).same_work(*old(self)),
    {
        self.status = TaskStatus::Failed;
        self.result = Some(TaskResult { output: None, error: Some(error_msg) });
        self.completed_at = Some(now_millis());
    }

    /// Two records of the same piece of work: identity, type, payload and
    /// creation time agree.
    pub open spec fn same_work(self, other: Task) -> bool {
        &&& self.id == other.id
        &&& self.task_type == other.task_type
        &&& self.payload == other.payload
        &&& self.created_at == other.created_at
    }

    /// A copy of the whole record.
    pub fn snapshot(&self) -> (r: Task)
        ensures
            r == *self,
    {
        let result = match &self.result {
            Some(res) => {
                let output = match &res.output {
                    Some(v) => Some(v.clone()),
                    None => None,
                };
                Some(TaskResult { output, error: res.error.clone() })
            },
            None => None,
        };
        Task {
            id: self.id,
            task_type: self.task_type.clone(),
            payload: self.payload.clone(),
            status: self.status,
            result,
            created_at: self.created_at,
            started_at: self.started_at,
            completed_at: self.completed_at,
        }
    }
}

} // verus!

verus! {

/// Why a store operation was refused.
#[derive(Debug, Clone, Copy, PartialEq, Eq, Structural)]
pub enum TaskError {
    /// No task has the given id.
    NotFound,
    /// The task is not Running: it was never claimed, or it has already finished.
    NotRunning,
    /// The freshly drawn id is already taken by another task.
    DuplicateId,
}

/// What a worker reports for a task: an output, an error, or neither.
#[derive(Debug, Clone)]
pub struct SubmitResultRequest {
    pub output: Option<serde_json::Value>,
    pub error: Option<String>,
}

/// The status a task reached once a report was accepted.
#[derive(Debug, Clone)]
pub struct SubmitResultResponse {
    pub status: TaskStatus,
}

/// The identity and status of a task that was just created.
#[derive(Debug, Clone)]
pub struct CreateTaskResponse {
    pub id: u128,
    pub status: TaskStatus,
}

/// A task as returned by a lookup.
#[derive(Debug, Clone)]
pub struct GetTaskResponse {
    pub task: Task,
}

} // verus!
