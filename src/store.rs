//! The task store: every task by id, and the pending order from which workers
//! claim. New ids go to the front of the pending order and claims take from the
//! front, so the most recently created task is claimed first.

use std::collections::HashMap;
use std::collections::VecDeque;

use vstd::prelude::*;

use crate::external::{json_as_str, json_field, json_from_unit, json_get, json_null, json_text};
use crate::handler::{image_outcome, HandlerResult};
use crate::schema::{SchemaRegistry, TaskPayloadSchema};
use crate::task::{SubmitResultRequest, SubmitResultResponse, Task, TaskError, TaskStatus};

verus! {

/// The task type given to a task whose creator named none.
pub const DEFAULT_TASK_TYPE: &'static str = "default_task";

/// The message recorded on a task whose report held neither output nor error.
pub const MISSING_OUTCOME_MESSAGE: &'static str = "Failed to process task";

/// The broker's whole state: tasks, pending order and payload schemas.
pub struct BrokerState {
    tasks: HashMap<u128, Task>,
    queue: VecDeque<u128>,
    payload_schemas: SchemaRegistry,
}

impl BrokerState {
    /// Every task, by id.
    pub closed spec fn task_map(&self) -> Map<u128, Task> {
        self.tasks@
    }

    /// The payload schemas, by task type.
    pub closed spec fn schemas(&self) -> Map<Seq<char>, TaskPayloadSchema> {
        self.payload_schemas@
    }

    /// The ids awaiting a claim; the one at index 0 is claimed next.
    pub closed spec fn pending(&self) -> Seq<u128> {
        self.queue@
    }

    /// The store invariant: each task is well formed and filed under its own
    /// id; the pending order holds each Pending task exactly once and nothing else.
    pub closed spec fn wf(&self) -> bool {
        &&& self.tasks_filed()
        &&& self.pending_are_pending()
        &&& self.pending_complete()
        &&& self.pending_distinct()
        &&& self.payload_schemas.wf()
    }

    spec fn tasks_filed(&self) -> bool {
        forall|id: u128| #![trigger self.tasks@[id]]
            self.tasks@.contains_key(id) ==> self.tasks@[id].wf() && self.tasks@[id].id == id
    }

    spec fn pending_are_pending(&self) -> bool {
        forall|i: int| #![trigger self.queue@[i]]
            0 <= i < self.queue@.len() ==> self.tasks@.contains_key(self.queue@[i])
                && self.tasks@[self.queue@[i]].status == TaskStatus::Pending
    }

    spec fn pending_complete(&self) -> bool {
        forall|id: u128| #![trigger self.tasks@[id]]
            self.tasks@.contains_key(id) && self.tasks@[id].status == TaskStatus::Pending
                ==> self.queue@.contains(id)
    }

    spec fn pending_distinct(&self) -> bool {
        forall|i: int, j: int| #![trigger self.queue@[i], self.queue@[j]]
            0 <= i < self.queue@.len() && 0 <= j < self.queue@.len() && i != j
                ==> self.queue@[i] != self.queue@[j]
    }

    /// The two states hold the same tasks, pending order and schemas.
    pub open spec fn same_state(pre: BrokerState, post: BrokerState) -> bool {
        &&& post.task_map() == pre.task_map()
        &&& post.pending() == pre.pending()
        &&& post.schemas() == pre.schemas()
    }

    /// What `create_task` and `insert_task` do when they succeed with `t`:
    /// `t` is filed under a fresh id and goes to the front of the pending order.
    pub open spec fn creates(pre: BrokerState, post: BrokerState, t: Task) -> bool {
        &&& !pre.task_map().contains_key(t.id)
        &&& t.is_fresh()
        &&& post.task_map() == pre.task_map().insert(t.id, t)
        &&& post.pending() == seq![t.id] + pre.pending()
        &&& post.schemas() == pre.schemas()
    }

    /// What `get_next_task` does, returning `r`: with nothing pending it
    /// changes nothing and returns `None`; otherwise it takes the front id off
    /// the pending order and returns that task, now Running.
    pub open spec fn claims(pre: BrokerState, post: BrokerState, r: Option<Task>) -> bool {
        match r {
            None => pre.pending().len() == 0 && BrokerState::same_state(pre, post),
            Some(t) => {
                &&& pre.pending().len() > 0
                &&& t.id == pre.pending()[0]
                &&& post.pending() == pre.pending().drop_first()
                &&& pre.task_map().contains_key(t.id)
                &&& pre.task_map()[t.id].status == TaskStatus::Pending
                &&& t.status == TaskStatus::Running
                &&& t.started_at is Some
                &&& t.completed_at is None
                &&& t.result is None
                &&& t.result == pre.task_map()[t.id].result
                &&& t.same_work(pre.task_map()[t.id])
                &&& post.task_map() == pre.task_map().insert(t.id, t)
                &&& post.schemas() == pre.schemas()
            },
        }
    }

    /// What `complete_task` does with a report `req` on task `id`, returning
    /// `r`: an unknown id gives `NotFound` and a task that is not Running gives
    /// `NotRunning`, both changing nothing; otherwise the task finishes. An
    /// error in the report makes it Failed with that message; else an output
    /// makes it Completed with that output; else it is Failed with
    /// `MISSING_OUTCOME_MESSAGE`.
    pub open spec fn finishes(
        pre: BrokerState,
        post: BrokerState,
        id: u128,
        req: SubmitResultRequest,
        r: Result<Task, TaskError>,
    ) -> bool {
        if !pre.task_map().contains_key(id) {
            r == Err::<Task, TaskError>(TaskError::NotFound) && BrokerState::same_state(pre, post)
        } else if pre.task_map()[id].status != TaskStatus::Running {
            r == Err::<Task, TaskError>(TaskError::NotRunning) && BrokerState::same_state(pre, post)
        } else {
            &&& r is Ok
            &&& post.task_map() == pre.task_map().insert(id, r->Ok_0)
            &&& post.pending() == pre.pending()
            &&& post.schemas() == pre.schemas()
            &&& reports(pre.task_map()[id], req, r->Ok_0)
        }
    }

    /// One operation of the store took `pre` to `post`: a creation, a claim,
    /// a report, or one that leaves tasks and pending order alone (a schema
    /// update, a lookup).
    pub open spec fn step(pre: BrokerState, post: BrokerState) -> bool {
        ||| exists|t: Task| #[trigger] BrokerState::creates(pre, post, t)
        ||| exists|r: Option<Task>| #[trigger] BrokerState::claims(pre, post, r)
        ||| exists|id: u128, req: SubmitResultRequest, r: Result<Task, TaskError>|
            #[trigger] BrokerState::finishes(pre, post, id, req, r)
        ||| (post.task_map() == pre.task_map() && post.pending() == pre.pending())
    }

    /// An empty store.
    pub fn new() -> (r: BrokerState)
        ensures
            r.wf(),
            r.task_map() == Map::<u128, Task>::empty(),
            r.pending() == Seq::<u128>::empty(),
            r.schemas() == Map::<Seq<char>, TaskPayloadSchema>::empty(),
    {
        BrokerState {
            tasks: HashMap::new(),
            queue: VecDeque::new(),
            payload_schemas: SchemaRegistry::new(),
        }
    }

    /// Files a freshly made task under its id and puts it at the front of the
    /// pending order; refuses with `DuplicateId` where the id is taken.
    pub fn insert_task(&mut self, task: Task) -> (r: Result<Task, TaskError>)
        requires
            old(self).wf(),
            task.wf(),
            task.is_fresh(),
        ensures
            final(self).wf(),
            match r {
                Ok(t) => t == task && BrokerState::creates(*old(self), *final(self), t),
                Err(e) => e == TaskError::DuplicateId && old(self).task_map().contains_key(task.id)
                    && *final(self) == *old(self),
            },
    {
        if self.tasks.contains_key(&task.id) {
            return Err(TaskError::DuplicateId);
        }
        let id = task.id;
        let out = task.snapshot();
        self.tasks.insert(id, task);
        self.queue.push_front(id);
        assert forall|id2: u128| #![trigger self.tasks@[id2]] self.tasks@.contains_key(id2) implies self.tasks@[id2].wf()
            && self.tasks@[id2].id == id2 by {
            if id2 != id {
                assert(old(self).tasks@.contains_key(id2));
            }
        }
        assert forall|i: int| #![trigger self.queue@[i]] 0 <= i < self.queue@.len() implies self.tasks@.contains_key(self.queue@[i])
            && self.tasks@[self.queue@[i]].status == TaskStatus::Pending by {
            if i > 0 {
                assert(self.queue@[i] == old(self).queue@[i - 1]);
            }
        }
        assert forall|id2: u128| #![trigger self.tasks@[id2]]
            self.tasks@.contains_key(id2) && self.tasks@[id2].status
                == TaskStatus::Pending implies self.queue@.contains(id2) by {
            if id2 == id {
                assert(self.queue@[0] == id);
            } else {
                let k = choose|k: int| 0 <= k < old(self).queue@.len() && old(self).queue@[k] == id2;
                assert(self.queue@[k + 1] == id2);
            }
        }
        assert forall|i: int, j: int| #![trigger self.queue@[i], self.queue@[j]]
            0 <= i < self.queue@.len() && 0 <= j < self.queue@.len() && i != j
                implies self.queue@[i] != self.queue@[j] by {
            if i > 0 && j > 0 {
                assert(self.queue@[i] == old(self).queue@[i - 1]);
                assert(self.queue@[j] == old(self).queue@[j - 1]);
            } else if i > 0 {
                assert(self.queue@[i] == old(self).queue@[i - 1]);
                assert(old(self).tasks@.contains_key(old(self).queue@[i - 1]));
            } else if j > 0 {
                assert(self.queue@[j] == old(self).queue@[j - 1]);
                assert(old(self).tasks@.contains_key(old(self).queue@[j - 1]));
            }
        }
        assert(self.payload_schemas.wf());
        assert(self.queue@ == seq![id] + old(self).queue@);
        Ok(out)
    }

    /// Creates a Pending task of the given type and payload under a random id.
    /// It fails, with `DuplicateId` and nothing changed, only where the drawn
    /// id already belongs to a task; so on a store without tasks it succeeds.
    pub fn create_task(&mut self, task_type: &str, payload: serde_json::Value) -> (r: Result<
        Task,
        TaskError,
    >)
        requires
            old(self).wf(),
        ensures
            final(self).wf(),
            match r {
                Ok(t) => {
                    &&& t.task_type@ == task_type@
                    &&& t.payload == payload
                    &&& t.is_fresh()
                    &&& BrokerState::creates(*old(self), *final(self), t)
                },
                Err(e) => {
                    &&& e == TaskError::DuplicateId
                    &&& exists|id: u128| old(self).task_map().contains_key(id)
                    &&& *final(self) == *old(self)
                },
            },
    {
        let task = Task::new(task_type, payload);
        self.insert_task(task)
    }

    /// Creates a task from a request body: its type is the body's `task_type`
    /// member where that is a JSON string, else `DEFAULT_TASK_TYPE`; its
    /// payload is the body's `payload` member, else JSON null. It fails as
    /// `create_task` does.
    pub fn create_task_from_request(&mut self, body: &serde_json::Value) -> (r: Result<
        Task,
        TaskError,
    >)
        requires
            old(self).wf(),
        ensures
            final(self).wf(),
            match r {
                Ok(t) => {
                    &&& t.task_type@ == match json_field(*body, "task_type"@) {
                        Some(v) => match json_text(v) {
                            Some(text) => text,
                            None => DEFAULT_TASK_TYPE@,
                        },
                        None => DEFAULT_TASK_TYPE@,
                    }
                    &&& t.payload == match json_field(*body, "payload"@) {
                        Some(p) => p,
                        None => json_from_unit(()),
                    }
                    &&& t.is_fresh()
                    &&& BrokerState::creates(*old(self), *final(self), t)
                },
                Err(e) => {
                    &&& e == TaskError::DuplicateId
                    &&& exists|id: u128| old(self).task_map().contains_key(id)
                    &&& *final(self) == *old(self)
                },
            },
    {
        let requested = match json_get(body, "task_type") {
            Some(v) => json_as_str(v),
            None => None,
        };
        let task_type = match requested {
            Some(text) => text,
            None => DEFAULT_TASK_TYPE.to_string(),
        };
        let payload = match json_get(body, "payload") {
            Some(p) => p.clone(),
            None => json_null(),
        };
        self.create_task(task_type.as_str(), payload)
    }

    /// The task filed under `id`.
    pub fn get_task(&self, id: u128) -> (r: Result<&Task, TaskError>)
        requires
            self.wf(),
        ensures
            match r {
                Ok(t) => self.task_map().contains_key(id) && *t == self.task_map()[id],
                Err(e) => e == TaskError::NotFound && !self.task_map().contains_key(id),
            },
    {
        match self.tasks.get(&id) {
            Some(t) => Ok(t),
            None => Err(TaskError::NotFound),
        }
    }

    /// Claims the next pending task: takes the front id off the pending order,
    /// marks that task Running and returns a copy of it. `None` means that no
    /// work is pending.
    pub fn get_next_task(&mut self) -> (r: Option<Task>)
        requires
            old(self).wf(),
        ensures
            final(self).wf(),
            BrokerState::claims(*old(self), *final(self), r),
    {
        loop
            invariant
                self.wf(),
                BrokerState::same_state(*old(self), *self),
                self.payload_schemas == old(self).payload_schemas,
            decreases self.queue@.len(),
        {
            let ghost q = self.queue@;
            match self.queue.pop_front() {
                None => {
                    return None;
                },
                Some(id) => {
                    match self.tasks.remove(&id) {
                        Some(task) => {
                            assert(old(self).tasks@.contains_key(q[0]));
                            let mut task = task;
                            task.mark_running();
                            let out = task.snapshot();
                            self.tasks.insert(id, task);
                            assert(self.tasks@ =~= old(self).tasks@.insert(id, out));
                            proof {
                                self.lemma_claim_keeps_wf(*old(self), id);
                            }
                            return Some(out);
                        },
                        None => {
                            assert(old(self).tasks@.contains_key(q[0]));
                        },
                    }
                },
            }
        }
    }

    proof fn lemma_claim_keeps_wf(&self, pre: BrokerState, id: u128)
        requires
            pre.wf(),
            pre.queue@.len() > 0,
            id == pre.queue@[0],
            self.queue@ == pre.queue@.drop_first(),
            self.payload_schemas == pre.payload_schemas,
            self.tasks@.contains_key(id),
            self.tasks@ == pre.tasks@.insert(id, self.tasks@[id]),
            self.tasks@[id].wf(),
            self.tasks@[id].id == id,
            self.tasks@[id].status == TaskStatus::Running,
        ensures
            self.wf(),
    {
        assert forall|i: int| #![trigger self.queue@[i]] 0 <= i < self.queue@.len() implies self.tasks@.contains_key(self.queue@[i])
            && self.tasks@[self.queue@[i]].status == TaskStatus::Pending by {
            assert(self.queue@[i] == pre.queue@[i + 1]);
            assert(pre.queue@[i + 1] != pre.queue@[0]);
            assert(pre.tasks@.contains_key(pre.queue@[i + 1]));
        }
        assert forall|id2: u128| #![trigger self.tasks@[id2]]
            self.tasks@.contains_key(id2) && self.tasks@[id2].status
                == TaskStatus::Pending implies self.queue@.contains(id2) by {
            assert(id2 != id);
            assert(pre.tasks@[id2] == self.tasks@[id2]);
            let k = choose|k: int| 0 <= k < pre.queue@.len() && pre.queue@[k] == id2;
            assert(k != 0);
            assert(self.queue@[k - 1] == id2);
        }
        assert forall|i: int, j: int| #![trigger self.queue@[i], self.queue@[j]]
            0 <= i < self.queue@.len() && 0 <= j < self.queue@.len() && i != j
                implies self.queue@[i] != self.queue@[j] by {
            assert(self.queue@[i] == pre.queue@[i + 1]);
            assert(self.queue@[j] == pre.queue@[j + 1]);
        }
        assert forall|id2: u128| #![trigger self.tasks@[id2]] self.tasks@.contains_key(id2) implies self.tasks@[id2].wf()
            && self.tasks@[id2].id == id2 by {
            if id2 != id {
                assert(pre.tasks@.contains_key(id2));
            }
        }
    }

    /// Records a worker's report on task `id`: an error makes the task Failed
    /// with that message, else an output makes it Completed with that output,
    /// else it is Failed with `MISSING_OUTCOME_MESSAGE`. An unknown id gives
    /// `NotFound`; a task that is not Running gives `NotRunning`, so a finished
    /// task keeps its first result.
    pub fn complete_task(&mut self, id: u128, result: SubmitResultRequest) -> (r: Result<
        Task,
        TaskError,
    >)
        requires
            old(self).wf(),
        ensures
            final(self).wf(),
            BrokerState::finishes(*old(self), *final(self), id, result, r),
    {
        if !self.tasks.contains_key(&id) {
            return Err(TaskError::NotFound);
        }
        match self.tasks.get(&id) {
            Some(t) => {
                if t.status != TaskStatus::Running {
                    return Err(TaskError::NotRunning);
                }
            },
            None => {
                return Err(TaskError::NotFound);
            },
        }
        match self.tasks.remove(&id) {
            Some(task) => {
                let mut task = task;
                match result.error {
                    Some(err) => task.mark_failed(err),
                    None => match result.output {
                        Some(output) => task.mark_completed(output),
                        None => task.mark_failed(MISSING_OUTCOME_MESSAGE.to_string()),
                    },
                }
                let out = task.snapshot();
                self.tasks.insert(id, task);
                assert(self.tasks@ =~= old(self).tasks@.insert(id, out));
                proof {
                    self.lemma_finish_keeps_wf(*old(self), id);
                }
                Ok(out)
            },
            None => Err(TaskError::NotFound),
        }
    }

    proof fn lemma_finish_keeps_wf(&self, pre: BrokerState, id: u128)
        requires
            pre.wf(),
            pre.tasks@.contains_key(id),
            pre.tasks@[id].status == TaskStatus::Running,
            self.queue@ == pre.queue@,
            self.payload_schemas == pre.payload_schemas,
            self.tasks@.contains_key(id),
            self.tasks@ == pre.tasks@.insert(id, self.tasks@[id]),
            self.tasks@[id].wf(),
            self.tasks@[id].id == id,
            self.tasks@[id].status.is_terminal(),
        ensures
            self.wf(),
    {
        assert forall|i: int| #![trigger self.queue@[i]] 0 <= i < self.queue@.len() implies self.tasks@.contains_key(self.queue@[i])
            && self.tasks@[self.queue@[i]].status == TaskStatus::Pending by {
            assert(pre.tasks@.contains_key(pre.queue@[i]));
        }
        assert forall|id2: u128| #![trigger self.tasks@[id2]]
            self.tasks@.contains_key(id2) && self.tasks@[id2].status
                == TaskStatus::Pending implies self.queue@.contains(id2) by {
            assert(pre.tasks@[id2] == self.tasks@[id2]);
        }
        assert forall|id2: u128| #![trigger self.tasks@[id2]] self.tasks@.contains_key(id2) implies self.tasks@[id2].wf()
            && self.tasks@[id2].id == id2 by {
            if id2 != id {
                assert(pre.tasks@.contains_key(id2));
            }
        }
    }

    /// Records a worker's report, as `complete_task` does, and answers with
    /// the status the task reached.
    pub fn submit_result(&mut self, id: u128, body: SubmitResultRequest) -> (r: Result<
        SubmitResultResponse,
        TaskError,
    >)
        requires
            old(self).wf(),
        ensures
            final(self).wf(),
            exists|t: Result<Task, TaskError>|
                #![trigger BrokerState::finishes(*old(self), *final(self), id, body, t)]
                BrokerState::finishes(*old(self), *final(self), id, body, t) && match t {
                    Ok(task) => r matches Ok(resp) && resp.status == task.status,
                    Err(e) => r == Err::<SubmitResultResponse, TaskError>(e),
                },
    {
        match self.complete_task(id, body) {
            Ok(task) => Ok(SubmitResultResponse { status: task.status }),
            Err(e) => Err(e),
        }
    }

    /// Stores `schema` under its task type, replacing any schema stored there,
    /// and hands back what was stored.
    pub fn set_payload_schema(&mut self, schema: TaskPayloadSchema) -> (r: &TaskPayloadSchema)
        requires
            old(self).wf(),
            schema.wf(),
        ensures
            final(self).wf(),
            final(self).schemas() == old(self).schemas().insert(schema.task_type@, schema),
            final(self).task_map() == old(self).task_map(),
            final(self).pending() == old(self).pending(),
            *r == schema,
    {
        self.payload_schemas.set(schema)
    }

    /// The schema stored for `task_type`, or `NotFound`.
    pub fn get_payload_schema(&self, task_type: &str) -> (r: Result<&TaskPayloadSchema, TaskError>)
        requires
            self.wf(),
        ensures
            match r {
                Ok(s) => self.schemas().contains_key(task_type@) && *s == self.schemas()[task_type@]
                    && s.wf(),
                Err(e) => e == TaskError::NotFound && !self.schemas().contains_key(task_type@),
            },
    {
        match self.payload_schemas.get(task_type) {
            Some(s) => Ok(s),
            None => Err(TaskError::NotFound),
        }
    }

    /// Every task type that has a schema, each once.
    pub fn list_task_types(&self) -> (r: Vec<String>)
        requires
            self.wf(),
        ensures
            forall|k: Seq<char>|
                self.schemas().contains_key(k) <==> exists|i: int|
                    0 <= i < r@.len() && #[trigger] r@[i]@ == k,
            forall|i: int, j: int|
                0 <= i < r@.len() && 0 <= j < r@.len() && i != j ==> #[trigger] r@[i]@
                    != #[trigger] r@[j]@,
    {
        self.payload_schemas.list_types()
    }
}

/// Two claims in a row never hand out the same task.
pub proof fn law_claims_are_exclusive(
    s0: BrokerState,
    s1: BrokerState,
    s2: BrokerState,
    a: Task,
    b: Task,
)
    requires
        s0.wf(),
        BrokerState::claims(s0, s1, Some(a)),
        BrokerState::claims(s1, s2, Some(b)),
    ensures
        a.id != b.id,
{
    assert(s1.pending()[0] == s0.pending()[1]);
}

/// Once a task has left Pending, every later state still holds it, and not
/// as Pending, whatever operations follow.
proof fn lemma_stays_claimed(trace: Seq<BrokerState>, id: u128, k: int)
    requires
        1 <= k < trace.len(),
        trace[1].task_map().contains_key(id),
        trace[1].task_map()[id].status != TaskStatus::Pending,
        forall|j: int| 1 <= j < trace.len() - 1 ==> #[trigger] BrokerState::step(trace[j], trace[j + 1]),
    ensures
        trace[k].task_map().contains_key(id),
        trace[k].task_map()[id].status != TaskStatus::Pending,
    decreases k,
{
    if k > 1 {
        lemma_stays_claimed(trace, id, k - 1);
        assert(BrokerState::step(trace[k - 1], trace[(k - 1) + 1]));
        let pre = trace[k - 1];
        let post = trace[k];
        if exists|t: Task| #[trigger] BrokerState::creates(pre, post, t) {
            let t = choose|t: Task| #[trigger] BrokerState::creates(pre, post, t);
            assert(t.id != id);
        } else if exists|r: Option<Task>| #[trigger] BrokerState::claims(pre, post, r) {
            let r = choose|r: Option<Task>| #[trigger] BrokerState::claims(pre, post, r);
            if let Some(t) = r {
                assert(t.id != id);
            }
        } else if exists|i: u128, req: SubmitResultRequest, r: Result<Task, TaskError>|
            #[trigger] BrokerState::finishes(pre, post, i, req, r) {
            let (i, req, r) = choose|i: u128, req: SubmitResultRequest, r: Result<Task, TaskError>|
                #[trigger] BrokerState::finishes(pre, post, i, req, r);
            if i == id && pre.task_map()[id].status == TaskStatus::Running {
                assert(post.task_map()[id] == r->Ok_0);
            }
        }
    }
}

/// No task is claimed twice: after a claim hands out `a`, any later claim,
/// with any creations, claims, reports or schema updates in between, hands
/// out another task or nothing.
pub proof fn law_no_task_claimed_twice(
    trace: Seq<BrokerState>,
    a: Task,
    i: int,
    b: Task,
)
    requires
        trace.len() >= 2,
        BrokerState::claims(trace[0], trace[1], Some(a)),
        forall|j: int| 1 <= j < trace.len() - 1 ==> #[trigger] BrokerState::step(trace[j], trace[j + 1]),
        1 <= i < trace.len() - 1,
        BrokerState::claims(trace[i], trace[i + 1], Some(b)),
    ensures
        a.id != b.id,
{
    lemma_stays_claimed(trace, a.id, i);
}

/// One operation took `pre` to `post`, and `out` records what it handed out
/// as a claim: the claimed task, or `None` for an operation that claimed
/// nothing (a creation, a report, an empty claim, a schema update, a lookup).
pub open spec fn recorded_step(pre: BrokerState, post: BrokerState, out: Option<Task>) -> bool {
    match out {
        Some(t) => BrokerState::claims(pre, post, Some(t)),
        None => BrokerState::step(pre, post) && !exists|t: Task|
            #[trigger] BrokerState::claims(pre, post, Some(t)),
    }
}

/// The task `id` is filed in `s` and is no longer Pending.
pub open spec fn out_of_pending(s: BrokerState, id: u128) -> bool {
    s.task_map().contains_key(id) && s.task_map()[id].status != TaskStatus::Pending
}

/// Some of the first `k` recorded operations handed out task `id`.
pub open spec fn claimed_within(outs: Seq<Option<Task>>, k: int, id: u128) -> bool {
    exists|j: int| 0 <= j < k && #[trigger] outs[j] is Some && outs[j]->0.id == id
}

proof fn lemma_recorded_step_moves_only_claimed(
    pre: BrokerState,
    post: BrokerState,
    out: Option<Task>,
    id: u128,
)
    requires
        recorded_step(pre, post, out),
    ensures
        out_of_pending(post, id) <==> (out_of_pending(pre, id) || (out is Some && out->0.id
            == id)),
{
    match out {
        Some(t) => {
            if t.id != id {
                assert(post.task_map().contains_key(id) == pre.task_map().contains_key(id));
                if pre.task_map().contains_key(id) {
                    assert(post.task_map()[id] == pre.task_map()[id]);
                }
            } else {
                assert(post.task_map()[id] == t);
            }
        },
        None => {
            if exists|t: Task| #[trigger] BrokerState::creates(pre, post, t) {
                let t = choose|t: Task| #[trigger] BrokerState::creates(pre, post, t);
                if t.id != id {
                    assert(post.task_map().contains_key(id) == pre.task_map().contains_key(id));
                    if pre.task_map().contains_key(id) {
                        assert(post.task_map()[id] == pre.task_map()[id]);
                    }
                } else {
                    assert(post.task_map()[id] == t);
                }
            } else if exists|r: Option<Task>| #[trigger] BrokerState::claims(pre, post, r) {
                let r = choose|r: Option<Task>| #[trigger] BrokerState::claims(pre, post, r);
                assert(r is None);
            } else if exists|i: u128, req: SubmitResultRequest, r: Result<Task, TaskError>|
                #[trigger] BrokerState::finishes(pre, post, i, req, r) {
                let (i, req, r) = choose|
                    i: u128,
                    req: SubmitResultRequest,
                    r: Result<Task, TaskError>,
                | #[trigger] BrokerState::finishes(pre, post, i, req, r);
                if pre.task_map().contains_key(i) && pre.task_map()[i].status
                    == TaskStatus::Running {
                    if i == id {
                        assert(post.task_map()[id] == r->Ok_0);
                    } else {
                        assert(post.task_map().contains_key(id) == pre.task_map().contains_key(id));
                        if pre.task_map().contains_key(id) {
                            assert(post.task_map()[id] == pre.task_map()[id]);
                        }
                    }
                }
            }
        },
    }
}

proof fn lemma_out_of_pending_iff_claimed(
    trace: Seq<BrokerState>,
    outs: Seq<Option<Task>>,
    k: int,
    id: u128,
)
    requires
        trace.len() == outs.len() + 1,
        trace[0].task_map() == Map::<u128, Task>::empty(),
        forall|j: int| 0 <= j < outs.len() ==> #[trigger] recorded_step(trace[j], trace[j + 1], outs[j]),
        0 <= k <= outs.len(),
    ensures
        out_of_pending(trace[k], id) <==> claimed_within(outs, k, id),
    decreases k,
{
    if k > 0 {
        lemma_out_of_pending_iff_claimed(trace, outs, k - 1, id);
        assert(recorded_step(trace[k - 1], trace[(k - 1) + 1], outs[k - 1]));
        lemma_recorded_step_moves_only_claimed(trace[k - 1], trace[k], outs[k - 1], id);
        if claimed_within(outs, k, id) && !claimed_within(outs, k - 1, id) {
            let j = choose|j: int| 0 <= j < k && #[trigger] outs[j] is Some && outs[j]->0.id == id;
            assert(j == k - 1);
        }
        if outs[k - 1] is Some && outs[k - 1]->0.id == id {
            assert(claimed_within(outs, k, id));
        }
        if claimed_within(outs, k - 1, id) {
            let j = choose|j: int| 0 <= j < k - 1 && #[trigger] outs[j] is Some && outs[j]->0.id == id;
            assert(claimed_within(outs, k, id));
        }
    }
}

/// From a store without tasks, after any sequence of operations, a task has
/// left Pending exactly when one of the claims handed it out; once nothing is
/// pending, the ids handed out by claims are exactly the ids of the tasks
/// created.
pub proof fn law_claimed_ids_are_created_ids(trace: Seq<BrokerState>, outs: Seq<Option<Task>>)
    requires
        trace.len() == outs.len() + 1,
        trace[0].task_map() == Map::<u128, Task>::empty(),
        forall|j: int| 0 <= j < outs.len() ==> #[trigger] recorded_step(trace[j], trace[j + 1], outs[j]),
    ensures
        forall|id: u128|
            #[trigger] out_of_pending(trace.last(), id) <==> claimed_within(outs, outs.len() as int, id),
        trace.last().wf() && trace.last().pending().len() == 0 ==> forall|id: u128|
            #[trigger] trace.last().task_map().contains_key(id) <==> claimed_within(
                outs,
                outs.len() as int,
                id,
            ),
{
    assert forall|id: u128|
        #[trigger] out_of_pending(trace.last(), id) <==> claimed_within(outs, outs.len() as int, id) by {
        lemma_out_of_pending_iff_claimed(trace, outs, outs.len() as int, id);
    }
    if trace.last().wf() && trace.last().pending().len() == 0 {
        assert forall|id: u128|
            #[trigger] trace.last().task_map().contains_key(id) <==> claimed_within(
                outs,
                outs.len() as int,
                id,
            ) by {
            lemma_out_of_pending_iff_claimed(trace, outs, outs.len() as int, id);
            if trace.last().task_map().contains_key(id) {
                law_drained_store_has_no_pending_task(trace.last(), id);
            }
        }
    }
}

/// A claim takes a Pending task and leaves it Running and out of the pending
/// order, so no later claim can hand it out again.
pub proof fn law_claimed_task_leaves_pending(pre: BrokerState, post: BrokerState, t: Task)
    requires
        pre.wf(),
        BrokerState::claims(pre, post, Some(t)),
    ensures
        pre.task_map()[t.id].status == TaskStatus::Pending,
        post.task_map()[t.id].status == TaskStatus::Running,
        post.task_map()[t.id].started_at is Some,
        !post.pending().contains(t.id),
{
    if post.pending().contains(t.id) {
        let k = choose|k: int| 0 <= k < post.pending().len() && post.pending()[k] == t.id;
        assert(pre.queue@[k + 1] == pre.queue@[0]);
    }
}

/// A report finishes a task once: the first accepted report stamps the
/// completion time and records exactly one of output and error, and any
/// later report on the same task is refused with `NotRunning`, changing nothing.
pub proof fn law_finish_once(
    s0: BrokerState,
    s1: BrokerState,
    s2: BrokerState,
    id: u128,
    first: SubmitResultRequest,
    second: SubmitResultRequest,
    r1: Result<Task, TaskError>,
    r2: Result<Task, TaskError>,
)
    requires
        BrokerState::finishes(s0, s1, id, first, r1),
        r1 is Ok,
        BrokerState::finishes(s1, s2, id, second, r2),
    ensures
        r1->Ok_0.completed_at is Some,
        r1->Ok_0.result is Some,
        r1->Ok_0.result->0.is_outcome(),
        r1->Ok_0.status.is_terminal(),
        r2 == Err::<Task, TaskError>(TaskError::NotRunning),
        BrokerState::same_state(s1, s2),
{
    assert(s1.task_map()[id] == r1->Ok_0);
}

/// Three tasks created in a row on an idle store are claimed newest first,
/// and a fourth claim finds nothing.
pub proof fn law_last_in_first_out(
    s0: BrokerState,
    s1: BrokerState,
    s2: BrokerState,
    s3: BrokerState,
    s4: BrokerState,
    s5: BrokerState,
    s6: BrokerState,
    s7: BrokerState,
    t1: Task,
    t2: Task,
    t3: Task,
    c1: Option<Task>,
    c2: Option<Task>,
    c3: Option<Task>,
    c4: Option<Task>,
)
    requires
        s0.pending().len() == 0,
        BrokerState::creates(s0, s1, t1),
        BrokerState::creates(s1, s2, t2),
        BrokerState::creates(s2, s3, t3),
        BrokerState::claims(s3, s4, c1),
        BrokerState::claims(s4, s5, c2),
        BrokerState::claims(s5, s6, c3),
        BrokerState::claims(s6, s7, c4),
    ensures
        c1 is Some && c1->0.id == t3.id,
        c2 is Some && c2->0.id == t2.id,
        c3 is Some && c3->0.id == t1.id,
        c4 is None,
{
    assert(s3.pending() =~= seq![t3.id, t2.id, t1.id]);
    assert(s3.pending().drop_first() =~= seq![t2.id, t1.id]);
    assert(s4.pending().drop_first() =~= seq![t1.id]);
    assert(s5.pending().drop_first() =~= Seq::<u128>::empty());
}

/// A report on an unknown id is refused with `NotFound` and creates nothing.
pub proof fn law_unknown_id_not_found(
    pre: BrokerState,
    post: BrokerState,
    id: u128,
    req: SubmitResultRequest,
    r: Result<Task, TaskError>,
)
    requires
        !pre.task_map().contains_key(id),
        BrokerState::finishes(pre, post, id, req, r),
    ensures
        r == Err::<Task, TaskError>(TaskError::NotFound),
        post.task_map() == pre.task_map(),
        post.pending() == pre.pending(),
{
}

/// Once the pending order is empty, no task is Pending: every task created
/// has been claimed.
pub proof fn law_drained_store_has_no_pending_task(s: BrokerState, id: u128)
    requires
        s.wf(),
        s.pending().len() == 0,
        s.task_map().contains_key(id),
    ensures
        s.task_map()[id].status != TaskStatus::Pending,
{
    if s.task_map()[id].status == TaskStatus::Pending {
        assert(s.queue@.contains(id));
    }
}

/// A report never touches a Pending task, so the only way out of Pending is
/// a claim.
pub proof fn law_reports_leave_pending_tasks_alone(
    pre: BrokerState,
    post: BrokerState,
    id: u128,
    req: SubmitResultRequest,
    r: Result<Task, TaskError>,
    other: u128,
)
    requires
        BrokerState::finishes(pre, post, id, req, r),
        pre.task_map().contains_key(other),
        pre.task_map()[other].status == TaskStatus::Pending,
    ensures
        post.task_map().contains_key(other),
        post.task_map()[other] == pre.task_map()[other],
{
}

/// When the image handler fails on a payload (a missing member, broken
/// base64, an undecodable or undersized image) and its outcome is reported on
/// a Running task, the task ends Failed with a non-empty message and no output.
pub proof fn law_image_failure_fails_task(
    payload: serde_json::Value,
    h: HandlerResult,
    pre: BrokerState,
    post: BrokerState,
    id: u128,
    r: Result<Task, TaskError>,
)
    requires
        image_outcome(h, payload),
        h.error is Some,
        pre.task_map().contains_key(id),
        pre.task_map()[id].status == TaskStatus::Running,
        BrokerState::finishes(pre, post, id, SubmitResultRequest { output: h.output, error: h.error }, r),
    ensures
        r is Ok,
        r->Ok_0.status == TaskStatus::Failed,
        r->Ok_0.result is Some,
        r->Ok_0.result->0.output is None,
        r->Ok_0.result->0.error is Some,
        r->Ok_0.result->0.error->0@.len() > 0,
{
    reveal_strlit("Missing image field");
    reveal_strlit("Base 64 decode failed");
    reveal_strlit("image decode failed");
    reveal_strlit("Image resolution too low : ");
    assert(h.error->0@.len() > 0);
}

/// The task that a report `req` turns the Running task `before` into.
pub open spec fn reports(before: Task, req: SubmitResultRequest, after: Task) -> bool {
    &&& after.same_work(before)
    &&& after.started_at == before.started_at
    &&& after.completed_at is Some
    &&& match req.error {
        Some(e) => after.status == TaskStatus::Failed && after.result == Some(
            crate::task::TaskResult { output: None, error: Some(e) },
        ),
        None => match req.output {
            Some(o) => after.status == TaskStatus::Completed && after.result == Some(
                crate::task::TaskResult { output: Some(o), error: None },
            ),
            None => {
                &&& after.status == TaskStatus::Failed
                &&& after.result is Some
                &&& after.result->0.output is None
                &&& after.result->0.error is Some
                &&& after.result->0.error->0@ == MISSING_OUTCOME_MESSAGE@
            },
        },
    }
}

} // verus!
