//! The decisions of the worker's poll loop. The loop itself (the requests to
//! the broker and the pause between polls) runs outside the library: it asks
//! for the next task, lets `Worker::poll_step` judge the answer, and reports
//! what `Worker::process_task` decides.

use vstd::prelude::*;
use vstd::string::StringExecFns;

use crate::external::{parse_u64, u64_parsed, uuid_hyphenated, uuid_text};
use crate::handler::{handler_outcome, HandlerRegistry, HandlerResult};
use crate::task::{SubmitResultRequest, Task};

verus! {

/// The broker address used where none is configured.
pub const DEFAULT_BROKER_URL: &'static str = "http://localhost:3000";

/// The worker name used where none is configured.
pub const DEFAULT_WORKER_NAME: &'static str = "default-worker";

/// The pause between polls, in milliseconds, where none is configured.
pub const DEFAULT_POLL_INTERVAL_MS: u64 = 1000;

/// Where the broker is, what this worker is called and how often it polls.
#[derive(Debug, Clone)]
pub struct WorkerConfig {
    pub broker_url: String,
    pub worker_name: String,
    pub poll_interval_ms: u64,
}

impl WorkerConfig {
    /// A configuration from optional settings: each missing one takes its
    /// default, and a poll interval that is no `u64` is taken as missing.
    pub fn from_values(
        broker_url: Option<String>,
        worker_name: Option<String>,
        poll_interval_ms: Option<String>,
    ) -> (r: WorkerConfig)
        ensures
            r.broker_url@ == match broker_url {
                Some(u) => u@,
                None => DEFAULT_BROKER_URL@,
            },
            r.worker_name@ == match worker_name {
                Some(n) => n@,
                None => DEFAULT_WORKER_NAME@,
            },
            r.poll_interval_ms == match poll_interval_ms {
                Some(p) => match u64_parsed(p@) {
                    Some(ms) => ms,
                    None => DEFAULT_POLL_INTERVAL_MS,
                },
                None => DEFAULT_POLL_INTERVAL_MS,
            },
    {
        let broker_url = match broker_url {
            Some(u) => u,
            None => DEFAULT_BROKER_URL.to_string(),
        };
        let worker_name = match worker_name {
            Some(n) => n,
            None => DEFAULT_WORKER_NAME.to_string(),
        };
        let poll_interval_ms = match poll_interval_ms {
            Some(p) => match parse_u64(p.as_str()) {
                Some(ms) => ms,
                None => DEFAULT_POLL_INTERVAL_MS,
            },
            None => DEFAULT_POLL_INTERVAL_MS,
        };
        WorkerConfig { broker_url, worker_name, poll_interval_ms }
    }
}

/// How the worker reads the broker's answer to a claim.
#[derive(Debug, Clone, Copy, PartialEq, Eq, Structural)]
pub enum PollStep {
    /// No task is pending: wait for the next poll.
    NoWork,
    /// The broker answered with a failure status: note it and wait.
    Refused,
    /// The answer carries a claimed task.
    Received,
}

/// A worker: its configuration and its handlers.
pub struct Worker {
    pub config: WorkerConfig,
    pub registry: HandlerRegistry,
}

impl Worker {
    /// A worker with the given configuration and handlers.
    pub fn new(config: WorkerConfig, registry: HandlerRegistry) -> (r: Worker)
        ensures
            r.config == config,
            r.registry == registry,
    {
        Worker { config, registry }
    }

    /// Reads the HTTP status of a claim: 204 means no work, another 2xx status
    /// carries a task, anything else is a refusal.
    pub fn poll_step(status: u16) -> (r: PollStep)
        ensures
            status == 204 ==> r == PollStep::NoWork,
            status != 204 && 200 <= status < 300 ==> r == PollStep::Received,
            !(200 <= status < 300) ==> r == PollStep::Refused,
    {
        if status == 204 {
            PollStep::NoWork
        } else if 200 <= status && status < 300 {
            PollStep::Received
        } else {
            PollStep::Refused
        }
    }

    /// Decides the report for a claimed task: `None` where no handler is
    /// registered for its type (a routing miss, reported to nobody), else the
    /// handler's outcome as a report.
    pub fn process_task(&self, task: &Task) -> (r: Option<SubmitResultRequest>)
        requires
            self.registry.wf(),
        ensures
            match r {
                None => !self.registry@.contains_key(task.task_type@),
                Some(req) => {
                    &&& self.registry@.contains_key(task.task_type@)
                    &&& handler_outcome(
                        self.registry@[task.task_type@],
                        task.payload,
                        HandlerResult { output: req.output, error: req.error },
                    )
                    &&& req.output.is_some() != req.error.is_some()
                },
            },
    {
        match self.registry.get(task.task_type.as_str()) {
            None => None,
            Some(handler) => {
                let result = handler.handle(task);
                Some(SubmitResultRequest { output: result.output, error: result.error })
            },
        }
    }

    /// Where the worker asks for the next task.
    pub fn next_task_url(&self) -> (r: String)
        ensures
            r@ == self.config.broker_url@ + "/task/next"@,
    {
        self.config.broker_url.clone().concat("/task/next")
    }

    /// Where the worker reports on task `id`.
    pub fn result_url(&self, id: u128) -> (r: String)
        ensures
            r@ == self.config.broker_url@ + "/task/"@ + uuid_hyphenated(id) + "/result"@,
    {
        self.config.broker_url.clone().concat("/task/").concat(uuid_text(id).as_str()).concat(
            "/result",
        )
    }
}

} // verus!
