//! Principal-scoped execution of signed compute workers: request builders
//! and the records the host reports back.
use vstd::prelude::*;

verus! {

/// Whether a group may run workers concurrently.
#[derive(Debug, Clone, Copy, PartialEq, Eq)]
pub enum ExecutionMode {
    /// One worker and FIFO dispatch for reproducible execution.
    Deterministic,
    /// The admitted worker count may execute concurrently.
    Parallel,
}

/// How the host resolves the requested worker count.
#[derive(Debug, Clone, Copy, PartialEq, Eq)]
pub enum Parallelism {
    /// Use useful host parallelism subject to policy and reservations.
    Auto,
    /// Admit exactly this many workers or fail.
    Exact(u32),
    /// Admit at least one and no more than this many workers.
    AtMost(u32),
}

/// Parameters for opening a compute group.
#[derive(Debug, Clone, PartialEq, Eq)]
pub struct GroupRequest {
    /// Signed `compute-worker` component id from the capsule manifest.
    pub worker: String,
    /// Deterministic or concurrent execution.
    pub mode: ExecutionMode,
    /// Requested worker count.
    pub parallelism: Parallelism,
    /// Initial shared-memory size in 64-KiB pages.
    pub initial_memory_pages: u32,
    /// Maximum shared-memory size in 64-KiB pages; zero asks the host to
    /// choose the maximum at admission.
    pub maximum_memory_pages: u32,
}

impl GroupRequest {
    /// A deterministic one-worker request for `worker` with the given
    /// initial and maximum memory.
    pub fn new(worker: &str, initial_memory_pages: u32, maximum_memory_pages: u32) -> (r: GroupRequest)
        ensures
            r.worker@ == worker@,
            r.mode == ExecutionMode::Deterministic,
            r.parallelism == Parallelism::Exact(1),
            r.initial_memory_pages == initial_memory_pages,
            r.maximum_memory_pages == maximum_memory_pages,
    {
        GroupRequest {
            worker: String::from_str(worker),
            mode: ExecutionMode::Deterministic,
            parallelism: Parallelism::Exact(1),
            initial_memory_pages,
            maximum_memory_pages,
        }
    }

    /// The same request with the memory maximum left to host admission.
    pub fn auto_memory(self) -> (r: GroupRequest)
        ensures
            r.worker@ == self.worker@,
            r.mode == self.mode,
            r.parallelism == self.parallelism,
            r.initial_memory_pages == self.initial_memory_pages,
            r.maximum_memory_pages == 0,
    {
        let mut r = self;
        r.maximum_memory_pages = 0;
        r
    }

    /// The same request with concurrent execution under `parallelism`.
    pub fn parallel(self, parallelism: Parallelism) -> (r: GroupRequest)
        ensures
            r.worker@ == self.worker@,
            r.mode == ExecutionMode::Parallel,
            r.parallelism == parallelism,
            r.initial_memory_pages == self.initial_memory_pages,
            r.maximum_memory_pages == self.maximum_memory_pages,
    {
        let mut r = self;
        r.mode = ExecutionMode::Parallel;
        r.parallelism = parallelism;
        r
    }

    /// The same request forced back to reproducible one-worker execution.
    pub fn deterministic(self) -> (r: GroupRequest)
        ensures
            r.worker@ == self.worker@,
            r.mode == ExecutionMode::Deterministic,
            r.parallelism == Parallelism::Exact(1),
            r.initial_memory_pages == self.initial_memory_pages,
            r.maximum_memory_pages == self.maximum_memory_pages,
    {
        let mut r = self;
        r.mode = ExecutionMode::Deterministic;
        r.parallelism = Parallelism::Exact(1);
        r
    }
}

/// Capsule-defined range and metadata for one worker invocation.
#[derive(Debug, Clone, Copy, PartialEq, Eq)]
pub struct WorkDescriptor {
    /// Byte offset in shared memory (the first 64 bytes are host-reserved).
    pub offset: u64,
    /// Byte length beginning at `offset`.
    pub length: u64,
    /// Opaque capsule-defined value passed to the worker.
    pub tag: u64,
    /// Optional exact worker index.
    pub worker_index: Option<u32>,
    /// Optional per-job fuel self-limit.
    pub fuel: Option<u64>,
}

impl WorkDescriptor {
    /// A descriptor for the next available worker, with no fuel limit.
    pub fn new(offset: u64, length: u64, tag: u64) -> (d: WorkDescriptor)
        ensures
            d == (WorkDescriptor { offset, length, tag, worker_index: None, fuel: None }),
    {
        WorkDescriptor { offset, length, tag, worker_index: None, fuel: None }
    }

    /// The same descriptor pinned to worker `worker_index`.
    pub fn on_worker(self, worker_index: u32) -> (d: WorkDescriptor)
        ensures
            d == (WorkDescriptor { worker_index: Some(worker_index), ..self }),
    {
        WorkDescriptor { worker_index: Some(worker_index), ..self }
    }

    /// The same descriptor with a per-job fuel self-limit.
    pub fn with_fuel(self, fuel: u64) -> (d: WorkDescriptor)
        ensures
            d == (WorkDescriptor { fuel: Some(fuel), ..self }),
    {
        WorkDescriptor { fuel: Some(fuel), ..self }
    }
}

/// Lifecycle state of a submitted invocation.
#[derive(Debug, Clone, Copy, PartialEq, Eq)]
pub enum JobState {
    Queued,
    Running,
    Completed,
    Cancelled,
    Failed,
}

/// Non-blocking job snapshot.
#[derive(Debug, Clone, Copy, PartialEq, Eq)]
pub struct JobStatus {
    pub state: JobState,
    pub worker_index: Option<u32>,
}

/// Terminal worker result.
#[derive(Debug, Clone, Copy, PartialEq, Eq)]
pub struct JobResult {
    pub state: JobState,
    pub worker_index: u32,
    pub worker_status: i32,
    pub fuel_consumed: u64,
    pub elapsed_ns: u64,
}

/// Host-stamped group accounting.
#[derive(Debug, Clone, Copy, PartialEq, Eq)]
pub struct Accounting {
    pub workers_reserved: u32,
    pub memory_bytes_current: u64,
    pub memory_bytes_peak: u64,
    pub jobs_submitted: u64,
    pub jobs_completed: u64,
    pub jobs_cancelled: u64,
    pub jobs_failed: u64,
    pub fuel_consumed: u64,
}

/// Configuration and live counters for an open group.
#[derive(Debug, Clone, PartialEq, Eq)]
pub struct GroupInfo {
    pub worker: String,
    pub mode: ExecutionMode,
    pub parallelism: u32,
    pub memory_pages: u32,
    pub maximum_memory_pages: u32,
    pub queued_jobs: u32,
    pub running_jobs: u32,
    pub usage: Accounting,
}

} // verus!
