//! A container-backed command-execution worker: the decisions of launching a
//! command in an isolated environment, and the lifecycle of every job.

pub mod ids;
pub mod job;
pub mod launcher;
pub mod laws;
pub mod manager;
pub mod service;
pub mod store;

pub use job::{
    JobId, JobStatus, KillError, LaunchError, LookupError, ProcessState, SubmitError,
    TerminateError,
};
pub use launcher::{get_child, split_command, ContainerConfig, LaunchPlan, Namespace, RootChange, SetupStep};
pub use manager::JobManager;
pub use service::{status_reply, RpcError, ServiceFault, StatusKind, StatusReply, WorkerService};
pub use store::{Job, JobStore};
