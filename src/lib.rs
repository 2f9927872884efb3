//! Correlates conversion jobs with the browser sessions that submitted them
//! and routes each job's completion to that session's live connection.
//!
//! A job registry remembers which session owns each outstanding job; a
//! connection registry holds, for each session with a live connection, the
//! queue that connection relays. A completion callback claims its job from
//! the first and queues one notification in the second.
mod table;
pub mod text;
pub mod jobs;
pub mod notification;
pub mod registry;
pub mod response;
pub mod dispatch;
pub mod session;
pub mod errors;
pub mod download;
pub mod search;
pub mod submit;

pub use dispatch::{claim, deliver, dispatch, Callback, Claim, DispatchError};
pub use errors::{internal_error, ConverterError};
pub use jobs::JobId;
pub use notification::{JobStatus, SocketMessage};
pub use registry::{AlreadyConnected, ConnectionRegistry, DuplicateJob, JobRegistry};
pub use response::{find_export_task, CreateResponse, Job, JobTask, TaskFile, TaskResult};
pub use search::SearchQuery;
pub use session::{Frame, Phase, SocketSession};
