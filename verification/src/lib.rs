//! Client-side logic for the Connected Papers graph service.
//!
//! The service computes the graph of a paper asynchronously, so a client has
//! to poll until the graph is ready. This crate holds the part of such a
//! client that can be reasoned about: how a reply is decoded and classified,
//! when polling stops, how failed attempts are retried and how the newest
//! graph is carried from one poll to the next. Performing the requests and
//! waiting between them is left to the caller, who reports every reply to the
//! state machine in [`poll`].
//!
//! Every function here is verified against the contract it carries. The JSON
//! itself is read by `serde_json`; what is taken on trust about it is
//! gathered in [`json`].

pub mod aggregate;
pub mod client;
pub mod graph;
pub mod json;
pub mod laws;
pub mod poll;
pub mod response;
pub mod status;
pub mod text;

pub use crate::aggregate::aggregate;
pub use crate::aggregate::Aggregate;
pub use crate::client::ApiRequest;
pub use crate::client::ConnectedPapersClient;
pub use crate::graph::BasePaper;
pub use crate::graph::CommonAuthor;
pub use crate::graph::CommonCitation;
pub use crate::graph::CommonReference;
pub use crate::graph::ExternalIDs;
pub use crate::graph::PaperAuthor;
pub use crate::graph::PaperID;
pub use crate::poll::GraphPoll;
pub use crate::poll::PollAction;
pub use crate::poll::PollConfig;
pub use crate::poll::Transcript;
pub use crate::response::ClientError;
pub use crate::response::GraphResponse;
pub use crate::response::GraphSnapshot;
pub use crate::response::Progress;
pub use crate::response::TransportReply;
pub use crate::status::is_end_status;
pub use crate::status::GraphResponseStatuses;
