//! Mail synchronization and read-state engine: MIME decoding of message
//! files, thread summaries and their lazily loaded messages, a
//! generation-tagged store of query results, and the dwell-timer state
//! machine that marks a viewed thread as read.

pub mod mime;
pub mod read_state;
pub mod store;
pub mod text;
pub mod thread;
