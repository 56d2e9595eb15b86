//! Decision logic of a small local file-sharing server: which stored files a
//! list request names, what an upload request leads to, and which port the
//! server takes.
//!
//! The library touches neither the network nor the disk. The server around
//! it reads the storage directory, the request body and the sockets, hands
//! what it found to the functions here, and carries out what they decide.
//!
//! - [`listing`]: the filters of a list request and the names it returns.
//! - [`upload`]: the steps of an upload request and its answer.
//! - [`port`]: the scan for a free port.
//! - [`storage`]: the storage directory as the requests see it.
//! - [`status`]: the statuses of the answers.
//! - [`text`]: the text operations under the filters.

pub mod listing;
pub mod port;
pub mod status;
pub mod storage;
pub mod text;
pub mod upload;
