use vstd::prelude::*;

verus! {

/// The ways a synchronization can fail.
#[derive(Debug, PartialEq, Eq)]
pub enum SyncError {
    /// No page of that title exists in the space.
    NotFound { title: String },
    /// The service rejected the credentials; `body` is its reply.
    Unauthorized { body: String },
    /// A page of that title already exists in the space.
    Conflict { body: String },
    /// The version sent does not follow the stored one: another writer won.
    VersionConflict { body: String },
    /// No reply came: the connection failed.
    Transport { message: String },
    /// Any other failed reply, with its status and body.
    RemoteError { status: u16, body: String },
    /// The source text could not be read.
    LocalIo { message: String },
}

} // verus!
