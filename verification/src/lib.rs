//! The verified core of a layer over a native client runtime that gives out
//! its interfaces as bare addresses and reports on its operations only when
//! asked.
//!
//! Nothing here calls the runtime. Every function takes what a call into the
//! runtime returned and decides what it means and what is to be done next;
//! the calls themselves are the caller's.

pub mod client;
pub mod error;
pub mod future;
pub mod interface;
pub mod layout;
pub mod remote_storage;
pub mod utils;

pub use crate::client::{
    Client, ClientLookup, Pipe, Steam, User, UtilsLookup, CLIENT_VERSION, UTILS_VERSION,
};
pub use crate::error::{Error, RawResult};
pub use crate::future::{Async, Handle, Step};
pub use crate::interface::{BorrowedRaw, Interface, MaybeRaw, Raw};
pub use crate::remote_storage::{
    FileType, FileWriteResult, Item, ItemUpdater, PublishResult, PublishedFile, RemoteStorage,
    UpdateResult, Visibility, REMOTE_STORAGE_VERSION,
};
pub use crate::utils::{APICall, APICallResult, FetchReply, FetchRequest, MaybeAPICall, Utils};
