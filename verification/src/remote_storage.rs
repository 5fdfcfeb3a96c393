//! Remote storage: files kept with the runtime and items published from them.
//!
//! Every call into the runtime is made by the caller. What stands here is
//! what is decided around those calls: which options a publication is made
//! with, what a start call's answer means, how each kind of result is laid
//! out and what it comes to.

use crate::client::Client;
use crate::error::{Error, RawResult};
use crate::future::Handle;
use crate::interface::{Interface, MaybeRaw, Raw};
use crate::layout::{flag, le_u32, le_u64, read_flag, read_u32, read_u64};
use crate::utils::{APICallResult, MaybeAPICall, Utils};
use vstd::prelude::*;

verus! {

/// The name under which the root interface gives out remote storage.
pub const REMOTE_STORAGE_VERSION: &'static str = "STEAMREMOTESTORAGE_INTERFACE_VERSION014";

/// A published item, as the runtime numbers it.
#[derive(Clone, Copy, Debug, PartialEq, Eq, Hash, Structural)]
pub struct Item(pub u64);

/// Who may see a published item.
#[derive(Clone, Copy, Debug, PartialEq, Eq, Structural)]
pub enum Visibility {
    Public,
    FriendsOnly,
    Private,
}

/// What kind of thing a published item is.
#[derive(Clone, Copy, Debug, PartialEq, Eq, Structural)]
pub enum FileType {
    Community,
    Microtransaction,
    Collection,
}

impl Visibility {
    /// The number by which the runtime knows this visibility.
    pub open spec fn code(self) -> u32 {
        match self {
            Visibility::Public => 0,
            Visibility::FriendsOnly => 1,
            Visibility::Private => 2,
        }
    }

    /// The number to hand to the runtime.
    pub fn to_raw(self) -> (raw: u32)
        ensures
            raw == self.code(),
    {
        match self {
            Visibility::Public => 0,
            Visibility::FriendsOnly => 1,
            Visibility::Private => 2,
        }
    }
}

impl FileType {
    /// The number by which the runtime knows this kind of item.
    pub open spec fn code(self) -> u32 {
        match self {
            FileType::Community => 0,
            FileType::Microtransaction => 1,
            FileType::Collection => 2,
        }
    }

    /// The number to hand to the runtime.
    pub fn to_raw(self) -> (raw: u32)
        ensures
            raw == self.code(),
    {
        match self {
            FileType::Community => 0,
            FileType::Microtransaction => 1,
            FileType::Collection => 2,
        }
    }
}

/// The result of writing a file: a status and nothing else.
#[derive(Clone, Copy, Debug, PartialEq, Eq, Structural)]
pub struct FileWriteResult {
    pub result: RawResult,
}

/// The result of publishing an item or of committing an update to one: a
/// status, the item, and whether the user has yet to accept the legal
/// agreement that publishing falls under.
#[derive(Clone, Copy, Debug, PartialEq, Eq, Structural)]
pub struct PublishedFile {
    pub result: RawResult,
    pub item: Item,
    pub accept_agreement: bool,
}

/// The result of publishing an item.
#[derive(Clone, Copy, Debug, PartialEq, Eq, Structural)]
pub struct PublishResult(pub PublishedFile);

/// The result of committing an update to an item.
#[derive(Clone, Copy, Debug, PartialEq, Eq, Structural)]
pub struct UpdateResult(pub PublishedFile);

impl FileWriteResult {
    /// Whether `to_result` can read this result: its status is known.
    pub open spec fn readable(self) -> bool {
        self.result.known()
    }

    /// What the write came to.
    pub open spec fn outcome(self) -> Result<(), Error> {
        self.result.outcome()
    }

    /// Tells whether `to_result` can read this result.
    pub fn is_readable(&self) -> (readable: bool)
        ensures
            readable == self.readable(),
    {
        self.result.is_known()
    }

    /// What the write came to: nothing to report, or the failure.
    pub fn to_result(self) -> (result: Result<(), Error>)
        requires
            self.readable(),
        ensures
            result == self.outcome(),
    {
        self.result.to_result()
    }
}

impl PublishedFile {
    /// Whether `to_result` can read this result: its status is known and
    /// no agreement is asked for. What to do when one is asked for has not
    /// been settled, so such a result is not read at all.
    pub open spec fn readable(self) -> bool {
        !self.accept_agreement && self.result.known()
    }

    /// What the operation came to: the item when the status is success,
    /// else the failure that the status stands for.
    pub open spec fn outcome(self) -> Result<Item, Error> {
        match self.result.outcome() {
            Ok(_) => Ok(self.item),
            Err(error) => Err(error),
        }
    }

    /// The fields as they lie in a buffer of 13 bytes: the status in the
    /// first four, the item in the next eight, the flag in the last.
    pub open spec fn decoded(bytes: Seq<u8>) -> Self {
        PublishedFile {
            result: RawResult(le_u32(bytes, 0)),
            item: Item(le_u64(bytes, 4)),
            accept_agreement: flag(bytes, 12),
        }
    }

    /// Reads the fields out of a buffer of 13 bytes.
    pub fn decode(bytes: &[u8]) -> (value: Self)
        requires
            bytes@.len() == 13,
        ensures
            value == Self::decoded(bytes@),
    {
        assert(bytes.len() == 13);
        PublishedFile {
            result: RawResult(read_u32(bytes, 0)),
            item: Item(read_u64(bytes, 4)),
            accept_agreement: read_flag(bytes, 12),
        }
    }

    /// Tells whether `to_result` can read this result.
    pub fn is_readable(&self) -> (readable: bool)
        ensures
            readable == self.readable(),
    {
        !self.accept_agreement && self.result.is_known()
    }

    /// What the operation came to: the item, or the failure.
    pub fn to_result(self) -> (result: Result<Item, Error>)
        requires
            self.readable(),
        ensures
            result == self.outcome(),
            result is Ok <==> self.result.0 == 1,
    {
        match self.result.to_result() {
            Ok(_) => Ok(self.item),
            Err(error) => Err(error),
        }
    }
}

impl APICallResult for FileWriteResult {
    open spec fn spec_id() -> u32 {
        1331
    }

    open spec fn spec_size() -> u32 {
        4
    }

    fn id() -> (id: u32) {
        1331
    }

    fn size() -> (size: u32) {
        4
    }

    open spec fn decoded(bytes: Seq<u8>) -> Self {
        FileWriteResult { result: RawResult(le_u32(bytes, 0)) }
    }

    fn decode(bytes: &[u8]) -> (value: Self) {
        assert(bytes.len() == 4);
        FileWriteResult { result: RawResult(read_u32(bytes, 0)) }
    }
}

impl APICallResult for PublishResult {
    open spec fn spec_id() -> u32 {
        1309
    }

    open spec fn spec_size() -> u32 {
        13
    }

    fn id() -> (id: u32) {
        1309
    }

    fn size() -> (size: u32) {
        13
    }

    open spec fn decoded(bytes: Seq<u8>) -> Self {
        PublishResult(PublishedFile::decoded(bytes))
    }

    fn decode(bytes: &[u8]) -> (value: Self) {
        PublishResult(PublishedFile::decode(bytes))
    }
}

impl APICallResult for UpdateResult {
    open spec fn spec_id() -> u32 {
        1316
    }

    open spec fn spec_size() -> u32 {
        13
    }

    fn id() -> (id: u32) {
        1316
    }

    fn size() -> (size: u32) {
        13
    }

    open spec fn decoded(bytes: Seq<u8>) -> Self {
        UpdateResult(PublishedFile::decoded(bytes))
    }

    fn decode(bytes: &[u8]) -> (value: Self) {
        UpdateResult(PublishedFile::decode(bytes))
    }
}

/// The remote storage interface of a session.
pub struct RemoteStorage<'a> {
    address: usize,
    utils: Utils<'a>,
}

impl Interface for RemoteStorage<'_> {

}

/// An update to a published item that is being put together.
pub struct ItemUpdater<'a> {
    remote_storage: &'a RemoteStorage<'a>,
    update_handle: u64,
}

impl<'a> RemoteStorage<'a> {
    #[verifier::type_invariant]
    spec fn live(self) -> bool {
        self.address != 0
    }

    /// The address of the interface.
    pub closed spec fn view(&self) -> usize {
        self.address
    }

    /// The registry accessor through which operations on the storage are
    /// polled.
    pub closed spec fn registry(&self) -> Utils<'a> {
        self.utils
    }

    /// Takes what the lookup of the interface under
    /// `REMOTE_STORAGE_VERSION`, through the root interface of `client`,
    /// returned. A null address means that the session has no remote
    /// storage.
    pub fn new(client: &Client<'a>, found: MaybeRaw<RemoteStorage<'a>>) -> (storage: Option<Self>)
        ensures
            found@ == 0 <==> storage is None,
            storage matches Some(s) ==> s@ == found@ && s.registry() == client.registry(),
    {
        match found.check() {
            Some(raw) => Some(
                RemoteStorage { address: raw.address(), utils: client.utils().clone() },
            ),
            None => None,
        }
    }

    /// The handle to the interface, to hand to the runtime.
    pub fn raw(&self) -> (raw: Raw<RemoteStorage<'a>>)
        ensures
            raw@ == self@,
    {
        proof {
            use_type_invariant(self);
        }
        Raw::at(self.address)
    }

    /// The registry accessor through which operations on the storage are
    /// polled.
    pub fn utils(&self) -> (utils: &Utils<'a>)
        ensures
            *utils == self.registry(),
    {
        &self.utils
    }

    /// Takes the answer of the call that starts writing a file. A zero
    /// ticket means that the write was not started.
    pub fn file_write(&'a self, api_call: MaybeAPICall) -> (pending: Option<
        Handle<'a, FileWriteResult>,
    >)
        ensures
            api_call.0 == 0 <==> pending is None,
            pending matches Some(h) ==> h.ticket()@ == api_call.0 && h.registry()
                == self.registry(),
    {
        Handle::new(api_call, self.utils.clone())
    }

    /// Takes the answer of the call that deletes a file.
    pub fn file_delete(&self, deleted: bool) -> (result: Result<(), ()>)
        ensures
            deleted <==> result is Ok,
    {
        if deleted {
            Ok(())
        } else {
            Err(())
        }
    }

    /// The visibility with which items are published.
    pub fn publish_visibility(&self) -> (visibility: Visibility)
        ensures
            visibility == Visibility::Public,
    {
        Visibility::Public
    }

    /// The kind as which items are published.
    pub fn publish_file_type(&self) -> (file_type: FileType)
        ensures
            file_type == FileType::Community,
    {
        FileType::Community
    }

    /// Takes the answer of the call that starts publishing an item. A zero
    /// ticket means that the publication was not started.
    pub fn publish(&'a self, api_call: MaybeAPICall) -> (pending: Option<Handle<'a, PublishResult>>)
        ensures
            api_call.0 == 0 <==> pending is None,
            pending matches Some(h) ==> h.ticket()@ == api_call.0 && h.registry()
                == self.registry(),
    {
        Handle::new(api_call, self.utils.clone())
    }

    /// Takes the number under which the runtime opened an update to an item
    /// and begins to put the update together.
    pub fn update(&'a self, update_handle: u64) -> (updater: ItemUpdater<'a>)
        ensures
            updater.storage() == self,
            updater@ == update_handle,
    {
        ItemUpdater { remote_storage: self, update_handle }
    }
}

impl<'a> ItemUpdater<'a> {
    /// The number under which the runtime keeps the update.
    pub closed spec fn view(&self) -> u64 {
        self.update_handle
    }

    /// The storage whose item is updated.
    pub closed spec fn storage(&self) -> &'a RemoteStorage<'a> {
        self.remote_storage
    }

    /// The storage whose item is updated.
    pub fn remote_storage(&self) -> (storage: &'a RemoteStorage<'a>)
        ensures
            storage == self.storage(),
    {
        self.remote_storage
    }

    /// The number under which the runtime keeps the update, to hand to the
    /// runtime.
    pub fn update_handle(&self) -> (update_handle: u64)
        ensures
            update_handle == self@,
    {
        self.update_handle
    }

    /// Takes the answer of a call that set one part of the update: the
    /// file, the preview, the title, the description, the description of
    /// the change or the tags. The update goes on unchanged when the
    /// runtime took the part, and is given up when it did not.
    pub fn updated(self, accepted: bool) -> (next: Result<Self, ()>)
        ensures
            accepted <==> next is Ok,
            next matches Ok(updater) ==> updater == self,
    {
        if accepted {
            Ok(self)
        } else {
            Err(())
        }
    }

    /// Takes the answer of the call that set the tags of the update.
    pub fn tags(self, accepted: bool) -> (next: Result<Self, ()>)
        ensures
            accepted <==> next is Ok,
            next matches Ok(updater) ==> updater == self,
    {
        self.updated(accepted)
    }

    /// Takes the answer of the call that commits the update. A zero ticket
    /// means that the commit was not started.
    pub fn finish(self, api_call: MaybeAPICall) -> (pending: Option<Handle<'a, UpdateResult>>)
        ensures
            api_call.0 == 0 <==> pending is None,
            pending matches Some(h) ==> h.ticket()@ == api_call.0 && h.registry()
                == self.storage().registry(),
    {
        Handle::new(api_call, self.remote_storage.utils.clone())
    }
}

} // verus!
