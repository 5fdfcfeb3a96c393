//! Operation tickets and the registry that answers for them.
//!
//! An operation that the runtime accepts is named by a ticket. The runtime
//! keeps a registry of its operations; the accessor to it, `Utils`, comes
//! with the client. Two questions can be put to the registry: whether the
//! operation behind a ticket has completed, and, once it has, what its
//! result is. This module says what is asked in the second case and how the
//! answer is read; putting the questions is left to the caller.

use crate::client::Client;
use crate::interface::{Interface, Raw};
use core::marker::PhantomData;
use vstd::prelude::*;
use vstd::std_specs::cmp::PartialEqSpecImpl;

verus! {

/// The raw value a start-operation call hands back: zero when the runtime
/// refused the operation on the spot, otherwise the ticket of the operation
/// now in flight.
#[derive(Clone, Copy, Debug, PartialEq, Eq, Structural)]
pub struct MaybeAPICall(pub u64);

/// The ticket of an operation in flight. It is never zero.
#[derive(Clone, Copy, Debug, Eq)]
pub struct APICall<'a> {
    id: u64,
    scope: PhantomData<&'a ()>,
}

impl<'a> APICall<'a> {
    #[verifier::type_invariant]
    spec fn nonzero(self) -> bool {
        self.id != 0
    }

    /// The number that names the operation.
    pub closed spec fn view(&self) -> u64 {
        self.id
    }

    /// Accepts a raw ticket unless it is zero. A zero ticket means that the
    /// operation was never started, so there is nothing to wait for.
    pub fn new(api_call: MaybeAPICall) -> (call: Option<Self>)
        ensures
            api_call.0 == 0 <==> call is None,
            call matches Some(c) ==> c@ == api_call.0,
    {
        if api_call.0 == 0 {
            None
        } else {
            Some(APICall { id: api_call.0, scope: PhantomData })
        }
    }

    /// The number that names the operation, to hand to the runtime.
    pub fn id(&self) -> (id: u64)
        ensures
            id == self@,
            id != 0,
    {
        proof {
            use_type_invariant(self);
        }
        self.id
    }
}

impl PartialEq for APICall<'_> {
    fn eq(&self, other: &Self) -> (equal: bool) {
        self.id == other.id
    }
}

impl PartialEqSpecImpl for APICall<'_> {
    open spec fn obeys_eq_spec() -> bool {
        true
    }

    open spec fn eq_spec(&self, other: &Self) -> bool {
        self@ == other@
    }
}

/// The shape of one kind of result: the number by which the runtime knows
/// the kind, the size of its buffer, and how the fields are read out of it.
pub trait APICallResult: Sized {
    /// The number by which the runtime knows this kind of result.
    spec fn spec_id() -> u32;

    /// The number of bytes in a result of this kind.
    spec fn spec_size() -> u32;

    /// The value that a buffer of that many bytes holds.
    spec fn decoded(bytes: Seq<u8>) -> Self;

    /// The number by which the runtime knows this kind of result.
    fn id() -> (id: u32)
        ensures
            id == Self::spec_id(),
    ;

    /// The number of bytes in a result of this kind.
    fn size() -> (size: u32)
        ensures
            size == Self::spec_size(),
    ;

    /// Reads the value out of a buffer of the right size.
    fn decode(bytes: &[u8]) -> (value: Self)
        requires
            bytes@.len() == Self::spec_size(),
        ensures
            value == Self::decoded(bytes@),
    ;
}

/// What is asked of the registry to get at a result: the ticket, the kind
/// of result expected and the size of the buffer that is ready for it.
#[derive(Clone, Copy, Debug)]
pub struct FetchRequest<'a> {
    pub call: APICall<'a>,
    pub kind: u32,
    pub size: u32,
}

/// What the registry answered to a `FetchRequest`.
#[derive(Debug)]
pub struct FetchReply {
    /// Whether the registry filled the buffer. It refuses when the kind or
    /// the size asked for is not that of the result it holds.
    pub accepted: bool,
    /// The registry's second flag, which claims that the operation failed on
    /// I/O. It is raised without cause and is not to be relied on, so
    /// nothing in this library reads it.
    pub io_failure: bool,
    /// The buffer as the registry left it.
    pub payload: Vec<u8>,
}

impl FetchReply {
    /// Whether the reply holds a result of kind `T`: the registry accepted
    /// the request and the buffer has the size of `T`.
    pub open spec fn holds<T: APICallResult>(&self) -> bool {
        self.accepted && self.payload@.len() == T::spec_size()
    }

    /// What reading a result of kind `T` out of the reply gives.
    pub open spec fn result<T: APICallResult>(&self) -> Result<T, ()> {
        if self.holds::<T>() {
            Ok(T::decoded(self.payload@))
        } else {
            Err(())
        }
    }
}

/// Reading a reply never depends on its I/O flag: two replies that differ in
/// nothing else hold the same result, or both none.
pub proof fn lemma_io_failure_is_ignored<T: APICallResult>(one: &FetchReply, other: &FetchReply)
    requires
        one.accepted == other.accepted,
        one.payload@ == other.payload@,
    ensures
        one.result::<T>() == other.result::<T>(),
{
}

/// A reply whose buffer is not of the size of `T` holds no result of kind
/// `T`, whatever else it says.
pub proof fn lemma_size_mismatch_is_failure<T: APICallResult>(reply: &FetchReply)
    requires
        reply.payload@.len() != T::spec_size(),
    ensures
        reply.result::<T>() == Err::<T, ()>(()),
{
}

/// The accessor to the runtime's registry of operations.
pub struct Utils<'a> {
    address: usize,
    scope: PhantomData<&'a ()>,
}

impl Interface for Utils<'_> {

}

impl<'a> Utils<'a> {
    #[verifier::type_invariant]
    spec fn live(self) -> bool {
        self.address != 0
    }

    /// The address of the accessor.
    pub closed spec fn view(&self) -> usize {
        self.address
    }

    /// The accessor behind a live handle.
    pub(crate) fn over(raw: Raw<Utils<'a>>) -> (utils: Self)
        ensures
            utils@ == raw@,
    {
        Utils { address: raw.address(), scope: PhantomData }
    }

    /// The accessor that `client` obtained when it was made.
    pub fn new(client: &Client<'a>) -> (utils: Option<Self>)
        ensures
            utils == Some(client.registry()),
    {
        Some(client.utils().clone())
    }

    /// The handle to the accessor, to hand to the runtime.
    pub fn raw(&self) -> (raw: Raw<Utils<'a>>)
        ensures
            raw@ == self@,
    {
        proof {
            use_type_invariant(self);
        }
        Raw::at(self.address)
    }

    /// What to ask of the registry for the result of `call`, expected to be
    /// of kind `T`. The question may be put only once the registry has said
    /// that the operation completed; earlier, what comes back means nothing.
    pub fn apicall_result_request<T: APICallResult>(&self, call: APICall<'a>) -> (request:
        FetchRequest<'a>)
        ensures
            request == (FetchRequest { call, kind: T::spec_id(), size: T::spec_size() }),
    {
        FetchRequest { call, kind: T::id(), size: T::size() }
    }

    /// Reads a result of kind `T` out of the registry's reply. Fails when
    /// the registry refused the request or the buffer is not of the size of
    /// `T`; the reply's I/O flag is ignored.
    pub fn get_apicall_result<T: APICallResult>(&self, reply: &FetchReply) -> (result: Result<
        T,
        (),
    >)
        ensures
            result == reply.result::<T>(),
            reply.payload@.len() != T::spec_size() ==> result is Err,
            !reply.accepted ==> result is Err,
    {
        if reply.accepted && reply.payload.len() == T::size() as usize {
            Ok(T::decode(reply.payload.as_slice()))
        } else {
            Err(())
        }
    }
}

impl Clone for Utils<'_> {
    fn clone(&self) -> (copy: Self)
        ensures
            copy == *self,
    {
        proof {
            use_type_invariant(self);
        }
        Utils { address: self.address, scope: PhantomData }
    }
}

} // verus!
