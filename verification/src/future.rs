//! Waiting for an operation by polling.
//!
//! The runtime never announces that an operation has completed: whoever
//! waits has to ask, again and again. A `Handle` holds what one poll needs
//! to know and decides what one poll does. Each poll has up to two steps,
//! and the caller puts both questions to the registry:
//!
//! 1. it asks whether the operation completed and hands the answer to
//!    `Handle::poll`, which either reports that nothing is ready or says
//!    what to fetch;
//! 2. it fetches that and hands the reply to `Handle::resolve`, which reads
//!    the result and gives the final outcome.
//!
//! Nothing here keeps the caller from polling again after the outcome was
//! final; the steps are functions of what they are given, so it would get
//! the same answers for the same replies.

use crate::error::Error;
use crate::utils::{APICall, APICallResult, FetchReply, FetchRequest, MaybeAPICall, Utils};
use core::marker::PhantomData;
use vstd::prelude::*;

verus! {

/// How far a value is from being available.
#[derive(Debug, PartialEq, Eq, Structural)]
pub enum Async<T> {
    /// The value is there.
    Ready(T),
    /// The value is not there yet; ask again later.
    NotReady,
}

/// What a poll has to do after the registry said whether the operation
/// completed.
#[derive(Clone, Copy, Debug)]
pub enum Step<'a> {
    /// The operation has not completed. The poll ends here, with nothing
    /// fetched.
    NotReady,
    /// The operation completed. The poll goes on to fetch its result.
    Fetch(FetchRequest<'a>),
}

/// An operation in flight whose result will be of kind `T`.
pub struct Handle<'a, T: APICallResult> {
    api_call: APICall<'a>,
    utils: Utils<'a>,
    shape: PhantomData<T>,
}

/// The outcome of a poll that got as far as mapping the result: the value,
/// ready, or the failure.
pub open spec fn settled<V>(mapped: Result<V, Error>) -> Result<Async<V>, Error> {
    match mapped {
        Ok(value) => Ok(Async::Ready(value)),
        Err(error) => Err(error),
    }
}

/// The outcome of a poll that fetched `reply`, where `mapped` is what the
/// caller's mapping makes of the result that the reply holds. A reply that
/// holds no result of kind `T` is a failure of its own, `Error::Fail`,
/// whatever the mapping would have said.
pub open spec fn outcome<T: APICallResult, V>(reply: &FetchReply, mapped: Result<V, Error>) -> Result<
    Async<V>,
    Error,
> {
    if reply.holds::<T>() {
        settled(mapped)
    } else {
        Err(Error::Fail)
    }
}

impl<'a, T: APICallResult> Handle<'a, T> {
    /// The ticket of the operation.
    pub closed spec fn ticket(&self) -> APICall<'a> {
        self.api_call
    }

    /// The registry accessor through which the operation is polled.
    pub closed spec fn registry(&self) -> Utils<'a> {
        self.utils
    }

    /// What is asked of the registry once the operation completed.
    pub open spec fn request(&self) -> FetchRequest<'a> {
        FetchRequest { call: self.ticket(), kind: T::spec_id(), size: T::spec_size() }
    }

    /// What a poll does on hearing whether the operation completed.
    pub open spec fn step(&self, completed: bool) -> Step<'a> {
        if completed {
            Step::Fetch(self.request())
        } else {
            Step::NotReady
        }
    }

    /// Starts to wait for the operation that a start call answered with
    /// `api_call`. There is nothing to wait for when the ticket is zero.
    pub fn new(api_call: MaybeAPICall, utils: Utils<'a>) -> (handle: Option<Self>)
        ensures
            api_call.0 == 0 <==> handle is None,
            handle matches Some(h) ==> h.ticket()@ == api_call.0 && h.registry() == utils,
    {
        match APICall::new(api_call) {
            Some(api_call) => Some(Handle { api_call, utils, shape: PhantomData }),
            None => None,
        }
    }

    /// The ticket of the operation, with which to ask the registry whether
    /// it completed.
    pub fn api_call(&self) -> (api_call: APICall<'a>)
        ensures
            api_call == self.ticket(),
    {
        self.api_call
    }

    /// The registry accessor through which the operation is polled.
    pub fn utils(&self) -> (utils: &Utils<'a>)
        ensures
            *utils == self.registry(),
    {
        &self.utils
    }

    /// First step of a poll: takes the registry's answer to whether the
    /// operation completed. While it has not, the poll is over and nothing
    /// is to be fetched; once it has, the poll goes on to fetch the result
    /// of this operation, as kind `T`.
    pub fn poll(&self, completed: bool) -> (step: Step<'a>)
        ensures
            step == self.step(completed),
            !completed ==> step is NotReady,
            completed ==> step == Step::Fetch(self.request()),
    {
        if completed {
            Step::Fetch(self.utils.apicall_result_request::<T>(self.api_call))
        } else {
            Step::NotReady
        }
    }

    /// Reads the result out of the registry's reply. A reply that holds no
    /// result of kind `T` gives `Error::Fail`.
    pub fn decode(&self, reply: &FetchReply) -> (result: Result<T, Error>)
        ensures
            reply.holds::<T>() ==> result == Ok::<T, Error>(T::decoded(reply.payload@)),
            !reply.holds::<T>() ==> result == Err::<T, Error>(Error::Fail),
            reply.payload@.len() != T::spec_size() ==> result is Err,
    {
        match self.utils.get_apicall_result::<T>(reply) {
            Ok(data) => Ok(data),
            Err(_) => Err(Error::Fail),
        }
    }

    /// Second step of a poll: takes the registry's reply, reads the result
    /// out of it and hands the result to `map`, which says what the
    /// operation came to. The outcome is final: the value, ready, or a
    /// failure. `map` is not called on a reply that holds no result.
    pub fn resolve<V, F: FnOnce(T) -> Result<V, Error>>(&self, reply: &FetchReply, map: F) -> (result:
        Result<Async<V>, Error>)
        requires
            reply.holds::<T>() ==> call_requires(map, (T::decoded(reply.payload@),)),
        ensures
            exists|mapped: Result<V, Error>|
                #![trigger outcome::<T, V>(reply, mapped)]
                {
                    &&& reply.holds::<T>() ==> call_ensures(
                        map,
                        (T::decoded(reply.payload@),),
                        mapped,
                    )
                    &&& result == outcome::<T, V>(reply, mapped)
                },
            !reply.holds::<T>() ==> result == Err::<Async<V>, Error>(Error::Fail),
            !(result matches Ok(Async::NotReady)),
    {
        match self.decode(reply) {
            Ok(data) => {
                let mapped = map(data);
                let ghost seen = mapped;
                let result = match mapped {
                    Ok(value) => Ok(Async::Ready(value)),
                    Err(error) => Err(error),
                };
                assert(result == outcome::<T, V>(reply, seen));
                result
            },
            Err(error) => {
                proof {
                    assert(outcome::<T, V>(reply, Err::<V, Error>(Error::Fail)) == Err::<
                        Async<V>,
                        Error,
                    >(Error::Fail));
                }
                Err(error)
            },
        }
    }
}

/// Once the registry reports completion, a poll asks for the result of the
/// operation and for nothing else, and whatever the reply, the outcome is
/// final: a value that is ready or a failure, never "not ready".
pub proof fn lemma_completed_poll_is_final<'a, T: APICallResult, V>(
    handle: Handle<'a, T>,
    reply: &FetchReply,
    mapped: Result<V, Error>,
)
    ensures
        handle.step(true) == Step::Fetch(handle.request()),
        handle.request().call == handle.ticket(),
        outcome::<T, V>(reply, mapped) != Ok::<Async<V>, Error>(Async::NotReady),
        reply.holds::<T>() ==> outcome::<T, V>(reply, mapped) == settled(mapped),
        !reply.holds::<T>() ==> outcome::<T, V>(reply, mapped) == Err::<Async<V>, Error>(
            Error::Fail,
        ),
{
}

} // verus!
