//! The session with the runtime and how one comes about.
//!
//! A session is made in three steps, each of them a call into the runtime
//! that the caller makes and whose answer it hands back here:
//!
//! 1. the runtime is initialised; `Steam::new_client` takes the answer;
//! 2. the root interface is looked up under `CLIENT_VERSION`;
//!    `ClientLookup::found` takes the address that came back;
//! 3. the registry accessor is looked up under `UTILS_VERSION`, through the
//!    root interface; `UtilsLookup::found` takes the address that came back
//!    and gives the `Client`.
//!
//! A step that failed ends the attempt: nothing comes back to go on with, so
//! no later call is made and no `Client` exists. The runtime stays as it is.
//! When the first step succeeded and a later one did not, that means it
//! stays initialised with no session to end it; the runtime offers no way to
//! undo the first step alone.
//!
//! Ending the session is the one call that is owed for a `Client`, once, when
//! its owner lets go of it. A `Client` cannot be copied, so it has one owner.

use crate::interface::{Interface, MaybeRaw, Raw};
use crate::utils::Utils;
use core::marker::PhantomData;
use vstd::prelude::*;
use vstd::std_specs::cmp::PartialEqSpecImpl;

verus! {

/// The name under which the runtime gives out its root interface.
pub const CLIENT_VERSION: &'static str = "SteamClient017";

/// The name under which the root interface gives out the registry accessor.
pub const UTILS_VERSION: &'static str = "SteamUtils009";

/// The runtime, of which a process has one.
pub struct Steam {}

/// The second step of making a session: the runtime is initialised and the
/// root interface is to be looked up.
pub struct ClientLookup<'a> {
    scope: PhantomData<&'a ()>,
}

/// The third step of making a session: the root interface is held and the
/// registry accessor is to be looked up through it.
pub struct UtilsLookup<'a> {
    client: Raw<Client<'a>>,
}

/// The logged-in user, as the runtime numbers it.
#[derive(Clone, Copy, Debug, Eq)]
pub struct User<'a>(pub i32, pub PhantomData<&'a ()>);

/// The channel to the runtime, as the runtime numbers it.
#[derive(Clone, Copy, Debug, Eq)]
pub struct Pipe<'a>(pub i32, pub PhantomData<&'a ()>);

impl PartialEq for User<'_> {
    fn eq(&self, other: &Self) -> (equal: bool) {
        self.0 == other.0
    }
}

impl PartialEqSpecImpl for User<'_> {
    open spec fn obeys_eq_spec() -> bool {
        true
    }

    open spec fn eq_spec(&self, other: &Self) -> bool {
        self.0 == other.0
    }
}

impl PartialEq for Pipe<'_> {
    fn eq(&self, other: &Self) -> (equal: bool) {
        self.0 == other.0
    }
}

impl PartialEqSpecImpl for Pipe<'_> {
    open spec fn obeys_eq_spec() -> bool {
        true
    }

    open spec fn eq_spec(&self, other: &Self) -> bool {
        self.0 == other.0
    }
}

/// A session with the runtime: the root interface and the registry accessor
/// that was obtained along with it.
pub struct Client<'a> {
    address: usize,
    utils: Utils<'a>,
}

impl Interface for Client<'_> {

}

impl Steam {
    /// Begins a session, given whether the runtime initialised. When it did
    /// not, the attempt is over and nothing more is to be asked of the
    /// runtime. When it did, the root interface is to be looked up next.
    ///
    /// The runtime is borrowed for as long as the session or anything made
    /// from it is in use, so one runtime has one session at a time.
    pub fn new_client<'a>(&'a mut self, initialized: bool) -> (next: Option<ClientLookup<'a>>)
        ensures
            initialized <==> next is Some,
    {
        if initialized {
            Some(ClientLookup { scope: PhantomData })
        } else {
            None
        }
    }
}

impl<'a> ClientLookup<'a> {
    /// The name under which to look the root interface up.
    pub fn version(&self) -> (version: &'static str)
        ensures
            version@ == CLIENT_VERSION@,
    {
        CLIENT_VERSION
    }

    /// Takes what the lookup of the root interface returned. A null address
    /// ends the attempt; any other is the root interface, through which the
    /// registry accessor is to be looked up next.
    pub fn found(self, client: MaybeRaw<Client<'a>>) -> (next: Option<UtilsLookup<'a>>)
        ensures
            client@ == 0 <==> next is None,
            next matches Some(lookup) ==> lookup.root()@ == client@,
    {
        match client.check() {
            Some(client) => Some(UtilsLookup { client }),
            None => None,
        }
    }
}

impl<'a> UtilsLookup<'a> {
    /// The root interface that the session will have.
    pub closed spec fn root(&self) -> Raw<Client<'a>> {
        self.client
    }

    /// The root interface, through which to look the registry accessor up.
    pub fn client(&self) -> (client: &Raw<Client<'a>>)
        ensures
            *client == self.root(),
    {
        &self.client
    }

    /// The name under which to look the registry accessor up.
    pub fn version(&self) -> (version: &'static str)
        ensures
            version@ == UTILS_VERSION@,
    {
        UTILS_VERSION
    }

    /// Takes what the lookup of the registry accessor returned. A null
    /// address ends the attempt; any other completes the session.
    pub fn found(self, utils: MaybeRaw<Utils<'a>>) -> (client: Option<Client<'a>>)
        ensures
            utils@ == 0 <==> client is None,
            client matches Some(c) ==> c@ == self.root()@ && c.registry()@ == utils@,
    {
        match utils.check() {
            Some(utils) => Some(Client { address: self.client.address(), utils: Utils::over(utils) }),
            None => None,
        }
    }
}

impl<'a> Client<'a> {
    #[verifier::type_invariant]
    spec fn live(self) -> bool {
        self.address != 0
    }

    /// The address of the root interface.
    pub closed spec fn view(&self) -> usize {
        self.address
    }

    /// The registry accessor of the session.
    pub closed spec fn registry(&self) -> Utils<'a> {
        self.utils
    }

    /// The handle to the root interface, to hand to the runtime.
    pub fn raw(&self) -> (raw: Raw<Client<'a>>)
        ensures
            raw@ == self@,
    {
        proof {
            use_type_invariant(self);
        }
        Raw::at(self.address)
    }

    /// The registry accessor of the session.
    pub fn utils(&self) -> (utils: &Utils<'a>)
        ensures
            *utils == self.registry(),
    {
        &self.utils
    }
}

} // verus!
