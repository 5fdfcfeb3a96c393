//! Typed handles to the objects the runtime gives out.
//!
//! The runtime hands out its interfaces as bare addresses. A `MaybeRaw` holds
//! such an address as it came back from a lookup, null or not; a `Raw` holds
//! one that was found not to be null. The only way from the first to the
//! second is `MaybeRaw::check`. Neither type can tell whether the object at
//! the address is of the kind its tag names: that rests on the lookup having
//! been made under the name that belongs to the tag.

use core::marker::PhantomData;
use vstd::prelude::*;
use vstd::std_specs::convert::FromSpecImpl;

verus! {

/// Marks a type as standing for one of the runtime's interfaces.
pub trait Interface: Sized {

}

/// A live handle to an interface of kind `T`. Its address is never null.
pub struct Raw<T: Interface> {
    address: usize,
    kind: PhantomData<T>,
}

/// A handle lent out for the length of one borrow of the value it was taken
/// from, for calls that only read.
pub struct BorrowedRaw<'b, T: Interface> {
    address: usize,
    lender: PhantomData<&'b T>,
}

/// What a lookup of an interface of kind `T` returned: an address that may
/// be null.
pub struct MaybeRaw<T: Interface> {
    address: usize,
    kind: PhantomData<T>,
}

impl<T: Interface> Raw<T> {
    #[verifier::type_invariant]
    spec fn live(self) -> bool {
        self.address != 0
    }

    /// The address the handle refers to.
    pub closed spec fn view(&self) -> usize {
        self.address
    }

    /// A handle to the object at `address`.
    pub(crate) fn at(address: usize) -> (handle: Self)
        requires
            address != 0,
        ensures
            handle@ == address,
    {
        Raw { address, kind: PhantomData }
    }

    /// The address, to hand to the runtime.
    pub fn address(&self) -> (address: usize)
        ensures
            address == self@,
            address != 0,
    {
        proof {
            use_type_invariant(self);
        }
        self.address
    }

    /// Lends the handle out for as long as `self` is borrowed.
    pub fn borrow<'b>(&'b self) -> (lent: BorrowedRaw<'b, T>)
        ensures
            lent@ == self@,
    {
        proof {
            use_type_invariant(self);
        }
        BorrowedRaw { address: self.address, lender: PhantomData }
    }
}

impl<T: Interface> Clone for Raw<T> {
    fn clone(&self) -> (copy: Self)
        ensures
            copy == *self,
    {
        proof {
            use_type_invariant(self);
        }
        Raw { address: self.address, kind: PhantomData }
    }
}

impl<'b, T: Interface> BorrowedRaw<'b, T> {
    #[verifier::type_invariant]
    spec fn live(self) -> bool {
        self.address != 0
    }

    /// The address the handle refers to.
    pub closed spec fn view(&self) -> usize {
        self.address
    }

    /// The address, to hand to the runtime.
    pub fn address(&self) -> (address: usize)
        ensures
            address == self@,
            address != 0,
    {
        proof {
            use_type_invariant(self);
        }
        self.address
    }
}

impl<T: Interface> MaybeRaw<T> {
    /// The address that came back from the lookup.
    pub closed spec fn view(&self) -> usize {
        self.address
    }

    /// What a lookup that returned `address` stands for.
    pub closed spec fn at(address: usize) -> Self {
        MaybeRaw { address, kind: PhantomData }
    }

    /// The one gate from an address that may be null to a live handle:
    /// refuses the null address and nothing else.
    pub fn check(self) -> (handle: Option<Raw<T>>)
        ensures
            self@ == 0 <==> handle is None,
            handle matches Some(h) ==> h@ == self@,
    {
        if self.address == 0 {
            None
        } else {
            Some(Raw::at(self.address))
        }
    }
}

impl<T: Interface> From<usize> for MaybeRaw<T> {
    fn from(address: usize) -> (unchecked: Self)
        ensures
            unchecked@ == address,
    {
        MaybeRaw { address, kind: PhantomData }
    }
}

impl<T: Interface> FromSpecImpl<usize> for MaybeRaw<T> {
    open spec fn obeys_from_spec() -> bool {
        true
    }

    open spec fn from_spec(address: usize) -> Self {
        MaybeRaw::at(address)
    }
}

} // verus!
