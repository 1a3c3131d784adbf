//! The base contract that every interface of the native library starts
//! with: interface query and reference counting, and how many virtual
//! table slots that base takes on each platform family.
//!
//! On Windows the base is the platform's own `IUnknown`: three slots. The
//! builds for other platforms declare a virtual destructor in their stand-in
//! for `IUnknown`, which puts two more slots right after `Release`:
//!
//! ```text
//! [0] QueryInterface   [1] AddRef   [2] Release
//! [3] complete object destructor    [4] deleting destructor
//! [5] first method of the derived interface ...
//! ```

use vstd::prelude::*;
use crate::os::{Platform, HRESULT};
use crate::ffi::{Interface, IID};

verus! {

/// The slot of the interface query in every virtual table.
pub const QUERY_INTERFACE_SLOT: usize = 0;

/// The slot of the reference increment in every virtual table.
pub const ADD_REF_SLOT: usize = 1;

/// The slot of the reference decrement in every virtual table.
pub const RELEASE_SLOT: usize = 2;

/// The status of an interface query for an identifier that the object
/// does not answer to.
pub open spec fn spec_no_interface() -> HRESULT {
    HRESULT(-0x7FFF_BFFEi32)
}

/// The status of a call that was handed no place to put its result, and
/// of an answer that reports success but holds no handle.
pub open spec fn spec_bad_pointer() -> HRESULT {
    HRESULT(-0x7FFF_BFFDi32)
}

/// The status of a call that was handed a value it cannot work with.
pub open spec fn spec_invalid_argument() -> HRESULT {
    HRESULT(-0x7FF8_FFA9i32)
}

/// `com::sys::FAILED`: whether a status code reports a failure, which is
/// to say whether it is negative.
#[verifier::external_body]
pub(crate) fn failed(status: HRESULT) -> (failure: bool)
    ensures
        failure == (status.0 < 0),
{
    com::sys::FAILED(status.0)
}

/// `com::sys::E_NOINTERFACE`, the constant `0x80004002` read as a signed
/// number.
#[verifier::external_body]
#[verifier::when_used_as_spec(spec_no_interface)]
pub(crate) fn no_interface() -> (status: HRESULT)
    ensures
        status == spec_no_interface(),
{
    HRESULT(com::sys::E_NOINTERFACE)
}

/// `com::sys::E_POINTER`, the constant `0x80004003` read as a signed
/// number.
#[verifier::external_body]
#[verifier::when_used_as_spec(spec_bad_pointer)]
pub(crate) fn bad_pointer() -> (status: HRESULT)
    ensures
        status == spec_bad_pointer(),
{
    HRESULT(com::sys::E_POINTER)
}

/// `com::sys::E_INVALIDARG`, the constant `0x80070057` read as a signed
/// number.
#[verifier::external_body]
#[verifier::when_used_as_spec(spec_invalid_argument)]
pub(crate) fn invalid_argument() -> (status: HRESULT)
    ensures
        status == spec_invalid_argument(),
{
    HRESULT(com::sys::E_INVALIDARG)
}

impl Platform {
    /// How many destructor slots follow `Release` in the base of every
    /// virtual table.
    pub open spec fn spec_destructor_slots(&self) -> nat {
        if self.native_com() {
            0
        } else {
            2
        }
    }

    pub fn destructor_slots(&self) -> (slots: usize)
        ensures
            slots == self.spec_destructor_slots(),
    {
        if self.is_windows() {
            0
        } else {
            2
        }
    }
}

/// The base of every interface. Its two methods fill the destructor slots
/// of the adapter layout; nothing calls them through a handle, and on
/// Windows the slots do not exist. As given here they do nothing and
/// report success; a type that writes its own is not held to that.
pub trait IDxcUnknownShim {
    fn complete_object_destructor(&self) -> (status: HRESULT)
        default_ensures
            status == HRESULT(0),
    {
        HRESULT(0)
    }

    fn deleting_destructor(&self) -> (status: HRESULT)
        default_ensures
            status == HRESULT(0),
    {
        HRESULT(0)
    }
}

/// The interface query of a handle, typed by the interface asked for. The
/// answer is the status and, where the object exposes the interface, a new
/// handle to the same object.
pub trait QueryInterface<I>: IDxcUnknownShim {
    fn query_interface(&self, riid: &IID) -> (HRESULT, Option<I>);
}

/// An object of this library as a host exposes it to the native side. The
/// host fills the first three slots of the object's virtual table with calls
/// of these methods. Each of them gives nothing where the call is out of
/// order: on an object that is gone, or where the count cannot grow.
pub trait ShimHosted: IDxcUnknownShim {
    /// The status of an interface query for `riid`; `has_slot` tells
    /// whether the caller gave a place for the result. On success the
    /// caller holds one more reference to this same object.
    fn query_interface(&mut self, riid: &IID, has_slot: bool) -> Option<HRESULT>;

    /// Takes one more reference and gives the new count.
    fn add_ref(&mut self) -> Option<u32>;

    /// Gives one reference back and gives the new count; at zero the host
    /// destroys the object.
    fn release(&mut self) -> Option<u32>;
}

/// What a handle's answer to an interface query amounts to: the handle,
/// unless the status reports a failure.
pub open spec fn queried<I>(answer: (HRESULT, Option<I>)) -> Option<I> {
    if answer.0.failed() {
        None
    } else {
        answer.1
    }
}

/// Whether `face` is what asking `object` for the interface `interface`
/// comes to: the handle that the object answered with, unless the status
/// reports a failure.
pub open spec fn interface_got<T: QueryInterface<I>, I>(
    object: T,
    interface: Interface,
    face: Option<I>,
) -> bool {
    exists|answer: (HRESULT, Option<I>)|
        #![trigger queried(answer)]
        call_ensures(T::query_interface, (&object, &interface.iid()), answer) && face == queried(
            answer,
        )
}

/// Asks `object` for the interface `interface`. Any failing status counts
/// as "not exposed", whatever handle came with it.
pub fn get_interface<T: QueryInterface<I>, I>(object: &T, interface: Interface) -> (face: Option<I>)
    ensures
        interface_got(*object, interface, face),
{
    let riid = interface.iid();
    let (status, slot) = object.query_interface(&riid);
    let ghost answer = (status, slot);
    let face = if failed(status) {
        None
    } else {
        slot
    };
    assert(face == queried(answer));
    face
}

/// The interface identity and reference count of an object that this
/// library itself hands to the native side. The object lives while the
/// count is positive; once it has dropped to zero the object is gone and is
/// not used again.
pub struct ShimObject {
    interface: Interface,
    references: u32,
}

impl ShimObject {
    /// The interface the object implements.
    pub closed spec fn interface(&self) -> Interface {
        self.interface
    }

    /// The number of handles that keep the object alive.
    pub closed spec fn spec_reference_count(&self) -> nat {
        self.references as nat
    }

    /// Whether the object may still be used.
    pub open spec fn live(&self) -> bool {
        self.spec_reference_count() > 0
    }

    /// Whether the object may still be used and can take one more
    /// reference.
    pub open spec fn spec_usable(&self) -> bool {
        0 < self.spec_reference_count() < u32::MAX
    }

    #[verifier::when_used_as_spec(spec_usable)]
    pub fn usable(&self) -> (usable: bool)
        ensures
            usable == self.spec_usable(),
    {
        0 < self.references && self.references < u32::MAX
    }

    /// A new object, held by its creator alone.
    pub fn new(interface: Interface) -> (object: Self)
        ensures
            object.interface() == interface,
            object.spec_reference_count() == 1,
    {
        ShimObject { interface, references: 1 }
    }

    /// The interface the object implements.
    pub fn interface_of(&self) -> (interface: Interface)
        ensures
            interface == self.interface(),
    {
        self.interface
    }

    pub fn reference_count(&self) -> (count: u32)
        ensures
            count == self.spec_reference_count(),
    {
        self.references
    }

    /// Takes one more reference and returns the new count.
    pub fn add_ref(&mut self) -> (count: u32)
        requires
            old(self).live(),
            old(self).spec_reference_count() < u32::MAX,
        ensures
            final(self).interface() == old(self).interface(),
            final(self).spec_reference_count() == old(self).spec_reference_count() + 1,
            count == final(self).spec_reference_count(),
    {
        self.references = self.references + 1;
        self.references
    }

    /// Gives one reference back and returns the new count; at zero the
    /// object is to be destroyed.
    pub fn release(&mut self) -> (count: u32)
        requires
            old(self).live(),
        ensures
            final(self).interface() == old(self).interface(),
            final(self).spec_reference_count() == old(self).spec_reference_count() - 1,
            count == final(self).spec_reference_count(),
    {
        self.references = self.references - 1;
        self.references
    }

    /// The status that an interface query on the object answers with:
    /// a bad pointer where there is no place for the result, success for
    /// an identifier in the interface's chain, "no such interface"
    /// otherwise.
    pub open spec fn query_status(&self, riid: IID, has_slot: bool) -> HRESULT {
        if !has_slot {
            spec_bad_pointer()
        } else if self.interface().inherits(riid) {
            HRESULT(0)
        } else {
            spec_no_interface()
        }
    }

    /// The interface query. On success the caller holds one more reference
    /// to this same object; on failure nothing changes.
    pub fn query_interface(&mut self, riid: &IID, has_slot: bool) -> (status: HRESULT)
        requires
            old(self).live(),
            old(self).spec_reference_count() < u32::MAX,
        ensures
            status == old(self).query_status(*riid, has_slot),
            final(self).interface() == old(self).interface(),
            final(self).spec_reference_count() == old(self).spec_reference_count() + (if status
                == HRESULT(0) {
                1nat
            } else {
                0nat
            }),
    {
        if !has_slot {
            bad_pointer()
        } else if self.interface.is_in_chain(riid) {
            self.references = self.references + 1;
            HRESULT(0)
        } else {
            no_interface()
        }
    }
}

/// An interface query for the object's own identifier succeeds, and
/// leaves the caller with one more reference to the same object.
pub proof fn lemma_query_own_interface(object: ShimObject)
    ensures
        object.query_status(object.interface().iid(), true) == HRESULT(0),
{
}

} // verus!
