use hassle_rs::ffi::{
    IID, IID_IDXC_BLOB, IID_IDXC_BLOB_ENCODING, IID_IDXC_INCLUDE_HANDLER, IID_IDXC_UNKNOWN_SHIM,
    Interface,
};
use hassle_rs::os::{Platform, HRESULT};
use hassle_rs::unknown::{get_interface, IDxcUnknownShim, QueryInterface, ShimObject};

const E_NOINTERFACE: i32 = -2147467262;
const E_POINTER: i32 = -2147467261;

#[test]
fn platforms() {
    assert!(Platform::Windows.is_windows());
    assert!(!Platform::Linux.is_windows());
    assert!(!Platform::MacOs.is_windows());
}

#[test]
fn a_new_object_is_held_once() {
    let object = ShimObject::new(Interface::IDxcIncludeHandler);
    assert_eq!(object.reference_count(), 1);
    assert_eq!(object.interface_of(), Interface::IDxcIncludeHandler);
}

#[test]
fn usable_while_alive_and_not_full() {
    let mut object = ShimObject::new(Interface::IDxcBlob);
    assert!(object.usable());
    assert_eq!(object.release(), 0);
    assert!(!object.usable());
}

#[test]
fn references_are_counted() {
    let mut object = ShimObject::new(Interface::IDxcBlob);
    assert_eq!(object.add_ref(), 2);
    assert_eq!(object.add_ref(), 3);
    assert_eq!(object.release(), 2);
    assert_eq!(object.release(), 1);
    assert_eq!(object.reference_count(), 1);
    assert_eq!(object.release(), 0);
    assert_eq!(object.reference_count(), 0);
}

#[test]
fn query_for_the_own_identifier_succeeds_on_the_same_object() {
    for interface in [
        Interface::IDxcUnknownShim,
        Interface::IDxcBlob,
        Interface::IDxcBlobEncoding,
        Interface::IDxcIncludeHandler,
        Interface::IDxcCompiler2,
    ] {
        let mut object = ShimObject::new(interface);
        assert_eq!(object.query_interface(&interface.iid(), true), HRESULT(0));
        assert_eq!(object.reference_count(), 2);
        assert_eq!(object.interface_of(), interface);
    }
}

#[test]
fn query_for_an_inherited_identifier_succeeds() {
    let mut object = ShimObject::new(Interface::IDxcBlobEncoding);
    assert_eq!(object.query_interface(&IID_IDXC_BLOB, true), HRESULT(0));
    assert_eq!(object.query_interface(&IID_IDXC_UNKNOWN_SHIM, true), HRESULT(0));
    assert_eq!(object.reference_count(), 3);
}

#[test]
fn query_for_a_foreign_identifier_is_no_interface() {
    let mut object = ShimObject::new(Interface::IDxcBlob);
    let status = object.query_interface(&IID_IDXC_BLOB_ENCODING, true);
    assert_eq!(status, HRESULT(E_NOINTERFACE));
    assert_eq!(status.0 as u32, 0x80004002);
    assert_eq!(object.query_interface(&IID_IDXC_INCLUDE_HANDLER, true), HRESULT(E_NOINTERFACE));
    assert_eq!(object.query_interface(&u128::MAX, true), HRESULT(E_NOINTERFACE));
    assert_eq!(object.reference_count(), 1);
}

#[test]
fn query_without_a_place_for_the_result_is_a_bad_pointer() {
    let mut object = ShimObject::new(Interface::IDxcBlob);
    let status = object.query_interface(&IID_IDXC_BLOB, false);
    assert_eq!(status, HRESULT(E_POINTER));
    assert_eq!(status.0 as u32, 0x80004003);
    assert_eq!(object.query_interface(&0, false), HRESULT(E_POINTER));
    assert_eq!(object.reference_count(), 1);
}

struct Answering {
    status: i32,
    handle: Option<u8>,
}

impl IDxcUnknownShim for Answering {}

impl QueryInterface<u8> for Answering {
    fn query_interface(&self, riid: &IID) -> (HRESULT, Option<u8>) {
        assert_eq!(*riid, IID_IDXC_BLOB);
        (HRESULT(self.status), self.handle)
    }
}

#[test]
fn get_interface_gives_the_handle_on_success() {
    assert_eq!(get_interface(&Answering { status: 0, handle: Some(7) }, Interface::IDxcBlob), Some(7));
    assert_eq!(get_interface(&Answering { status: 1, handle: Some(7) }, Interface::IDxcBlob), Some(7));
    assert_eq!(get_interface(&Answering { status: 0, handle: None }, Interface::IDxcBlob), None);
}

#[test]
fn get_interface_gives_nothing_on_failure() {
    let gone = Answering { status: E_NOINTERFACE, handle: None };
    assert_eq!(get_interface(&gone, Interface::IDxcBlob), None);
    // a handle that comes with a failing status is not to be trusted
    let odd = Answering { status: E_POINTER, handle: Some(7) };
    assert_eq!(get_interface(&odd, Interface::IDxcBlob), None);
    let other = Answering { status: -1, handle: Some(7) };
    assert_eq!(get_interface(&other, Interface::IDxcBlob), None);
}

#[test]
fn the_destructor_slots_do_nothing_by_default() {
    let object = Answering { status: 0, handle: None };
    assert_eq!(object.complete_object_destructor(), HRESULT(0));
    assert_eq!(object.deleting_destructor(), HRESULT(0));
}
