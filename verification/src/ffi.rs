//! The catalog of the native library's interfaces: the identifier of each
//! class and interface, the chain each interface inherits through, the slot
//! of each method in the virtual table, and the calls themselves as traits
//! over plain values.
//!
//! A trait here lists the methods of one interface in the order of its
//! virtual table. A type that implements it stands for a handle to a native
//! object; what the native library answers is not known to the verifier,
//! and nothing is assumed of it.

use vstd::prelude::*;
use crate::os::{Platform, HRESULT, WCHAR};
use crate::unknown::{IDxcUnknownShim, ShimHosted};

verus! {

/// A 128-bit identifier, written as one number whose hexadecimal digits are
/// those of the identifier's usual text form. Identifiers are only ever
/// compared for equality.
pub type IID = u128;

/// The identifier of a class that the instance factory can create.
pub type CLSID = u128;

/// The class of the compiler.
#[allow(non_upper_case_globals)]
pub const CLSID_DxcCompiler: CLSID = 0x73e22d93_e6ce_47f3_b5bf_f0664f39c1b0;

/// The class of the linker.
#[allow(non_upper_case_globals)]
pub const CLSID_DxcLinker: CLSID = 0xef6a8087_b0ea_4d56_9e45_d07e1a8b7806;

/// The class of the debug information source.
#[allow(non_upper_case_globals)]
pub const CLSID_DxcDiaDataSource: CLSID = 0xcd1f6b73_2ab0_484d_8edc_ebe7a43ca09f;

/// The class of the library of blob utilities.
#[allow(non_upper_case_globals)]
pub const CLSID_DxcLibrary: CLSID = 0x6245d6af_66e0_48fd_80b4_4d271796748c;

/// The class of the validator.
#[allow(non_upper_case_globals)]
pub const CLSID_DxcValidator: CLSID = 0x8ca3e215_f728_4cf3_8cdd_88af917587a1;

/// The class of the assembler.
#[allow(non_upper_case_globals)]
pub const CLSID_DxcAssembler: CLSID = 0xd728db68_f903_4f80_94cd_dccf76ec7151;

/// The class of the container reflection.
#[allow(non_upper_case_globals)]
pub const CLSID_DxcContainerReflection: CLSID = 0xb9f54489_55b8_400c_ba3a_1675e4728b91;

/// The class of the optimizer.
#[allow(non_upper_case_globals)]
pub const CLSID_DxcOptimizer: CLSID = 0xae2cd79f_cc22_453f_9b6b_b124e7a5204c;

/// The class of the container builder.
#[allow(non_upper_case_globals)]
pub const CLSID_DxcContainerBuilder: CLSID = 0x94134294_411f_4574_b4d0_8741e25240d2;

pub const IID_IDXC_UNKNOWN_SHIM: IID = 0x00000000_0000_0000_c000_000000000046;

pub const IID_IDXC_BLOB: IID = 0x8ba5fb08_5195_40e2_ac58_0d989c3a0102;

pub const IID_IDXC_BLOB_ENCODING: IID = 0x7241d424_2646_4191_97c0_98e96e42fc68;

pub const IID_IDXC_LIBRARY: IID = 0xe5204dc7_d18c_4c3c_bdfb_851673980fe7;

pub const IID_IDXC_OPERATION_RESULT: IID = 0xcedb484a_d4e9_445a_b991_ca21ca157dc2;

pub const IID_IDXC_INCLUDE_HANDLER: IID = 0x7f61fc7d_950d_467f_b3e3_3c02fb49187c;

pub const IID_IDXC_COMPILER: IID = 0x8c210bf3_011f_4422_8d70_6f9acb8db617;

pub const IID_IDXC_COMPILER2: IID = 0xa005a9d9_b8bb_4594_b5c9_0e633bec4d37;

pub const IID_IDXC_LINKER: IID = 0xf1b5be2a_62dd_4327_a1c2_42ac1e1e78e6;

pub const IID_IDXC_VALIDATOR: IID = 0xa6e82bd2_1fd7_4826_9811_2857e797f49a;

pub const IID_IDXC_CONTAINER_BUILDER: IID = 0x334b1f50_2292_4b35_99a1_25588d8c17fe;

pub const IID_IDXC_ASSEMBLER: IID = 0x091f7a26_1c1f_4948_904b_e6e3a8a771d5;

pub const IID_IDXC_CONTAINER_REFLECTION: IID = 0xd2c21b26_8350_4bdc_976a_331ce6f4c54c;

pub const IID_IDXC_OPTIMIZER_PASS: IID = 0xae2cd79f_cc22_453f_9b6b_b124e7a5204c;

pub const IID_IDXC_OPTIMIZER: IID = 0x25740e2e_9cba_401b_9119_4fb42f39f270;

pub const IID_IDXC_VERSION_INFO: IID = 0xb04f5b50_2059_4f12_a8ff_a1e0cde1cc7e;

pub const IID_IDXC_VERSION_INFO2: IID = 0xfb6904c4_42f0_4b62_9c46_983af7da7c83;

pub const DXC_VALIDATOR_FLAGS_DEFAULT: u32 = 0;

/// The validator may update the shader blob in place.
pub const DXC_VALIDATOR_FLAGS_IN_PLACE_EDIT: u32 = 1;

pub const DXC_VALIDATOR_FLAGS_ROOT_SIGNATURE_ONLY: u32 = 2;

pub const DXC_VALIDATOR_FLAGS_MODULE_ONLY: u32 = 4;

pub const DXC_VALIDATOR_FLAGS_VALID_MASK: u32 = 0x7;

pub const DXC_VERSION_INFO_FLAGS_NONE: u32 = 0;

pub const DXC_VERSION_INFO_FLAGS_DEBUG: u32 = 1;

/// An internal validator, which does not sign.
pub const DXC_VERSION_INFO_FLAGS_INTERNAL: u32 = 2;

/// The code page tag of raw bytes.
pub const CP_BINARY: u32 = 0;

/// The code page tag of UTF-8 text.
pub const CP_UTF8: u32 = 65001;

/// The four groups of an identifier, as its text form separates them (the
/// last two text groups together are the fourth).
pub open spec fn spec_guid_fields(id: IID) -> (u32, u16, u16, u64) {
    (
        (id / 0x1_0000_0000_0000_0000_0000_0000) as u32,
        (id / 0x1_0000_0000_0000_0000_0000 % 0x1_0000) as u16,
        (id / 0x1_0000_0000_0000_0000 % 0x1_0000) as u16,
        (id % 0x1_0000_0000_0000_0000) as u64,
    )
}

/// The identifier made of four groups.
pub open spec fn spec_guid_from_fields(data1: u32, data2: u16, data3: u16, data4: u64) -> IID {
    (data1 * 0x1_0000_0000_0000_0000_0000_0000 + data2 * 0x1_0000_0000_0000_0000_0000 + data3
        * 0x1_0000_0000_0000_0000 + data4) as u128
}

#[verifier::when_used_as_spec(spec_guid_fields)]
pub fn guid_fields(id: IID) -> (fields: (u32, u16, u16, u64))
    ensures
        fields == spec_guid_fields(id),
{
    (
        (id / 0x1_0000_0000_0000_0000_0000_0000) as u32,
        (id / 0x1_0000_0000_0000_0000_0000 % 0x1_0000) as u16,
        (id / 0x1_0000_0000_0000_0000 % 0x1_0000) as u16,
        (id % 0x1_0000_0000_0000_0000) as u64,
    )
}

#[verifier::when_used_as_spec(spec_guid_from_fields)]
pub fn guid_from_fields(data1: u32, data2: u16, data3: u16, data4: u64) -> (id: IID)
    ensures
        id == spec_guid_from_fields(data1, data2, data3, data4),
{
    let high: u128 = data1 as u128 * 0x1_0000_0000_0000_0000_0000_0000;
    let upper: u128 = data2 as u128 * 0x1_0000_0000_0000_0000_0000;
    let lower: u128 = data3 as u128 * 0x1_0000_0000_0000_0000;
    high + upper + lower + data4 as u128
}

/// Splitting an identifier into its groups loses nothing.
pub proof fn lemma_guid_fields_round_trip(id: IID)
    ensures
        ({
            let (data1, data2, data3, data4) = spec_guid_fields(id);
            spec_guid_from_fields(data1, data2, data3, data4) == id
        }),
{
}

/// The interfaces of the catalog.
#[allow(non_camel_case_types)]
#[derive(Clone, Copy, Debug, PartialEq, Eq, Structural)]
pub enum Interface {
    IDxcUnknownShim,
    IDxcBlob,
    IDxcBlobEncoding,
    IDxcLibrary,
    IDxcOperationResult,
    IDxcIncludeHandler,
    IDxcCompiler,
    IDxcCompiler2,
    IDxcLinker,
    IDxcValidator,
    IDxcContainerBuilder,
    IDxcAssembler,
    IDxcContainerReflection,
    IDxcOptimizerPass,
    IDxcOptimizer,
    IDxcVersionInfo,
    IDxcVersionInfo2,
}

impl Interface {
    /// The identifier of the interface.
    pub open spec fn spec_iid(&self) -> IID {
        match self {
            Interface::IDxcUnknownShim => IID_IDXC_UNKNOWN_SHIM,
            Interface::IDxcBlob => IID_IDXC_BLOB,
            Interface::IDxcBlobEncoding => IID_IDXC_BLOB_ENCODING,
            Interface::IDxcLibrary => IID_IDXC_LIBRARY,
            Interface::IDxcOperationResult => IID_IDXC_OPERATION_RESULT,
            Interface::IDxcIncludeHandler => IID_IDXC_INCLUDE_HANDLER,
            Interface::IDxcCompiler => IID_IDXC_COMPILER,
            Interface::IDxcCompiler2 => IID_IDXC_COMPILER2,
            Interface::IDxcLinker => IID_IDXC_LINKER,
            Interface::IDxcValidator => IID_IDXC_VALIDATOR,
            Interface::IDxcContainerBuilder => IID_IDXC_CONTAINER_BUILDER,
            Interface::IDxcAssembler => IID_IDXC_ASSEMBLER,
            Interface::IDxcContainerReflection => IID_IDXC_CONTAINER_REFLECTION,
            Interface::IDxcOptimizerPass => IID_IDXC_OPTIMIZER_PASS,
            Interface::IDxcOptimizer => IID_IDXC_OPTIMIZER,
            Interface::IDxcVersionInfo => IID_IDXC_VERSION_INFO,
            Interface::IDxcVersionInfo2 => IID_IDXC_VERSION_INFO2,
        }
    }

    /// The interface that this one extends; the base extends none.
    pub open spec fn spec_parent(&self) -> Option<Interface> {
        match self {
            Interface::IDxcUnknownShim => None,
            Interface::IDxcBlobEncoding => Some(Interface::IDxcBlob),
            Interface::IDxcCompiler2 => Some(Interface::IDxcCompiler),
            _ => Some(Interface::IDxcUnknownShim),
        }
    }

    /// How many interfaces lie between this one and the base.
    pub open spec fn depth(&self) -> nat {
        match self {
            Interface::IDxcUnknownShim => 0,
            Interface::IDxcBlobEncoding => 2,
            Interface::IDxcCompiler2 => 2,
            _ => 1,
        }
    }

    /// How many methods the interface adds to those it inherits. For the
    /// base these are the interface query and the two reference counting
    /// methods; the destructor slots of the adapter layout are counted
    /// apart, by platform.
    pub open spec fn spec_own_method_count(&self) -> nat {
        match self {
            Interface::IDxcUnknownShim => 3,
            Interface::IDxcBlob => 2,
            Interface::IDxcBlobEncoding => 1,
            Interface::IDxcLibrary => 10,
            Interface::IDxcOperationResult => 3,
            Interface::IDxcIncludeHandler => 1,
            Interface::IDxcCompiler => 3,
            Interface::IDxcCompiler2 => 1,
            Interface::IDxcLinker => 2,
            Interface::IDxcValidator => 1,
            Interface::IDxcContainerBuilder => 4,
            Interface::IDxcAssembler => 1,
            Interface::IDxcContainerReflection => 6,
            Interface::IDxcOptimizerPass => 5,
            Interface::IDxcOptimizer => 3,
            Interface::IDxcVersionInfo => 2,
            Interface::IDxcVersionInfo2 => 1,
        }
    }

    /// Whether `riid` names this interface or one that it inherits from:
    /// the identifiers that an object with this interface answers to.
    pub open spec fn inherits(&self, riid: IID) -> bool
        decreases self.depth(),
    {
        riid == self.spec_iid() || match self.spec_parent() {
            Some(parent) => parent.inherits(riid),
            None => false,
        }
    }

    /// The number of slots in the interface's virtual table: those of its
    /// parent and its own; for the base, its own and the destructor slots.
    pub open spec fn spec_slot_count(&self, platform: Platform) -> nat
        decreases self.depth(),
    {
        match self.spec_parent() {
            Some(parent) => parent.spec_slot_count(platform) + self.spec_own_method_count(),
            None => self.spec_own_method_count() + platform.spec_destructor_slots(),
        }
    }

    /// The slot of the interface's first own method, which is the number
    /// of slots that it inherits.
    pub open spec fn spec_first_slot(&self, platform: Platform) -> nat {
        match self.spec_parent() {
            Some(parent) => parent.spec_slot_count(platform),
            None => 0,
        }
    }

    /// The slot of the interface's own method number `index`, counted
    /// from zero in the order of declaration.
    pub open spec fn spec_method_slot(&self, platform: Platform, index: nat) -> Option<nat> {
        if index < self.spec_own_method_count() {
            Some(self.spec_first_slot(platform) + index)
        } else {
            None
        }
    }

    #[verifier::when_used_as_spec(spec_iid)]
    pub fn iid(&self) -> (id: IID)
        ensures
            id == self.spec_iid(),
    {
        match self {
            Interface::IDxcUnknownShim => IID_IDXC_UNKNOWN_SHIM,
            Interface::IDxcBlob => IID_IDXC_BLOB,
            Interface::IDxcBlobEncoding => IID_IDXC_BLOB_ENCODING,
            Interface::IDxcLibrary => IID_IDXC_LIBRARY,
            Interface::IDxcOperationResult => IID_IDXC_OPERATION_RESULT,
            Interface::IDxcIncludeHandler => IID_IDXC_INCLUDE_HANDLER,
            Interface::IDxcCompiler => IID_IDXC_COMPILER,
            Interface::IDxcCompiler2 => IID_IDXC_COMPILER2,
            Interface::IDxcLinker => IID_IDXC_LINKER,
            Interface::IDxcValidator => IID_IDXC_VALIDATOR,
            Interface::IDxcContainerBuilder => IID_IDXC_CONTAINER_BUILDER,
            Interface::IDxcAssembler => IID_IDXC_ASSEMBLER,
            Interface::IDxcContainerReflection => IID_IDXC_CONTAINER_REFLECTION,
            Interface::IDxcOptimizerPass => IID_IDXC_OPTIMIZER_PASS,
            Interface::IDxcOptimizer => IID_IDXC_OPTIMIZER,
            Interface::IDxcVersionInfo => IID_IDXC_VERSION_INFO,
            Interface::IDxcVersionInfo2 => IID_IDXC_VERSION_INFO2,
        }
    }

    #[verifier::when_used_as_spec(spec_parent)]
    pub fn parent(&self) -> (parent: Option<Interface>)
        ensures
            parent == self.spec_parent(),
    {
        match self {
            Interface::IDxcUnknownShim => None,
            Interface::IDxcBlobEncoding => Some(Interface::IDxcBlob),
            Interface::IDxcCompiler2 => Some(Interface::IDxcCompiler),
            _ => Some(Interface::IDxcUnknownShim),
        }
    }

    pub fn own_method_count(&self) -> (count: usize)
        ensures
            count == self.spec_own_method_count(),
    {
        match self {
            Interface::IDxcUnknownShim => 3,
            Interface::IDxcBlob => 2,
            Interface::IDxcBlobEncoding => 1,
            Interface::IDxcLibrary => 10,
            Interface::IDxcOperationResult => 3,
            Interface::IDxcIncludeHandler => 1,
            Interface::IDxcCompiler => 3,
            Interface::IDxcCompiler2 => 1,
            Interface::IDxcLinker => 2,
            Interface::IDxcValidator => 1,
            Interface::IDxcContainerBuilder => 4,
            Interface::IDxcAssembler => 1,
            Interface::IDxcContainerReflection => 6,
            Interface::IDxcOptimizerPass => 5,
            Interface::IDxcOptimizer => 3,
            Interface::IDxcVersionInfo => 2,
            Interface::IDxcVersionInfo2 => 1,
        }
    }

    /// Whether an object with this interface answers an interface query
    /// for `riid`.
    pub fn is_in_chain(&self, riid: &IID) -> (answers: bool)
        ensures
            answers == self.inherits(*riid),
        decreases self.depth(),
    {
        if *riid == self.iid() {
            true
        } else {
            match self.parent() {
                Some(parent) => parent.is_in_chain(riid),
                None => false,
            }
        }
    }

    pub fn slot_count(&self, platform: Platform) -> (count: usize)
        ensures
            count == self.spec_slot_count(platform),
            count <= 15,
        decreases self.depth(),
    {
        proof {
            lemma_slot_bound(*self, platform);
        }
        match self.parent() {
            Some(parent) => parent.slot_count(platform) + self.own_method_count(),
            None => self.own_method_count() + platform.destructor_slots(),
        }
    }

    pub fn first_slot(&self, platform: Platform) -> (slot: usize)
        ensures
            slot == self.spec_first_slot(platform),
            slot <= 15,
    {
        match self.parent() {
            Some(parent) => parent.slot_count(platform),
            None => 0,
        }
    }

    /// The slot of the interface's own method number `index`; none where
    /// the interface has no such method.
    pub fn method_slot(&self, platform: Platform, index: usize) -> (slot: Option<usize>)
        ensures
            match self.spec_method_slot(platform, index as nat) {
                Some(s) => slot == Some(s as usize),
                None => slot is None,
            },
    {
        if index < self.own_method_count() {
            Some(self.first_slot(platform) + index)
        } else {
            None
        }
    }

    /// The interface of the catalog that `riid` names, if any.
    pub fn from_iid(riid: &IID) -> (interface: Option<Interface>)
        ensures
            interface matches Some(i) ==> i.spec_iid() == *riid,
            interface is None ==> forall|i: Interface| i.spec_iid() != *riid,
    {
        let id = *riid;
        if id == IID_IDXC_UNKNOWN_SHIM {
            Some(Interface::IDxcUnknownShim)
        } else if id == IID_IDXC_BLOB {
            Some(Interface::IDxcBlob)
        } else if id == IID_IDXC_BLOB_ENCODING {
            Some(Interface::IDxcBlobEncoding)
        } else if id == IID_IDXC_LIBRARY {
            Some(Interface::IDxcLibrary)
        } else if id == IID_IDXC_OPERATION_RESULT {
            Some(Interface::IDxcOperationResult)
        } else if id == IID_IDXC_INCLUDE_HANDLER {
            Some(Interface::IDxcIncludeHandler)
        } else if id == IID_IDXC_COMPILER {
            Some(Interface::IDxcCompiler)
        } else if id == IID_IDXC_COMPILER2 {
            Some(Interface::IDxcCompiler2)
        } else if id == IID_IDXC_LINKER {
            Some(Interface::IDxcLinker)
        } else if id == IID_IDXC_VALIDATOR {
            Some(Interface::IDxcValidator)
        } else if id == IID_IDXC_CONTAINER_BUILDER {
            Some(Interface::IDxcContainerBuilder)
        } else if id == IID_IDXC_ASSEMBLER {
            Some(Interface::IDxcAssembler)
        } else if id == IID_IDXC_CONTAINER_REFLECTION {
            Some(Interface::IDxcContainerReflection)
        } else if id == IID_IDXC_OPTIMIZER_PASS {
            Some(Interface::IDxcOptimizerPass)
        } else if id == IID_IDXC_OPTIMIZER {
            Some(Interface::IDxcOptimizer)
        } else if id == IID_IDXC_VERSION_INFO {
            Some(Interface::IDxcVersionInfo)
        } else if id == IID_IDXC_VERSION_INFO2 {
            Some(Interface::IDxcVersionInfo2)
        } else {
            None
        }
    }
}

/// No two interfaces of the catalog share an identifier.
pub proof fn lemma_iid_injective(a: Interface, b: Interface)
    requires
        a.spec_iid() == b.spec_iid(),
    ensures
        a == b,
{
}

/// An object answers an interface query for its own interface's
/// identifier.
pub proof fn lemma_inherits_own_iid(interface: Interface)
    ensures
        interface.inherits(interface.spec_iid()),
{
}

/// Every interface answers to the identifier of the base.
pub proof fn lemma_inherits_base(interface: Interface)
    ensures
        interface.inherits(IID_IDXC_UNKNOWN_SHIM),
    decreases interface.depth(),
{
    match interface.spec_parent() {
        Some(parent) => lemma_inherits_base(parent),
        None => {},
    }
}

/// An interface answers to the identifiers of exactly the interfaces on
/// its chain: its own, its parent's, and so on up to the base.
pub proof fn lemma_inherits_parent(interface: Interface, riid: IID)
    requires
        interface.spec_parent() is Some,
    ensures
        interface.inherits(riid) <==> riid == interface.spec_iid()
            || interface.spec_parent()->0.inherits(riid),
{
}

/// The base takes three slots on Windows and five elsewhere, and every
/// interface keeps each slot of its parent: its own methods come after
/// them.
pub proof fn lemma_layout(interface: Interface, platform: Platform)
    ensures
        Interface::IDxcUnknownShim.spec_slot_count(platform) == 3
            + platform.spec_destructor_slots(),
        interface.spec_parent() matches Some(parent) ==> interface.spec_first_slot(platform)
            == parent.spec_slot_count(platform),
        interface.spec_slot_count(platform) >= 3 + platform.spec_destructor_slots(),
        interface.spec_parent() is Some ==> interface.spec_slot_count(platform)
            == interface.spec_first_slot(platform) + interface.spec_own_method_count(),
    decreases interface.depth(),
{
    match interface.spec_parent() {
        Some(parent) => lemma_layout(parent, platform),
        None => {},
    }
}

/// No virtual table of the catalog has more than fifteen slots.
pub proof fn lemma_slot_bound(interface: Interface, platform: Platform)
    ensures
        interface.spec_slot_count(platform) <= 15,
{
    reveal_with_fuel(Interface::spec_slot_count, 3);
}

/// One name and value of a preprocessor definition, both in native form.
#[derive(Debug)]
pub struct DxcDefine {
    pub name: Vec<WCHAR>,
    pub value: Vec<WCHAR>,
}

/// The factory entry point of a loaded module, typed by the interface
/// asked for. The outer result tells whether the entry point could be
/// found in the module; the inner pair is what the factory answered.
pub trait DxcCreateInstanceProc<T> {
    fn create_instance(&self, rclsid: &CLSID, riid: &IID) -> Result<(HRESULT, Option<T>), String>;
}

/// A buffer owned by the native library. Slots: `GetBufferPointer`,
/// `GetBufferSize`.
pub trait IDxcBlob: IDxcUnknownShim {
    /// The memory that the blob's pointer leads to, as far as the blob's
    /// size reaches.
    fn get_buffer_pointer(&self) -> &[u8];

    fn get_buffer_size(&self) -> usize;
}

/// A blob with an encoding tag. Slot: `GetEncoding`.
pub trait IDxcBlobEncoding: IDxcBlob {
    /// The status, whether the encoding is known (non-zero), and the code
    /// page.
    fn get_encoding(&self) -> (HRESULT, u32, u32);
}

/// The blob utilities. Slots: `SetMalloc`, `CreateBlobFromBlob`,
/// `CreateBlobFromFile`, `CreateBlobWithEncodingFromPinned`,
/// `CreateBlobWithEncodingOnHeapCopy`, `CreateBlobWithEncodingOnMalloc`,
/// `CreateIncludeHandler`, `CreateStreamFromBlobReadOnly`, `GetBlobAsUtf8`,
/// `GetBlobAsUtf16`. The three that take an allocator or give a stream have
/// no counterpart over plain values.
pub trait IDxcLibrary: IDxcUnknownShim {
    type Blob: IDxcBlob;

    type BlobEncoding: IDxcBlobEncoding;

    fn create_blob_from_blob(&self, blob: &Self::Blob, offset: u32, length: u32) -> (
        HRESULT,
        Option<Self::Blob>,
    );

    fn create_blob_from_file(&self, filename: &[WCHAR], code_page: Option<u32>) -> (
        HRESULT,
        Option<Self::BlobEncoding>,
    );

    fn create_blob_with_encoding_from_pinned(&self, text: &[u8], code_page: u32) -> (
        HRESULT,
        Option<Self::BlobEncoding>,
    );

    fn create_blob_with_encoding_on_heap_copy(&self, text: &[u8], code_page: u32) -> (
        HRESULT,
        Option<Self::BlobEncoding>,
    );

    fn get_blob_as_utf8(&self, blob: &Self::BlobEncoding) -> (HRESULT, Option<Self::BlobEncoding>);

    fn get_blob_as_utf16(&self, blob: &Self::BlobEncoding) -> (HRESULT, Option<Self::BlobEncoding>);
}

/// What a compiler-family operation hands back. Slots: `GetStatus`,
/// `GetResult`, `GetErrorBuffer`.
pub trait IDxcOperationResult: IDxcUnknownShim {
    type Blob: IDxcBlob;

    type BlobEncoding: IDxcBlobEncoding;

    /// The status of the call itself, and the status of the operation
    /// that the object reports on.
    fn get_status(&self) -> (HRESULT, u32);

    fn get_result(&self) -> (HRESULT, Option<Self::Blob>);

    fn get_error_buffer(&self) -> (HRESULT, Option<Self::BlobEncoding>);
}

/// The callback through which the compiler asks for the text of a file
/// that the source names. Slot: `LoadSource`. The compiler is handed an
/// object that this library implements, which is why the calls that take
/// one ask for a hosted object.
pub trait IDxcIncludeHandler: IDxcUnknownShim {
    type Blob: IDxcBlob;

    /// `filename` is zero-terminated. The answer is the status and the
    /// blob that holds the text.
    fn load_source(&mut self, filename: &[WCHAR]) -> (HRESULT, Option<Self::Blob>);
}

/// The compiler. Slots: `Compile`, `Preprocess`, `Disassemble`.
pub trait IDxcCompiler: IDxcUnknownShim {
    type Blob: IDxcBlob;

    type BlobEncoding: IDxcBlobEncoding;

    type OperationResult: IDxcOperationResult;

    fn compile<H: IDxcIncludeHandler<Blob = Self::Blob> + ShimHosted>(
        &self,
        blob: &Self::BlobEncoding,
        source_name: &[WCHAR],
        entry_point: &[WCHAR],
        target_profile: &[WCHAR],
        arguments: &[Vec<WCHAR>],
        defines: &[DxcDefine],
        include_handler: Option<H>,
    ) -> (HRESULT, Option<Self::OperationResult>);

    fn preprocess<H: IDxcIncludeHandler<Blob = Self::Blob> + ShimHosted>(
        &self,
        blob: &Self::BlobEncoding,
        source_name: &[WCHAR],
        arguments: &[Vec<WCHAR>],
        defines: &[DxcDefine],
        include_handler: Option<H>,
    ) -> (HRESULT, Option<Self::OperationResult>);

    fn disassemble(&self, blob: &Self::Blob) -> (HRESULT, Option<Self::BlobEncoding>);
}

/// What `compile_with_debug` of the compiler hands back: the status, the
/// operation result, the suggested name of the debug blob (zero-terminated)
/// and the debug blob.
pub struct DebugCompilation<R, B> {
    pub status: HRESULT,
    pub result: Option<R>,
    pub debug_blob_name: Vec<WCHAR>,
    pub debug_blob: Option<B>,
}

/// The compiler, second revision. Slot: `CompileWithDebug`.
pub trait IDxcCompiler2: IDxcCompiler {
    fn compile_with_debug<H: IDxcIncludeHandler<Blob = Self::Blob> + ShimHosted>(
        &self,
        blob: &Self::BlobEncoding,
        source_name: &[WCHAR],
        entry_point: &[WCHAR],
        target_profile: &[WCHAR],
        arguments: &[Vec<WCHAR>],
        defines: &[DxcDefine],
        include_handler: Option<H>,
    ) -> DebugCompilation<Self::OperationResult, Self::Blob>;
}

/// The linker. Slots: `RegisterLibrary`, `Link`.
pub trait IDxcLinker: IDxcUnknownShim {
    type Blob: IDxcBlob;

    type OperationResult: IDxcOperationResult;

    fn register_library(&self, lib_name: &[WCHAR], lib: &Self::Blob) -> HRESULT;

    fn link(
        &self,
        entry_name: &[WCHAR],
        target_profile: &[WCHAR],
        lib_names: &[Vec<WCHAR>],
        arguments: &[Vec<WCHAR>],
    ) -> (HRESULT, Option<Self::OperationResult>);
}

/// The validator. Slot: `Validate`.
pub trait IDxcValidator: IDxcUnknownShim {
    type Blob: IDxcBlob;

    type OperationResult: IDxcOperationResult;

    fn validate(&self, shader: &Self::Blob, flags: u32) -> (HRESULT, Option<Self::OperationResult>);
}

/// The container builder. Slots: `Load`, `AddPart`, `RemovePart`,
/// `SerializeContainer`.
pub trait IDxcContainerBuilder: IDxcUnknownShim {
    type Blob: IDxcBlob;

    type OperationResult: IDxcOperationResult;

    fn load(&self, dxil_container_header: &Self::Blob) -> HRESULT;

    fn add_part(&self, four_cc: u32, source: &Self::Blob) -> HRESULT;

    fn remove_part(&self, four_cc: u32) -> HRESULT;

    fn seralize_container(&self) -> (HRESULT, Option<Self::OperationResult>);
}

/// The assembler. Slot: `AssembleToContainer`.
pub trait IDxcAssembler: IDxcUnknownShim {
    type Blob: IDxcBlob;

    type OperationResult: IDxcOperationResult;

    fn assemble_to_container(&self, shader: &Self::Blob) -> (
        HRESULT,
        Option<Self::OperationResult>,
    );
}

/// The container reflection. Slots: `Load`, `GetPartCount`, `GetPartKind`,
/// `GetPartContent`, `FindFirstPartKind`, `GetPartReflection`. The last
/// gives an untyped object and has no counterpart over plain values.
pub trait IDxcContainerReflection: IDxcUnknownShim {
    type Blob: IDxcBlob;

    fn load(&self, container: &Self::Blob) -> HRESULT;

    fn get_part_count(&self) -> (HRESULT, u32);

    fn get_part_kind(&self, idx: u32) -> (HRESULT, u32);

    fn get_part_content(&self, idx: u32) -> (HRESULT, Option<Self::Blob>);

    fn find_first_part_kind(&self, kind: u32) -> (HRESULT, u32);
}

/// One pass of the optimizer. Slots: `GetOptionName`, `GetDescription`,
/// `GetOptionArgCount`, `GetOptionArgName`, `GetOptionArgDescription`.
/// Texts are zero-terminated wide strings.
pub trait IDxcOptimizerPass: IDxcUnknownShim {
    fn get_option_name(&self) -> (HRESULT, Vec<WCHAR>);

    fn get_description(&self) -> (HRESULT, Vec<WCHAR>);

    fn get_option_arg_count(&self) -> (HRESULT, u32);

    fn get_option_arg_name(&self, arg_idx: u32) -> (HRESULT, Vec<WCHAR>);

    fn get_option_arg_description(&self, arg_idx: u32) -> (HRESULT, Vec<WCHAR>);
}

/// What `run_optimizer` hands back: the status, the optimized module and
/// its text.
pub struct Optimization<B, E> {
    pub status: HRESULT,
    pub output_module: Option<B>,
    pub output_text: Option<E>,
}

/// The optimizer. Slots: `GetAvailablePassCount`, `GetAvailablePass`,
/// `RunOptimizer`.
pub trait IDxcOptimizer: IDxcUnknownShim {
    type Blob: IDxcBlob;

    type BlobEncoding: IDxcBlobEncoding;

    type Pass: IDxcOptimizerPass;

    fn get_available_pass_count(&self) -> (HRESULT, u32);

    fn get_available_pass(&self, index: u32) -> (HRESULT, Option<Self::Pass>);

    fn run_optimizer(&self, blob: &Self::Blob, options: &[Vec<WCHAR>]) -> Optimization<
        Self::Blob,
        Self::BlobEncoding,
    >;
}

/// The version of a component. Slots: `GetVersion`, `GetFlags`.
pub trait IDxcVersionInfo: IDxcUnknownShim {
    /// The status, the major and the minor version.
    fn get_version(&self) -> (HRESULT, u32, u32);

    fn get_flags(&self) -> (HRESULT, u32);
}

/// The source revision of a component. Slot: `GetCommitInfo`.
pub trait IDxcVersionInfo2: IDxcUnknownShim {
    /// The status, the number of commits and the hash of the last one
    /// (zero-terminated).
    fn get_commit_info(&self) -> (HRESULT, u32, Vec<u8>);
}

} // verus!
