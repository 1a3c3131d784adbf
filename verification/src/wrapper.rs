//! The typed wrappers around interface handles: they convert arguments to
//! the native forms, make the call, and turn the status into a result.

use vstd::prelude::*;
use vstd::utf8::encode_utf8;
use crate::ffi::{
    CLSID_DxcCompiler, CLSID_DxcLibrary, CLSID_DxcValidator, DebugCompilation,
    DxcCreateInstanceProc, DxcDefine, IDxcBlob, IDxcBlobEncoding, IDxcCompiler, IDxcCompiler2,
    IDxcIncludeHandler, IDxcLibrary, IDxcOperationResult, IDxcValidator, IDxcVersionInfo,
    Interface, CP_BINARY, CP_UTF8, DXC_VALIDATOR_FLAGS_IN_PLACE_EDIT, IID,
    IID_IDXC_COMPILER2, IID_IDXC_INCLUDE_HANDLER, IID_IDXC_LIBRARY, IID_IDXC_VALIDATOR,
};
use crate::os::{Platform, HRESULT, WCHAR};
use crate::unknown::{
    bad_pointer, failed, get_interface, interface_got, invalid_argument, no_interface,
    spec_bad_pointer, spec_invalid_argument, spec_no_interface, IDxcUnknownShim,
    QueryInterface, ShimHosted, ShimObject,
};
use crate::utils::{
    from_utf8, from_wide, to_wide, utf8_text, wide_string, wide_text, HassleError,
};

verus! {

/// What a status and a value amount to: the value, unless the status
/// reports a failure.
pub open spec fn status_result<T>(hr: HRESULT, value: T) -> Result<T, HRESULT> {
    if hr.failed() {
        Err(hr)
    } else {
        Ok(value)
    }
}

/// What a status and the place for a handle amount to: the handle, unless
/// the status reports a failure (then the place is not looked at) or the
/// place is empty (a bad pointer).
pub open spec fn handle_result<T>(hr: HRESULT, slot: Option<T>) -> Result<T, HRESULT> {
    if hr.failed() {
        Err(hr)
    } else {
        match slot {
            Some(handle) => Ok(handle),
            None => Err(spec_bad_pointer()),
        }
    }
}

pub fn return_hr<T>(hr: HRESULT, value: T) -> (res: Result<T, HRESULT>)
    ensures
        res == status_result(hr, value),
{
    if !hr.is_err() {
        Ok(value)
    } else {
        Err(hr)
    }
}

pub fn return_hr_handle<T>(hr: HRESULT, slot: Option<T>) -> (res: Result<T, HRESULT>)
    ensures
        res == handle_result(hr, slot),
{
    if hr.is_err() {
        Err(hr)
    } else {
        match slot {
            Some(handle) => Ok(handle),
            None => Err(bad_pointer()),
        }
    }
}

/// What a byte string read as text comes to: its characters where it is
/// well-formed UTF-8, and an invalid argument where it is not.
pub open spec fn text_result(bytes: Seq<u8>, res: Result<String, HRESULT>) -> bool {
    match utf8_text(bytes) {
        Some(text) => res matches Ok(t) && t@ == text,
        None => res == Err::<String, HRESULT>(spec_invalid_argument()),
    }
}

pub fn return_text(bytes: &[u8]) -> (res: Result<String, HRESULT>)
    ensures
        text_result(bytes@, res),
{
    match from_utf8(bytes) {
        Some(text) => Ok(text),
        None => Err(invalid_argument()),
    }
}

/// A handle to a native buffer.
pub struct DxcBlob<B> {
    pub inner: B,
}

impl<B: IDxcBlob> DxcBlob<B> {
    pub fn new(inner: B) -> (blob: Self)
        ensures
            blob.inner == inner,
    {
        Self { inner }
    }

    /// A copy of the buffer's bytes.
    pub fn to_vec(&self) -> (bytes: Vec<u8>)
        ensures
            exists|buffer: &[u8]|
                call_ensures(B::get_buffer_pointer, (&self.inner,), buffer) && bytes@ == buffer@,
    {
        let buffer = self.inner.get_buffer_pointer();
        vstd::slice::slice_to_vec(buffer)
    }
}

/// A handle to a native buffer with an encoding tag.
pub struct DxcBlobEncoding<E> {
    pub inner: E,
}

impl<E: IDxcBlobEncoding> DxcBlobEncoding<E> {
    pub fn new(inner: E) -> (blob: Self)
        ensures
            blob.inner == inner,
    {
        Self { inner }
    }

    /// The same buffer as a plain blob, where the object exposes that
    /// interface.
    pub fn into<B: IDxcBlob>(self) -> (blob: Option<DxcBlob<B>>) where E: QueryInterface<B>
        ensures
            exists|face: Option<B>|
                #![trigger interface_got(self.inner, Interface::IDxcBlob, face)]
                interface_got(self.inner, Interface::IDxcBlob, face) && blob == match face {
                    Some(inner) => Some(DxcBlob { inner }),
                    None => None,
                },
    {
        match get_interface::<E, B>(&self.inner, Interface::IDxcBlob) {
            Some(inner) => Some(DxcBlob::new(inner)),
            None => None,
        }
    }
}

/// A handle to what a compiler-family operation handed back.
pub struct DxcOperationResult<R> {
    pub inner: R,
}

impl<R: IDxcOperationResult> DxcOperationResult<R> {
    pub fn new(inner: R) -> (result: Self)
        ensures
            result.inner == inner,
    {
        Self { inner }
    }

    /// The status of the operation that this object reports on.
    pub fn get_status(&self) -> (res: Result<u32, HRESULT>)
        ensures
            exists|answer: (HRESULT, u32)|
                call_ensures(R::get_status, (&self.inner,), answer) && res == status_result(
                    answer.0,
                    answer.1,
                ),
    {
        let (hr, status) = self.inner.get_status();
        return_hr(hr, status)
    }

    /// The output of the operation.
    pub fn get_result(&self) -> (res: Result<DxcBlob<R::Blob>, HRESULT>)
        ensures
            exists|answer: (HRESULT, Option<R::Blob>)|
                call_ensures(R::get_result, (&self.inner,), answer) && res == match handle_result(
                    answer.0,
                    answer.1,
                ) {
                    Ok(inner) => Ok(DxcBlob { inner }),
                    Err(hr) => Err(hr),
                },
    {
        let (hr, blob) = self.inner.get_result();
        match return_hr_handle(hr, blob) {
            Ok(inner) => Ok(DxcBlob::new(inner)),
            Err(hr) => Err(hr),
        }
    }

    /// The diagnostics of the operation.
    pub fn get_error_buffer(&self) -> (res: Result<DxcBlobEncoding<R::BlobEncoding>, HRESULT>)
        ensures
            exists|answer: (HRESULT, Option<R::BlobEncoding>)|
                call_ensures(R::get_error_buffer, (&self.inner,), answer) && res
                    == match handle_result(answer.0, answer.1) {
                    Ok(inner) => Ok(DxcBlobEncoding { inner }),
                    Err(hr) => Err(hr),
                },
    {
        let (hr, blob) = self.inner.get_error_buffer();
        match return_hr_handle(hr, blob) {
            Ok(inner) => Ok(DxcBlobEncoding::new(inner)),
            Err(hr) => Err(hr),
        }
    }
}

/// Whether `res` is what making a blob of `text` comes to: the UTF-8 bytes
/// of the text go to the native library, tagged as UTF-8, and its answer
/// is turned into a result.
pub open spec fn text_blob_made<L: IDxcLibrary>(
    library: DxcLibrary<L>,
    text: Seq<char>,
    res: Result<DxcBlobEncoding<L::BlobEncoding>, HRESULT>,
) -> bool {
    exists|bytes: &[u8], answer: (HRESULT, Option<L::BlobEncoding>)|
        #![trigger call_ensures(L::create_blob_with_encoding_from_pinned, (&library.inner, bytes, CP_UTF8), answer)]
        bytes@ == encode_utf8(text) && call_ensures(
            L::create_blob_with_encoding_from_pinned,
            (&library.inner, bytes, CP_UTF8),
            answer,
        ) && res == match handle_result(answer.0, answer.1) {
            Ok(inner) => Ok(DxcBlobEncoding { inner }),
            Err(hr) => Err(hr),
        }
}

/// A handle to the native blob utilities.
pub struct DxcLibrary<L> {
    pub inner: L,
}

impl<L: Clone> Clone for DxcLibrary<L> {
    /// Another handle to the same library: a clone of the handle inside.
    fn clone(&self) -> (library: Self)
        ensures
            cloned::<L>(self.inner, library.inner),
    {
        DxcLibrary { inner: self.inner.clone() }
    }
}

impl<L: IDxcLibrary> DxcLibrary<L> {
    pub fn new(inner: L) -> (library: Self)
        ensures
            library.inner == inner,
    {
        Self { inner }
    }

    /// A blob over raw bytes: the bytes go to the native library as they
    /// are, tagged as binary.
    pub fn create_blob_with_encoding(&self, data: &[u8]) -> (res: Result<
        DxcBlobEncoding<L::BlobEncoding>,
        HRESULT,
    >)
        ensures
            exists|answer: (HRESULT, Option<L::BlobEncoding>)|
                call_ensures(
                    L::create_blob_with_encoding_from_pinned,
                    (&self.inner, data, CP_BINARY),
                    answer,
                ) && res == match handle_result(answer.0, answer.1) {
                    Ok(inner) => Ok(DxcBlobEncoding { inner }),
                    Err(hr) => Err(hr),
                },
    {
        let (hr, blob) = self.inner.create_blob_with_encoding_from_pinned(data, CP_BINARY);
        match return_hr_handle(hr, blob) {
            Ok(inner) => Ok(DxcBlobEncoding::new(inner)),
            Err(hr) => Err(hr),
        }
    }

    /// A blob over text: the UTF-8 bytes of the text go to the native
    /// library, tagged as UTF-8.
    pub fn create_blob_with_encoding_from_str(&self, text: &str) -> (res: Result<
        DxcBlobEncoding<L::BlobEncoding>,
        HRESULT,
    >)
        ensures
            text_blob_made(*self, text@, res),
    {
        let bytes = text.as_bytes();
        let (hr, blob) = self.inner.create_blob_with_encoding_from_pinned(bytes, CP_UTF8);
        match return_hr_handle(hr, blob) {
            Ok(inner) => Ok(DxcBlobEncoding::new(inner)),
            Err(hr) => Err(hr),
        }
    }

    /// The text of a blob: the native library converts the blob to UTF-8,
    /// and the bytes of the converted blob are read as text. Bytes that
    /// are no well-formed UTF-8 are an invalid argument.
    pub fn get_blob_as_string(&self, blob: &DxcBlobEncoding<L::BlobEncoding>) -> (res: Result<
        String,
        HRESULT,
    >)
        ensures
            exists|answer: (HRESULT, Option<L::BlobEncoding>)|
                call_ensures(L::get_blob_as_utf8, (&self.inner, &blob.inner), answer)
                    && match handle_result(answer.0, answer.1) {
                    Ok(converted) => exists|buffer: &[u8]|
                        call_ensures(
                            <L::BlobEncoding as IDxcBlob>::get_buffer_pointer,
                            (&converted,),
                            buffer,
                        ) && text_result(buffer@, res),
                    Err(hr) => res == Err::<String, HRESULT>(hr),
                },
    {
        let (hr, blob_utf8) = self.inner.get_blob_as_utf8(&blob.inner);
        match return_hr_handle(hr, blob_utf8) {
            Ok(converted) => return_text(converted.get_buffer_pointer()),
            Err(hr) => Err(hr),
        }
    }
}

/// The callback that a caller supplies to resolve the files a source
/// names: from a file name to the file's text, if there is such a file.
pub trait DxcIncludeHandler {
    fn load_source(&self, filename: String) -> Option<String>;
}

/// The status of a file that was not found.
pub open spec fn spec_file_not_found() -> HRESULT {
    HRESULT(-2_147_024_894i32)
}

#[verifier::when_used_as_spec(spec_file_not_found)]
pub fn file_not_found() -> (status: HRESULT)
    ensures
        status == spec_file_not_found(),
{
    HRESULT(-2_147_024_894)
}

/// The bridge between a caller's callback and the native compiler. The
/// compiler may keep using a blob after the call that produced it has
/// returned, so the bridge keeps every blob it has handed out, and the text
/// behind it, for as long as it lives.
pub struct DxcIncludeHandlerWrapper<H, L: IDxcLibrary> {
    handler: H,
    retained: Vec<(DxcBlobEncoding<L::BlobEncoding>, String)>,
    library: DxcLibrary<L>,
    shim: ShimObject,
    platform: Platform,
}

impl<H: DxcIncludeHandler, L: IDxcLibrary + Clone> DxcIncludeHandlerWrapper<H, L> {
    /// The caller's callback.
    pub closed spec fn handler(&self) -> H {
        self.handler
    }

    /// The texts that the bridge keeps alive, oldest first.
    pub closed spec fn pinned(&self) -> Seq<Seq<char>> {
        Seq::new(self.retained@.len(), |i: int| self.retained@[i].1@)
    }

    /// The blobs that the bridge keeps alive, oldest first: one for each
    /// text.
    pub closed spec fn blobs(&self) -> Seq<DxcBlobEncoding<L::BlobEncoding>> {
        Seq::new(self.retained@.len(), |i: int| self.retained@[i].0)
    }

    /// The library that makes the blobs.
    pub closed spec fn library(&self) -> DxcLibrary<L> {
        self.library
    }

    /// The platform whose wide strings the bridge reads.
    pub closed spec fn platform(&self) -> Platform {
        self.platform
    }

    /// The number of handles that keep the bridge alive.
    pub closed spec fn spec_reference_count(&self) -> nat {
        self.shim.spec_reference_count()
    }

    /// The interface under which the bridge answers the native side.
    pub closed spec fn interface(&self) -> Interface {
        self.shim.interface()
    }

    /// A bridge that has just been made for `handler`: it keeps nothing
    /// yet, one handle holds it, and it makes its blobs with a handle of
    /// its own to `library`.
    pub open spec fn fresh(&self, library: DxcLibrary<L>, handler: H, platform: Platform) -> bool {
        &&& cloned::<L>(library.inner, self.library().inner)
        &&& self.handler() == handler
        &&& self.platform() == platform
        &&& self.interface() == Interface::IDxcIncludeHandler
        &&& self.pinned().len() == 0
        &&& self.blobs().len() == 0
        &&& self.spec_reference_count() == 1
    }

    /// Whether the two bridges serve the same callback in the same way.
    pub open spec fn same_object(&self, other: &Self) -> bool {
        &&& self.handler() == other.handler()
        &&& self.library() == other.library()
        &&& self.platform() == other.platform()
        &&& self.interface() == other.interface()
    }

    /// Whether the two bridges differ in nothing but what they keep alive.
    pub open spec fn same_bridge(&self, other: &Self) -> bool {
        &&& self.same_object(other)
        &&& self.spec_reference_count() == other.spec_reference_count()
    }

    /// Whether a call through one of the base slots is in order: the
    /// bridge is alive and can take one more reference.
    pub open spec fn usable(&self) -> bool {
        0 < self.spec_reference_count() < u32::MAX
    }

    /// Whether the two bridges keep the same texts and blobs alive.
    pub open spec fn same_retained(&self, other: &Self) -> bool {
        &&& self.pinned() == other.pinned()
        &&& self.blobs() == other.blobs()
    }

    pub fn create_include_handler(
        library: &DxcLibrary<L>,
        include_handler: H,
        platform: Platform,
    ) -> (bridge: Self)
        ensures
            bridge.fresh(*library, include_handler, platform),
    {
        Self {
            handler: include_handler,
            retained: Vec::new(),
            library: library.clone(),
            shim: ShimObject::new(Interface::IDxcIncludeHandler),
            platform,
        }
    }

    pub fn reference_count(&self) -> (count: u32)
        ensures
            count == self.spec_reference_count(),
    {
        self.shim.reference_count()
    }

    /// The number of texts, and of blobs, that the bridge keeps alive.
    pub fn retained_count(&self) -> (count: usize)
        ensures
            count == self.pinned().len(),
            count == self.blobs().len(),
    {
        self.retained.len()
    }

    /// The text that the bridge keeps alive at position `index`, if it
    /// keeps that many.
    pub fn retained_text(&self, index: usize) -> (text: Option<&String>)
        ensures
            index < self.pinned().len() ==> (text matches Some(t) && t@ == self.pinned()[index as int]),
            index >= self.pinned().len() ==> text is None,
    {
        if index < self.retained.len() {
            Some(&self.retained[index].1)
        } else {
            None
        }
    }

    /// The blob that the bridge keeps alive at position `index`, if it
    /// keeps that many.
    pub fn retained_blob(&self, index: usize) -> (blob: Option<&DxcBlobEncoding<L::BlobEncoding>>)
        ensures
            index < self.blobs().len() ==> blob == Some(&self.blobs()[index as int]),
            index >= self.blobs().len() ==> blob is None,
    {
        if index < self.retained.len() {
            Some(&self.retained[index].0)
        } else {
            None
        }
    }

    /// Whether an interface query for `riid` finds an interface on the
    /// bridge: its own or one that its own inherits from.
    pub open spec fn exposes(&self, riid: IID) -> bool {
        self.interface().inherits(riid)
    }

    /// The safe interface query. Where the bridge is alive and exposes
    /// `riid`, the caller holds one more reference to it, under the
    /// interface named in the answer.
    pub fn get_interface(&mut self, riid: &IID) -> (face: Option<Interface>)
        ensures
            face == if old(self).usable() && old(self).exposes(*riid) {
                Some(old(self).interface())
            } else {
                None
            },
            final(self).spec_reference_count() == old(self).spec_reference_count() + (if face
                is Some {
                1nat
            } else {
                0nat
            }),
            final(self).same_object(old(self)),
            final(self).same_retained(old(self)),
    {
        if !self.shim.usable() {
            return None;
        }
        let status = self.shim.query_interface(riid, true);
        if failed(status) {
            None
        } else {
            Some(self.shim.interface_of())
        }
    }

    /// Keeps a loaded text and its blob alive, and answers the compiler
    /// with success and the blob's plain face.
    pub fn retain(
        &mut self,
        source: String,
        blob: DxcBlobEncoding<L::BlobEncoding>,
        face: Option<L::Blob>,
    ) -> (answer: (HRESULT, Option<L::Blob>))
        ensures
            answer == (HRESULT(0), face),
            final(self).pinned() == old(self).pinned().push(source@),
            final(self).blobs() == old(self).blobs().push(blob),
            final(self).same_bridge(old(self)),
    {
        self.retained.push((blob, source));
        (HRESULT(0), face)
    }
}

impl<H: DxcIncludeHandler, L: IDxcLibrary + Clone> IDxcUnknownShim for DxcIncludeHandlerWrapper<
    H,
    L,
> {
    fn complete_object_destructor(&self) -> (status: HRESULT)
        ensures
            status == HRESULT(0),
    {
        HRESULT(0)
    }

    fn deleting_destructor(&self) -> (status: HRESULT)
        ensures
            status == HRESULT(0),
    {
        HRESULT(0)
    }
}

impl<H: DxcIncludeHandler, L: IDxcLibrary + Clone> ShimHosted for DxcIncludeHandlerWrapper<H, L> {
    fn query_interface(&mut self, riid: &IID, has_slot: bool) -> (status: Option<HRESULT>)
        ensures
            final(self).same_object(old(self)),
            final(self).same_retained(old(self)),
            status == if old(self).usable() {
                Some(
                    if !has_slot {
                        spec_bad_pointer()
                    } else if old(self).exposes(*riid) {
                        HRESULT(0)
                    } else {
                        spec_no_interface()
                    },
                )
            } else {
                None
            },
            final(self).spec_reference_count() == old(self).spec_reference_count() + (if status
                == Some(HRESULT(0)) {
                1nat
            } else {
                0nat
            }),
    {
        if self.shim.usable() {
            Some(self.shim.query_interface(riid, has_slot))
        } else {
            None
        }
    }

    fn add_ref(&mut self) -> (count: Option<u32>)
        ensures
            final(self).same_object(old(self)),
            final(self).same_retained(old(self)),
            old(self).usable() ==> count == Some((old(self).spec_reference_count() + 1) as u32)
                && final(self).spec_reference_count() == old(self).spec_reference_count() + 1,
            !old(self).usable() ==> count is None && final(self).spec_reference_count() == old(self).spec_reference_count(),
    {
        if self.shim.usable() {
            Some(self.shim.add_ref())
        } else {
            None
        }
    }

    fn release(&mut self) -> (count: Option<u32>)
        ensures
            final(self).same_object(old(self)),
            final(self).same_retained(old(self)),
            old(self).spec_reference_count() > 0 ==> count == Some(
                (old(self).spec_reference_count() - 1) as u32,
            ) && final(self).spec_reference_count() == old(self).spec_reference_count() - 1,
            old(self).spec_reference_count() == 0 ==> count is None && final(self).spec_reference_count() == 0,
    {
        if self.shim.reference_count() > 0 {
            Some(self.shim.release())
        } else {
            None
        }
    }
}

impl<H: DxcIncludeHandler, L: IDxcLibrary + Clone> IDxcIncludeHandler for DxcIncludeHandlerWrapper<
    H,
    L,
> where L::BlobEncoding: QueryInterface<L::Blob> {
    type Blob = L::Blob;

    /// Asks the caller's callback for the text of `filename`. Without a
    /// text the answer is "file not found" and nothing is kept. With a text
    /// the library makes a blob of it; the text and the blob are kept, and
    /// the answer is success with the blob's plain face. Where the library
    /// makes no blob, its failure is the answer and nothing is kept.
    fn load_source(&mut self, filename: &[WCHAR]) -> (answer: (HRESULT, Option<L::Blob>))
        ensures
            final(self).same_bridge(old(self)),
            exists|name: String, loaded: Option<String>|
                #![trigger call_ensures(H::load_source, (&old(self).handler(), name), loaded)]
                name@ == wide_text(old(self).platform(), filename@) && call_ensures(
                    H::load_source,
                    (&old(self).handler(), name),
                    loaded,
                ) && match loaded {
                    Some(source) => exists|made: Result<DxcBlobEncoding<L::BlobEncoding>, HRESULT>|
                        #![trigger text_blob_made(old(self).library(), source@, made)]
                        text_blob_made(old(self).library(), source@, made) && match made {
                            Ok(blob) => {
                                &&& final(self).pinned() == old(self).pinned().push(source@)
                                &&& final(self).blobs() == old(self).blobs().push(blob)
                                &&& answer.0 == HRESULT(0)
                                &&& interface_got(blob.inner, Interface::IDxcBlob, answer.1)
                            },
                            Err(hr) => answer == (hr, None::<L::Blob>) && final(self).same_retained(
                                old(self),
                            ),
                        },
                    None => answer == (spec_file_not_found(), None::<L::Blob>) && final(self).same_retained(old(self)),
                },
    {
        let name = from_wide(filename, self.platform);
        let ghost asked = name;
        let source = self.handler.load_source(name);
        assert(call_ensures(H::load_source, (&old(self).handler(), asked), source));
        match source {
            Some(source) => {
                let made = self.library.create_blob_with_encoding_from_str(source.as_str());
                assert(text_blob_made(old(self).library(), source@, made));
                match made {
                    Ok(blob) => {
                        let face = get_interface::<L::BlobEncoding, L::Blob>(
                            &blob.inner,
                            Interface::IDxcBlob,
                        );
                        self.retain(source, blob, face)
                    },
                    Err(hr) => (hr, None),
                }
            },
            None => (file_not_found(), None),
        }
    }
}

/// What a compiler-family operation comes to: the operation result where
/// it succeeded, and otherwise the operation result, as far as there is
/// one, with the status of the call.
pub type Outcome<R> = Result<DxcOperationResult<R>, (Option<DxcOperationResult<R>>, HRESULT)>;

/// Whether a compiler-family operation succeeded: the call must not have
/// failed, and the operation result must report the status zero. The two
/// are independent: the call can succeed while the operation result holds
/// an error.
pub open spec fn operation_succeeded(result_hr: HRESULT, status: u32) -> bool {
    !result_hr.failed() && status == 0
}

/// What a call's status, the operation result that it gave, and the
/// status which that result reports come to.
pub open spec fn spec_operation_outcome<R>(result_hr: HRESULT, result: R, status: u32) -> Outcome<
    R,
> {
    if operation_succeeded(result_hr, status) {
        Ok(DxcOperationResult { inner: result })
    } else {
        Err((Some(DxcOperationResult { inner: result }), result_hr))
    }
}

/// What a call that gave no operation result comes to: a failure with
/// the call's status, or with "bad pointer" where the call reported
/// success.
pub open spec fn spec_missing_outcome<R>(result_hr: HRESULT) -> Outcome<R> {
    Err(
        (
            None,
            if result_hr.failed() {
                result_hr
            } else {
                spec_bad_pointer()
            },
        ),
    )
}

pub fn operation_outcome<R>(result_hr: HRESULT, result: R, status: u32) -> (res: Outcome<R>)
    ensures
        res == spec_operation_outcome(result_hr, result, status),
{
    if !result_hr.is_err() && status == 0 {
        Ok(DxcOperationResult { inner: result })
    } else {
        Err((Some(DxcOperationResult { inner: result }), result_hr))
    }
}

pub fn missing_outcome<R>(result_hr: HRESULT) -> (res: Outcome<R>)
    ensures
        res == spec_missing_outcome::<R>(result_hr),
{
    if result_hr.is_err() {
        Err((None, result_hr))
    } else {
        Err((None, bad_pointer()))
    }
}

/// Whether `res` is what the answer of a compiler-family call comes to,
/// given what the operation result says of its own status. The status of
/// the status query itself is not looked at.
pub open spec fn judged<R: IDxcOperationResult>(
    result_hr: HRESULT,
    result: Option<R>,
    res: Outcome<R>,
) -> bool {
    match result {
        Some(result) => exists|status: (HRESULT, u32)|
            call_ensures(R::get_status, (&result,), status) && res == spec_operation_outcome(
                result_hr,
                result,
                status.1,
            ),
        None => res == spec_missing_outcome::<R>(result_hr),
    }
}

/// Asks the operation result for its status and judges the call by both.
pub fn judge<R: IDxcOperationResult>(result_hr: HRESULT, result: Option<R>) -> (res: Outcome<R>)
    ensures
        judged(result_hr, result, res),
{
    match result {
        Some(result) => {
            let (_, operation_status) = result.get_status();
            operation_outcome(result_hr, result, operation_status)
        },
        None => missing_outcome(result_hr),
    }
}

/// Whether `wide` holds the native forms of `args`, one for one.
pub open spec fn wide_arguments(platform: Platform, args: Seq<&str>, wide: Seq<Vec<WCHAR>>) -> bool {
    &&& wide.len() == args.len()
    &&& forall|i: int|
        0 <= i < args.len() ==> (#[trigger] wide[i])@ == wide_string(platform, args[i]@)
}

/// The value of a definition: the given one, or `1` where none is given.
pub open spec fn define_value(value: Option<&str>) -> Seq<char> {
    match value {
        Some(text) => text@,
        None => seq!['1'],
    }
}

/// Whether `wide` holds the native forms of `defines`, one for one.
pub open spec fn wide_definitions(
    platform: Platform,
    defines: Seq<(&str, Option<&str>)>,
    wide: Seq<DxcDefine>,
) -> bool {
    &&& wide.len() == defines.len()
    &&& forall|i: int|
        0 <= i < defines.len() ==> (#[trigger] wide[i]).name@ == wide_string(
            platform,
            defines[i].0@,
        ) && wide[i].value@ == wide_string(platform, define_value(defines[i].1))
}

/// Whether `bridge` is what the compiler is handed for the caller's
/// callback: a fresh bridge around it, or nothing where there is none.
pub open spec fn bridged<H: DxcIncludeHandler, L: IDxcLibrary + Clone>(
    bridge: Option<DxcIncludeHandlerWrapper<H, L>>,
    library: DxcLibrary<L>,
    include_handler: Option<H>,
    platform: Platform,
) -> bool {
    match include_handler {
        Some(handler) => bridge matches Some(b) && b.fresh(library, handler, platform),
        None => bridge is None,
    }
}

/// What `compile_with_debug` comes to, given the outcome of the
/// compilation proper: on success the debug blob and its name come with
/// the operation result, and a missing debug blob is a bad pointer.
pub open spec fn debug_outcome<R, B>(
    platform: Platform,
    outcome: Outcome<R>,
    name: Seq<WCHAR>,
    debug_blob: Option<B>,
    res: Result<
        (DxcOperationResult<R>, String, DxcBlob<B>),
        (Option<DxcOperationResult<R>>, HRESULT),
    >,
) -> bool {
    match outcome {
        Ok(result) => match debug_blob {
            Some(inner) => res matches Ok((r, n, b)) && r == result && n@ == wide_text(
                platform,
                name,
            ) && b == (DxcBlob { inner }),
            None => res matches Err((r, hr)) && r == Some(result) && hr == spec_bad_pointer(),
        },
        Err(failure) => res matches Err(f) && f == failure,
    }
}

/// A handle to the native compiler, with the library that serves its
/// callback bridge.
pub struct DxcCompiler<C, L> {
    pub inner: C,
    pub library: DxcLibrary<L>,
    pub platform: Platform,
}

impl<
    C: IDxcCompiler2,
    L: IDxcLibrary<Blob = C::Blob, BlobEncoding = C::BlobEncoding> + Clone,
> DxcCompiler<C, L> where L::BlobEncoding: QueryInterface<L::Blob> {
    pub fn new(inner: C, library: DxcLibrary<L>, platform: Platform) -> (compiler: Self)
        ensures
            compiler.inner == inner,
            compiler.library == library,
            compiler.platform == platform,
    {
        Self { inner, library, platform }
    }

    /// Appends the native form of each definition; a definition without
    /// a value gets the value `1`.
    pub fn prep_defines(
        defines: &[(&str, Option<&str>)],
        dxc_defines: &mut Vec<DxcDefine>,
        platform: Platform,
    )
        ensures
            final(dxc_defines)@.take(old(dxc_defines)@.len() as int) == old(dxc_defines)@,
            wide_definitions(
                platform,
                defines@,
                final(dxc_defines)@.skip(old(dxc_defines)@.len() as int),
            ),
    {
        let ghost before = dxc_defines@;
        let mut i: usize = 0;
        while i < defines.len()
            invariant
                i <= defines@.len(),
                dxc_defines@.len() == before.len() + i,
                dxc_defines@.take(before.len() as int) == before,
                forall|j: int|
                    0 <= j < i ==> (#[trigger] dxc_defines@[before.len() + j]).name@
                        == wide_string(platform, defines@[j].0@) && dxc_defines@[before.len()
                        + j].value@ == wide_string(platform, define_value(defines@[j].1)),
            decreases defines@.len() - i,
        {
            let (name, value) = defines[i];
            let wide_value = match value {
                Some(text) => to_wide(text, platform),
                None => {
                    proof {
                        reveal_strlit("1");
                        assert("1"@ =~= seq!['1']);
                    }
                    to_wide("1", platform)
                },
            };
            dxc_defines.push(DxcDefine { name: to_wide(name, platform), value: wide_value });
            i += 1;
        }
        proof {
            let tail = dxc_defines@.skip(before.len() as int);
            assert forall|j: int| 0 <= j < defines@.len() implies (#[trigger] tail[j]).name@
                == wide_string(platform, defines@[j].0@) && tail[j].value@ == wide_string(
                platform,
                define_value(defines@[j].1),
            ) by {
                assert(tail[j] == dxc_defines@[before.len() + j]);
            }
        }
    }

    /// Appends the native form of each argument.
    pub fn prep_args(args: &[&str], wide_args: &mut Vec<Vec<WCHAR>>, platform: Platform)
        ensures
            final(wide_args)@.take(old(wide_args)@.len() as int) == old(wide_args)@,
            wide_arguments(platform, args@, final(wide_args)@.skip(old(wide_args)@.len() as int)),
    {
        let ghost before = wide_args@;
        let mut i: usize = 0;
        while i < args.len()
            invariant
                i <= args@.len(),
                wide_args@.len() == before.len() + i,
                wide_args@.take(before.len() as int) == before,
                forall|j: int|
                    0 <= j < i ==> (#[trigger] wide_args@[before.len() + j])@ == wide_string(
                        platform,
                        args@[j]@,
                    ),
            decreases args@.len() - i,
        {
            wide_args.push(to_wide(args[i], platform));
            i += 1;
        }
        proof {
            let tail = wide_args@.skip(before.len() as int);
            assert forall|j: int| 0 <= j < args@.len() implies (#[trigger] tail[j])@
                == wide_string(platform, args@[j]@) by {
                assert(tail[j] == wide_args@[before.len() + j]);
            }
        }
    }

    /// The bridge that the compiler is handed for the caller's callback.
    /// The bridge is made with one reference; the interface query for the
    /// handler interface, which cannot fail, takes a second, and the first
    /// is given back, so that the compiler's handle is the only one.
    pub fn prep_include_handler<H: DxcIncludeHandler>(
        library: &DxcLibrary<L>,
        include_handler: Option<H>,
        platform: Platform,
    ) -> (bridge: Option<DxcIncludeHandlerWrapper<H, L>>)
        ensures
            bridged(bridge, *library, include_handler, platform),
    {
        match include_handler {
            Some(include_handler) => {
                let mut bridge = DxcIncludeHandlerWrapper::create_include_handler(
                    library,
                    include_handler,
                    platform,
                );
                let _ = bridge.get_interface(&IID_IDXC_INCLUDE_HANDLER);
                let _ = bridge.release();
                Some(bridge)
            },
            None => None,
        }
    }

    /// Compiles `blob`. The texts go to the compiler in native form, the
    /// caller's callback behind a bridge. The call succeeded only if both
    /// its own status and the status in the operation result say so.
    pub fn compile<H: DxcIncludeHandler>(
        &self,
        blob: &DxcBlobEncoding<C::BlobEncoding>,
        source_name: &str,
        entry_point: &str,
        target_profile: &str,
        args: &[&str],
        include_handler: Option<H>,
        defines: &[(&str, Option<&str>)],
    ) -> (res: Outcome<C::OperationResult>)
        ensures
            exists|
                source: &[WCHAR],
                entry: &[WCHAR],
                profile: &[WCHAR],
                arguments: &[Vec<WCHAR>],
                definitions: &[DxcDefine],
                bridge: Option<DxcIncludeHandlerWrapper<H, L>>,
                answer: (HRESULT, Option<C::OperationResult>),
            |
                #![trigger call_ensures(C::compile::<DxcIncludeHandlerWrapper<H, L>>, (&self.inner, &blob.inner, source, entry, profile, arguments, definitions, bridge), answer)]
                {
                    &&& source@ == wide_string(self.platform, source_name@)
                    &&& entry@ == wide_string(self.platform, entry_point@)
                    &&& profile@ == wide_string(self.platform, target_profile@)
                    &&& wide_arguments(self.platform, args@, arguments@)
                    &&& wide_definitions(self.platform, defines@, definitions@)
                    &&& bridged(bridge, self.library, include_handler, self.platform)
                    &&& call_ensures(
                        C::compile::<DxcIncludeHandlerWrapper<H, L>>,
                        (
                            &self.inner,
                            &blob.inner,
                            source,
                            entry,
                            profile,
                            arguments,
                            definitions,
                            bridge,
                        ),
                        answer,
                    )
                    &&& judged(answer.0, answer.1, res)
                },
    {
        let mut wide_args: Vec<Vec<WCHAR>> = Vec::new();
        Self::prep_args(args, &mut wide_args, self.platform);
        let mut dxc_defines: Vec<DxcDefine> = Vec::new();
        Self::prep_defines(defines, &mut dxc_defines, self.platform);
        let handler_wrapper = Self::prep_include_handler(
            &self.library,
            include_handler,
            self.platform,
        );
        let source = to_wide(source_name, self.platform);
        let entry = to_wide(entry_point, self.platform);
        let profile = to_wide(target_profile, self.platform);
        assert(wide_args@.skip(0) =~= wide_args@);
        assert(dxc_defines@.skip(0) =~= dxc_defines@);
        let (result_hr, result) = self.inner.compile(
            &blob.inner,
            source.as_slice(),
            entry.as_slice(),
            profile.as_slice(),
            wide_args.as_slice(),
            dxc_defines.as_slice(),
            handler_wrapper,
        );
        judge(result_hr, result)
    }

    /// Compiles `blob` and asks for the debug information as well: on
    /// success the operation result comes with the suggested name of the
    /// debug blob and the debug blob itself.
    pub fn compile_with_debug<H: DxcIncludeHandler>(
        &self,
        blob: &DxcBlobEncoding<C::BlobEncoding>,
        source_name: &str,
        entry_point: &str,
        target_profile: &str,
        args: &[&str],
        include_handler: Option<H>,
        defines: &[(&str, Option<&str>)],
    ) -> (res: Result<
        (DxcOperationResult<C::OperationResult>, String, DxcBlob<C::Blob>),
        (Option<DxcOperationResult<C::OperationResult>>, HRESULT),
    >)
        ensures
            exists|
                source: &[WCHAR],
                entry: &[WCHAR],
                profile: &[WCHAR],
                arguments: &[Vec<WCHAR>],
                definitions: &[DxcDefine],
                bridge: Option<DxcIncludeHandlerWrapper<H, L>>,
                answer: DebugCompilation<C::OperationResult, C::Blob>,
            |
                #![trigger call_ensures(C::compile_with_debug::<DxcIncludeHandlerWrapper<H, L>>, (&self.inner, &blob.inner, source, entry, profile, arguments, definitions, bridge), answer)]
                {
                    &&& source@ == wide_string(self.platform, source_name@)
                    &&& entry@ == wide_string(self.platform, entry_point@)
                    &&& profile@ == wide_string(self.platform, target_profile@)
                    &&& wide_arguments(self.platform, args@, arguments@)
                    &&& wide_definitions(self.platform, defines@, definitions@)
                    &&& bridged(bridge, self.library, include_handler, self.platform)
                    &&& call_ensures(
                        C::compile_with_debug::<DxcIncludeHandlerWrapper<H, L>>,
                        (
                            &self.inner,
                            &blob.inner,
                            source,
                            entry,
                            profile,
                            arguments,
                            definitions,
                            bridge,
                        ),
                        answer,
                    )
                    &&& exists|outcome: Outcome<C::OperationResult>|
                        #![trigger judged(answer.status, answer.result, outcome)]
                        judged(answer.status, answer.result, outcome) && debug_outcome(
                            self.platform,
                            outcome,
                            answer.debug_blob_name@,
                            answer.debug_blob,
                            res,
                        )
                },
    {
        let mut wide_args: Vec<Vec<WCHAR>> = Vec::new();
        Self::prep_args(args, &mut wide_args, self.platform);
        let mut dxc_defines: Vec<DxcDefine> = Vec::new();
        Self::prep_defines(defines, &mut dxc_defines, self.platform);
        let handler_wrapper = Self::prep_include_handler(
            &self.library,
            include_handler,
            self.platform,
        );
        let source = to_wide(source_name, self.platform);
        let entry = to_wide(entry_point, self.platform);
        let profile = to_wide(target_profile, self.platform);
        assert(wide_args@.skip(0) =~= wide_args@);
        assert(dxc_defines@.skip(0) =~= dxc_defines@);
        let answer = self.inner.compile_with_debug(
            &blob.inner,
            source.as_slice(),
            entry.as_slice(),
            profile.as_slice(),
            wide_args.as_slice(),
            dxc_defines.as_slice(),
            handler_wrapper,
        );
        let DebugCompilation { status, result, debug_blob_name, debug_blob } = answer;
        let outcome = judge(status, result);
        match outcome {
            Ok(result) => match debug_blob {
                Some(debug_blob) => Ok(
                    (
                        result,
                        from_wide(debug_blob_name.as_slice(), self.platform),
                        DxcBlob::new(debug_blob),
                    ),
                ),
                None => Err((Some(result), bad_pointer())),
            },
            Err(failure) => Err(failure),
        }
    }

    /// Runs the preprocessor over `blob`.
    pub fn preprocess<H: DxcIncludeHandler>(
        &self,
        blob: &DxcBlobEncoding<C::BlobEncoding>,
        source_name: &str,
        args: &[&str],
        include_handler: Option<H>,
        defines: &[(&str, Option<&str>)],
    ) -> (res: Outcome<C::OperationResult>)
        ensures
            exists|
                source: &[WCHAR],
                arguments: &[Vec<WCHAR>],
                definitions: &[DxcDefine],
                bridge: Option<DxcIncludeHandlerWrapper<H, L>>,
                answer: (HRESULT, Option<C::OperationResult>),
            |
                #![trigger call_ensures(C::preprocess::<DxcIncludeHandlerWrapper<H, L>>, (&self.inner, &blob.inner, source, arguments, definitions, bridge), answer)]
                {
                    &&& source@ == wide_string(self.platform, source_name@)
                    &&& wide_arguments(self.platform, args@, arguments@)
                    &&& wide_definitions(self.platform, defines@, definitions@)
                    &&& bridged(bridge, self.library, include_handler, self.platform)
                    &&& call_ensures(
                        C::preprocess::<DxcIncludeHandlerWrapper<H, L>>,
                        (&self.inner, &blob.inner, source, arguments, definitions, bridge),
                        answer,
                    )
                    &&& judged(answer.0, answer.1, res)
                },
    {
        let mut wide_args: Vec<Vec<WCHAR>> = Vec::new();
        Self::prep_args(args, &mut wide_args, self.platform);
        let mut dxc_defines: Vec<DxcDefine> = Vec::new();
        Self::prep_defines(defines, &mut dxc_defines, self.platform);
        let handler_wrapper = Self::prep_include_handler(
            &self.library,
            include_handler,
            self.platform,
        );
        let source = to_wide(source_name, self.platform);
        assert(wide_args@.skip(0) =~= wide_args@);
        assert(dxc_defines@.skip(0) =~= dxc_defines@);
        let (result_hr, result) = self.inner.preprocess(
            &blob.inner,
            source.as_slice(),
            wide_args.as_slice(),
            dxc_defines.as_slice(),
            handler_wrapper,
        );
        judge(result_hr, result)
    }

    /// The text form of a compiled blob.
    pub fn disassemble(&self, blob: &DxcBlob<C::Blob>) -> (res: Result<
        DxcBlobEncoding<C::BlobEncoding>,
        HRESULT,
    >)
        ensures
            exists|answer: (HRESULT, Option<C::BlobEncoding>)|
                call_ensures(C::disassemble, (&self.inner, &blob.inner), answer) && res
                    == match handle_result(answer.0, answer.1) {
                    Ok(inner) => Ok(DxcBlobEncoding { inner }),
                    Err(hr) => Err(hr),
                },
    {
        let (hr, result_blob) = self.inner.disassemble(&blob.inner);
        match return_hr_handle(hr, result_blob) {
            Ok(inner) => Ok(DxcBlobEncoding::new(inner)),
            Err(hr) => Err(hr),
        }
    }
}

/// A shared library that holds the native code. Loading maps the named
/// file into the process; the error is the loader's description of what
/// went wrong.
pub trait DxcModule: Sized {
    fn load(filename: &str) -> Result<Self, String>;
}

/// What the factory's answer comes to: the handle; the loader's failure
/// where the entry point could not be found; the status where the factory
/// failed or gave no handle.
pub open spec fn spec_return_hr_wrapped<T>(answer: Result<(HRESULT, Option<T>), String>) -> Result<
    T,
    HassleError,
> {
    match answer {
        Ok((hr, slot)) => match handle_result(hr, slot) {
            Ok(handle) => Ok(handle),
            Err(status) => Err(HassleError::Win32Error(status)),
        },
        Err(reason) => Err(HassleError::LibLoadingError(reason)),
    }
}

pub fn return_hr_wrapped<T>(answer: Result<(HRESULT, Option<T>), String>) -> (res: Result<
    T,
    HassleError,
>)
    ensures
        res == spec_return_hr_wrapped(answer),
{
    match answer {
        Ok((hr, slot)) => match return_hr_handle(hr, slot) {
            Ok(handle) => Ok(handle),
            Err(status) => Err(HassleError::Win32Error(status)),
        },
        Err(reason) => Err(HassleError::LibLoadingError(reason)),
    }
}

/// The file name of the compiler's shared library.
pub open spec fn spec_dxcompiler_lib_name(platform: Platform) -> Seq<char> {
    match platform {
        Platform::Windows => "dxcompiler.dll"@,
        Platform::Linux => "./libdxcompiler.so"@,
        Platform::MacOs => "./libdxcompiler.dynlib"@,
    }
}

pub fn dxcompiler_lib_name(platform: Platform) -> (name: &'static str)
    ensures
        name@ == spec_dxcompiler_lib_name(platform),
{
    match platform {
        Platform::Windows => "dxcompiler.dll",
        Platform::Linux => "./libdxcompiler.so",
        Platform::MacOs => "./libdxcompiler.dynlib",
    }
}

/// The factory gives an instance only together with a status that does not
/// report a failure; whatever handle comes with a failing status is not
/// used.
pub proof fn lemma_instance_only_on_success<T>(answer: Result<(HRESULT, Option<T>), String>)
    ensures
        spec_return_hr_wrapped(answer) matches Ok(handle) ==> (answer matches Ok((hr, slot))
            && !hr.failed() && slot == Some(handle)),
        answer matches Ok((hr, _)) ==> (hr.failed() ==> spec_return_hr_wrapped(answer) == Err::<
            T,
            HassleError,
        >(HassleError::Win32Error(hr))),
{
}

/// The compiler's shared library, loaded.
pub struct Dxc<M> {
    pub dxc_lib: M,
    pub platform: Platform,
}

impl<M: DxcModule> Dxc<M> {
    /// Loads the compiler's shared library under the name it has on
    /// `platform`.
    pub fn new(platform: Platform) -> (res: Result<Self, HassleError>)
        ensures
            exists|name: &str, answer: Result<M, String>|
                #![trigger call_ensures(M::load, (name,), answer)]
                name@ == spec_dxcompiler_lib_name(platform) && call_ensures(
                    M::load,
                    (name,),
                    answer,
                ) && match answer {
                    Ok(module) => res matches Ok(dxc) && dxc.dxc_lib == module && dxc.platform
                        == platform,
                    Err(reason) => res matches Err(
                        HassleError::LoadLibraryError { filename, inner },
                    ) && filename@ == spec_dxcompiler_lib_name(platform) && inner == reason,
                },
    {
        let lib_name = dxcompiler_lib_name(platform);
        match M::load(lib_name) {
            Ok(dxc_lib) => Ok(Self { dxc_lib, platform }),
            Err(inner) => Err(
                HassleError::LoadLibraryError { filename: lib_name.to_owned(), inner },
            ),
        }
    }

    /// Asks the module's factory for an instance of class `rclsid` under
    /// the interface `riid`.
    pub fn get_dxc_create_instance<T>(&self, rclsid: &IID, riid: &IID) -> (res: Result<
        T,
        HassleError,
    >) where M: DxcCreateInstanceProc<T>
        ensures
            exists|answer: Result<(HRESULT, Option<T>), String>|
                call_ensures(
                    <M as DxcCreateInstanceProc<T>>::create_instance,
                    (&self.dxc_lib, rclsid, riid),
                    answer,
                ) && res == spec_return_hr_wrapped(answer),
    {
        return_hr_wrapped(self.dxc_lib.create_instance(rclsid, riid))
    }

    /// A compiler, with a library of its own for its callback bridges.
    /// The library is made only once the compiler has been.
    pub fn create_compiler<
        C: IDxcCompiler2,
        L: IDxcLibrary<Blob = C::Blob, BlobEncoding = C::BlobEncoding> + Clone,
    >(&self) -> (res: Result<DxcCompiler<C, L>, HassleError>) where
        M: DxcCreateInstanceProc<C> + DxcCreateInstanceProc<L>,
        L::BlobEncoding: QueryInterface<L::Blob>,

        ensures
            exists|answer: Result<(HRESULT, Option<C>), String>|
                call_ensures(
                    <M as DxcCreateInstanceProc<C>>::create_instance,
                    (&self.dxc_lib, &CLSID_DxcCompiler, &IID_IDXC_COMPILER2),
                    answer,
                ) && match spec_return_hr_wrapped(answer) {
                    Ok(compiler) => exists|library_answer: Result<(HRESULT, Option<L>), String>|
                        call_ensures(
                            <M as DxcCreateInstanceProc<L>>::create_instance,
                            (&self.dxc_lib, &CLSID_DxcLibrary, &IID_IDXC_LIBRARY),
                            library_answer,
                        ) && res == match spec_return_hr_wrapped(library_answer) {
                            Ok(library) => Ok(
                                DxcCompiler {
                                    inner: compiler,
                                    library: DxcLibrary { inner: library },
                                    platform: self.platform,
                                },
                            ),
                            Err(failure) => Err(failure),
                        },
                    Err(failure) => res == Err::<DxcCompiler<C, L>, HassleError>(failure),
                },
    {
        match self.get_dxc_create_instance::<C>(&CLSID_DxcCompiler, &IID_IDXC_COMPILER2) {
            Ok(compiler) => match self.create_library::<L>() {
                Ok(library) => Ok(DxcCompiler::new(compiler, library, self.platform)),
                Err(failure) => Err(failure),
            },
            Err(failure) => Err(failure),
        }
    }

    /// A library of blob utilities.
    pub fn create_library<L: IDxcLibrary>(&self) -> (res: Result<
        DxcLibrary<L>,
        HassleError,
    >) where M: DxcCreateInstanceProc<L>
        ensures
            exists|answer: Result<(HRESULT, Option<L>), String>|
                call_ensures(
                    <M as DxcCreateInstanceProc<L>>::create_instance,
                    (&self.dxc_lib, &CLSID_DxcLibrary, &IID_IDXC_LIBRARY),
                    answer,
                ) && res == match spec_return_hr_wrapped(answer) {
                    Ok(inner) => Ok(DxcLibrary { inner }),
                    Err(failure) => Err(failure),
                },
    {
        match self.get_dxc_create_instance::<L>(&CLSID_DxcLibrary, &IID_IDXC_LIBRARY) {
            Ok(inner) => Ok(DxcLibrary::new(inner)),
            Err(failure) => Err(failure),
        }
    }
}

/// A handle to the native validator.
pub struct DxcValidator<V> {
    pub inner: V,
}

/// The major and the minor version of the validator.
pub type DxcValidatorVersion = (u32, u32);

impl<V: IDxcValidator> DxcValidator<V> {
    pub fn new(inner: V) -> (validator: Self)
        ensures
            validator.inner == inner,
    {
        Self { inner }
    }

    /// The validator's version, which it tells through its version
    /// interface; without that interface the answer is "no such
    /// interface".
    pub fn version<I: IDxcVersionInfo>(&self) -> (res: Result<
        DxcValidatorVersion,
        HRESULT,
    >) where V: QueryInterface<I>
        ensures
            exists|face: Option<I>|
                #![trigger interface_got(self.inner, Interface::IDxcVersionInfo, face)]
                interface_got(self.inner, Interface::IDxcVersionInfo, face) && match face {
                    Some(info) => exists|answer: (HRESULT, u32, u32)|
                        call_ensures(I::get_version, (&info,), answer) && res == status_result(
                            answer.0,
                            (answer.1, answer.2),
                        ),
                    None => res == Err::<DxcValidatorVersion, HRESULT>(spec_no_interface()),
                },
    {
        match get_interface::<V, I>(&self.inner, Interface::IDxcVersionInfo) {
            Some(version) => {
                let (hr, major, minor) = version.get_version();
                return_hr(hr, (major, minor))
            },
            None => Err(no_interface()),
        }
    }

    /// Validates `blob`, which the validator may edit in place, and hands
    /// it back where both the call and the operation result report success.
    pub fn validate(&self, blob: DxcBlob<V::Blob>) -> (res: Result<
        DxcBlob<V::Blob>,
        (Option<DxcOperationResult<V::OperationResult>>, HRESULT),
    >)
        ensures
            exists|answer: (HRESULT, Option<V::OperationResult>)|
                call_ensures(
                    V::validate,
                    (&self.inner, &blob.inner, DXC_VALIDATOR_FLAGS_IN_PLACE_EDIT),
                    answer,
                ) && exists|outcome: Outcome<V::OperationResult>|
                    #![trigger judged(answer.0, answer.1, outcome)]
                    judged(answer.0, answer.1, outcome) && res == match outcome {
                        Ok(_) => Ok(blob),
                        Err(failure) => Err(failure),
                    },
    {
        let (result_hr, result) = self.inner.validate(
            &blob.inner,
            DXC_VALIDATOR_FLAGS_IN_PLACE_EDIT,
        );
        match judge(result_hr, result) {
            Ok(_) => Ok(blob),
            Err(failure) => Err(failure),
        }
    }
}

/// The file name of the validator's shared library.
pub open spec fn spec_dxil_lib_name() -> Seq<char> {
    "dxil.dll"@
}

/// What a failure to use the validator's library off Windows says.
pub open spec fn spec_windows_only_message() -> Seq<char> {
    "DXIL Signing is only supported on windows at the moment"@
}

/// The validator's shared library, loaded. The library exists on Windows
/// only.
pub struct Dxil<M> {
    pub dxil_lib: M,
}

impl<M: DxcModule> Dxil<M> {
    /// Loads the validator's shared library. Off Windows this fails at
    /// once, as unsupported, and nothing is loaded. A load failure names
    /// the file that was asked for.
    pub fn new(platform: Platform) -> (res: Result<Self, HassleError>)
        ensures
            !platform.native_com() ==> (res matches Err(HassleError::WindowsOnly(message))
                && message@ == spec_windows_only_message()),
            platform.native_com() ==> exists|name: &str, answer: Result<M, String>|
                #![trigger call_ensures(M::load, (name,), answer)]
                name@ == spec_dxil_lib_name() && call_ensures(M::load, (name,), answer)
                    && match answer {
                    Ok(module) => res matches Ok(dxil) && dxil.dxil_lib == module,
                    Err(reason) => res matches Err(
                        HassleError::LoadLibraryError { filename, inner },
                    ) && filename@ == spec_dxil_lib_name() && inner == reason,
                },
    {
        if platform.is_windows() {
            let lib_name = "dxil.dll";
            match M::load(lib_name) {
                Ok(dxil_lib) => Ok(Self { dxil_lib }),
                Err(inner) => Err(
                    HassleError::LoadLibraryError { filename: lib_name.to_owned(), inner },
                ),
            }
        } else {
            Err(
                HassleError::WindowsOnly(
                    "DXIL Signing is only supported on windows at the moment".to_owned(),
                ),
            )
        }
    }

    /// Asks the module's factory for an instance of class `rclsid` under
    /// the interface `riid`.
    pub fn get_dxc_create_instance<T>(&self, rclsid: &IID, riid: &IID) -> (res: Result<
        T,
        HassleError,
    >) where M: DxcCreateInstanceProc<T>
        ensures
            exists|answer: Result<(HRESULT, Option<T>), String>|
                call_ensures(
                    <M as DxcCreateInstanceProc<T>>::create_instance,
                    (&self.dxil_lib, rclsid, riid),
                    answer,
                ) && res == spec_return_hr_wrapped(answer),
    {
        return_hr_wrapped(self.dxil_lib.create_instance(rclsid, riid))
    }

    /// A validator.
    pub fn create_validator<V: IDxcValidator>(&self) -> (res: Result<
        DxcValidator<V>,
        HassleError,
    >) where M: DxcCreateInstanceProc<V>
        ensures
            exists|answer: Result<(HRESULT, Option<V>), String>|
                call_ensures(
                    <M as DxcCreateInstanceProc<V>>::create_instance,
                    (&self.dxil_lib, &CLSID_DxcValidator, &IID_IDXC_VALIDATOR),
                    answer,
                ) && res == match spec_return_hr_wrapped(answer) {
                    Ok(inner) => Ok(DxcValidator { inner }),
                    Err(failure) => Err(failure),
                },
    {
        match self.get_dxc_create_instance::<V>(&CLSID_DxcValidator, &IID_IDXC_VALIDATOR) {
            Ok(inner) => Ok(DxcValidator::new(inner)),
            Err(failure) => Err(failure),
        }
    }
}

} // verus!
